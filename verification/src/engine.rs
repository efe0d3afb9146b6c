//! One iteration of the autoclick engine.
//!
//! The engine has two states and no memory: each iteration reads the clicker
//! settings and the macro flag afresh. It is clicking while the clicker is
//! enabled, no macro is running and the rate is above 0; otherwise it is
//! idle. A clicking iteration is one click and the gap after it, an idle one
//! a short wait before the next look.

use vstd::prelude::*;
use crate::config::{ClickerConfig, ClickerConfigView};
use crate::input::{click_steps, injects_nothing, perform_click, record, ClickMode, Step};
use crate::timing::{
    draw_jitter, humanized_gap, humanized_hold, humanized_timing, saturating_minus, steady_hold,
    steady_timing, target_interval, ClickTiming, JitterDraw,
};

verus! {

/// How long the idle engine waits before it looks again, in milliseconds.
pub const IDLE_WAIT_MS: u64 = 10;

/// The state of the engine in one iteration.
#[derive(Clone, Copy, Debug, PartialEq, Eq, Structural)]
pub enum EngineState {
    Idle,
    Clicking,
}

/// The state that the settings and the macro flag put the engine in.
pub open spec fn engine_state_of(clicker: ClickerConfigView, macro_active: bool) -> EngineState {
    if clicker.enabled && !macro_active && clicker.clicks_per_second > 0 {
        EngineState::Clicking
    } else {
        EngineState::Idle
    }
}

/// The hold and gap of one click under the given settings and draws: the
/// steady split, or the humanized one where humanization is on.
pub open spec fn timing_of(
    clicker: ClickerConfigView,
    base_hold: u64,
    hold_draw: JitterDraw,
    gap_draw: JitterDraw,
) -> (int, int)
    recommends
        clicker.clicks_per_second > 0,
{
    let target = target_interval(clicker.clicks_per_second as int);
    if clicker.humanization_enabled {
        let hold = humanized_hold(target, base_hold as int, clicker.randomness_ms as int, hold_draw);
        (hold, humanized_gap(target, hold, clicker.randomness_ms as int, gap_draw))
    } else {
        (steady_hold(target), saturating_minus(target, steady_hold(target)))
    }
}

/// The steps of a clicking iteration: the click, then the gap.
pub open spec fn clicking_steps(mode: ClickMode, timing: ClickTiming) -> Seq<Step> {
    click_steps(mode, timing.hold_ms).push(Step::Wait(timing.gap_ms))
}

/// The steps of one iteration: a wait of 10 ms while idle, else the click
/// with the given timing and its gap.
pub open spec fn iteration_steps(
    clicker: ClickerConfigView,
    macro_active: bool,
    timing: ClickTiming,
) -> Seq<Step> {
    match engine_state_of(clicker, macro_active) {
        EngineState::Idle => seq![Step::Wait(10)],
        EngineState::Clicking => clicking_steps(clicker.click_mode, timing),
    }
}

/// The state of the engine under the given settings and macro flag.
pub fn engine_state(clicker: &ClickerConfig, macro_active: bool) -> (state: EngineState)
    ensures
        state == engine_state_of(clicker@, macro_active),
{
    if clicker.enabled && !macro_active && clicker.clicks_per_second > 0 {
        EngineState::Clicking
    } else {
        EngineState::Idle
    }
}

/// The hold and gap of one click for given draws. `base_hold` is the hold
/// before jitter, scaled from the interval by the caller; it is read only
/// where humanization is on.
pub fn click_timing_with(
    clicker: &ClickerConfig,
    base_hold: u64,
    hold_draw: JitterDraw,
    gap_draw: JitterDraw,
) -> (timing: ClickTiming)
    requires
        clicker.clicks_per_second > 0,
    ensures
        (timing.hold_ms as int, timing.gap_ms as int) == timing_of(
            clicker@,
            base_hold,
            hold_draw,
            gap_draw,
        ),
{
    if clicker.humanization_enabled {
        humanized_timing(
            clicker.clicks_per_second,
            clicker.randomness_ms,
            base_hold,
            hold_draw,
            gap_draw,
        )
    } else {
        steady_timing(clicker.clicks_per_second)
    }
}

/// The hold and gap of one click with freshly drawn jitter: the timing of
/// [`click_timing_with`] for some pair of draws within the randomness of the
/// settings. Nothing is drawn unless humanization is on and the randomness
/// is above 0.
pub fn click_timing(clicker: &ClickerConfig, base_hold: u64) -> (timing: ClickTiming)
    requires
        clicker.clicks_per_second > 0,
    ensures
        exists|hold_draw: JitterDraw, gap_draw: JitterDraw|
            {
                &&& hold_draw.amount <= clicker.randomness_ms
                &&& gap_draw.amount <= clicker.randomness_ms
                &&& (timing.hold_ms as int, timing.gap_ms as int) == #[trigger] timing_of(
                    clicker@,
                    base_hold,
                    hold_draw,
                    gap_draw,
                )
            },
{
    let none = JitterDraw { amount: 0, upward: true };
    let (hold_draw, gap_draw) = if clicker.humanization_enabled {
        (draw_jitter(clicker.randomness_ms), draw_jitter(clicker.randomness_ms))
    } else {
        (none, none)
    };
    let timing = click_timing_with(clicker, base_hold, hold_draw, gap_draw);
    assert((timing.hold_ms as int, timing.gap_ms as int) == timing_of(
        clicker@,
        base_hold,
        hold_draw,
        gap_draw,
    ));
    timing
}

/// Records one iteration of the engine with the given timing, which is read
/// only while clicking. Tells the state the engine was in.
pub fn engine_step_with(
    clicker: &ClickerConfig,
    macro_active: bool,
    timing: ClickTiming,
    script: &mut Vec<Step>,
) -> (state: EngineState)
    ensures
        state == engine_state_of(clicker@, macro_active),
        final(script)@ == old(script)@ + iteration_steps(clicker@, macro_active, timing),
{
    match engine_state(clicker, macro_active) {
        EngineState::Idle => {
            record(script, Step::Wait(IDLE_WAIT_MS));
            assert(script@ =~= old(script)@ + iteration_steps(clicker@, macro_active, timing));
            EngineState::Idle
        },
        EngineState::Clicking => {
            perform_click(script, clicker.click_mode, timing.hold_ms);
            record(script, Step::Wait(timing.gap_ms));
            assert(script@ =~= old(script)@ + iteration_steps(clicker@, macro_active, timing));
            EngineState::Clicking
        },
    }
}

/// Records one iteration of the engine, drawing the jitter where it clicks.
/// While idle it records the wait alone; while clicking it records the click
/// and the gap for a timing that [`click_timing`] admits.
pub fn engine_step(
    clicker: &ClickerConfig,
    macro_active: bool,
    base_hold: u64,
    script: &mut Vec<Step>,
) -> (state: EngineState)
    ensures
        state == engine_state_of(clicker@, macro_active),
        state is Idle ==> final(script)@ == old(script)@.push(Step::Wait(10)),
        state is Clicking ==> exists|hold_draw: JitterDraw, gap_draw: JitterDraw, timing: ClickTiming|
            {
                &&& hold_draw.amount <= clicker.randomness_ms
                &&& gap_draw.amount <= clicker.randomness_ms
                &&& (timing.hold_ms as int, timing.gap_ms as int) == #[trigger] timing_of(
                    clicker@,
                    base_hold,
                    hold_draw,
                    gap_draw,
                )
                &&& final(script)@ == old(script)@ + #[trigger] clicking_steps(
                    clicker.click_mode,
                    timing,
                )
            },
{
    match engine_state(clicker, macro_active) {
        EngineState::Idle => {
            record(script, Step::Wait(IDLE_WAIT_MS));
            EngineState::Idle
        },
        EngineState::Clicking => {
            let timing = click_timing(clicker, base_hold);
            let state = engine_step_with(clicker, macro_active, timing, script);
            assert(script@ == old(script)@ + clicking_steps(clicker.click_mode, timing));
            state
        },
    }
}

/// While a macro is running the engine is idle: its iteration is the wait
/// alone and injects nothing, whatever the settings and the timing are.
pub proof fn lemma_macro_excludes_clicking(clicker: ClickerConfigView, timing: ClickTiming)
    ensures
        engine_state_of(clicker, true) is Idle,
        iteration_steps(clicker, true, timing) == seq![Step::Wait(10)],
        injects_nothing(iteration_steps(clicker, true, timing)),
{
}

/// At a rate of 0 the engine is idle whether it is enabled or not.
pub proof fn lemma_zero_rate_is_idle(
    clicker: ClickerConfigView,
    macro_active: bool,
    timing: ClickTiming,
)
    requires
        clicker.clicks_per_second == 0,
    ensures
        engine_state_of(clicker, macro_active) is Idle,
        iteration_steps(clicker, macro_active, timing) == seq![Step::Wait(10)],
        injects_nothing(iteration_steps(clicker, macro_active, timing)),
{
}

/// The engine injects something in an iteration exactly if it is clicking.
pub proof fn lemma_injects_only_while_clicking(
    clicker: ClickerConfigView,
    macro_active: bool,
    timing: ClickTiming,
)
    ensures
        injects_nothing(iteration_steps(clicker, macro_active, timing)) <==> engine_state_of(
            clicker,
            macro_active,
        ) is Idle,
{
    let steps = iteration_steps(clicker, macro_active, timing);
    if engine_state_of(clicker, macro_active) is Clicking {
        assert(steps[0] is Inject);
    }
}

} // verus!
