//! The two scripted macros.
//!
//! Each macro is a fixed script over a copy of the macro settings taken when
//! its hotkey fired. The first opens the inventory, drags the item from the
//! safe pocket to the quick-use slot, closes the inventory and picks the item
//! on the wheel. The second holds a movement key, taps the dodge key, and
//! drags the item back. A macro whose positions are not both set injects
//! nothing. The task of a macro is its script followed by the release of the
//! flag that marks it as running, so the flag is released on every path.

use vstd::prelude::*;
use crate::config::{has_positions, positions_set, MacroConfig, MacroConfigView};
use crate::input::{
    dodge_steps, drag_moves, drag_mouse, drag_steps, injects_nothing, keeps_flag, key_tap_steps,
    press_dodge, press_key, record, InputEvent, Point, Step,
};

verus! {

/// The virtual-key code of the key that opens and closes the inventory.
pub const VK_TAB: u16 = 0x09;

/// The virtual-key code of the key that holds the item wheel open.
pub const VK_Q: u16 = 0x51;

/// The virtual-key code of the movement key held during the second macro.
pub const VK_S: u16 = 0x53;

/// The virtual-key code of the key that picks the slot on the wheel.
pub const VK_6: u16 = 0x36;

/// How long the wheel key is held before the slot is picked, in milliseconds.
pub const WHEEL_OPEN_MS: u64 = 300;

/// The short pause after a held key goes down or a slot is picked, in
/// milliseconds.
pub const SETTLE_MS: u64 = 50;

/// Which of the two macros.
#[derive(Clone, Copy, Debug, PartialEq, Eq, Structural)]
pub enum MacroPart {
    /// Safe pocket to quick use.
    Part1,
    /// Quick use to safe pocket.
    Part2,
}

/// The script of the first macro; empty where a position is unset.
pub open spec fn part1_steps(config: MacroConfigView) -> Seq<Step> {
    if !positions_set(config) {
        Seq::empty()
    } else {
        key_tap_steps(VK_TAB) + seq![Step::Wait(config.delay_ms)] + drag_steps(
            config.safe_pocket,
            config.quick_use,
        ) + seq![Step::Wait(config.delay_ms)] + key_tap_steps(VK_TAB) + seq![
            Step::Wait(config.delay_ms),
            Step::Inject(InputEvent::KeyDown(VK_Q)),
            Step::Wait(WHEEL_OPEN_MS),
        ] + key_tap_steps(VK_6) + seq![Step::Wait(SETTLE_MS), Step::Inject(InputEvent::KeyUp(VK_Q))]
    }
}

/// The script of the second macro; empty where a position is unset.
pub open spec fn part2_steps(config: MacroConfigView) -> Seq<Step> {
    if !positions_set(config) {
        Seq::empty()
    } else {
        seq![Step::Inject(InputEvent::KeyDown(VK_S)), Step::Wait(SETTLE_MS)] + dodge_steps(
            config.dodge_key,
        ) + seq![Step::Wait(config.delay_ms)] + key_tap_steps(VK_TAB) + seq![
            Step::Wait(config.delay_ms),
        ] + drag_steps(config.quick_use, config.safe_pocket) + seq![Step::Wait(config.delay_ms)]
            + key_tap_steps(VK_TAB) + seq![
            Step::Wait(config.delay_ms),
            Step::Inject(InputEvent::KeyUp(VK_S)),
        ]
    }
}

/// The script of the given macro.
pub open spec fn macro_steps(part: MacroPart, config: MacroConfigView) -> Seq<Step> {
    match part {
        MacroPart::Part1 => part1_steps(config),
        MacroPart::Part2 => part2_steps(config),
    }
}

/// The task of the given macro: its script, then the release of the flag.
pub open spec fn macro_task(part: MacroPart, config: MacroConfigView) -> Seq<Step> {
    macro_steps(part, config).push(Step::ReleaseMacroFlag)
}

/// Records the first macro. Tells whether it ran; where a position is unset
/// it did not, and nothing was recorded.
pub fn execute_macro_part1(config: &MacroConfig, script: &mut Vec<Step>) -> (ran: bool)
    ensures
        ran == positions_set(config@),
        final(script)@ == old(script)@ + part1_steps(config@),
{
    if !has_positions(config) {
        assert(script@ =~= old(script)@ + part1_steps(config@));
        return false;
    }
    let delay: u64 = config.delay_ms;
    press_key(script, VK_TAB);
    record(script, Step::Wait(delay));
    drag_mouse(script, config.safe_pocket, config.quick_use);
    record(script, Step::Wait(delay));
    press_key(script, VK_TAB);
    record(script, Step::Wait(delay));
    record(script, Step::Inject(InputEvent::KeyDown(VK_Q)));
    record(script, Step::Wait(WHEEL_OPEN_MS));
    press_key(script, VK_6);
    record(script, Step::Wait(SETTLE_MS));
    record(script, Step::Inject(InputEvent::KeyUp(VK_Q)));
    assert(script@ =~= old(script)@ + part1_steps(config@));
    true
}

/// Records the second macro. Tells whether it ran; where a position is unset
/// it did not, and nothing was recorded.
pub fn execute_macro_part2(config: &MacroConfig, script: &mut Vec<Step>) -> (ran: bool)
    ensures
        ran == positions_set(config@),
        final(script)@ == old(script)@ + part2_steps(config@),
{
    if !has_positions(config) {
        assert(script@ =~= old(script)@ + part2_steps(config@));
        return false;
    }
    let delay: u64 = config.delay_ms;
    record(script, Step::Inject(InputEvent::KeyDown(VK_S)));
    record(script, Step::Wait(SETTLE_MS));
    press_dodge(script, config.dodge_key.as_str());
    record(script, Step::Wait(delay));
    press_key(script, VK_TAB);
    record(script, Step::Wait(delay));
    drag_mouse(script, config.quick_use, config.safe_pocket);
    record(script, Step::Wait(delay));
    press_key(script, VK_TAB);
    record(script, Step::Wait(delay));
    record(script, Step::Inject(InputEvent::KeyUp(VK_S)));
    assert(script@ =~= old(script)@ + part2_steps(config@));
    true
}

/// The whole task of a macro that has been started: its script over
/// `config`, then the release of the flag. Tells whether the script ran.
pub fn run_macro(part: MacroPart, config: &MacroConfig) -> (out: (Vec<Step>, bool))
    ensures
        out.0@ == macro_task(part, config@),
        out.1 == positions_set(config@),
{
    let mut task: Vec<Step> = Vec::new();
    let ran = match part {
        MacroPart::Part1 => execute_macro_part1(config, &mut task),
        MacroPart::Part2 => execute_macro_part2(config, &mut task),
    };
    task.push(Step::ReleaseMacroFlag);
    assert(task@ =~= macro_task(part, config@));
    (task, ran)
}

/// A macro with an unset position injects nothing: its task is the release
/// of the flag and nothing else, so the flag goes from set to clear with no
/// event between.
pub proof fn lemma_unset_position_aborts(part: MacroPart, config: MacroConfigView)
    requires
        !positions_set(config),
    ensures
        macro_steps(part, config) == Seq::<Step>::empty(),
        macro_task(part, config) == seq![Step::ReleaseMacroFlag],
        injects_nothing(macro_task(part, config)),
{
    assert(macro_task(part, config) =~= seq![Step::ReleaseMacroFlag]);
}

/// Two scripts that keep the flag keep it when joined.
proof fn lemma_joined_keeps_flag(a: Seq<Step>, b: Seq<Step>)
    requires
        keeps_flag(a),
        keeps_flag(b),
    ensures
        keeps_flag(a + b),
{
    assert forall|i: int| 0 <= i < (a + b).len() implies !(#[trigger] (a + b)[i]
        is ReleaseMacroFlag) by {
        if i < a.len() {
            assert((a + b)[i] == a[i]);
        } else {
            assert((a + b)[i] == b[i - a.len()]);
        }
    }
}

/// The script of a drag keeps the flag.
proof fn lemma_drag_keeps_flag(from: Point, to: Point)
    ensures
        keeps_flag(drag_steps(from, to)),
{
    let steps = drag_steps(from, to);
    assert forall|i: int| 0 <= i < steps.len() implies !(#[trigger] steps[i]
        is ReleaseMacroFlag) by {
        if 4 <= i < 34 {
            assert(steps[i] == drag_moves(from, to, 15)[i - 4]);
        }
    }
}

/// The script of a macro never releases the flag.
proof fn lemma_script_keeps_flag(part: MacroPart, config: MacroConfigView)
    ensures
        keeps_flag(macro_steps(part, config)),
{
    if positions_set(config) {
        let tab = key_tap_steps(VK_TAB);
        let pause = seq![Step::Wait(config.delay_ms)];
        match part {
            MacroPart::Part1 => {
                let drag = drag_steps(config.safe_pocket, config.quick_use);
                let wheel = seq![
                    Step::Wait(config.delay_ms),
                    Step::Inject(InputEvent::KeyDown(VK_Q)),
                    Step::Wait(WHEEL_OPEN_MS),
                ];
                let pick = key_tap_steps(VK_6);
                let close = seq![Step::Wait(SETTLE_MS), Step::Inject(InputEvent::KeyUp(VK_Q))];
                lemma_drag_keeps_flag(config.safe_pocket, config.quick_use);
                lemma_joined_keeps_flag(tab, pause);
                lemma_joined_keeps_flag(tab + pause, drag);
                lemma_joined_keeps_flag(tab + pause + drag, pause);
                lemma_joined_keeps_flag(tab + pause + drag + pause, tab);
                lemma_joined_keeps_flag(tab + pause + drag + pause + tab, wheel);
                lemma_joined_keeps_flag(tab + pause + drag + pause + tab + wheel, pick);
                lemma_joined_keeps_flag(tab + pause + drag + pause + tab + wheel + pick, close);
            },
            MacroPart::Part2 => {
                let hold = seq![Step::Inject(InputEvent::KeyDown(VK_S)), Step::Wait(SETTLE_MS)];
                let dodge = dodge_steps(config.dodge_key);
                let drag = drag_steps(config.quick_use, config.safe_pocket);
                let close = seq![
                    Step::Wait(config.delay_ms),
                    Step::Inject(InputEvent::KeyUp(VK_S)),
                ];
                lemma_drag_keeps_flag(config.quick_use, config.safe_pocket);
                lemma_joined_keeps_flag(hold, dodge);
                lemma_joined_keeps_flag(hold + dodge, pause);
                lemma_joined_keeps_flag(hold + dodge + pause, tab);
                lemma_joined_keeps_flag(hold + dodge + pause + tab, pause);
                lemma_joined_keeps_flag(hold + dodge + pause + tab + pause, drag);
                lemma_joined_keeps_flag(hold + dodge + pause + tab + pause + drag, pause);
                lemma_joined_keeps_flag(hold + dodge + pause + tab + pause + drag + pause, tab);
                lemma_joined_keeps_flag(
                    hold + dodge + pause + tab + pause + drag + pause + tab,
                    close,
                );
            },
        }
    }
}

/// The task of a macro releases the flag exactly once, as its last step,
/// whether the script ran or not.
pub proof fn lemma_flag_released_once_at_end(part: MacroPart, config: MacroConfigView)
    ensures
        macro_task(part, config).len() >= 1,
        macro_task(part, config).last() == Step::ReleaseMacroFlag,
        forall|i: int|
            0 <= i < macro_task(part, config).len() - 1 ==> !(#[trigger] macro_task(part, config)[i]
                is ReleaseMacroFlag),
{
    lemma_script_keeps_flag(part, config);
    let steps = macro_steps(part, config);
    let task = macro_task(part, config);
    assert forall|i: int| 0 <= i < task.len() - 1 implies !(#[trigger] task[i]
        is ReleaseMacroFlag) by {
        assert(task[i] == steps[i]);
    }
}

} // verus!
