//! One tick of the loop that watches the hotkeys.
//!
//! Every tick the caller polls the devices once and hands the polled state
//! in. The tick compares each hotkey with its sample of the tick before and
//! acts on a press only: it asks for the windows to be switched, flips the
//! clicker and words the notice of it, and starts a macro. A macro is started
//! only while none is running, and the flag that marks one as running is set
//! in the same tick, so a tick starts one macro at most.

use vstd::prelude::*;
use vstd::hash_map::StringHashMap;
use crate::config::{
    clicker_payload, get_macro_config, toggle_clicker, ClickerConfig, ClickerConfigView,
    ClickerPayload, MacroConfig, MacroConfigView,
};
use crate::detect::{holds_code, is_key_active, is_rising, key_active, rising_edge};
use crate::keys::DetectionCode;
use crate::macro_runner::MacroPart;

verus! {

/// For each hotkey, whether it was held at the tick before.
#[derive(Clone, Copy, Debug, PartialEq, Eq, Structural)]
pub struct EdgeState {
    pub visibility: bool,
    pub toggle: bool,
    pub part1: bool,
    pub part2: bool,
}

/// What a tick changes and asks for.
#[derive(Clone, Copy, Debug, PartialEq, Eq, Structural)]
pub struct TickEffect {
    /// The samples to compare with at the next tick.
    pub edges: EdgeState,
    /// Whether the clicker is enabled after the tick.
    pub enabled: bool,
    /// Whether a macro is marked as running after the tick.
    pub macro_active: bool,
    /// Whether the windows are to be switched.
    pub switch_visibility: bool,
    /// Whether the clicker was flipped, which is to be made known.
    pub notify: bool,
    /// The macro to start, if any.
    pub launch: Option<MacroPart>,
}

/// A macro that a tick has started, with its own copy of the settings.
#[derive(Clone, Debug)]
pub struct MacroLaunch {
    pub part: MacroPart,
    pub config: MacroConfig,
}

/// What a tick hands back to the caller.
#[derive(Clone, Debug)]
pub struct TickOutcome {
    /// Whether the windows are to be switched.
    pub switch_visibility: bool,
    /// The notice to send, where the clicker was flipped.
    pub notice: Option<ClickerPayload>,
    /// The macro to run, where one was started.
    pub launch: Option<MacroLaunch>,
}

/// Which windows to show after a switch.
#[derive(Clone, Copy, Debug, PartialEq, Eq, Structural)]
pub struct WindowPlan {
    pub show_main: bool,
    pub focus_main: bool,
    pub show_overlay: bool,
}

/// Whether each hotkey is held in the polled state.
pub open spec fn samples_of(
    toggle_key: Seq<char>,
    part1_key: Seq<char>,
    part2_key: Seq<char>,
    keys: Seq<DetectionCode>,
    buttons: Seq<bool>,
    table: Map<Seq<char>, DetectionCode>,
) -> EdgeState {
    EdgeState {
        visibility: keys.contains(DetectionCode::Insert),
        toggle: key_active(toggle_key, keys, buttons, table),
        part1: key_active(part1_key, keys, buttons, table),
        part2: key_active(part2_key, keys, buttons, table),
    }
}

/// The effect of a tick that finds the hotkeys as `now` says.
///
/// A press of the visibility key switches the windows, a press of the toggle
/// key flips the clicker. The macro keys are looked at only while no macro
/// is running, and their samples are left untouched otherwise. A press of
/// the first macro key starts the first macro; a press of the second starts
/// the second unless the first was started in this very tick.
pub open spec fn tick_effect(
    edges: EdgeState,
    enabled: bool,
    macro_active: bool,
    now: EdgeState,
) -> TickEffect {
    let toggled = is_rising(edges.toggle, now.toggle);
    let launch = if macro_active {
        None
    } else if is_rising(edges.part1, now.part1) {
        Some(MacroPart::Part1)
    } else if is_rising(edges.part2, now.part2) {
        Some(MacroPart::Part2)
    } else {
        None
    };
    TickEffect {
        edges: EdgeState {
            visibility: now.visibility,
            toggle: now.toggle,
            part1: if macro_active {
                edges.part1
            } else {
                now.part1
            },
            part2: if macro_active {
                edges.part2
            } else {
                now.part2
            },
        },
        enabled: if toggled {
            !enabled
        } else {
            enabled
        },
        macro_active: macro_active || launch is Some,
        switch_visibility: is_rising(edges.visibility, now.visibility),
        notify: toggled,
        launch,
    }
}

impl EdgeState {
    /// The samples before the first tick: nothing held.
    pub fn new() -> (edges: EdgeState)
        ensures
            edges == (EdgeState { visibility: false, toggle: false, part1: false, part2: false }),
    {
        EdgeState { visibility: false, toggle: false, part1: false, part2: false }
    }
}

/// Which windows to show when the visibility key was pressed: the overlay
/// in place of the main window, or the main window, focused, in place of the
/// overlay. Exactly one of the two is shown.
pub fn switch_windows(main_visible: bool) -> (plan: WindowPlan)
    ensures
        plan.show_main == !main_visible,
        plan.focus_main == !main_visible,
        plan.show_overlay == main_visible,
        plan.show_main != plan.show_overlay,
{
    WindowPlan { show_main: !main_visible, focus_main: !main_visible, show_overlay: main_visible }
}

/// One tick over the polled state `keys` and `mouse_buttons`.
///
/// Updates the samples, the clicker and the macro flag as [`tick_effect`]
/// says, and hands back what the caller is to do: switch the windows, send
/// the notice of the flipped clicker, run the started macro over its own copy
/// of the settings.
pub fn tick(
    edges: &mut EdgeState,
    clicker: &mut ClickerConfig,
    macros: &MacroConfig,
    macro_active: &mut bool,
    keys: &[DetectionCode],
    mouse_buttons: &[bool],
    key_map: &StringHashMap<DetectionCode>,
) -> (outcome: TickOutcome)
    ensures
        ({
            let now = samples_of(
                old(clicker)@.toggle_key,
                macros@.part1_key,
                macros@.part2_key,
                keys@,
                mouse_buttons@,
                key_map@,
            );
            let effect = tick_effect(*old(edges), old(clicker).enabled, *old(macro_active), now);
            &&& *final(edges) == effect.edges
            &&& *final(macro_active) == effect.macro_active
            &&& final(clicker)@ == (ClickerConfigView { enabled: effect.enabled, ..old(clicker)@ })
            &&& outcome.switch_visibility == effect.switch_visibility
            &&& outcome.notice == (if effect.notify {
                Some(
                    ClickerPayload {
                        enabled: effect.enabled,
                        clicks_per_second: old(clicker).clicks_per_second,
                        click_mode: old(clicker).click_mode,
                    },
                )
            } else {
                None
            })
            &&& match outcome.launch {
                Some(launch) => effect.launch == Some(launch.part) && launch.config@ == macros@,
                None => effect.launch is None,
            }
        }),
{
    let visibility_now = holds_code(keys, DetectionCode::Insert);
    let switch_visibility = rising_edge(edges.visibility, visibility_now);
    edges.visibility = visibility_now;

    let toggle_now = is_key_active(clicker.toggle_key.as_str(), keys, mouse_buttons, key_map);
    let mut notice: Option<ClickerPayload> = None;
    if rising_edge(edges.toggle, toggle_now) {
        toggle_clicker(clicker);
        notice = Some(clicker_payload(clicker));
    }
    edges.toggle = toggle_now;

    let mut launch: Option<MacroLaunch> = None;
    if !*macro_active {
        let part1_now = is_key_active(macros.part1_key.as_str(), keys, mouse_buttons, key_map);
        if rising_edge(edges.part1, part1_now) {
            *macro_active = true;
            launch = Some(MacroLaunch { part: MacroPart::Part1, config: get_macro_config(macros) });
        }
        edges.part1 = part1_now;

        let part2_now = is_key_active(macros.part2_key.as_str(), keys, mouse_buttons, key_map);
        if rising_edge(edges.part2, part2_now) && !*macro_active {
            *macro_active = true;
            launch = Some(MacroLaunch { part: MacroPart::Part2, config: get_macro_config(macros) });
        }
        edges.part2 = part2_now;
    }
    TickOutcome { switch_visibility, notice, launch }
}

/// A hotkey acts on a press only: the windows are switched, and the clicker
/// flipped, exactly if the key was up at the tick before and is held now.
pub proof fn lemma_fires_on_press_only(
    edges: EdgeState,
    enabled: bool,
    macro_active: bool,
    now: EdgeState,
)
    ensures
        tick_effect(edges, enabled, macro_active, now).switch_visibility <==> (!edges.visibility
            && now.visibility),
        tick_effect(edges, enabled, macro_active, now).notify <==> (!edges.toggle && now.toggle),
        tick_effect(edges, enabled, macro_active, now).enabled != enabled <==> (!edges.toggle
            && now.toggle),
{
}

/// A hotkey held over two ticks in a row fires at the first of them at
/// most: the second tick switches no window and flips no clicker.
pub proof fn lemma_held_hotkey_fires_once(
    edges: EdgeState,
    enabled: bool,
    macro_active: bool,
    first: EdgeState,
    second: EdgeState,
)
    ensures
        ({
            let one = tick_effect(edges, enabled, macro_active, first);
            let two = tick_effect(one.edges, one.enabled, one.macro_active, second);
            &&& first.visibility && second.visibility ==> !two.switch_visibility
            &&& first.toggle && second.toggle ==> !two.notify && two.enabled == one.enabled
            &&& first.part1 && second.part1 && !macro_active ==> two.launch != Some(
                MacroPart::Part1,
            )
            &&& first.part2 && second.part2 && !macro_active ==> two.launch != Some(
                MacroPart::Part2,
            )
        }),
{
}

/// While a macro is running no second one is started, whatever keys are
/// pressed: the flag stays set and nothing is launched.
pub proof fn lemma_no_launch_while_macro_runs(edges: EdgeState, enabled: bool, now: EdgeState)
    ensures
        tick_effect(edges, enabled, true, now).launch is None,
        tick_effect(edges, enabled, true, now).macro_active,
{
}

/// A tick launches a macro exactly if it sets the flag, and the flag is
/// never cleared by a tick.
pub proof fn lemma_launch_sets_flag(
    edges: EdgeState,
    enabled: bool,
    macro_active: bool,
    now: EdgeState,
)
    ensures
        ({
            let effect = tick_effect(edges, enabled, macro_active, now);
            &&& effect.launch is Some <==> (!macro_active && effect.macro_active)
            &&& macro_active ==> effect.macro_active
            &&& effect.launch is Some ==> effect.macro_active
        }),
{
}

/// Pressing the toggle key, letting it go and pressing it again, one tick
/// each, flips the clicker twice and leaves it as it was; the first and the
/// third tick give notice, the second does not.
pub proof fn lemma_two_presses_restore_clicker(
    edges: EdgeState,
    enabled: bool,
    macro_active: bool,
    press: EdgeState,
    release: EdgeState,
    again: EdgeState,
)
    requires
        !edges.toggle,
        press.toggle,
        !release.toggle,
        again.toggle,
    ensures
        ({
            let one = tick_effect(edges, enabled, macro_active, press);
            let two = tick_effect(one.edges, one.enabled, one.macro_active, release);
            let three = tick_effect(two.edges, two.enabled, two.macro_active, again);
            &&& one.notify && one.enabled == !enabled
            &&& !two.notify && two.enabled == !enabled
            &&& three.notify && three.enabled == enabled
        }),
{
}

} // verus!
