//! The two configurations that the activities share, and the requests that
//! read and change them.
//!
//! Both live in memory for the length of the session. The caller guards each
//! behind its own lock and calls these functions with the lock held; none of
//! them waits or injects anything.

use vstd::prelude::*;
use vstd::string::*;
use crate::input::{ClickMode, Point};

verus! {

/// The settings of the autoclicker.
#[derive(Clone, Debug)]
pub struct ClickerConfig {
    /// Whether autoclicking is switched on.
    pub enabled: bool,
    /// The click rate; 0 keeps the clicker idle whatever `enabled` says.
    pub clicks_per_second: u64,
    /// The largest jitter, in milliseconds; 0 for none.
    pub randomness_ms: u64,
    /// Whether hold and gap are humanized.
    pub humanization_enabled: bool,
    /// The name of the key that toggles `enabled`.
    pub toggle_key: String,
    /// The click to perform.
    pub click_mode: ClickMode,
}

/// What a [`ClickerConfig`] holds, with the key name as a sequence of
/// characters.
pub struct ClickerConfigView {
    pub enabled: bool,
    pub clicks_per_second: u64,
    pub randomness_ms: u64,
    pub humanization_enabled: bool,
    pub toggle_key: Seq<char>,
    pub click_mode: ClickMode,
}

impl View for ClickerConfig {
    type V = ClickerConfigView;

    open spec fn view(&self) -> ClickerConfigView {
        ClickerConfigView {
            enabled: self.enabled,
            clicks_per_second: self.clicks_per_second,
            randomness_ms: self.randomness_ms,
            humanization_enabled: self.humanization_enabled,
            toggle_key: self.toggle_key@,
            click_mode: self.click_mode,
        }
    }
}

/// The settings of the two macros.
#[derive(Clone, Debug)]
pub struct MacroConfig {
    /// The name of the key that starts the first macro.
    pub part1_key: String,
    /// The name of the key that starts the second macro.
    pub part2_key: String,
    /// The name of the key or button that the second macro taps to dodge.
    pub dodge_key: String,
    /// Where the safe pocket lies; `(0, 0)` while unset.
    pub safe_pocket: Point,
    /// Where the quick-use slot lies; `(0, 0)` while unset.
    pub quick_use: Point,
    /// The pause between the stages of a macro, in milliseconds.
    pub delay_ms: u64,
}

/// What a [`MacroConfig`] holds, with the key names as sequences of
/// characters.
pub struct MacroConfigView {
    pub part1_key: Seq<char>,
    pub part2_key: Seq<char>,
    pub dodge_key: Seq<char>,
    pub safe_pocket: Point,
    pub quick_use: Point,
    pub delay_ms: u64,
}

impl View for MacroConfig {
    type V = MacroConfigView;

    open spec fn view(&self) -> MacroConfigView {
        MacroConfigView {
            part1_key: self.part1_key@,
            part2_key: self.part2_key@,
            dodge_key: self.dodge_key@,
            safe_pocket: self.safe_pocket,
            quick_use: self.quick_use,
            delay_ms: self.delay_ms,
        }
    }
}

/// The notice sent out when the toggle key has flipped the clicker.
#[derive(Clone, Copy, Debug, PartialEq, Eq, Structural)]
pub struct ClickerPayload {
    pub enabled: bool,
    pub clicks_per_second: u64,
    pub click_mode: ClickMode,
}

/// The position `(0, 0)`, which stands for "not set".
pub open spec fn is_unset(p: Point) -> bool {
    p.x == 0 && p.y == 0
}

/// Both positions of the macros are set.
pub open spec fn positions_set(config: MacroConfigView) -> bool {
    !is_unset(config.safe_pocket) && !is_unset(config.quick_use)
}

/// The clicker settings at the start of a session: switched off, 10 clicks
/// per second, no jitter, humanized, toggled by `F6`, left click.
pub open spec fn initial_clicker() -> ClickerConfigView {
    ClickerConfigView {
        enabled: false,
        clicks_per_second: 10,
        randomness_ms: 0,
        humanization_enabled: true,
        toggle_key: "F6"@,
        click_mode: ClickMode::Left,
    }
}

/// The macro settings at the start of a session: started by `F7` and `F8`,
/// dodging with `AltLeft`, both positions unset, 50 ms between stages.
pub open spec fn initial_macros() -> MacroConfigView {
    MacroConfigView {
        part1_key: "F7"@,
        part2_key: "F8"@,
        dodge_key: "AltLeft"@,
        safe_pocket: Point { x: 0, y: 0 },
        quick_use: Point { x: 0, y: 0 },
        delay_ms: 50,
    }
}

impl ClickerConfig {
    /// The settings at the start of a session.
    pub fn new() -> (config: ClickerConfig)
        ensures
            config@ == initial_clicker(),
    {
        ClickerConfig {
            enabled: false,
            clicks_per_second: 10,
            randomness_ms: 0,
            humanization_enabled: true,
            toggle_key: String::from_str("F6"),
            click_mode: ClickMode::Left,
        }
    }
}

impl MacroConfig {
    /// The settings at the start of a session.
    pub fn new() -> (config: MacroConfig)
        ensures
            config@ == initial_macros(),
            !positions_set(config@),
    {
        MacroConfig {
            part1_key: String::from_str("F7"),
            part2_key: String::from_str("F8"),
            dodge_key: String::from_str("AltLeft"),
            safe_pocket: Point { x: 0, y: 0 },
            quick_use: Point { x: 0, y: 0 },
            delay_ms: 50,
        }
    }
}

/// Flips `enabled` and returns the new value; nothing else changes.
pub fn toggle_clicker(clicker: &mut ClickerConfig) -> (enabled: bool)
    ensures
        enabled == !old(clicker).enabled,
        final(clicker)@ == (ClickerConfigView { enabled, ..old(clicker)@ }),
{
    clicker.enabled = !clicker.enabled;
    clicker.enabled
}

/// Replaces every setting but `enabled`. No value is refused: a rate of 0 is
/// stored as it is.
pub fn update_config(
    clicker: &mut ClickerConfig,
    cps: u64,
    randomness: u64,
    humanization_enabled: bool,
    toggle_key: String,
    click_mode: ClickMode,
)
    ensures
        final(clicker)@ == (ClickerConfigView {
            enabled: old(clicker).enabled,
            clicks_per_second: cps,
            randomness_ms: randomness,
            humanization_enabled,
            toggle_key: toggle_key@,
            click_mode,
        }),
{
    clicker.clicks_per_second = cps;
    clicker.randomness_ms = randomness;
    clicker.humanization_enabled = humanization_enabled;
    clicker.toggle_key = toggle_key;
    clicker.click_mode = click_mode;
}

/// The settings of the clicker, in the order enabled, rate, randomness,
/// humanization, toggle key, click mode.
pub fn get_clicker_state(clicker: &ClickerConfig) -> (state: (bool, u64, u64, bool, String, ClickMode))
    ensures
        state.0 == clicker.enabled,
        state.1 == clicker.clicks_per_second,
        state.2 == clicker.randomness_ms,
        state.3 == clicker.humanization_enabled,
        state.4@ == clicker.toggle_key@,
        state.5 == clicker.click_mode,
{
    (
        clicker.enabled,
        clicker.clicks_per_second,
        clicker.randomness_ms,
        clicker.humanization_enabled,
        clicker.toggle_key.clone(),
        clicker.click_mode,
    )
}

/// The notice that tells of the clicker's present state.
pub fn clicker_payload(clicker: &ClickerConfig) -> (payload: ClickerPayload)
    ensures
        payload == (ClickerPayload {
            enabled: clicker.enabled,
            clicks_per_second: clicker.clicks_per_second,
            click_mode: clicker.click_mode,
        }),
{
    ClickerPayload {
        enabled: clicker.enabled,
        clicks_per_second: clicker.clicks_per_second,
        click_mode: clicker.click_mode,
    }
}

/// Replaces every setting of the macros. No value is refused.
pub fn update_macro_config(
    config: &mut MacroConfig,
    part1_key: String,
    part2_key: String,
    dodge_key: String,
    safe_pocket_x: i32,
    safe_pocket_y: i32,
    quick_use_x: i32,
    quick_use_y: i32,
    delay_ms: u64,
)
    ensures
        final(config)@ == (MacroConfigView {
            part1_key: part1_key@,
            part2_key: part2_key@,
            dodge_key: dodge_key@,
            safe_pocket: Point { x: safe_pocket_x, y: safe_pocket_y },
            quick_use: Point { x: quick_use_x, y: quick_use_y },
            delay_ms,
        }),
{
    config.part1_key = part1_key;
    config.part2_key = part2_key;
    config.dodge_key = dodge_key;
    config.safe_pocket = Point { x: safe_pocket_x, y: safe_pocket_y };
    config.quick_use = Point { x: quick_use_x, y: quick_use_y };
    config.delay_ms = delay_ms;
}

/// A copy of the macro settings of its own, which later changes of `config`
/// do not reach.
pub fn get_macro_config(config: &MacroConfig) -> (copy: MacroConfig)
    ensures
        copy@ == config@,
{
    MacroConfig {
        part1_key: config.part1_key.clone(),
        part2_key: config.part2_key.clone(),
        dodge_key: config.dodge_key.clone(),
        safe_pocket: config.safe_pocket,
        quick_use: config.quick_use,
        delay_ms: config.delay_ms,
    }
}

/// Whether both positions of the macros are set.
pub fn has_positions(config: &MacroConfig) -> (set: bool)
    ensures
        set == positions_set(config@),
{
    !(config.safe_pocket.x == 0 && config.safe_pocket.y == 0) && !(config.quick_use.x == 0
        && config.quick_use.y == 0)
}

/// Flipping the clicker twice leaves every setting as it was.
pub proof fn lemma_toggle_twice_restores(before: ClickerConfigView)
    ensures
        ({
            let once = ClickerConfigView { enabled: !before.enabled, ..before };
            let twice = ClickerConfigView { enabled: !once.enabled, ..once };
            twice == before
        }),
{
}

} // verus!
