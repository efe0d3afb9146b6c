//! Synthetic input as data: events, steps and the scripts of the basic gestures.
//!
//! Nothing here touches the operating system. A gesture is recorded as a
//! sequence of steps, each an event to inject or a time to wait, and the
//! caller performs the steps in order. The scripts of a key tap, a click, a
//! side-button tap, the dodge key and a drag are fixed by the spec functions
//! of this module; the recording functions append exactly those.

use vstd::prelude::*;
use crate::keys::{injection_code, js_code_to_vk};
use crate::text::same_text;

verus! {

/// How long a tapped key or button stays down, in milliseconds.
pub const TAP_HOLD_MS: u64 = 30;

/// The pause between the two clicks of a double click, in milliseconds.
pub const DOUBLE_CLICK_PAUSE_MS: u64 = 2;

/// The pause around the button transitions of a drag, in milliseconds.
pub const DRAG_SETTLE_MS: u64 = 30;

/// The pause after each intermediate position of a drag, in milliseconds.
pub const DRAG_MOVE_PAUSE_MS: u64 = 5;

/// The number of intermediate positions of a drag; the last is the target.
pub const DRAG_POSITIONS: u32 = 15;

/// The value to which the full extent of the screen is scaled for an
/// absolute pointer move.
pub const ABSOLUTE_SCALE: i64 = 65535;

/// A position on the screen, in pixels.
#[derive(Clone, Copy, Debug, PartialEq, Eq, Structural)]
pub struct Point {
    pub x: i32,
    pub y: i32,
}

/// One synthetic event.
#[derive(Clone, Copy, Debug, PartialEq, Eq, Structural)]
pub enum InputEvent {
    /// A key goes down, by its virtual-key code.
    KeyDown(u16),
    /// A key goes up, by its virtual-key code.
    KeyUp(u16),
    LeftDown,
    LeftUp,
    RightDown,
    RightUp,
    /// A side button goes down: 1 for the first, 2 for the second.
    SideDown(u32),
    /// A side button goes up.
    SideUp(u32),
    /// The pointer moves to a position of the screen.
    MoveTo(Point),
}

/// One step of a script.
#[derive(Clone, Copy, Debug, PartialEq, Eq, Structural)]
pub enum Step {
    /// Inject the event.
    Inject(InputEvent),
    /// Wait so many milliseconds.
    Wait(u64),
    /// Clear the flag that marks a macro as running.
    ReleaseMacroFlag,
}

/// Which click the autoclicker performs.
#[derive(Clone, Copy, Debug, PartialEq, Eq, Structural)]
pub enum ClickMode {
    Left,
    Right,
    Double,
}

/// The quotient of `a` by `b` rounded toward 0: the quotient of the two
/// sizes, negative where the signs differ.
pub open spec fn toward_zero(a: int, b: int) -> int
    recommends
        b != 0,
{
    if a >= 0 && b > 0 {
        a / b
    } else if a < 0 && b > 0 {
        -((-a) / b)
    } else if a >= 0 && b < 0 {
        -(a / (-b))
    } else {
        (-a) / (-b)
    }
}

/// A pixel coordinate in the units of an absolute pointer move, for a screen
/// of `extent` pixels along that axis.
pub open spec fn normalized(pos: int, extent: int) -> int
    recommends
        extent != 0,
{
    toward_zero(pos * 65535, extent)
}

/// The coordinate `index` fifteenths of the way from `from` to `to`, rounded
/// toward `from`.
pub open spec fn interpolated(from: int, to: int, index: int) -> int {
    from + toward_zero((to - from) * index, 15)
}

/// The intermediate position number `index` of a drag from `from` to `to`.
pub open spec fn waypoint(from: Point, to: Point, index: int) -> Point
    recommends
        1 <= index <= 15,
{
    Point {
        x: interpolated(from.x as int, to.x as int, index) as i32,
        y: interpolated(from.y as int, to.y as int, index) as i32,
    }
}

/// The script of a key tap: down, 30 ms, up.
pub open spec fn key_tap_steps(vk: u16) -> Seq<Step> {
    seq![
        Step::Inject(InputEvent::KeyDown(vk)),
        Step::Wait(30),
        Step::Inject(InputEvent::KeyUp(vk)),
    ]
}

/// The script of a side-button tap: down, 30 ms, up.
pub open spec fn side_tap_steps(button: u32) -> Seq<Step> {
    seq![
        Step::Inject(InputEvent::SideDown(button)),
        Step::Wait(30),
        Step::Inject(InputEvent::SideUp(button)),
    ]
}

/// The script of a right-button tap: down, 30 ms, up.
pub open spec fn right_tap_steps() -> Seq<Step> {
    seq![
        Step::Inject(InputEvent::RightDown),
        Step::Wait(30),
        Step::Inject(InputEvent::RightUp),
    ]
}

/// The script of the dodge key named `key`: `Mouse3` taps the right button,
/// `Mouse4` and `Mouse5` the first and second side button, a name of the
/// keyboard vocabulary its key, and any other name nothing.
pub open spec fn dodge_steps(key: Seq<char>) -> Seq<Step> {
    if key == "Mouse3"@ {
        right_tap_steps()
    } else if key == "Mouse4"@ {
        side_tap_steps(1)
    } else if key == "Mouse5"@ {
        side_tap_steps(2)
    } else {
        match injection_code(key) {
            Some(vk) => key_tap_steps(vk),
            None => Seq::empty(),
        }
    }
}

/// The script of one click held for `hold_ms`. A double click is two left
/// clicks of half the hold each, 2 ms apart.
pub open spec fn click_steps(mode: ClickMode, hold_ms: u64) -> Seq<Step> {
    match mode {
        ClickMode::Left => seq![
            Step::Inject(InputEvent::LeftDown),
            Step::Wait(hold_ms),
            Step::Inject(InputEvent::LeftUp),
        ],
        ClickMode::Right => seq![
            Step::Inject(InputEvent::RightDown),
            Step::Wait(hold_ms),
            Step::Inject(InputEvent::RightUp),
        ],
        ClickMode::Double => seq![
            Step::Inject(InputEvent::LeftDown),
            Step::Wait(hold_ms / 2),
            Step::Inject(InputEvent::LeftUp),
            Step::Wait(2),
            Step::Inject(InputEvent::LeftDown),
            Step::Wait(hold_ms / 2),
            Step::Inject(InputEvent::LeftUp),
        ],
    }
}

/// The moves of a drag up to the intermediate position `count`: each
/// position followed by a pause of 5 ms.
pub open spec fn drag_moves(from: Point, to: Point, count: int) -> Seq<Step> {
    Seq::new(
        (2 * count) as nat,
        |k: int|
            if k % 2 == 0 {
                Step::Inject(InputEvent::MoveTo(waypoint(from, to, k / 2 + 1)))
            } else {
                Step::Wait(5)
            },
    )
}

/// The script of a drag: move to `from`, press the left button, pass the 15
/// intermediate positions with the button held, release at `to`.
pub open spec fn drag_steps(from: Point, to: Point) -> Seq<Step> {
    seq![
        Step::Inject(InputEvent::MoveTo(from)),
        Step::Wait(30),
        Step::Inject(InputEvent::LeftDown),
        Step::Wait(30),
    ] + drag_moves(from, to, 15) + seq![Step::Wait(30), Step::Inject(InputEvent::LeftUp)]
}

/// No step of `steps` releases the flag.
pub open spec fn keeps_flag(steps: Seq<Step>) -> bool {
    forall|i: int| 0 <= i < steps.len() ==> !(#[trigger] steps[i] is ReleaseMacroFlag)
}

/// No step of `steps` injects an event.
pub open spec fn injects_nothing(steps: Seq<Step>) -> bool {
    forall|i: int| 0 <= i < steps.len() ==> !(#[trigger] steps[i] is Inject)
}

/// Reads the name of a click mode: `right` and `double` name their mode, and
/// every other name the left click.
pub fn parse_click_mode(name: &str) -> (mode: ClickMode)
    ensures
        mode == (if name@ == "right"@ {
            ClickMode::Right
        } else if name@ == "double"@ {
            ClickMode::Double
        } else {
            ClickMode::Left
        }),
{
    if same_text(name, "right") {
        ClickMode::Right
    } else if same_text(name, "double") {
        ClickMode::Double
    } else {
        ClickMode::Left
    }
}

/// The name of a click mode, as [`parse_click_mode`] reads it.
pub fn click_mode_name(mode: ClickMode) -> (name: &'static str)
    ensures
        name@ == (match mode {
            ClickMode::Left => "left"@,
            ClickMode::Right => "right"@,
            ClickMode::Double => "double"@,
        }),
{
    match mode {
        ClickMode::Left => "left",
        ClickMode::Right => "right",
        ClickMode::Double => "double",
    }
}

/// Scales a pixel coordinate to the units of an absolute pointer move. The
/// quotient is cut to its low 32 bits, which changes it only where `pos`
/// lies far outside a screen of `extent` pixels.
pub fn normalize_axis(pos: i32, extent: i32) -> (units: i32)
    requires
        extent != 0,
    ensures
        units == normalized(pos as int, extent as int) as i32,
        i32::MIN <= normalized(pos as int, extent as int) <= i32::MAX ==> units == normalized(
            pos as int,
            extent as int,
        ),
        0 <= pos <= extent ==> 0 <= units <= 65535,
{
    let scaled: i64 = (pos as i64) * ABSOLUTE_SCALE;
    proof {
        lemma_toward_zero_bounds(scaled as int, extent as int);
        if 0 <= pos <= extent {
            lemma_normalized_on_screen(pos as int, extent as int);
        }
    }
    let quotient: i64 = if extent > 0 {
        scaled / (extent as i64)
    } else {
        -(scaled / -(extent as i64))
    };
    #[verifier::truncate]
    (quotient as i32)
}

/// Records one step.
pub fn record(script: &mut Vec<Step>, step: Step)
    ensures
        final(script)@ == old(script)@.push(step),
{
    script.push(step);
}

/// Records a key tap.
pub fn press_key(script: &mut Vec<Step>, vk: u16)
    ensures
        final(script)@ == old(script)@ + key_tap_steps(vk),
{
    script.push(Step::Inject(InputEvent::KeyDown(vk)));
    script.push(Step::Wait(TAP_HOLD_MS));
    script.push(Step::Inject(InputEvent::KeyUp(vk)));
    assert(script@ =~= old(script)@ + key_tap_steps(vk));
}

/// Records a side-button tap.
pub fn press_mouse_x(script: &mut Vec<Step>, button: u32)
    ensures
        final(script)@ == old(script)@ + side_tap_steps(button),
{
    script.push(Step::Inject(InputEvent::SideDown(button)));
    script.push(Step::Wait(TAP_HOLD_MS));
    script.push(Step::Inject(InputEvent::SideUp(button)));
    assert(script@ =~= old(script)@ + side_tap_steps(button));
}

/// Records the dodge key named `key`.
pub fn press_dodge(script: &mut Vec<Step>, key: &str)
    ensures
        final(script)@ == old(script)@ + dodge_steps(key@),
{
    if same_text(key, "Mouse3") {
        script.push(Step::Inject(InputEvent::RightDown));
        script.push(Step::Wait(TAP_HOLD_MS));
        script.push(Step::Inject(InputEvent::RightUp));
        assert(script@ =~= old(script)@ + right_tap_steps());
    } else if same_text(key, "Mouse4") {
        press_mouse_x(script, 1);
    } else if same_text(key, "Mouse5") {
        press_mouse_x(script, 2);
    } else {
        if let Some(vk) = js_code_to_vk(key) {
            press_key(script, vk);
        } else {
            assert(script@ =~= old(script)@ + Seq::<Step>::empty());
        }
    }
}

/// Records one click of the given mode, held for `hold_ms`.
pub fn perform_click(script: &mut Vec<Step>, mode: ClickMode, hold_ms: u64)
    ensures
        final(script)@ == old(script)@ + click_steps(mode, hold_ms),
{
    match mode {
        ClickMode::Right => {
            script.push(Step::Inject(InputEvent::RightDown));
            script.push(Step::Wait(hold_ms));
            script.push(Step::Inject(InputEvent::RightUp));
        },
        ClickMode::Double => {
            script.push(Step::Inject(InputEvent::LeftDown));
            script.push(Step::Wait(hold_ms / 2));
            script.push(Step::Inject(InputEvent::LeftUp));
            script.push(Step::Wait(DOUBLE_CLICK_PAUSE_MS));
            script.push(Step::Inject(InputEvent::LeftDown));
            script.push(Step::Wait(hold_ms / 2));
            script.push(Step::Inject(InputEvent::LeftUp));
        },
        ClickMode::Left => {
            script.push(Step::Inject(InputEvent::LeftDown));
            script.push(Step::Wait(hold_ms));
            script.push(Step::Inject(InputEvent::LeftUp));
        },
    }
    assert(script@ =~= old(script)@ + click_steps(mode, hold_ms));
}

/// The coordinate `index` fifteenths of the way from `from` to `to`, rounded
/// toward `from`. It lies between the two, whatever their distance.
pub fn interpolate(from: i32, to: i32, index: u32) -> (at: i32)
    requires
        index <= 15,
    ensures
        at == interpolated(from as int, to as int, index as int),
        from <= to ==> from <= at <= to,
        to <= from ==> to <= at <= from,
{
    let span: i64 = (to as i64) - (from as i64);
    proof {
        lemma_partial_span(to - from, index as int);
        lemma_interpolated_between(from as int, to as int, index as int);
    }
    let advance: i64 = span * (index as i64) / (DRAG_POSITIONS as i64);
    ((from as i64) + advance) as i32
}

/// Records a drag from `from` to `to`.
pub fn drag_mouse(script: &mut Vec<Step>, from: Point, to: Point)
    ensures
        final(script)@ == old(script)@ + drag_steps(from, to),
{
    script.push(Step::Inject(InputEvent::MoveTo(from)));
    script.push(Step::Wait(DRAG_SETTLE_MS));
    script.push(Step::Inject(InputEvent::LeftDown));
    script.push(Step::Wait(DRAG_SETTLE_MS));
    let ghost lead = script@;
    let mut i: u32 = 1;
    while i <= DRAG_POSITIONS
        invariant
            1 <= i <= 16,
            script@ == lead + drag_moves(from, to, i - 1),
        decreases 16 - i,
    {
        let at = Point { x: interpolate(from.x, to.x, i), y: interpolate(from.y, to.y, i) };
        script.push(Step::Inject(InputEvent::MoveTo(at)));
        script.push(Step::Wait(DRAG_MOVE_PAUSE_MS));
        assert(script@ =~= lead + drag_moves(from, to, i as int));
        i += 1;
    }
    script.push(Step::Wait(DRAG_SETTLE_MS));
    script.push(Step::Inject(InputEvent::LeftUp));
    assert(script@ =~= old(script)@ + drag_steps(from, to));
}

/// A quotient rounded toward 0 is no larger in size than what was divided.
proof fn lemma_toward_zero_bounds(a: int, b: int)
    requires
        b != 0,
    ensures
        a >= 0 ==> -a <= toward_zero(a, b) <= a,
        a <= 0 ==> a <= toward_zero(a, b) <= -a,
{
    let m: int = if a >= 0 {
        a
    } else {
        -a
    };
    let d: int = if b > 0 {
        b
    } else {
        -b
    };
    let q: int = m / d;
    assert(0 <= q <= m) by (nonlinear_arith)
        requires
            d > 0,
            m >= 0,
            q == m / d,
    ;
}

/// A position on the screen scales into `0..=65535`.
proof fn lemma_normalized_on_screen(pos: int, extent: int)
    requires
        0 <= pos <= extent,
        extent != 0,
    ensures
        0 <= normalized(pos, extent) <= 65535,
{
    let q: int = (pos * 65535) / extent;
    assert(0 <= q <= 65535) by (nonlinear_arith)
        requires
            0 <= pos <= extent,
            extent > 0,
            q == (pos * 65535) / extent,
    ;
}

/// A part of a span, in fifteenths, lies between 0 and the whole span.
proof fn lemma_partial_span(span: int, index: int)
    requires
        0 <= index <= 15,
    ensures
        span >= 0 ==> 0 <= span * index <= span * 15,
        span <= 0 ==> span * 15 <= span * index <= 0,
        span * 0 == 0,
{
    let p: int = span * index;
    assert((span >= 0 ==> 0 <= p <= span * 15) && (span <= 0 ==> span * 15 <= p <= 0) && span * 0
        == 0) by (nonlinear_arith)
        requires
            0 <= index <= 15,
            p == span * index,
    ;
}

/// An interpolated coordinate lies between the two ends, starts at `from`
/// and ends at `to`.
pub proof fn lemma_interpolated_between(from: int, to: int, index: int)
    requires
        0 <= index <= 15,
    ensures
        from <= to ==> from <= interpolated(from, to, index) <= to,
        to <= from ==> to <= interpolated(from, to, index) <= from,
        interpolated(from, to, 0) == from,
        interpolated(from, to, 15) == to,
{
    lemma_partial_span(to - from, index);
}

/// A drag ends at its target: the last intermediate position is `to`.
pub proof fn lemma_drag_ends_at_target(from: Point, to: Point)
    ensures
        waypoint(from, to, 15) == to,
        drag_steps(from, to)[32] == Step::Inject(InputEvent::MoveTo(to)),
        drag_steps(from, to).len() == 36,
{
    lemma_interpolated_between(from.x as int, to.x as int, 15);
    lemma_interpolated_between(from.y as int, to.y as int, 15);
}

/// During a drag the left button goes down once, before the first
/// intermediate position, and up once, as the last step; every step between
/// the two is a move or a pause.
pub proof fn lemma_drag_holds_button(from: Point, to: Point)
    ensures
        drag_steps(from, to)[2] == Step::Inject(InputEvent::LeftDown),
        drag_steps(from, to)[35] == Step::Inject(InputEvent::LeftUp),
        forall|k: int|
            3 <= k < 35 ==> (#[trigger] drag_steps(from, to)[k] is Wait || (drag_steps(
                from,
                to,
            )[k] matches Step::Inject(e) && e is MoveTo)),
{
    let steps = drag_steps(from, to);
    assert forall|k: int| 3 <= k < 35 implies (#[trigger] steps[k] is Wait || (
    steps[k] matches Step::Inject(e) && e is MoveTo)) by {
        if k >= 4 && k < 34 {
            assert(steps[k] == drag_moves(from, to, 15)[k - 4]);
        }
    }
}

} // verus!
