//! Capturing a screen position by pointing and pressing a key.
//!
//! A capture has two phases. It first waits until every key and every mouse
//! button has been let go, so that the click which asked for the capture is
//! not taken for the answer. It then waits for any key to go down and takes
//! the position of the pointer at that moment. The caller polls the devices
//! and asks after each poll what to do next.

use vstd::prelude::*;
use crate::input::Point;

verus! {

/// How long to wait between two polls of a capture, in milliseconds.
pub const CAPTURE_POLL_MS: u64 = 10;

/// The phase of a capture.
#[derive(Clone, Copy, Debug, PartialEq, Eq, Structural)]
pub enum CapturePhase {
    /// Waiting for all keys and buttons to be let go.
    AwaitRelease,
    /// Waiting for a key to go down.
    AwaitPress,
}

/// What to do after a poll.
#[derive(Clone, Copy, Debug, PartialEq, Eq, Structural)]
pub enum CaptureStep {
    /// Wait 10 ms and poll again in the same phase.
    Wait,
    /// Everything is let go: poll again at once, waiting for a press.
    Armed,
    /// A key went down: the capture ends with this position.
    Captured(Point),
}

/// Some mouse button is held. The first entry of the polled list stands for
/// no button and is not looked at.
pub open spec fn any_button_held(buttons: Seq<bool>) -> bool {
    exists|i: int| 1 <= i < buttons.len() && buttons[i]
}

/// What the poll asks for in the given phase.
pub open spec fn capture_step_of(
    phase: CapturePhase,
    keys_down: nat,
    buttons: Seq<bool>,
    pointer: Point,
) -> CaptureStep {
    match phase {
        CapturePhase::AwaitRelease => if keys_down == 0 && !any_button_held(buttons) {
            CaptureStep::Armed
        } else {
            CaptureStep::Wait
        },
        CapturePhase::AwaitPress => if keys_down > 0 {
            CaptureStep::Captured(pointer)
        } else {
            CaptureStep::Wait
        },
    }
}

/// The phase in which to make the next poll.
pub open spec fn next_phase(phase: CapturePhase, step: CaptureStep) -> CapturePhase {
    match step {
        CaptureStep::Armed => CapturePhase::AwaitPress,
        _ => phase,
    }
}

/// What one poll of the devices found.
pub struct Poll {
    /// How many keys were held.
    pub keys_down: nat,
    /// The mouse buttons, as polled.
    pub buttons: Seq<bool>,
    /// Where the pointer was.
    pub pointer: Point,
}

/// The poll found every key and button let go.
pub open spec fn all_released(poll: Poll) -> bool {
    poll.keys_down == 0 && !any_button_held(poll.buttons)
}

/// The position with which a capture that starts in `phase` ends over the
/// given polls, one after the other; `None` where the polls run out before
/// it ends.
pub open spec fn capture_outcome(phase: CapturePhase, polls: Seq<Poll>) -> Option<Point>
    decreases polls.len(),
{
    if polls.len() == 0 {
        None
    } else {
        match capture_step_of(phase, polls[0].keys_down, polls[0].buttons, polls[0].pointer) {
            CaptureStep::Captured(at) => Some(at),
            step => capture_outcome(next_phase(phase, step), polls.drop_first()),
        }
    }
}

/// Whether some mouse button is held.
pub fn button_held(mouse_buttons: &[bool]) -> (held: bool)
    ensures
        held == any_button_held(mouse_buttons@),
{
    let mut i: usize = 1;
    while i < mouse_buttons.len()
        invariant
            1 <= i,
            forall|k: int| 1 <= k < i && k < mouse_buttons@.len() ==> !mouse_buttons@[k],
        decreases mouse_buttons.len() - i,
    {
        if mouse_buttons[i] {
            return true;
        }
        i += 1;
    }
    false
}

/// Decides what to do after a poll that found `keys_down` keys held, the
/// mouse buttons as given and the pointer at `pointer`.
pub fn capture_step(
    phase: CapturePhase,
    keys_down: usize,
    mouse_buttons: &[bool],
    pointer: Point,
) -> (step: CaptureStep)
    ensures
        step == capture_step_of(phase, keys_down as nat, mouse_buttons@, pointer),
{
    match phase {
        CapturePhase::AwaitRelease => {
            if keys_down == 0 && !button_held(mouse_buttons) {
                CaptureStep::Armed
            } else {
                CaptureStep::Wait
            }
        },
        CapturePhase::AwaitPress => {
            if keys_down > 0 {
                CaptureStep::Captured(pointer)
            } else {
                CaptureStep::Wait
            }
        },
    }
}

/// The phase in which to make the next poll.
pub fn advance(phase: CapturePhase, step: CaptureStep) -> (next: CapturePhase)
    ensures
        next == next_phase(phase, step),
{
    match step {
        CaptureStep::Armed => CapturePhase::AwaitPress,
        _ => phase,
    }
}

/// A capture ends only in its second phase, only on a poll with a key held,
/// and with the position of the pointer at that poll.
pub proof fn lemma_capture_needs_release_then_press(
    phase: CapturePhase,
    keys_down: nat,
    buttons: Seq<bool>,
    pointer: Point,
)
    ensures
        capture_step_of(phase, keys_down, buttons, pointer) is Captured <==> (phase
            is AwaitPress && keys_down > 0),
        capture_step_of(phase, keys_down, buttons, pointer) is Captured ==> capture_step_of(
            phase,
            keys_down,
            buttons,
            pointer,
        ) == CaptureStep::Captured(pointer),
        capture_step_of(phase, keys_down, buttons, pointer) is Armed <==> (phase is AwaitRelease
            && keys_down == 0 && !any_button_held(buttons)),
{
}

/// A capture that waits for a press ends at the first poll with a key held,
/// with the pointer of that poll.
pub proof fn lemma_press_ends_capture(polls: Seq<Poll>, pressed: int)
    requires
        0 <= pressed < polls.len(),
        polls[pressed].keys_down > 0,
        forall|k: int| 0 <= k < pressed ==> polls[k].keys_down == 0,
    ensures
        capture_outcome(CapturePhase::AwaitPress, polls) == Some(polls[pressed].pointer),
    decreases polls.len(),
{
    if pressed > 0 {
        let rest = polls.drop_first();
        assert forall|k: int| 0 <= k < pressed - 1 implies rest[k].keys_down == 0 by {
            assert(rest[k] == polls[k + 1]);
        }
        assert(rest[pressed - 1] == polls[pressed]);
        lemma_press_ends_capture(rest, pressed - 1);
    }
}

/// A capture ends with the pointer of the first poll that finds a key held
/// after the first poll that found everything let go. Keys held before that
/// do not end it.
pub proof fn lemma_capture_takes_first_press_after_release(
    polls: Seq<Poll>,
    released: int,
    pressed: int,
)
    requires
        0 <= released < pressed < polls.len(),
        all_released(polls[released]),
        forall|k: int| 0 <= k < released ==> !all_released(polls[k]),
        polls[pressed].keys_down > 0,
        forall|k: int| released < k < pressed ==> polls[k].keys_down == 0,
    ensures
        capture_outcome(CapturePhase::AwaitRelease, polls) == Some(polls[pressed].pointer),
    decreases polls.len(),
{
    let rest = polls.drop_first();
    assert(rest[pressed - 1] == polls[pressed]);
    if released == 0 {
        assert forall|k: int| 0 <= k < pressed - 1 implies rest[k].keys_down == 0 by {
            assert(rest[k] == polls[k + 1]);
        }
        lemma_press_ends_capture(rest, pressed - 1);
    } else {
        assert(rest[released - 1] == polls[released]);
        assert forall|k: int| 0 <= k < released - 1 implies !all_released(rest[k]) by {
            assert(rest[k] == polls[k + 1]);
        }
        assert forall|k: int| released - 1 < k < pressed - 1 implies rest[k].keys_down == 0 by {
            assert(rest[k] == polls[k + 1]);
        }
        lemma_capture_takes_first_press_after_release(rest, released - 1, pressed - 1);
    }
}

/// As long as no poll finds everything let go, the capture does not end,
/// whatever keys are held.
pub proof fn lemma_no_capture_before_release(polls: Seq<Poll>)
    requires
        forall|k: int| 0 <= k < polls.len() ==> !all_released(polls[k]),
    ensures
        capture_outcome(CapturePhase::AwaitRelease, polls) is None,
    decreases polls.len(),
{
    if polls.len() > 0 {
        let rest = polls.drop_first();
        assert forall|k: int| 0 <= k < rest.len() implies !all_released(rest[k]) by {
            assert(rest[k] == polls[k + 1]);
        }
        lemma_no_capture_before_release(rest);
    }
}

} // verus!
