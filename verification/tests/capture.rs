use input_automation::capture::{advance, button_held, capture_step, CapturePhase, CaptureStep};
use input_automation::input::Point;

const AT: Point = Point { x: 640, y: 480 };

#[test]
fn first_entry_of_the_button_list_is_not_a_button() {
    assert!(!button_held(&[]));
    assert!(!button_held(&[true]));
    assert!(!button_held(&[true, false, false]));
    assert!(button_held(&[false, true]));
    assert!(button_held(&[false, false, false, false, true]));
}

#[test]
fn capture_waits_for_everything_to_be_let_go() {
    let phase = CapturePhase::AwaitRelease;
    assert_eq!(capture_step(phase, 1, &[false, false], AT), CaptureStep::Wait);
    assert_eq!(capture_step(phase, 0, &[false, true], AT), CaptureStep::Wait);
    assert_eq!(capture_step(phase, 3, &[false, false, true], AT), CaptureStep::Wait);
    assert_eq!(capture_step(phase, 0, &[false, false], AT), CaptureStep::Armed);
    assert_eq!(capture_step(phase, 0, &[true, false], AT), CaptureStep::Armed);
    assert_eq!(capture_step(phase, 0, &[], AT), CaptureStep::Armed);
}

#[test]
fn capture_ends_on_a_key_press_with_the_pointer_position() {
    let phase = CapturePhase::AwaitPress;
    assert_eq!(capture_step(phase, 0, &[false, false], AT), CaptureStep::Wait);
    assert_eq!(capture_step(phase, 0, &[false, true], AT), CaptureStep::Wait);
    assert_eq!(capture_step(phase, 1, &[false, false], AT), CaptureStep::Captured(AT));
    assert_eq!(capture_step(phase, 2, &[false, true], AT), CaptureStep::Captured(AT));
}

#[test]
fn capture_moves_on_when_armed() {
    assert_eq!(advance(CapturePhase::AwaitRelease, CaptureStep::Wait), CapturePhase::AwaitRelease);
    assert_eq!(advance(CapturePhase::AwaitRelease, CaptureStep::Armed), CapturePhase::AwaitPress);
    assert_eq!(advance(CapturePhase::AwaitPress, CaptureStep::Wait), CapturePhase::AwaitPress);
    assert_eq!(
        advance(CapturePhase::AwaitPress, CaptureStep::Captured(AT)),
        CapturePhase::AwaitPress
    );
}

#[test]
fn capture_over_a_run_of_polls() {
    // (keys held, buttons, pointer)
    let polls: [(usize, [bool; 3], Point); 6] = [
        (0, [false, true, false], Point { x: 1, y: 1 }),
        (1, [false, false, false], Point { x: 2, y: 2 }),
        (0, [false, false, false], Point { x: 3, y: 3 }),
        (0, [false, true, false], Point { x: 4, y: 4 }),
        (1, [false, false, false], Point { x: 5, y: 5 }),
        (1, [false, false, false], Point { x: 6, y: 6 }),
    ];
    let mut phase = CapturePhase::AwaitRelease;
    let mut captured = None;
    for (keys, buttons, pointer) in polls {
        let step = capture_step(phase, keys, &buttons, pointer);
        if let CaptureStep::Captured(p) = step {
            captured = Some(p);
            break;
        }
        phase = advance(phase, step);
    }
    assert_eq!(captured, Some(Point { x: 5, y: 5 }));
}
