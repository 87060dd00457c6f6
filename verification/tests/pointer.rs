use color_picker::pointer::{
    poll_snapshot, signal_of_buttons, signal_of_event, Button, Poll, PointerEvent, Signal,
    CANCEL_BUTTON, CONFIRM_BUTTON,
};
use color_picker::screen::Point;

#[test]
fn left_press_confirms_and_right_press_cancels() {
    assert_eq!(signal_of_event(PointerEvent::Press(Button::Left)), Signal::Confirm);
    assert_eq!(signal_of_event(PointerEvent::Press(Button::Right)), Signal::Cancel);
}

#[test]
fn every_other_event_is_ignored() {
    assert_eq!(signal_of_event(PointerEvent::Press(Button::Middle)), Signal::Ignore);
    assert_eq!(signal_of_event(PointerEvent::Release(Button::Left)), Signal::Ignore);
    assert_eq!(signal_of_event(PointerEvent::Release(Button::Right)), Signal::Ignore);
    assert_eq!(signal_of_event(PointerEvent::Release(Button::Middle)), Signal::Ignore);
    assert_eq!(signal_of_event(PointerEvent::Move), Signal::Ignore);
    assert_eq!(signal_of_event(PointerEvent::Scroll), Signal::Ignore);
}

#[test]
fn snapshot_buttons_are_the_first_and_the_third() {
    assert_eq!(CONFIRM_BUTTON, 1);
    assert_eq!(CANCEL_BUTTON, 3);
    assert_eq!(signal_of_buttons(&vec![false, true, false, false, false, false]), Signal::Confirm);
    assert_eq!(signal_of_buttons(&vec![false, false, false, true, false, false]), Signal::Cancel);
}

#[test]
fn snapshot_with_other_buttons_is_ignored() {
    assert_eq!(signal_of_buttons(&vec![false; 6]), Signal::Ignore);
    assert_eq!(signal_of_buttons(&vec![true, false, true, false, true, true]), Signal::Ignore);
}

#[test]
fn snapshot_with_both_buttons_confirms() {
    assert_eq!(signal_of_buttons(&vec![false, true, false, true]), Signal::Confirm);
}

#[test]
fn snapshot_that_lists_too_few_buttons_has_them_up() {
    assert_eq!(signal_of_buttons(&Vec::new()), Signal::Ignore);
    assert_eq!(signal_of_buttons(&vec![true]), Signal::Ignore);
    assert_eq!(signal_of_buttons(&vec![false, true]), Signal::Confirm);
    assert_eq!(signal_of_buttons(&vec![false, false, true]), Signal::Ignore);
}

#[test]
fn confirm_yields_the_cursor_and_cancel_yields_nothing() {
    let cursor = Point { x: 7, y: -3 };
    assert_eq!(Signal::Confirm.resolve(cursor), Poll::Done(Some(cursor)));
    assert_eq!(Signal::Cancel.resolve(cursor), Poll::Done(None));
    assert_eq!(Signal::Ignore.resolve(cursor), Poll::Waiting);
}

#[test]
fn poll_reads_cursor_and_buttons_together() {
    let cursor = Point { x: 640, y: 480 };
    assert_eq!(poll_snapshot(cursor, &vec![false; 6]), Poll::Waiting);
    assert_eq!(
        poll_snapshot(cursor, &vec![false, true, false, false, false, false]),
        Poll::Done(Some(cursor))
    );
    assert_eq!(
        poll_snapshot(cursor, &vec![false, false, false, true, false, false]),
        Poll::Done(None)
    );
}
