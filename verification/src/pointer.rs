//! What the pointer tells the listener: confirm, cancel, or nothing.

use vstd::prelude::*;
use crate::screen::Point;

verus! {

/// A mouse button, as an event hook names it.
#[derive(Clone, Copy, Debug, PartialEq, Eq, Structural)]
pub enum Button {
    Left,
    Middle,
    Right,
}

/// One thing the pointer did, as an event hook reports it.
#[derive(Clone, Copy, Debug, PartialEq, Eq, Structural)]
pub enum PointerEvent {
    Move,
    Press(Button),
    Release(Button),
    Scroll,
}

/// What an input means to the listener.
#[derive(Clone, Copy, Debug, PartialEq, Eq, Structural)]
pub enum Signal {
    /// Pick the colour under the cursor.
    Confirm,
    /// Leave without picking.
    Cancel,
    /// Not for the listener: keep waiting.
    Ignore,
}

/// How far the listener has come.
#[derive(Clone, Copy, Debug, PartialEq, Eq, Structural)]
pub enum Poll {
    /// No confirm or cancel yet.
    Waiting,
    /// The wait is over: the point that was confirmed, or `None` after a
    /// cancel.
    Done(Option<Point>),
}

/// The place of the confirm button in a snapshot of button states.
pub const CONFIRM_BUTTON: usize = 1;

/// The place of the cancel button in a snapshot of button states.
pub const CANCEL_BUTTON: usize = 3;

/// Whether button `n` is down in a snapshot. A button that the snapshot
/// does not list is up.
pub open spec fn is_down(buttons: Seq<bool>, n: int) -> bool {
    0 <= n < buttons.len() && buttons[n]
}

/// Pressing the left button confirms, pressing the right one cancels, and
/// every other event is ignored.
pub open spec fn spec_signal_of_event(event: PointerEvent) -> Signal {
    match event {
        PointerEvent::Press(Button::Left) => Signal::Confirm,
        PointerEvent::Press(Button::Right) => Signal::Cancel,
        _ => Signal::Ignore,
    }
}

/// A snapshot confirms if the confirm button is down; if not, it cancels
/// if the cancel button is down; if neither is, it is ignored.
pub open spec fn spec_signal_of_buttons(buttons: Seq<bool>) -> Signal {
    if is_down(buttons, CONFIRM_BUTTON as int) {
        Signal::Confirm
    } else if is_down(buttons, CANCEL_BUTTON as int) {
        Signal::Cancel
    } else {
        Signal::Ignore
    }
}

impl Signal {
    /// Where the listener stands after this signal, with the cursor at
    /// `cursor`.
    pub open spec fn spec_resolve(self, cursor: Point) -> Poll {
        match self {
            Signal::Confirm => Poll::Done(Some(cursor)),
            Signal::Cancel => Poll::Done(None),
            Signal::Ignore => Poll::Waiting,
        }
    }

    #[verifier::when_used_as_spec(spec_resolve)]
    pub fn resolve(self, cursor: Point) -> (out: Poll)
        ensures
            out == self.spec_resolve(cursor),
    {
        match self {
            Signal::Confirm => Poll::Done(Some(cursor)),
            Signal::Cancel => Poll::Done(None),
            Signal::Ignore => Poll::Waiting,
        }
    }
}

/// Reads one event of a hook.
#[verifier::when_used_as_spec(spec_signal_of_event)]
pub fn signal_of_event(event: PointerEvent) -> (out: Signal)
    ensures
        out == spec_signal_of_event(event),
{
    match event {
        PointerEvent::Press(Button::Left) => Signal::Confirm,
        PointerEvent::Press(Button::Right) => Signal::Cancel,
        _ => Signal::Ignore,
    }
}

fn button_is_down(buttons: &Vec<bool>, n: usize) -> (out: bool)
    ensures
        out == is_down(buttons@, n as int),
{
    n < buttons.len() && buttons[n]
}

/// Reads one snapshot of the button states.
pub fn signal_of_buttons(buttons: &Vec<bool>) -> (out: Signal)
    ensures
        out == spec_signal_of_buttons(buttons@),
{
    if button_is_down(buttons, CONFIRM_BUTTON) {
        Signal::Confirm
    } else if button_is_down(buttons, CANCEL_BUTTON) {
        Signal::Cancel
    } else {
        Signal::Ignore
    }
}

/// Reads one snapshot of the pointer: the cursor and the button states.
pub fn poll_snapshot(cursor: Point, buttons: &Vec<bool>) -> (out: Poll)
    ensures
        out == spec_signal_of_buttons(buttons@).spec_resolve(cursor),
{
    signal_of_buttons(buttons).resolve(cursor)
}

/// The listener ends only on a confirm or a cancel, and only a confirm
/// yields a point: the cursor's.
pub proof fn only_confirm_and_cancel_end_the_wait(signal: Signal, cursor: Point)
    ensures
        signal.spec_resolve(cursor) is Done <==> signal != Signal::Ignore,
        signal.spec_resolve(cursor) == Poll::Done(Some(cursor)) <==> signal == Signal::Confirm,
        signal.spec_resolve(cursor) == Poll::Done(None) <==> signal == Signal::Cancel,
{
}

} // verus!
