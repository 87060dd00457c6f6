//! One run of the picker, as a machine: every outside result comes in as an
//! event, and the machine answers with what to write and what to do next.

use vstd::prelude::*;
use vstd::string::*;
use crate::color::{hex_text, Rgb};
use crate::present::{present, spec_present, Emission, EmissionView, Stream};
use crate::screen::{Capture, CaptureView, Point};

verus! {

/// The two ways to reach the clipboard.
#[derive(Clone, Copy, Debug, PartialEq, Eq, Structural)]
pub enum Backend {
    /// Tried first.
    Primary,
    /// Tried once, after the primary one failed.
    Fallback,
}

/// Where a run stands.
#[derive(Clone, Copy, Debug, PartialEq, Eq, Structural)]
pub enum Stage {
    /// Waiting for the listener.
    Listening,
    /// Waiting for a capture of the monitor under the confirmed point.
    Capturing(Point),
    /// Waiting for a backend to take the colour.
    Copying(Backend, Rgb),
    /// Over, with this exit status.
    Finished(u8),
}

/// What the machine asks for next.
#[derive(Debug, PartialEq, Eq)]
pub enum Request {
    /// Wait for a confirm or a cancel.
    Listen,
    /// Capture the monitor that contains the point.
    Capture(Point),
    /// Write the text to the clipboard through the backend.
    Copy(Backend, String),
    /// End the run with this exit status.
    Exit(u8),
}

/// A request as contracts see it.
pub enum RequestView {
    Listen,
    Capture(Point),
    Copy(Backend, Seq<char>),
    Exit(u8),
}

impl View for Request {
    type V = RequestView;

    open spec fn view(&self) -> RequestView {
        match self {
            Request::Listen => RequestView::Listen,
            Request::Capture(at) => RequestView::Capture(*at),
            Request::Copy(backend, text) => RequestView::Copy(*backend, text@),
            Request::Exit(status) => RequestView::Exit(*status),
        }
    }
}

/// What came of the last request.
#[derive(Debug)]
pub enum Event {
    /// The listener is done: the confirmed point, or `None` after a cancel.
    Clicked(Option<Point>),
    /// The monitor that contains the point, as captured.
    Captured(Capture),
    /// No monitor contains the point.
    NoMonitor,
    /// The backend took the text.
    Copied,
    /// The backend failed, for this reason.
    CopyFailed(String),
    /// The pointer or the display could not be used, for this reason.
    Failed(String),
}

/// An event as contracts see it.
pub enum EventView {
    Clicked(Option<Point>),
    Captured(CaptureView),
    NoMonitor,
    Copied,
    CopyFailed(Seq<char>),
    Failed(Seq<char>),
}

impl View for Event {
    type V = EventView;

    open spec fn view(&self) -> EventView {
        match self {
            Event::Clicked(click) => EventView::Clicked(*click),
            Event::Captured(capture) => EventView::Captured(capture@),
            Event::NoMonitor => EventView::NoMonitor,
            Event::Copied => EventView::Copied,
            Event::CopyFailed(why) => EventView::CopyFailed(why@),
            Event::Failed(why) => EventView::Failed(why@),
        }
    }
}

/// The machine's answer to one event: at most one piece of text to write,
/// then one request.
#[derive(Debug, PartialEq, Eq)]
pub struct Turn {
    pub emit: Option<Emission>,
    pub request: Request,
}

/// A turn as contracts see it.
pub struct TurnView {
    pub emit: Option<EmissionView>,
    pub request: RequestView,
}

impl View for Turn {
    type V = TurnView;

    open spec fn view(&self) -> TurnView {
        TurnView {
            emit: match self.emit {
                Some(emission) => Some(emission@),
                None => None,
            },
            request: self.request@,
        }
    }
}

/// The exit status of a run that did what it could.
pub const EXIT_SUCCESS: u8 = 0;

/// The exit status of a run that could not show a colour.
pub const EXIT_FAILURE: u8 = 1;

/// What is written after a cancel.
pub open spec fn farewell_text() -> Seq<char> {
    "Ending program\n"@
}

/// What is written when no monitor lies under the confirmed point.
pub open spec fn no_monitor_text() -> Seq<char> {
    "no monitor found\n"@
}

/// What is written when an event does not answer the last request.
pub open spec fn out_of_turn_text() -> Seq<char> {
    "unexpected event\n"@
}

/// What is written when the primary backend failed.
pub open spec fn primary_failed_text(why: Seq<char>) -> Seq<char> {
    why + "\nUsing fork\n"@
}

/// What is written when the fallback backend failed too.
pub open spec fn fallback_failed_text(why: Seq<char>) -> Seq<char> {
    "Fork clipboard method failed: "@ + why + "\n"@
}

/// What is written when the pointer or the display could not be used.
pub open spec fn failure_text(why: Seq<char>) -> Seq<char> {
    why + "\n"@
}

/// Unstyled text for standard output.
pub open spec fn says(text: Seq<char>) -> Option<EmissionView> {
    Some(EmissionView { stream: Stream::Stdout, style: None, text })
}

/// Unstyled text for the diagnostic stream.
pub open spec fn warns(text: Seq<char>) -> Option<EmissionView> {
    Some(EmissionView { stream: Stream::Stderr, style: None, text })
}

/// The end of a run that could not show a colour: the reason goes to the
/// diagnostic stream, and the run exits with `EXIT_FAILURE`.
pub open spec fn gives_up(text: Seq<char>) -> (Stage, TurnView) {
    (
        Stage::Finished(EXIT_FAILURE),
        TurnView { emit: warns(text), request: RequestView::Exit(EXIT_FAILURE) },
    )
}

/// The request with which a run in `stage` is waiting.
pub open spec fn pending(stage: Stage) -> RequestView {
    match stage {
        Stage::Listening => RequestView::Listen,
        Stage::Capturing(at) => RequestView::Capture(at),
        Stage::Copying(backend, color) => RequestView::Copy(backend, hex_text(color)),
        Stage::Finished(status) => RequestView::Exit(status),
    }
}

/// The machine: the stage after an event, and the turn that answers it.
///
/// * A finished run stays finished and only repeats its exit.
/// * A failure of the pointer or the display ends the run.
/// * A cancel says farewell and ends the run; a confirm asks for a capture.
/// * A capture that covers the point shows the colour and asks the primary
///   backend to copy its text; no monitor under the point ends the run.
/// * A backend that took the text ends the run. If the primary one failed,
///   its reason is written and the fallback is asked; if the fallback
///   failed, its reason is written and the run ends all the same.
/// * An event that does not answer the pending request ends the run.
pub open spec fn next(interactive: bool, stage: Stage, event: EventView) -> (Stage, TurnView) {
    match (stage, event) {
        (Stage::Finished(status), _) => (
            stage,
            TurnView { emit: None, request: RequestView::Exit(status) },
        ),
        (_, EventView::Failed(why)) => gives_up(failure_text(why)),
        (Stage::Listening, EventView::Clicked(Some(at))) => (
            Stage::Capturing(at),
            TurnView { emit: None, request: RequestView::Capture(at) },
        ),
        (Stage::Listening, EventView::Clicked(None)) => (
            Stage::Finished(EXIT_SUCCESS),
            TurnView { emit: says(farewell_text()), request: RequestView::Exit(EXIT_SUCCESS) },
        ),
        (Stage::Capturing(at), EventView::Captured(capture)) => match capture.sample(at) {
            Ok(color) => (
                Stage::Copying(Backend::Primary, color),
                TurnView {
                    emit: Some(spec_present(color, interactive)),
                    request: RequestView::Copy(Backend::Primary, hex_text(color)),
                },
            ),
            Err(_) => gives_up(no_monitor_text()),
        },
        (Stage::Capturing(_), EventView::NoMonitor) => gives_up(no_monitor_text()),
        (Stage::Copying(_, _), EventView::Copied) => (
            Stage::Finished(EXIT_SUCCESS),
            TurnView { emit: None, request: RequestView::Exit(EXIT_SUCCESS) },
        ),
        (Stage::Copying(Backend::Primary, color), EventView::CopyFailed(why)) => (
            Stage::Copying(Backend::Fallback, color),
            TurnView {
                emit: warns(primary_failed_text(why)),
                request: RequestView::Copy(Backend::Fallback, hex_text(color)),
            },
        ),
        (Stage::Copying(Backend::Fallback, _), EventView::CopyFailed(why)) => (
            Stage::Finished(EXIT_SUCCESS),
            TurnView {
                emit: warns(fallback_failed_text(why)),
                request: RequestView::Exit(EXIT_SUCCESS),
            },
        ),
        _ => gives_up(out_of_turn_text()),
    }
}

fn quiet(request: Request) -> (out: Turn)
    ensures
        out@ == (TurnView { emit: None, request: request@ }),
{
    Turn { emit: None, request }
}

fn say(text: String) -> (out: Option<Emission>)
    ensures
        out matches Some(e) && Some(e@) == says(text@),
{
    Some(Emission { stream: Stream::Stdout, style: None, text })
}

fn warn(text: String) -> (out: Option<Emission>)
    ensures
        out matches Some(e) && Some(e@) == warns(text@),
{
    Some(Emission { stream: Stream::Stderr, style: None, text })
}

fn give_up(text: String) -> (out: (Stage, Turn))
    ensures
        (out.0, out.1@) == gives_up(text@),
{
    (Stage::Finished(EXIT_FAILURE), Turn { emit: warn(text), request: Request::Exit(EXIT_FAILURE) })
}

fn primary_failed_message(why: String) -> (out: String)
    ensures
        out@ == primary_failed_text(why@),
{
    why.concat("\nUsing fork\n")
}

fn fallback_failed_message(why: String) -> (out: String)
    ensures
        out@ == fallback_failed_text(why@),
{
    String::from_str("Fork clipboard method failed: ").concat(why.as_str()).concat("\n")
}

fn failure_message(why: String) -> (out: String)
    ensures
        out@ == failure_text(why@),
{
    why.concat("\n")
}

/// One run of the picker.
#[derive(Debug)]
pub struct Session {
    interactive: bool,
    stage: Stage,
}

impl Session {
    /// Whether standard output is an interactive terminal.
    pub closed spec fn spec_interactive(&self) -> bool {
        self.interactive
    }

    /// Where the run stands.
    pub closed spec fn spec_stage(&self) -> Stage {
        self.stage
    }

    /// A run that has not begun to listen.
    pub fn new(interactive: bool) -> (out: Session)
        ensures
            out.spec_interactive() == interactive,
            out.spec_stage() == Stage::Listening,
    {
        Session { interactive, stage: Stage::Listening }
    }

    #[verifier::when_used_as_spec(spec_interactive)]
    pub fn interactive(&self) -> (out: bool)
        ensures
            out == self.spec_interactive(),
    {
        self.interactive
    }

    #[verifier::when_used_as_spec(spec_stage)]
    pub fn stage(&self) -> (out: Stage)
        ensures
            out == self.spec_stage(),
    {
        self.stage
    }

    /// The request with which the run is waiting: the first one of a new
    /// run, and after that the one of the last turn.
    pub fn pending(&self) -> (out: Request)
        ensures
            out@ == pending(self.spec_stage()),
    {
        match self.stage {
            Stage::Listening => Request::Listen,
            Stage::Capturing(at) => Request::Capture(at),
            Stage::Copying(backend, color) => Request::Copy(backend, color.to_hex()),
            Stage::Finished(status) => Request::Exit(status),
        }
    }

    /// Takes what came of the pending request and answers with the next
    /// turn.
    pub fn step(&mut self, event: Event) -> (turn: Turn)
        ensures
            final(self).spec_interactive() == old(self).spec_interactive(),
            (final(self).spec_stage(), turn@) == next(
                old(self).spec_interactive(),
                old(self).spec_stage(),
                event@,
            ),
    {
        let (stage, turn) = Self::answer(self.interactive, self.stage, event);
        self.stage = stage;
        turn
    }

    fn answer(interactive: bool, stage: Stage, event: Event) -> (out: (Stage, Turn))
        ensures
            (out.0, out.1@) == next(interactive, stage, event@),
    {
        match (stage, event) {
            (Stage::Finished(status), _) => (stage, quiet(Request::Exit(status))),
            (_, Event::Failed(why)) => give_up(failure_message(why)),
            (Stage::Listening, Event::Clicked(Some(at))) => (
                Stage::Capturing(at),
                quiet(Request::Capture(at)),
            ),
            (Stage::Listening, Event::Clicked(None)) => (
                Stage::Finished(EXIT_SUCCESS),
                Turn {
                    emit: say(String::from_str("Ending program\n")),
                    request: Request::Exit(EXIT_SUCCESS),
                },
            ),
            (Stage::Capturing(at), Event::Captured(capture)) => match capture.sample(at) {
                Ok(color) => (
                    Stage::Copying(Backend::Primary, color),
                    Turn {
                        emit: Some(present(color, interactive)),
                        request: Request::Copy(Backend::Primary, color.to_hex()),
                    },
                ),
                Err(_) => give_up(String::from_str("no monitor found\n")),
            },
            (Stage::Capturing(_), Event::NoMonitor) => give_up(
                String::from_str("no monitor found\n"),
            ),
            (Stage::Copying(_, _), Event::Copied) => (
                Stage::Finished(EXIT_SUCCESS),
                quiet(Request::Exit(EXIT_SUCCESS)),
            ),
            (Stage::Copying(Backend::Primary, color), Event::CopyFailed(why)) => (
                Stage::Copying(Backend::Fallback, color),
                Turn {
                    emit: warn(primary_failed_message(why)),
                    request: Request::Copy(Backend::Fallback, color.to_hex()),
                },
            ),
            (Stage::Copying(Backend::Fallback, _), Event::CopyFailed(why)) => (
                Stage::Finished(EXIT_SUCCESS),
                Turn {
                    emit: warn(fallback_failed_message(why)),
                    request: Request::Exit(EXIT_SUCCESS),
                },
            ),
            _ => give_up(String::from_str("unexpected event\n")),
        }
    }
}

} // verus!
