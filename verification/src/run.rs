//! What holds of whole runs, whatever the outside world answers.

use vstd::prelude::*;
use crate::color::{hex_text, Rgb};
use crate::present::{escape, plain_presentation_is_bare, spec_present, Stream};
use crate::screen::{CaptureView, Point};
use crate::session::{
    farewell_text, next, pending, says, Backend, EventView, RequestView, Stage, TurnView,
    EXIT_FAILURE, EXIT_SUCCESS,
};

verus! {

/// The turns of a run that starts in `stage` and is fed `events` in order.
pub open spec fn run(interactive: bool, stage: Stage, events: Seq<EventView>) -> Seq<TurnView>
    decreases events.len(),
{
    if events.len() == 0 {
        Seq::empty()
    } else {
        seq![next(interactive, stage, events[0]).1] + run(
            interactive,
            next(interactive, stage, events[0]).0,
            events.drop_first(),
        )
    }
}

/// Whether a turn asks `backend` to write to the clipboard.
pub open spec fn asks_copy(turn: TurnView, backend: Backend) -> bool {
    turn.request matches RequestView::Copy(b, _) && b == backend
}

/// How many of the turns ask `backend` to write to the clipboard.
pub open spec fn copies(turns: Seq<TurnView>, backend: Backend) -> nat
    decreases turns.len(),
{
    if turns.len() == 0 {
        0
    } else {
        (if asks_copy(turns[0], backend) {
            1nat
        } else {
            0nat
        }) + copies(turns.drop_first(), backend)
    }
}

/// A turn that writes nothing and ends the run with `status`.
pub open spec fn quiet_exit(status: u8) -> TurnView {
    TurnView { emit: None, request: RequestView::Exit(status) }
}

proof fn run_unfolds(interactive: bool, stage: Stage, first: EventView, rest: Seq<EventView>)
    ensures
        run(interactive, stage, seq![first] + rest) == seq![next(interactive, stage, first).1]
            + run(interactive, next(interactive, stage, first).0, rest),
{
    let events = seq![first] + rest;
    assert(events.drop_first() =~= rest);
}

proof fn copies_unfold(first: TurnView, rest: Seq<TurnView>, backend: Backend)
    ensures
        copies(seq![first] + rest, backend) == (if asks_copy(first, backend) {
            1nat
        } else {
            0nat
        }) + copies(rest, backend),
{
    let turns = seq![first] + rest;
    assert(turns.drop_first() =~= rest);
}

/// A run has one turn for each event.
pub proof fn run_answers_every_event(interactive: bool, stage: Stage, events: Seq<EventView>)
    ensures
        run(interactive, stage, events).len() == events.len(),
    decreases events.len(),
{
    if events.len() > 0 {
        run_answers_every_event(
            interactive,
            next(interactive, stage, events[0]).0,
            events.drop_first(),
        );
    }
}

/// Every turn asks for what the stage after it is waiting for, and a
/// finished run asks for its exit.
pub proof fn turn_asks_what_is_pending(interactive: bool, stage: Stage, event: EventView)
    ensures
        next(interactive, stage, event).1.request == pending(next(interactive, stage, event).0),
        next(interactive, stage, event).0 is Finished
            <==> next(interactive, stage, event).1.request is Exit,
{
}

/// A finished run stays finished: whatever comes, it writes nothing, asks
/// only for its exit, and never reaches for the clipboard.
pub proof fn finished_run_is_inert(interactive: bool, status: u8, events: Seq<EventView>)
    ensures
        forall|i: int|
            0 <= i < events.len() ==> #[trigger] run(
                interactive,
                Stage::Finished(status),
                events,
            )[i] == quiet_exit(status),
        copies(run(interactive, Stage::Finished(status), events), Backend::Primary) == 0,
        copies(run(interactive, Stage::Finished(status), events), Backend::Fallback) == 0,
    decreases events.len(),
{
    let stage = Stage::Finished(status);
    run_answers_every_event(interactive, stage, events);
    if events.len() > 0 {
        let rest = events.drop_first();
        finished_run_is_inert(interactive, status, rest);
        run_answers_every_event(interactive, stage, rest);
        let tail = run(interactive, stage, rest);
        copies_unfold(quiet_exit(status), tail, Backend::Primary);
        copies_unfold(quiet_exit(status), tail, Backend::Fallback);
    }
}

/// A cancel does nothing but say farewell: the run ends with success, and
/// whatever comes after, nothing more is written and no backend is ever
/// asked to write to the clipboard.
pub proof fn cancel_does_nothing(interactive: bool, rest: Seq<EventView>)
    ensures
        ({
            let turns = run(
                interactive,
                Stage::Listening,
                seq![EventView::Clicked(None)] + rest,
            );
            &&& turns.len() == 1 + rest.len()
            &&& turns[0] == TurnView {
                emit: says(farewell_text()),
                request: RequestView::Exit(EXIT_SUCCESS),
            }
            &&& forall|i: int| 1 <= i < turns.len() ==> #[trigger] turns[i] == quiet_exit(
                EXIT_SUCCESS,
            )
            &&& copies(turns, Backend::Primary) == 0
            &&& copies(turns, Backend::Fallback) == 0
        }),
{
    let first = EventView::Clicked(None);
    let tail = run(interactive, Stage::Finished(EXIT_SUCCESS), rest);
    let farewell = TurnView {
        emit: says(farewell_text()),
        request: RequestView::Exit(EXIT_SUCCESS),
    };
    run_unfolds(interactive, Stage::Listening, first, rest);
    run_answers_every_event(interactive, Stage::Finished(EXIT_SUCCESS), rest);
    finished_run_is_inert(interactive, EXIT_SUCCESS, rest);
    copies_unfold(farewell, tail, Backend::Primary);
    copies_unfold(farewell, tail, Backend::Fallback);
}

/// After the fallback backend has been asked, no backend is asked again.
pub proof fn fallback_is_the_last_attempt(
    interactive: bool,
    color: Rgb,
    events: Seq<EventView>,
)
    ensures
        copies(
            run(interactive, Stage::Copying(Backend::Fallback, color), events),
            Backend::Primary,
        ) == 0,
        copies(
            run(interactive, Stage::Copying(Backend::Fallback, color), events),
            Backend::Fallback,
        ) == 0,
{
    let stage = Stage::Copying(Backend::Fallback, color);
    if events.len() > 0 {
        let after = next(interactive, stage, events[0]);
        let status = after.0->Finished_0;
        let tail = run(interactive, after.0, events.drop_first());
        finished_run_is_inert(interactive, status, events.drop_first());
        copies_unfold(after.1, tail, Backend::Primary);
        copies_unfold(after.1, tail, Backend::Fallback);
    }
}

/// After the primary backend has been asked, it is not asked again, and
/// the fallback is asked once if the primary one failed, and else never.
pub proof fn fallback_follows_a_failed_primary(
    interactive: bool,
    color: Rgb,
    events: Seq<EventView>,
)
    ensures
        ({
            let turns = run(interactive, Stage::Copying(Backend::Primary, color), events);
            let failed = events.len() > 0 && events[0] is CopyFailed;
            &&& copies(turns, Backend::Primary) == 0
            &&& copies(turns, Backend::Fallback) == if failed {
                1nat
            } else {
                0nat
            }
            &&& failed ==> turns[0].request == RequestView::Copy(
                Backend::Fallback,
                hex_text(color),
            )
        }),
{
    let stage = Stage::Copying(Backend::Primary, color);
    if events.len() > 0 {
        let after = next(interactive, stage, events[0]);
        let rest = events.drop_first();
        let tail = run(interactive, after.0, rest);
        if events[0] is CopyFailed {
            fallback_is_the_last_attempt(interactive, color, rest);
        } else {
            let status = after.0->Finished_0;
            finished_run_is_inert(interactive, status, rest);
        }
        copies_unfold(after.1, tail, Backend::Primary);
        copies_unfold(after.1, tail, Backend::Fallback);
    }
}

/// A confirm on a point that the captured monitor covers shows the colour
/// and makes one attempt to copy its text: the primary backend is asked
/// exactly once, and the fallback once if the primary one failed, and else
/// never, whatever comes after.
pub proof fn confirm_copies_once(
    interactive: bool,
    at: Point,
    capture: CaptureView,
    rest: Seq<EventView>,
)
    requires
        capture.sample(at) is Ok,
    ensures
        ({
            let color = capture.sample(at)->Ok_0;
            let turns = run(
                interactive,
                Stage::Listening,
                seq![EventView::Clicked(Some(at)), EventView::Captured(capture)] + rest,
            );
            let failed = rest.len() > 0 && rest[0] is CopyFailed;
            &&& turns.len() == 2 + rest.len()
            &&& turns[0] == TurnView { emit: None, request: RequestView::Capture(at) }
            &&& turns[1] == TurnView {
                emit: Some(spec_present(color, interactive)),
                request: RequestView::Copy(Backend::Primary, hex_text(color)),
            }
            &&& copies(turns, Backend::Primary) == 1
            &&& copies(turns, Backend::Fallback) == if failed {
                1nat
            } else {
                0nat
            }
            &&& failed ==> turns[2].request == RequestView::Copy(
                Backend::Fallback,
                hex_text(color),
            )
        }),
{
    let color = capture.sample(at)->Ok_0;
    let clicked = EventView::Clicked(Some(at));
    let captured = EventView::Captured(capture);
    let copying = Stage::Copying(Backend::Primary, color);
    let tail = run(interactive, copying, rest);
    let asked = TurnView { emit: None, request: RequestView::Capture(at) };
    let shown = TurnView {
        emit: Some(spec_present(color, interactive)),
        request: RequestView::Copy(Backend::Primary, hex_text(color)),
    };
    assert(seq![clicked, captured] + rest =~= seq![clicked] + (seq![captured] + rest));
    run_unfolds(interactive, Stage::Listening, clicked, seq![captured] + rest);
    run_unfolds(interactive, Stage::Capturing(at), captured, rest);
    run_answers_every_event(interactive, copying, rest);
    fallback_follows_a_failed_primary(interactive, color, rest);
    copies_unfold(shown, tail, Backend::Primary);
    copies_unfold(shown, tail, Backend::Fallback);
    copies_unfold(asked, seq![shown] + tail, Backend::Primary);
    copies_unfold(asked, seq![shown] + tail, Backend::Fallback);
}

/// The listener is one-shot: once its result is in, no turn asks to listen
/// again.
pub proof fn listener_is_one_shot(interactive: bool, stage: Stage, event: EventView)
    ensures
        !(next(interactive, stage, event).0 is Listening),
        !(next(interactive, stage, event).1.request is Listen),
{
}

/// Only the clipboard is forgiven: once the colour has been shown, the run
/// ends with success whether the backends took the text or failed; a run
/// that ends before that, for any reason but a cancel, ends with failure.
pub proof fn only_clipboard_failures_are_forgiven(
    interactive: bool,
    stage: Stage,
    event: EventView,
)
    requires
        !(stage is Finished),
        next(interactive, stage, event).0 is Finished,
    ensures
        ({
            let status = next(interactive, stage, event).0->Finished_0;
            let answered = event is Copied || event is CopyFailed;
            let cancelled = stage is Listening && event == EventView::Clicked(None);
            &&& status == EXIT_SUCCESS || status == EXIT_FAILURE
            &&& status == EXIT_SUCCESS <==> (stage is Copying && answered) || cancelled
        }),
{
}

/// Away from an interactive terminal no turn ever carries a style, and what
/// goes to standard output is the farewell or a colour's bare text and a
/// line end, with no escape character in it.
pub proof fn plain_run_has_no_escapes(stage: Stage, event: EventView)
    ensures
        next(false, stage, event).1.emit matches Some(e) ==> {
            &&& e.style is None
            &&& e.stream == Stream::Stdout ==> {
                ||| e.text == farewell_text()
                ||| {
                    &&& stage matches Stage::Capturing(at)
                    &&& event matches EventView::Captured(capture)
                    &&& capture.sample(at) matches Ok(color)
                    &&& e.text == hex_text(color) + seq!['\n']
                }
            }
            &&& e.stream == Stream::Stdout ==> forall|i: int|
                0 <= i < e.text.len() ==> #[trigger] e.text[i] != escape()
        },
{
    let turn = next(false, stage, event).1;
    if let Some(e) = turn.emit {
        if e.stream == Stream::Stdout {
            if e.text == farewell_text() {
                reveal_strlit("Ending program\n");
            } else {
                let at = stage->Capturing_0;
                let capture = event->Captured_0;
                let color = capture.sample(at)->Ok_0;
                plain_presentation_is_bare(color);
            }
        }
    }
}

} // verus!
