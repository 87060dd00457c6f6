use color_picker::color::Rgb;
use color_picker::present::{Emission, Stream, Style};
use color_picker::screen::{Capture, Frame, Point};
use color_picker::session::{
    Backend, Event, Request, Session, Stage, Turn, EXIT_FAILURE, EXIT_SUCCESS,
};

fn capture_at(origin: Point) -> Capture {
    let rgba = vec![
        0, 15, 255, 255, 4, 5, 6, 255, //
        7, 8, 9, 255, 171, 205, 239, 0,
    ];
    Capture { origin, frame: Frame::new(2, 2, rgba).unwrap() }
}

fn quiet(request: Request) -> Turn {
    Turn { emit: None, request }
}

fn stdout(text: &str) -> Option<Emission> {
    Some(Emission { stream: Stream::Stdout, style: None, text: String::from(text) })
}

fn stderr(text: &str) -> Option<Emission> {
    Some(Emission { stream: Stream::Stderr, style: None, text: String::from(text) })
}

fn copying(interactive: bool) -> Session {
    let mut session = Session::new(interactive);
    session.step(Event::Clicked(Some(Point { x: 11, y: 21 })));
    session.step(Event::Captured(capture_at(Point { x: 10, y: 20 })));
    session
}

#[test]
fn new_session_listens() {
    let session = Session::new(true);
    assert!(session.interactive());
    assert_eq!(session.stage(), Stage::Listening);
    assert_eq!(session.pending(), Request::Listen);
    assert!(!Session::new(false).interactive());
}

#[test]
fn cancel_says_farewell_and_ends() {
    let mut session = Session::new(true);
    let turn = session.step(Event::Clicked(None));
    assert_eq!(
        turn,
        Turn { emit: stdout("Ending program\n"), request: Request::Exit(EXIT_SUCCESS) }
    );
    assert_eq!(session.stage(), Stage::Finished(0));
}

#[test]
fn cancel_is_never_followed_by_a_copy() {
    let mut session = Session::new(false);
    session.step(Event::Clicked(None));
    let later = vec![
        Event::Clicked(Some(Point { x: 0, y: 0 })),
        Event::Captured(capture_at(Point { x: 0, y: 0 })),
        Event::NoMonitor,
        Event::Copied,
        Event::CopyFailed(String::from("no")),
        Event::Failed(String::from("no")),
        Event::Clicked(None),
    ];
    for event in later {
        assert_eq!(session.step(event), quiet(Request::Exit(0)));
        assert_eq!(session.stage(), Stage::Finished(0));
    }
}

#[test]
fn confirm_asks_for_a_capture() {
    let mut session = Session::new(false);
    let at = Point { x: -5, y: 900 };
    assert_eq!(session.step(Event::Clicked(Some(at))), quiet(Request::Capture(at)));
    assert_eq!(session.stage(), Stage::Capturing(at));
    assert_eq!(session.pending(), Request::Capture(at));
}

#[test]
fn capture_shows_the_colour_and_asks_the_primary_backend() {
    let mut session = Session::new(false);
    session.step(Event::Clicked(Some(Point { x: 10, y: 20 })));
    let turn = session.step(Event::Captured(capture_at(Point { x: 10, y: 20 })));
    assert_eq!(
        turn,
        Turn {
            emit: stdout("#000FFF\n"),
            request: Request::Copy(Backend::Primary, String::from("#000FFF")),
        }
    );
    assert_eq!(session.stage(), Stage::Copying(Backend::Primary, Rgb { r: 0, g: 15, b: 255 }));
}

#[test]
fn interactive_capture_shows_the_colour_on_its_swatch() {
    let mut session = Session::new(true);
    session.step(Event::Clicked(Some(Point { x: 11, y: 21 })));
    let turn = session.step(Event::Captured(capture_at(Point { x: 10, y: 20 })));
    assert_eq!(
        turn.emit,
        Some(Emission {
            stream: Stream::Stdout,
            style: Some(Style {
                background: Rgb { r: 171, g: 205, b: 239 },
                foreground: Rgb { r: 84, g: 50, b: 16 },
            }),
            text: String::from("#ABCDEF\n"),
        })
    );
    assert_eq!(turn.request, Request::Copy(Backend::Primary, String::from("#ABCDEF")));
}

#[test]
fn copied_by_the_primary_backend_ends_the_run() {
    let mut session = copying(true);
    assert_eq!(session.step(Event::Copied), quiet(Request::Exit(EXIT_SUCCESS)));
    assert_eq!(session.stage(), Stage::Finished(0));
    assert_eq!(session.step(Event::CopyFailed(String::from("late"))), quiet(Request::Exit(0)));
}

#[test]
fn failed_primary_backend_is_followed_by_the_fallback() {
    let mut session = copying(false);
    let turn = session.step(Event::CopyFailed(String::from("xclip is missing")));
    assert_eq!(
        turn,
        Turn {
            emit: stderr("xclip is missing\nUsing fork\n"),
            request: Request::Copy(Backend::Fallback, String::from("#ABCDEF")),
        }
    );
    assert_eq!(
        session.stage(),
        Stage::Copying(Backend::Fallback, Rgb { r: 171, g: 205, b: 239 })
    );
    assert_eq!(session.pending(), Request::Copy(Backend::Fallback, String::from("#ABCDEF")));
    assert_eq!(session.step(Event::Copied), quiet(Request::Exit(EXIT_SUCCESS)));
}

#[test]
fn failed_fallback_is_reported_and_the_run_still_succeeds() {
    let mut session = copying(false);
    session.step(Event::CopyFailed(String::from("first")));
    let turn = session.step(Event::CopyFailed(String::from("no display")));
    assert_eq!(
        turn,
        Turn {
            emit: stderr("Fork clipboard method failed: no display\n"),
            request: Request::Exit(EXIT_SUCCESS),
        }
    );
    assert_eq!(session.stage(), Stage::Finished(0));
}

#[test]
fn whole_run_asks_each_backend_at_most_once() {
    let mut session = Session::new(false);
    let events = vec![
        Event::Clicked(Some(Point { x: 10, y: 20 })),
        Event::Captured(capture_at(Point { x: 10, y: 20 })),
        Event::CopyFailed(String::from("a")),
        Event::CopyFailed(String::from("b")),
        Event::CopyFailed(String::from("c")),
        Event::Copied,
    ];
    let mut primary = 0;
    let mut fallback = 0;
    for event in events {
        match session.step(event).request {
            Request::Copy(Backend::Primary, _) => primary += 1,
            Request::Copy(Backend::Fallback, _) => fallback += 1,
            _ => {}
        }
    }
    assert_eq!((primary, fallback), (1, 1));
}

#[test]
fn no_monitor_ends_the_run_with_a_failure() {
    let mut session = Session::new(true);
    session.step(Event::Clicked(Some(Point { x: 5000, y: 5000 })));
    let turn = session.step(Event::NoMonitor);
    assert_eq!(
        turn,
        Turn { emit: stderr("no monitor found\n"), request: Request::Exit(EXIT_FAILURE) }
    );
    assert_eq!(session.stage(), Stage::Finished(1));
}

#[test]
fn capture_that_misses_the_point_ends_the_run_with_a_failure() {
    let mut session = Session::new(true);
    session.step(Event::Clicked(Some(Point { x: 12, y: 20 })));
    let turn = session.step(Event::Captured(capture_at(Point { x: 10, y: 20 })));
    assert_eq!(
        turn,
        Turn { emit: stderr("no monitor found\n"), request: Request::Exit(EXIT_FAILURE) }
    );
}

#[test]
fn failure_of_the_display_ends_the_run() {
    let mut session = Session::new(false);
    let turn = session.step(Event::Failed(String::from("cannot open display")));
    assert_eq!(
        turn,
        Turn { emit: stderr("cannot open display\n"), request: Request::Exit(EXIT_FAILURE) }
    );
    let mut session = copying(false);
    let turn = session.step(Event::Failed(String::from("gone")));
    assert_eq!(turn, Turn { emit: stderr("gone\n"), request: Request::Exit(1) });
}

#[test]
fn event_out_of_turn_ends_the_run() {
    let mut session = Session::new(false);
    let turn = session.step(Event::Copied);
    assert_eq!(
        turn,
        Turn { emit: stderr("unexpected event\n"), request: Request::Exit(EXIT_FAILURE) }
    );
    assert_eq!(session.stage(), Stage::Finished(1));
    let mut session = copying(false);
    let turn = session.step(Event::Clicked(None));
    assert_eq!(turn.request, Request::Exit(1));
}

#[test]
fn plain_session_never_styles_what_it_writes() {
    let mut session = Session::new(false);
    let events = vec![
        Event::Clicked(Some(Point { x: 10, y: 21 })),
        Event::Captured(capture_at(Point { x: 10, y: 20 })),
        Event::CopyFailed(String::from("a")),
        Event::CopyFailed(String::from("b")),
    ];
    for event in events {
        if let Some(emission) = session.step(event).emit {
            assert_eq!(emission.style, None);
            if emission.stream == Stream::Stdout {
                assert_eq!(emission.text, "#070809\n");
            }
        }
    }
}
