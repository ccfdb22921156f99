//! The open/close utility as a state machine.
//!
//! The utility opens a GPIO chip, says so, and releases it again. Opening and
//! releasing are calls into the host library, which this crate does not make.
//! What it holds is every decision between those calls: [`step`] takes the
//! state of the run and what just happened, and answers with the next state,
//! the one line to write, and the one thing to do next. The program around it
//! does as it is told and reports back.

use crate::chip::GpiodChip;
use crate::cstr::{encode_path, nul_position, terminated, PathEncodingError};
use vstd::prelude::*;
use vstd::string::StringExecFns;
use vstd::utf8::encode_utf8;

verus! {

/// Where a run of the utility stands.
#[derive(Clone, Copy, Debug, PartialEq, Eq, Structural)]
pub enum State {
    /// Nothing has happened yet.
    Init,
    /// The path is resolved and encoded, and the chip is being opened.
    PathReady,
    /// The path holds a zero byte. Terminal; the host library was not called.
    FailEncode,
    /// The host library returned a handle, which is being released.
    ChipOpen,
    /// The host library returned the null sentinel. Terminal.
    FailOpen,
    /// The handle is released. Terminal.
    Closed,
}

/// One of the two streams that the utility writes to.
#[derive(Clone, Copy, Debug, PartialEq, Eq, Structural)]
pub enum Stream {
    /// Standard output, for what went well.
    Stdout,
    /// Standard error, for diagnostics.
    Stderr,
}

/// What happened outside, as the program reports it to [`step`].
#[derive(Debug)]
pub enum Event {
    /// The program was started with these arguments, its own name first.
    Started { args: Vec<String> },
    /// The open operation returned this handle.
    Opened { chip: GpiodChip },
    /// The close operation returned.
    Released,
}

/// What the program is to do after it has written the line of a transition.
#[derive(Debug)]
pub enum Request {
    /// Call the open operation on this null-terminated path and report the
    /// handle as [`Event::Opened`].
    Open { path: Vec<u8> },
    /// Call the close operation on this handle and report [`Event::Released`].
    Close { chip: GpiodChip },
    /// End the process with this exit code.
    Exit { code: i32 },
    /// Fail with a diagnostic that identifies the refused path, and a
    /// non-zero exit code.
    Abort { error: PathEncodingError },
}

/// The answer of [`step`]: the next state, one line for one stream, and what
/// to do once the line is written.
#[derive(Debug)]
pub struct Transition {
    pub state: State,
    pub stream: Stream,
    pub line: String,
    pub request: Request,
}

/// An event that the state it arrived in does not take. Both are handed back
/// as they came.
#[derive(Debug)]
pub struct Rejected {
    pub state: State,
    pub event: Event,
}

/// A [`Request`] as contracts see it.
pub enum RequestView {
    Open { path: Seq<u8> },
    Close { chip: GpiodChip },
    Exit { code: i32 },
    Abort { position: int, bytes: Seq<u8> },
}

/// A [`Transition`] as contracts see it.
pub struct TransitionView {
    pub state: State,
    pub stream: Stream,
    pub line: Seq<char>,
    pub request: RequestView,
}

impl View for Request {
    type V = RequestView;

    open spec fn view(&self) -> RequestView {
        match *self {
            Request::Open { path } => RequestView::Open { path: path@ },
            Request::Close { chip } => RequestView::Close { chip },
            Request::Exit { code } => RequestView::Exit { code },
            Request::Abort { error } => RequestView::Abort {
                position: error.position as int,
                bytes: error.bytes@,
            },
        }
    }
}

impl View for Transition {
    type V = TransitionView;

    open spec fn view(&self) -> TransitionView {
        TransitionView {
            state: self.state,
            stream: self.stream,
            line: self.line@,
            request: self.request@,
        }
    }
}

/// The path that is opened when the command line names none.
pub open spec fn default_path() -> Seq<char> {
    "/dev/gpiochip0"@
}

/// The path that a command line asks for: its first argument after the
/// program's name, or the default where there is none.
pub open spec fn resolved_path(args: Seq<String>) -> Seq<char> {
    if args.len() > 1 {
        args[1]@
    } else {
        default_path()
    }
}

/// The line that announces the attempt to open `path`.
pub open spec fn announcement(path: Seq<char>) -> Seq<char> {
    "Opening GPIO chip at `"@ + path + "`..."@
}

/// The line that reports a chip as opened.
pub open spec fn opened_message() -> Seq<char> {
    "Successfully opened GPIO chip"@
}

/// The line that reports a chip as released.
pub open spec fn closed_message() -> Seq<char> {
    "Successfully closed GPIO chip"@
}

/// The diagnostic for a chip that the host library could not open.
pub open spec fn open_failure_message() -> Seq<char> {
    "Failed to open GPIO chip"@
}

/// The transition out of [`State::Init`]: the path is resolved and announced.
/// Where it can be encoded the chip is to be opened, and otherwise the run
/// ends before the host library is called.
pub open spec fn begin(args: Seq<String>) -> TransitionView {
    let path = resolved_path(args);
    let bytes = encode_utf8(path);
    match nul_position(bytes) {
        None => TransitionView {
            state: State::PathReady,
            stream: Stream::Stdout,
            line: announcement(path),
            request: RequestView::Open { path: terminated(bytes) },
        },
        Some(at) => TransitionView {
            state: State::FailEncode,
            stream: Stream::Stdout,
            line: announcement(path),
            request: RequestView::Abort { position: at, bytes },
        },
    }
}

/// The transition out of [`State::PathReady`]: a handle is reported as opened
/// and is to be released; the null sentinel is reported as a failure and ends
/// the run with exit code 1.
pub open spec fn receive(chip: GpiodChip) -> TransitionView {
    if chip.null() {
        TransitionView {
            state: State::FailOpen,
            stream: Stream::Stderr,
            line: open_failure_message(),
            request: RequestView::Exit { code: 1 },
        }
    } else {
        TransitionView {
            state: State::ChipOpen,
            stream: Stream::Stdout,
            line: opened_message(),
            request: RequestView::Close { chip },
        }
    }
}

/// The transition out of [`State::ChipOpen`]: the release is reported and the
/// run ends with exit code 0.
pub open spec fn finish() -> TransitionView {
    TransitionView {
        state: State::Closed,
        stream: Stream::Stdout,
        line: closed_message(),
        request: RequestView::Exit { code: 0 },
    }
}

/// The whole machine: what `event` leads to in `state`, or `None` where the
/// state does not take the event.
pub open spec fn transition(state: State, event: Event) -> Option<TransitionView> {
    match (state, event) {
        (State::Init, Event::Started { args }) => Some(begin(args@)),
        (State::PathReady, Event::Opened { chip }) => Some(receive(chip)),
        (State::ChipOpen, Event::Released) => Some(finish()),
        _ => None,
    }
}

/// Picks the device path from the command line: the first argument after the
/// program's name, or `/dev/gpiochip0` where there is none.
pub fn resolve_path<'a>(args: &'a Vec<String>) -> (path: &'a str)
    ensures
        path@ == resolved_path(args@),
        args@.len() <= 1 ==> path@ == default_path(),
{
    if args.len() > 1 {
        args[1].as_str()
    } else {
        "/dev/gpiochip0"
    }
}

/// Writes the line that announces the attempt to open `path`.
pub fn announce(path: &str) -> (line: String)
    ensures
        line@ == announcement(path@),
{
    let mut line = String::from_str("Opening GPIO chip at `");
    line.append(path);
    line.append("`...");
    line
}

/// Starts a run: resolves the path, announces it and encodes it.
pub fn start(args: &Vec<String>) -> (next: Transition)
    ensures
        next@ == begin(args@),
{
    let path = resolve_path(args);
    let line = announce(path);
    match encode_path(path) {
        Ok(bytes) => Transition {
            state: State::PathReady,
            stream: Stream::Stdout,
            line,
            request: Request::Open { path: bytes },
        },
        Err(error) => Transition {
            state: State::FailEncode,
            stream: Stream::Stdout,
            line,
            request: Request::Abort { error },
        },
    }
}

/// Takes what the open operation returned. A handle is released again, and
/// only a handle: for the null sentinel no close is asked for.
pub fn opened(chip: GpiodChip) -> (next: Transition)
    ensures
        next@ == receive(chip),
{
    if chip.is_null() {
        Transition {
            state: State::FailOpen,
            stream: Stream::Stderr,
            line: String::from_str("Failed to open GPIO chip"),
            request: Request::Exit { code: 1 },
        }
    } else {
        Transition {
            state: State::ChipOpen,
            stream: Stream::Stdout,
            line: String::from_str("Successfully opened GPIO chip"),
            request: Request::Close { chip },
        }
    }
}

/// Ends a run whose handle has been released.
pub fn released() -> (next: Transition)
    ensures
        next@ == finish(),
{
    Transition {
        state: State::Closed,
        stream: Stream::Stdout,
        line: String::from_str("Successfully closed GPIO chip"),
        request: Request::Exit { code: 0 },
    }
}

/// Advances a run by one event.
///
/// The event is taken exactly where [`transition`] has an answer for it, and
/// the answer is that one. Any other event is handed back with the state.
pub fn step(state: State, event: Event) -> (result: Result<Transition, Rejected>)
    ensures
        match transition(state, event) {
            Some(expected) => result matches Ok(next) && next@ == expected,
            None => result matches Err(rejected) && rejected.state == state && rejected.event
                == event,
        },
{
    match state {
        State::Init => match event {
            Event::Started { args } => Ok(start(&args)),
            other => Err(Rejected { state, event: other }),
        },
        State::PathReady => match event {
            Event::Opened { chip } => Ok(opened(chip)),
            other => Err(Rejected { state, event: other }),
        },
        State::ChipOpen => match event {
            Event::Released => Ok(released()),
            other => Err(Rejected { state, event: other }),
        },
        _ => Err(Rejected { state, event }),
    }
}

} // verus!
