//! What holds of every run of the open/close utility.
//!
//! A run is the sequence of events that a program reports to
//! [`step`](crate::lifecycle::step), one after the other, starting in
//! [`State::Init`]. The laws below speak of all such sequences, whatever the
//! host library answers.

use crate::chip::GpiodChip;
use crate::cstr::{nul_position, terminated};
use crate::lifecycle::{
    announcement, begin, closed_message, finish, open_failure_message, opened_message, receive,
    resolved_path, transition, Event, RequestView, State, Stream, TransitionView,
};
use vstd::prelude::*;
use vstd::utf8::encode_utf8;

verus! {

/// The state that a run is in after the transitions of `trace`.
pub open spec fn state_after(trace: Seq<TransitionView>) -> State {
    if trace.len() == 0 {
        State::Init
    } else {
        trace.last().state
    }
}

/// The transitions that `events` lead through, one for each event, or `None`
/// where one of the events is not taken.
pub open spec fn run(events: Seq<Event>) -> Option<Seq<TransitionView>>
    decreases events.len(),
{
    if events.len() == 0 {
        Some(Seq::empty())
    } else {
        match run(events.drop_last()) {
            None => None,
            Some(before) => match transition(state_after(before), events.last()) {
                None => None,
                Some(next) => Some(before.push(next)),
            },
        }
    }
}

/// Whether a run can go on from `state`.
pub open spec fn terminal(state: State) -> bool {
    state == State::FailEncode || state == State::FailOpen || state == State::Closed
}

/// Every run has one of three shapes: it starts, then takes what the open
/// operation returned, then takes the release. Each transition is the one
/// that the machine prescribes, and no run is longer than that.
pub proof fn lemma_run_shape(events: Seq<Event>)
    requires
        run(events) is Some,
    ensures
        run(events)->0.len() == events.len() <= 3,
        events.len() >= 1 ==> events[0] is Started && run(events)->0[0] == begin(
            events[0]->args@,
        ),
        events.len() >= 2 ==> run(events)->0[0].state == State::PathReady && events[1] is Opened
            && run(events)->0[1] == receive(events[1]->chip),
        events.len() >= 3 ==> run(events)->0[1].state == State::ChipOpen && events[2] is Released
            && run(events)->0[2] == finish(),
    decreases events.len(),
{
    if events.len() > 0 {
        lemma_run_shape(events.drop_last());
    }
}

/// Which events are taken where: the start in [`State::Init`], the answer of
/// the open operation in [`State::PathReady`], the release in
/// [`State::ChipOpen`], and nothing else. So a state that is not terminal
/// always has an event to go on with, and a terminal state takes none.
pub proof fn lemma_events_taken(state: State, event: Event)
    ensures
        transition(state, event) is Some <==> (state == State::Init && event is Started) || (state
            == State::PathReady && event is Opened) || (state == State::ChipOpen
            && event is Released),
        terminal(state) ==> transition(state, event) is None,
{
}

/// Runs exist: whatever the arguments, the start is taken; where the path
/// holds no zero byte, so is whatever the open operation returns; and where
/// that is a handle, so is its release. Each run is the sequence of the
/// transitions that the machine prescribes.
pub proof fn lemma_runs_exist(args: Vec<String>, chip: GpiodChip)
    ensures
        run(seq![Event::Started { args }]) == Some(seq![begin(args@)]),
        nul_position(encode_utf8(resolved_path(args@))) is None ==> run(
            seq![Event::Started { args }, Event::Opened { chip }],
        ) == Some(seq![begin(args@), receive(chip)]),
        nul_position(encode_utf8(resolved_path(args@))) is None && !chip.null() ==> run(
            seq![Event::Started { args }, Event::Opened { chip }, Event::Released],
        ) == Some(seq![begin(args@), receive(chip), finish()]),
{
    let started = Event::Started { args };
    let opened = Event::Opened { chip };
    let one = seq![started];
    let two = seq![started, opened];
    let three = seq![started, opened, Event::Released];
    assert(one.drop_last() =~= Seq::<Event>::empty());
    assert(run(one.drop_last()) == Some(Seq::<TransitionView>::empty()));
    assert(run(one)->0 =~= seq![begin(args@)]);
    if nul_position(encode_utf8(resolved_path(args@))) is None {
        assert(two.drop_last() =~= one);
        assert(run(two)->0 =~= seq![begin(args@), receive(chip)]);
        if !chip.null() {
            assert(three.drop_last() =~= two);
            assert(run(three)->0 =~= seq![begin(args@), receive(chip), finish()]);
        }
    }
}

/// For a path without a zero byte, a finished run is one of exactly two.
///
/// Either the host library returned a handle: then the three success lines
/// were written to standard output in order, the handle was released, and the
/// exit code is 0. Or it returned the null sentinel: then the failure was
/// written to standard error after the announcement, no release was asked
/// for, and the exit code is 1.
pub proof fn lemma_finished_run_of_valid_path(events: Seq<Event>)
    requires
        run(events) is Some,
        terminal(state_after(run(events)->0)),
        events.len() > 0,
        events[0] is Started,
        nul_position(encode_utf8(resolved_path(events[0]->args@))) is None,
    ensures
        events.len() >= 2,
        events[1] is Opened,
        ({
            let path = resolved_path(events[0]->args@);
            let chip = events[1]->chip;
            let asked = RequestView::Open { path: terminated(encode_utf8(path)) };
            if chip.null() {
                run(events)->0 == seq![
                    TransitionView {
                        state: State::PathReady,
                        stream: Stream::Stdout,
                        line: announcement(path),
                        request: asked,
                    },
                    TransitionView {
                        state: State::FailOpen,
                        stream: Stream::Stderr,
                        line: open_failure_message(),
                        request: RequestView::Exit { code: 1 },
                    },
                ]
            } else {
                run(events)->0 == seq![
                    TransitionView {
                        state: State::PathReady,
                        stream: Stream::Stdout,
                        line: announcement(path),
                        request: asked,
                    },
                    TransitionView {
                        state: State::ChipOpen,
                        stream: Stream::Stdout,
                        line: opened_message(),
                        request: RequestView::Close { chip },
                    },
                    TransitionView {
                        state: State::Closed,
                        stream: Stream::Stdout,
                        line: closed_message(),
                        request: RequestView::Exit { code: 0 },
                    },
                ]
            }
        }),
{
    lemma_run_shape(events);
    let trace = run(events)->0;
    let chip = events[1]->chip;
    if chip.null() {
        assert(trace =~= seq![begin(events[0]->args@), receive(chip)]);
    } else {
        assert(trace =~= seq![begin(events[0]->args@), receive(chip), finish()]);
    }
}

/// A path with a zero byte ends the run at once: the announcement is the only
/// line, the only request is to fail with the place of the zero byte, and the
/// host library is never asked to open anything.
pub proof fn lemma_run_of_invalid_path(events: Seq<Event>)
    requires
        run(events) is Some,
        events.len() > 0,
        events[0] is Started,
        nul_position(encode_utf8(resolved_path(events[0]->args@))) is Some,
    ensures
        events.len() == 1,
        run(events)->0.len() == 1,
        run(events)->0[0] == (TransitionView {
            state: State::FailEncode,
            stream: Stream::Stdout,
            line: announcement(resolved_path(events[0]->args@)),
            request: RequestView::Abort {
                position: nul_position(encode_utf8(resolved_path(events[0]->args@)))->0,
                bytes: encode_utf8(resolved_path(events[0]->args@)),
            },
        }),
        forall|i: int| 0 <= i < run(events)->0.len() ==> !(run(events)->0[i].request is Open),
{
    lemma_run_shape(events);
}

/// In every run, a release is asked for exactly in answer to an open
/// operation that returned a handle, and for that handle. It is asked for at
/// most once, as is the opening itself.
pub proof fn lemma_close_iff_opened(events: Seq<Event>)
    requires
        run(events) is Some,
    ensures
        run(events)->0.len() == events.len(),
        forall|i: int|
            0 <= i < events.len() ==> ((#[trigger] run(events)->0[i]).request is Close <==> (
            events[i] is Opened && !events[i]->chip.null())),
        forall|i: int|
            0 <= i < events.len() && (#[trigger] run(events)->0[i]).request is Close ==> run(
                events,
            )->0[i].request->Close_chip == events[i]->chip,
        forall|i: int, j: int|
            0 <= i < events.len() && 0 <= j < events.len() && (#[trigger] run(
                events,
            )->0[i]).request is Close && (#[trigger] run(events)->0[j]).request is Close ==> i
                == j,
        forall|i: int, j: int|
            0 <= i < events.len() && 0 <= j < events.len() && (#[trigger] run(
                events,
            )->0[i]).request is Open && (#[trigger] run(events)->0[j]).request is Open ==> i == j,
{
    lemma_run_shape(events);
}

/// A run that has ended has released every handle that it was given: it ends
/// in [`State::Closed`] exactly where the open operation returned a handle,
/// and then the release was asked for before the end.
pub proof fn lemma_no_handle_outlives_run(events: Seq<Event>)
    requires
        run(events) is Some,
        terminal(state_after(run(events)->0)),
    ensures
        state_after(run(events)->0) == State::Closed <==> (events.len() >= 2 && events[1] is Opened
            && !events[1]->chip.null()),
        state_after(run(events)->0) == State::Closed ==> events.len() == 3 && run(
            events,
        )->0[1].request == (RequestView::Close { chip: events[1]->chip }),
{
    lemma_run_shape(events);
}

} // verus!
