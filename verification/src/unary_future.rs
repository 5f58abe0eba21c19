//! The unary response adapter: a single-shot state machine wrapping one
//! in-flight unary call. An outside driver polls the wire future and hands
//! the outcome here as an event; the adapter converts a ready response to
//! its domain value and transitions to `Finished` exactly once.
use core::marker::PhantomData;
use vstd::prelude::*;

use crate::convert::ConvertResponse;
use crate::error::{Error, ErrorKind};
use crate::poll::Async;

verus! {

/// The lifecycle of a unary call: in flight, or finished.
pub enum State {
    Pending,
    Finished,
}

/// What polling the wire future produced: nothing yet, the response
/// message, or a transport failure with its description.
pub enum PollEvent<R> {
    NotReady,
    Ready(R),
    Failed(String),
}

/// Whether this event ends a pending unary call: any outcome of the wire
/// future other than "not ready" produces the adapter's terminal result.
pub open spec fn event_terminal<R>(e: PollEvent<R>) -> bool {
    !(e is NotReady)
}

/// The state one poll leaves a unary adapter in: unchanged on "not
/// ready", `Finished` on any terminal event.
pub open spec fn next_state<R>(s: State, e: PollEvent<R>) -> State {
    if event_terminal(e) {
        State::Finished
    } else {
        s
    }
}

/// The state a unary adapter reaches after being polled, from fresh, with
/// each of the events in turn.
pub open spec fn run_state<R>(events: Seq<PollEvent<R>>) -> State
    decreases events.len(),
{
    if events.len() == 0 {
        State::Pending
    } else {
        next_state(run_state(events.drop_last()), events.last())
    }
}

/// How many of the events yield a terminal outcome (a value or an error).
pub open spec fn terminal_count<R>(events: Seq<PollEvent<R>>) -> nat
    decreases events.len(),
{
    if events.len() == 0 {
        0
    } else {
        terminal_count(events.drop_last()) + if event_terminal(events.last()) {
            1nat
        } else {
            0nat
        }
    }
}

proof fn lemma_terminal_count_zero<R>(events: Seq<PollEvent<R>>)
    requires
        forall|i: int| 0 <= i < events.len() ==> !event_terminal(#[trigger] events[i]),
    ensures
        terminal_count(events) == 0,
    decreases events.len(),
{
    if events.len() > 0 {
        assert forall|i: int|
            0 <= i < events.drop_last().len() implies !event_terminal(
            #[trigger] events.drop_last()[i],
        ) by {
            assert(events.drop_last()[i] == events[i]);
        }
        lemma_terminal_count_zero(events.drop_last());
    }
}

/// Law: a unary adapter never yields a value or an error on more than one
/// poll sequence. `poll_with` requires a still-pending adapter, so in any
/// sequence of events a driver can legally submit — one where every
/// proper prefix leaves the adapter pending — only the last event can be
/// terminal, and at most one terminal outcome is yielded in all.
pub proof fn lemma_unary_single_outcome<R>(events: Seq<PollEvent<R>>)
    requires
        forall|i: int| 0 <= i < events.len() ==> run_state::<R>(#[trigger] events.take(i)) is Pending,
    ensures
        forall|i: int|
            0 <= i < events.len() && event_terminal(#[trigger] events[i]) ==> i == events.len()
                - 1,
        terminal_count(events) <= 1,
{
    assert forall|i: int|
        0 <= i < events.len() && event_terminal(#[trigger] events[i]) implies i == events.len()
        - 1 by {
        if i < events.len() - 1 {
            assert(events.take(i + 1).drop_last() =~= events.take(i));
            assert(events.take(i + 1).last() == events[i]);
            assert(run_state::<R>(events.take(i + 1)) is Finished);
            assert(run_state::<R>(events.take(i + 1)) is Pending);
        }
    }
    if events.len() > 0 {
        lemma_terminal_count_zero(events.drop_last());
    }
}

/// A single-shot future adapting one unary call whose wire response `R`
/// converts to the domain value `T`.
pub struct ResponseFuture<T: View, R: ConvertResponse<T>> {
    pub state: State,
    pub marker: PhantomData<(T, R)>,
}

impl<T: View, R: ConvertResponse<T>> ResponseFuture<T, R> {
    /// A fresh adapter for a call just issued.
    pub fn new() -> (f: Self)
        ensures
            f.state is Pending,
    {
        ResponseFuture { state: State::Pending, marker: PhantomData }
    }

    /// Whether the adapter has already produced its terminal outcome.
    /// A finished adapter must not be polled again: the driver aborts
    /// instead, as polling past completion is a programming error.
    pub fn is_finished(&self) -> (b: bool)
        ensures
            b == (self.state is Finished),
    {
        match self.state {
            State::Pending => false,
            State::Finished => true,
        }
    }

    /// One poll step, driven by the wire future's outcome. A pending wire
    /// future leaves the adapter pending with no result; a ready response
    /// or a transport failure moves it to `Finished` — its one terminal
    /// transition — and yields the converted domain value, the
    /// conversion's error, or an `Rpc` error. A finished adapter admits
    /// no further poll, so no second outcome can ever be produced.
    pub fn poll_with(&mut self, event: PollEvent<R>) -> (r: Result<Async<T>, Error>)
        requires
            old(self).state is Pending,
        ensures
            final(self).state == next_state(old(self).state, event),
            event is NotReady ==> final(self).state is Pending && r matches Ok(Async::NotReady),
            (event matches PollEvent::Ready(resp) ==> final(self).state is Finished && (
            match resp.convert_spec() {
                Ok(v) => r matches Ok(Async::Ready(t)) && t@ == v,
                Err(k) => r matches Err(e) && e.kind == k,
            })),
            (event matches PollEvent::Failed(c) ==> final(self).state is Finished
                && (r matches Err(e) && e.kind == ErrorKind::Rpc && e.cause@ == c@)),
    {
        match event {
            PollEvent::NotReady => Ok(Async::NotReady),
            PollEvent::Ready(resp) => {
                self.state = State::Finished;
                match resp.convert_response() {
                    Ok(t) => Ok(Async::Ready(t)),
                    Err(e) => Err(e),
                }
            },
            PollEvent::Failed(cause) => {
                self.state = State::Finished;
                Err(Error::new(ErrorKind::Rpc, cause))
            },
        }
    }
}

} // verus!
