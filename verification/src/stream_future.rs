//! The streaming-open adapter: a single-shot state machine wrapping the
//! handshake phase of a server-streaming call. It has the same two-state
//! lifecycle as the unary adapter, but its success value is a fresh item
//! stream rather than a final domain value; no per-item conversion happens
//! at this stage.
use core::marker::PhantomData;
use vstd::prelude::*;

use crate::convert::ConvertResponse;
use crate::error::{Error, ErrorKind};
use crate::poll::Async;
use crate::stream::ResponseStream;

verus! {

/// The lifecycle of a stream handshake: in flight, or finished.
pub enum State {
    Pending,
    Finished,
}

/// What polling the wire handshake produced: nothing yet, an established
/// stream (whose handle the driver keeps), or a transport failure with
/// its description.
pub enum OpenEvent {
    NotReady,
    Opened,
    Failed(String),
}

/// Whether this event ends a pending handshake: any outcome of the wire
/// handshake other than "not ready" produces the adapter's terminal
/// result.
pub open spec fn event_terminal(e: OpenEvent) -> bool {
    !(e is NotReady)
}

/// The state one poll leaves a streaming-open adapter in: unchanged on
/// "not ready", `Finished` on any terminal event.
pub open spec fn next_state(s: State, e: OpenEvent) -> State {
    if event_terminal(e) {
        State::Finished
    } else {
        s
    }
}

/// The state a streaming-open adapter reaches after being polled, from
/// fresh, with each of the events in turn.
pub open spec fn run_state(events: Seq<OpenEvent>) -> State
    decreases events.len(),
{
    if events.len() == 0 {
        State::Pending
    } else {
        next_state(run_state(events.drop_last()), events.last())
    }
}

/// Law: a streaming-open adapter yields its stream or its error at most
/// once. `poll_with` requires a still-pending adapter, so in any sequence
/// of events a driver can legally submit — one where every proper prefix
/// leaves the adapter pending — only the last event can be terminal.
pub proof fn lemma_open_single_outcome(events: Seq<OpenEvent>)
    requires
        forall|i: int| 0 <= i < events.len() ==> run_state(#[trigger] events.take(i)) is Pending,
    ensures
        forall|i: int|
            0 <= i < events.len() && event_terminal(#[trigger] events[i]) ==> i == events.len()
                - 1,
{
    assert forall|i: int|
        0 <= i < events.len() && event_terminal(#[trigger] events[i]) implies i == events.len()
        - 1 by {
        if i < events.len() - 1 {
            assert(events.take(i + 1).drop_last() =~= events.take(i));
            assert(events.take(i + 1).last() == events[i]);
            assert(run_state(events.take(i + 1)) is Finished);
            assert(run_state(events.take(i + 1)) is Pending);
        }
    }
}

/// A single-shot future adapting one server-streaming handshake whose
/// streamed wire messages `R` convert to domain values `T`.
pub struct ResponseStreamFuture<T: View, R: ConvertResponse<T>> {
    pub state: State,
    pub marker: PhantomData<(T, R)>,
}

impl<T: View, R: ConvertResponse<T>> ResponseStreamFuture<T, R> {
    /// A fresh adapter for a streaming call just issued.
    pub fn new() -> (f: Self)
        ensures
            f.state is Pending,
    {
        ResponseStreamFuture { state: State::Pending, marker: PhantomData }
    }

    /// Whether the adapter has already produced its terminal outcome.
    /// A finished adapter must not be polled again: the driver aborts
    /// instead, as polling past completion is a programming error.
    pub fn is_finished(&self) -> (b: bool)
        ensures
            b == (self.state is Finished),
    {
        match self.state {
            State::Pending => false,
            State::Finished => true,
        }
    }

    /// One poll step, driven by the handshake's outcome. A pending
    /// handshake leaves the adapter pending with no result; an
    /// established stream or a transport failure moves it to `Finished` —
    /// its one terminal transition — and yields a fresh, unterminated
    /// item stream or an `Rpc` error. A finished adapter admits no
    /// further poll, so no second outcome can ever be produced.
    pub fn poll_with(&mut self, event: OpenEvent) -> (r: Result<
        Async<ResponseStream<T, R>>,
        Error,
    >)
        requires
            old(self).state is Pending,
        ensures
            final(self).state == next_state(old(self).state, event),
            event is NotReady ==> final(self).state is Pending && r matches Ok(Async::NotReady),
            event is Opened ==> final(self).state is Finished
                && (r matches Ok(Async::Ready(s)) && !s.finished),
            (event matches OpenEvent::Failed(c) ==> final(self).state is Finished
                && (r matches Err(e) && e.kind == ErrorKind::Rpc && e.cause@ == c@)),
    {
        match event {
            OpenEvent::NotReady => Ok(Async::NotReady),
            OpenEvent::Opened => {
                self.state = State::Finished;
                Ok(Async::Ready(ResponseStream::new()))
            },
            OpenEvent::Failed(cause) => {
                self.state = State::Finished;
                Err(Error::new(ErrorKind::Rpc, cause))
            },
        }
    }
}

} // verus!
