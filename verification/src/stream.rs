//! The item stream adapter: a lazy, pull-based sequence of domain values.
//! An outside driver polls the wire stream and hands each outcome here as
//! an event; the adapter converts each item in arrival order, terminates
//! on end-of-sequence, and terminates with an error on a transport failure
//! or a malformed item. Once terminated it refuses further polls.
use core::marker::PhantomData;
use vstd::prelude::*;

use crate::convert::ConvertResponse;
use crate::error::{Error, ErrorKind};
use crate::poll::Async;

verus! {

/// What polling the wire stream produced: nothing yet, the next message,
/// the end of the sequence, or a transport failure with its description.
pub enum StreamEvent<R> {
    NotReady,
    Item(R),
    EndOfStream,
    Failed(String),
}

/// Whether this event terminates the stream: end-of-sequence, a
/// transport failure, or an item whose conversion fails all close it; an
/// item that converts leaves the stream pollable.
pub open spec fn event_closes<T: View, R: ConvertResponse<T>>(e: StreamEvent<R>) -> bool {
    match e {
        StreamEvent::NotReady => false,
        StreamEvent::Item(item) => item.convert_spec() is Err,
        StreamEvent::EndOfStream => true,
        StreamEvent::Failed(_) => true,
    }
}

/// Whether a stream driven, from fresh, with each of the events in turn
/// has terminated.
pub open spec fn run_finished<T: View, R: ConvertResponse<T>>(events: Seq<StreamEvent<R>>) -> bool
    decreases events.len(),
{
    if events.len() == 0 {
        false
    } else {
        run_finished::<T, R>(events.drop_last()) || event_closes::<T, R>(events.last())
    }
}

/// Law: a terminated item stream never subsequently yields another item.
/// `poll_with` requires a still-pollable stream, so in any sequence of
/// events a driver can legally submit — one where no proper prefix has
/// terminated the stream — only the last event can close it: nothing at
/// all, and in particular no item, follows end-of-sequence or an error.
pub proof fn lemma_stream_nothing_after_close<T: View, R: ConvertResponse<T>>(
    events: Seq<StreamEvent<R>>,
)
    requires
        forall|i: int| 0 <= i < events.len() ==> !run_finished::<T, R>(#[trigger] events.take(i)),
    ensures
        forall|i: int|
            0 <= i < events.len() && event_closes::<T, R>(#[trigger] events[i]) ==> i
                == events.len() - 1,
{
    assert forall|i: int|
        0 <= i < events.len() && event_closes::<T, R>(#[trigger] events[i]) implies i
        == events.len() - 1 by {
        if i < events.len() - 1 {
            assert(events.take(i + 1).drop_last() =~= events.take(i));
            assert(events.take(i + 1).last() == events[i]);
            assert(run_finished::<T, R>(events.take(i + 1)));
            assert(!run_finished::<T, R>(events.take(i + 1)));
        }
    }
}

/// A pull-based stream of domain values `T`, each converted from a wire
/// message `R` in the order the transport delivers them.
pub struct ResponseStream<T: View, R: ConvertResponse<T>> {
    pub finished: bool,
    pub marker: PhantomData<(T, R)>,
}

impl<T: View, R: ConvertResponse<T>> ResponseStream<T, R> {
    /// A fresh stream over a just-opened wire stream.
    pub fn new() -> (s: Self)
        ensures
            !s.finished,
    {
        ResponseStream { finished: false, marker: PhantomData }
    }

    /// Whether the stream has terminated, by end-of-sequence or by an
    /// error. A finished stream never yields another item: the driver
    /// must not poll it again.
    pub fn is_finished(&self) -> (b: bool)
        ensures
            b == self.finished,
    {
        self.finished
    }

    /// One pull, driven by the wire stream's outcome. A pending wire
    /// stream yields nothing and the stream stays pollable; an item that
    /// converts is yielded and the stream stays pollable; end-of-sequence
    /// terminates the stream with no error; an item that fails conversion
    /// or a transport failure terminates it with that error. A finished
    /// stream admits no further pull, so it never yields another item.
    pub fn poll_with(&mut self, event: StreamEvent<R>) -> (r: Result<Async<Option<T>>, Error>)
        requires
            !old(self).finished,
        ensures
            final(self).finished == event_closes::<T, R>(event),
            event is NotReady ==> !final(self).finished && r matches Ok(Async::NotReady),
            (event matches StreamEvent::Item(item) ==> (match item.convert_spec() {
                Ok(v) => !final(self).finished && (r matches Ok(Async::Ready(Some(t))) && t@
                    == v),
                Err(k) => final(self).finished && (r matches Err(e) && e.kind == k),
            })),
            event is EndOfStream ==> final(self).finished && r matches Ok(Async::Ready(None)),
            (event matches StreamEvent::Failed(c) ==> final(self).finished
                && (r matches Err(e) && e.kind == ErrorKind::Rpc && e.cause@ == c@)),
    {
        match event {
            StreamEvent::NotReady => Ok(Async::NotReady),
            StreamEvent::Item(item) => match item.convert_response() {
                Ok(t) => Ok(Async::Ready(Some(t))),
                Err(e) => {
                    self.finished = true;
                    Err(e)
                },
            },
            StreamEvent::EndOfStream => {
                self.finished = true;
                Ok(Async::Ready(None))
            },
            StreamEvent::Failed(cause) => {
                self.finished = true;
                Err(Error::new(ErrorKind::Rpc, cause))
            },
        }
    }
}

} // verus!
