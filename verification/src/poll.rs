//! The outcome of one poll of an adapter: either the polled work is not
//! ready yet, or it is ready with a value.
use vstd::prelude::*;

verus! {

/// One poll's outcome: not ready yet, or ready with a value.
#[derive(Debug)]
pub enum Async<T> {
    NotReady,
    Ready(T),
}

} // verus!
