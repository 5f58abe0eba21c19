//! The connection client: it exposes the domain-level block service over
//! an established transport connection. The connection handle itself and
//! all socket work live with the outside driver; the client decides what
//! each capability sends and wraps each call in a fresh single-shot
//! adapter. Each call builds exactly one request; nothing is cached,
//! deduplicated or retried here.
use vstd::prelude::*;

use crate::chain::{Block, BlockDate, BlockId};
use crate::convert::{BlockMessage, PullBlocksToTipRequest, TipRequest, TipResponse};
use crate::convert::serialize_to_vec;
use crate::stream_future::ResponseStreamFuture;
use crate::unary_future::ResponseFuture;

verus! {

/// The error type for connect-phase failures: they occur before any
/// domain call exists, so they form their own narrow taxonomy.
#[derive(Clone, Debug)]
pub enum Error {
    Connect(String),
}

/// How a transport connect attempt ended: with an established connection
/// (whose handle the driver keeps), or with a failure and its description.
pub enum ConnectOutcome {
    Connected,
    Failed(String),
}

/// A client for the block service of one remote peer, over one
/// established transport connection.
pub struct Client {}

impl Client {
    /// Completes a connect attempt: an established connection yields a
    /// ready client, and a connect failure yields a connect error
    /// wrapping the underlying cause — never a crash. Failure is terminal
    /// for the attempt; there is no retry.
    pub fn connect(outcome: ConnectOutcome) -> (r: Result<Client, Error>)
        ensures
            outcome is Connected ==> r is Ok,
            (outcome matches ConnectOutcome::Failed(c) ==> (r matches Err(Error::Connect(cc))
                && cc@ == c@)),
    {
        match outcome {
            ConnectOutcome::Connected => Ok(Client {}),
            ConnectOutcome::Failed(cause) => Err(Error::Connect(cause)),
        }
    }

    /// Issues the tip call: an empty request, and a fresh pending adapter
    /// that will resolve to the peer's chain-tip identifier and date.
    pub fn tip(&mut self) -> (r: (TipRequest, ResponseFuture<(BlockId, BlockDate), TipResponse>))
        ensures
            r.1.state is Pending,
    {
        (TipRequest {}, ResponseFuture::new())
    }

    /// Issues the pull-blocks call: a request carrying each supplied
    /// identifier serialized in order — entry `i` of the request is
    /// exactly the serialization of identifier `i`, one entry per input —
    /// and a fresh pending adapter that will resolve to the stream of
    /// blocks.
    pub fn pull_blocks_to_tip(&mut self, from: &Vec<BlockId>) -> (r: (
        PullBlocksToTipRequest,
        ResponseStreamFuture<Block, BlockMessage>,
    ))
        ensures
            r.0.from@.len() == from@.len(),
            forall|i: int| 0 <= i < from@.len() ==> r.0.from@[i]@ == from@[i].serialized(),
            r.1.state is Pending,
    {
        let from = serialize_to_vec(from);
        (PullBlocksToTipRequest { from }, ResponseStreamFuture::new())
    }
}

} // verus!
