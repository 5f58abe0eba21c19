//! The wire conversion layer: the message shapes exchanged with the peer,
//! and the pure conversions from each response message to its domain
//! value or to a `Format` error.
use vstd::prelude::*;

use crate::chain::{
    spec_parse_block, spec_parse_date, spec_parse_header, spec_parse_id, Block, BlockDate,
    BlockId, BlockView, Header,
};
use crate::error::{Error, ErrorKind};

verus! {

/// The unary tip request: it carries nothing.
pub struct TipRequest {}

/// The tip response: the tip's raw identifier bytes and its textual date.
pub struct TipResponse {
    pub id: Vec<u8>,
    pub blockdate: String,
}

/// The pull request: an ordered list of raw identifier byte sequences.
pub struct PullBlocksToTipRequest {
    pub from: Vec<Vec<u8>>,
}

/// A streamed block message: the block's raw content bytes.
pub struct BlockMessage {
    pub content: Vec<u8>,
}

/// A header message: the header's raw content bytes.
pub struct HeaderMessage {
    pub content: Vec<u8>,
}

/// A response message that converts into a domain value of type `T`.
///
/// `convert_spec` is the mathematical statement of the conversion; the
/// executable `convert_response` is proved to agree with it exactly, both
/// on which inputs succeed and on the value or error kind produced.
pub trait ConvertResponse<T: View>: Sized {
    /// What converting this message yields: the domain value's view, or
    /// the kind of error the conversion fails with.
    spec fn convert_spec(&self) -> Result<<T as View>::V, ErrorKind>;

    /// Converts the message into its domain value.
    fn convert_response(self) -> (r: Result<T, Error>)
        ensures
            r is Ok <==> self.convert_spec() is Ok,
            (r matches Ok(t) ==> self.convert_spec() matches Ok(v) && v == t@),
            (r matches Err(e) ==> self.convert_spec() matches Err(k) && k == e.kind),
    ;
}

impl ConvertResponse<(BlockId, BlockDate)> for TipResponse {
    /// The tip converts when both the identifier bytes and the date text
    /// parse; either sub-step failing yields that step's error, the
    /// identifier checked first.
    open spec fn convert_spec(&self) -> Result<(Seq<u8>, BlockDate), ErrorKind> {
        match spec_parse_id(self.id@) {
            Ok(idv) => match spec_parse_date(self.blockdate@) {
                Ok(d) => Ok((idv, d)),
                Err(k) => Err(k),
            },
            Err(k) => Err(k),
        }
    }

    fn convert_response(self) -> (r: Result<(BlockId, BlockDate), Error>) {
        let id = match BlockId::deserialize(&self.id) {
            Ok(id) => id,
            Err(e) => {
                return Err(e);
            },
        };
        let blockdate = match crate::chain::parse_date(self.blockdate.as_str()) {
            Ok(d) => d,
            Err(e) => {
                return Err(e);
            },
        };
        Ok((id, blockdate))
    }
}

impl ConvertResponse<Block> for BlockMessage {
    /// A block message converts exactly when its content bytes parse as a
    /// block.
    open spec fn convert_spec(&self) -> Result<BlockView, ErrorKind> {
        spec_parse_block(self.content@)
    }

    fn convert_response(self) -> (r: Result<Block, Error>) {
        Block::deserialize(&self.content)
    }
}

impl ConvertResponse<Header> for HeaderMessage {
    /// A header message converts exactly when its content bytes parse as
    /// a header.
    open spec fn convert_spec(&self) -> Result<Seq<u8>, ErrorKind> {
        spec_parse_header(self.content@)
    }

    fn convert_response(self) -> (r: Result<Header, Error>) {
        Header::deserialize(&self.content)
    }
}

/// Serializes each identifier to its byte sequence, keeping length and
/// order: entry `i` of the result is exactly the serialization of
/// identifier `i`.
pub fn serialize_to_vec(values: &Vec<BlockId>) -> (r: Vec<Vec<u8>>)
    ensures
        r@.len() == values@.len(),
        forall|i: int| 0 <= i < values@.len() ==> r@[i]@ == values@[i].serialized(),
{
    let mut r: Vec<Vec<u8>> = Vec::new();
    let mut i: usize = 0;
    while i < values.len()
        invariant
            i <= values@.len(),
            r@.len() == i,
            forall|j: int| 0 <= j < i ==> r@[j]@ == values@[j].serialized(),
        decreases values@.len() - i,
    {
        r.push(values[i].serialize());
        i = i + 1;
    }
    r
}

} // verus!
