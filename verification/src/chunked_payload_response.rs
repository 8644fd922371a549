//! Nested message and enum types in `ChunkedPayloadResponse`.

use vstd::prelude::*;

verus! {

#[derive(Clone, Debug, PartialEq)]
pub enum PayloadVariant {
    /// Request to transfer chunked payload
    RequestTransfer(bool),
    /// Accept the transfer chunked payload
    AcceptTransfer(bool),
    /// Request missing indexes in the chunked payload
    ResendChunks(crate::ResendChunks),
}

} // verus!
