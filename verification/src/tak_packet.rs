//! Nested message and enum types in `TAKPacket`.

use vstd::prelude::*;

verus! {

/// The payload of the packet
#[derive(Clone, Debug, PartialEq)]
pub enum PayloadVariant {
    /// TAK position report
    Pli(crate::Pli),
    /// ATAK GeoChat message
    Chat(crate::GeoChat),
    /// Generic CoT detail XML
    /// May be compressed / truncated by the sender (EUD)
    Detail(Vec<u8>),
}

} // verus!
