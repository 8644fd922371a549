//! Nested message and enum types in `MqttClientProxyMessage`.

use vstd::prelude::*;

verus! {

/// The actual service envelope payload or text for mqtt pub / sub
#[derive(Clone, Debug, PartialEq)]
pub enum PayloadVariant {
    /// Bytes
    Data(Vec<u8>),
    /// Text
    Text(String),
}

} // verus!
