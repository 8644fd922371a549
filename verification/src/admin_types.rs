//! Message and enumeration types of the administration definitions.

use vstd::prelude::*;

verus! {

/// Response envelope for node_remote_hardware_pins
#[derive(Clone, Debug, PartialEq)]
pub struct NodeRemoteHardwarePinsResponse {
    /// Nodes and their respective remote hardware GPIO pins
    pub node_remote_hardware_pins: Vec<crate::NodeRemoteHardwarePin>,
}

impl Default for NodeRemoteHardwarePinsResponse {
    /// The message with every field unset: numbers 0, flags false, strings, bytes and lists
    /// empty, and no nested message.
    fn default() -> (r: Self)
        ensures
            r.node_remote_hardware_pins@.len() == 0,
    {
        NodeRemoteHardwarePinsResponse {
            node_remote_hardware_pins: Vec::new(),
        }
    }
}

} // verus!
