//! Message and enumeration types of the Paxcounter definitions.

use vstd::prelude::*;

verus! {

#[derive(Clone, Debug, PartialEq)]
pub struct Paxcount {
    /// seen Wifi devices
    pub wifi: u32,
    /// Seen BLE devices
    pub ble: u32,
    /// Uptime in seconds
    pub uptime: u32,
}

impl Default for Paxcount {
    /// The message with every field unset: numbers 0, flags false, strings, bytes and lists
    /// empty, and no nested message.
    fn default() -> (r: Self)
        ensures
            r.wifi == 0,
            r.ble == 0,
            r.uptime == 0,
    {
        Paxcount {
            wifi: 0,
            ble: 0,
            uptime: 0,
        }
    }
}

} // verus!
