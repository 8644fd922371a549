//! Message and enumeration types of the connection status definitions.

use vstd::prelude::*;

verus! {

#[derive(Clone, Debug, PartialEq)]
pub struct DeviceConnectionStatus {
    /// WiFi Status
    pub wifi: Option<crate::WifiConnectionStatus>,
    /// WiFi Status
    pub ethernet: Option<crate::EthernetConnectionStatus>,
    /// Bluetooth Status
    pub bluetooth: Option<crate::BluetoothConnectionStatus>,
    /// Serial Status
    pub serial: Option<crate::SerialConnectionStatus>,
}

impl Default for DeviceConnectionStatus {
    /// The message with every field unset: numbers 0, flags false, strings, bytes and lists
    /// empty, and no nested message.
    fn default() -> (r: Self)
        ensures
            r.wifi is None,
            r.ethernet is None,
            r.bluetooth is None,
            r.serial is None,
    {
        DeviceConnectionStatus {
            wifi: None,
            ethernet: None,
            bluetooth: None,
            serial: None,
        }
    }
}

/// WiFi connection status
#[derive(Clone, Debug, PartialEq)]
pub struct WifiConnectionStatus {
    /// Connection status
    pub status: Option<crate::NetworkConnectionStatus>,
    /// WiFi access point SSID
    pub ssid: String,
    /// RSSI of wireless connection
    pub rssi: i32,
}

impl Default for WifiConnectionStatus {
    /// The message with every field unset: numbers 0, flags false, strings, bytes and lists
    /// empty, and no nested message.
    fn default() -> (r: Self)
        ensures
            r.status is None,
            r.ssid@ == Seq::<char>::empty(),
            r.rssi == 0,
    {
        WifiConnectionStatus {
            status: None,
            ssid: String::new(),
            rssi: 0,
        }
    }
}

/// Ethernet connection status
#[derive(Clone, Debug, PartialEq)]
pub struct EthernetConnectionStatus {
    /// Connection status
    pub status: Option<crate::NetworkConnectionStatus>,
}

impl Default for EthernetConnectionStatus {
    /// The message with every field unset: numbers 0, flags false, strings, bytes and lists
    /// empty, and no nested message.
    fn default() -> (r: Self)
        ensures
            r.status is None,
    {
        EthernetConnectionStatus {
            status: None,
        }
    }
}

/// Ethernet or WiFi connection status
#[derive(Clone, Debug, PartialEq)]
pub struct NetworkConnectionStatus {
    /// IP address of device
    pub ip_address: u32,
    /// Whether the device has an active connection or not
    pub is_connected: bool,
    /// Whether the device has an active connection to an MQTT broker or not
    pub is_mqtt_connected: bool,
    /// Whether the device is actively remote syslogging or not
    pub is_syslog_connected: bool,
}

impl Default for NetworkConnectionStatus {
    /// The message with every field unset: numbers 0, flags false, strings, bytes and lists
    /// empty, and no nested message.
    fn default() -> (r: Self)
        ensures
            r.ip_address == 0,
            r.is_connected == false,
            r.is_mqtt_connected == false,
            r.is_syslog_connected == false,
    {
        NetworkConnectionStatus {
            ip_address: 0,
            is_connected: false,
            is_mqtt_connected: false,
            is_syslog_connected: false,
        }
    }
}

/// Bluetooth connection status
#[derive(Clone, Debug, PartialEq)]
pub struct BluetoothConnectionStatus {
    /// The pairing PIN for bluetooth
    pub pin: u32,
    /// RSSI of bluetooth connection
    pub rssi: i32,
    /// Whether the device has an active connection or not
    pub is_connected: bool,
}

impl Default for BluetoothConnectionStatus {
    /// The message with every field unset: numbers 0, flags false, strings, bytes and lists
    /// empty, and no nested message.
    fn default() -> (r: Self)
        ensures
            r.pin == 0,
            r.rssi == 0,
            r.is_connected == false,
    {
        BluetoothConnectionStatus {
            pin: 0,
            rssi: 0,
            is_connected: false,
        }
    }
}

/// Serial connection status
#[derive(Clone, Debug, PartialEq)]
pub struct SerialConnectionStatus {
    /// Serial baud rate
    pub baud: u32,
    /// Whether the device has an active connection or not
    pub is_connected: bool,
}

impl Default for SerialConnectionStatus {
    /// The message with every field unset: numbers 0, flags false, strings, bytes and lists
    /// empty, and no nested message.
    fn default() -> (r: Self)
        ensures
            r.baud == 0,
            r.is_connected == false,
    {
        SerialConnectionStatus {
            baud: 0,
            is_connected: false,
        }
    }
}

} // verus!
