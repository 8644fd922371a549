//! Message and enumeration types of the Meshtastic mesh radio protocol, with
//! verified conversions between enumeration values, their ProtoBuf names and
//! their ProtoBuf numbers.

pub mod enum_error;
pub mod text;
pub mod channel;
pub mod config;
pub mod module_config;
pub mod x_modem;
pub mod position;
pub mod routing;
pub mod mqtt_client_proxy_message;
pub mod mesh_packet;
pub mod log_record;
pub mod chunked_payload_response;
pub mod admin_message;
pub mod tak_packet;
pub mod power_mon;
pub mod power_stress_message;
pub mod hardware_message;
pub mod store_and_forward;
mod channel_types;
mod device_ui_types;
mod connection_status_types;
mod module_config_types;
mod portnum_types;
mod telemetry_types;
mod xmodem_types;
mod mesh_types;
mod admin_types;
mod atak_types;
mod canned_message_types;
mod localonly_types;
mod deviceonly_types;
mod mqtt_types;
mod paxcount_types;
mod powermon_types;
mod remote_hardware_types;
mod rtttl_types;
mod storeforward_types;

pub use channel_types::{ChannelSettings, ModuleSettings, Channel};
pub use device_ui_types::{DeviceUiConfig, NodeFilter, NodeHighlight, Theme, Language};
pub use connection_status_types::{DeviceConnectionStatus, WifiConnectionStatus, EthernetConnectionStatus, NetworkConnectionStatus, BluetoothConnectionStatus, SerialConnectionStatus};
pub use module_config_types::{ModuleConfig, RemoteHardwarePin, RemoteHardwarePinType};
pub use portnum_types::{PortNum};
pub use telemetry_types::{AirQualityMetrics, TelemetrySensorType};
pub use xmodem_types::{XModem};
pub use mesh_types::{Position, User, RouteDiscovery, Routing, Data, Waypoint, MqttClientProxyMessage, MyNodeInfo, LogRecord, QueueStatus, ClientNotification, FileInfo, Compressed, DeviceMetadata, Heartbeat, NodeRemoteHardwarePin, ChunkedPayload, ResendChunks, ChunkedPayloadResponse, HardwareModel, Constants, CriticalErrorCode, ExcludedModules};
pub use admin_types::{NodeRemoteHardwarePinsResponse};
pub use atak_types::{TakPacket, GeoChat, Group, Status, Contact, Pli, Team, MemberRole};
pub use canned_message_types::{CannedMessageModuleConfig};
pub use localonly_types::{LocalModuleConfig};
pub use deviceonly_types::{PositionLite, UserLite, ChannelFile};
pub use mqtt_types::{MapReport};
pub use paxcount_types::{Paxcount};
pub use powermon_types::{PowerMon};
pub use remote_hardware_types::{HardwareMessage};
pub use rtttl_types::{RtttlConfig};
pub use storeforward_types::{StoreAndForward};
