//! Message and enumeration types of the local-only configuration definitions.

use vstd::prelude::*;

verus! {

#[derive(Clone, Debug, PartialEq)]
pub struct LocalModuleConfig {
    /// The part of the config that is specific to the MQTT module
    pub mqtt: Option<crate::module_config::MqttConfig>,
    /// The part of the config that is specific to the Serial module
    pub serial: Option<crate::module_config::SerialConfig>,
    /// The part of the config that is specific to the ExternalNotification module
    pub external_notification: Option< crate::module_config::ExternalNotificationConfig, >,
    /// The part of the config that is specific to the Store & Forward module
    pub store_forward: Option<crate::module_config::StoreForwardConfig>,
    /// The part of the config that is specific to the RangeTest module
    pub range_test: Option<crate::module_config::RangeTestConfig>,
    /// The part of the config that is specific to the Telemetry module
    pub telemetry: Option<crate::module_config::TelemetryConfig>,
    /// The part of the config that is specific to the Canned Message module
    pub canned_message: Option<crate::module_config::CannedMessageConfig>,
    /// The part of the config that is specific to the Audio module
    pub audio: Option<crate::module_config::AudioConfig>,
    /// The part of the config that is specific to the Remote Hardware module
    pub remote_hardware: Option<crate::module_config::RemoteHardwareConfig>,
    /// The part of the config that is specific to the Neighbor Info module
    pub neighbor_info: Option<crate::module_config::NeighborInfoConfig>,
    /// The part of the config that is specific to the Ambient Lighting module
    pub ambient_lighting: Option<crate::module_config::AmbientLightingConfig>,
    /// The part of the config that is specific to the Detection Sensor module
    pub detection_sensor: Option<crate::module_config::DetectionSensorConfig>,
    /// Paxcounter Config
    pub paxcounter: Option<crate::module_config::PaxcounterConfig>,
    /// A version integer used to invalidate old save files when we make
    /// incompatible changes This integer is set at build time and is private to
    /// NodeDB.cpp in the device code.
    pub version: u32,
}

impl Default for LocalModuleConfig {
    /// The message with every field unset: numbers 0, flags false, strings, bytes and lists
    /// empty, and no nested message.
    fn default() -> (r: Self)
        ensures
            r.mqtt is None,
            r.serial is None,
            r.external_notification is None,
            r.store_forward is None,
            r.range_test is None,
            r.telemetry is None,
            r.canned_message is None,
            r.audio is None,
            r.remote_hardware is None,
            r.neighbor_info is None,
            r.ambient_lighting is None,
            r.detection_sensor is None,
            r.paxcounter is None,
            r.version == 0,
    {
        LocalModuleConfig {
            mqtt: None,
            serial: None,
            external_notification: None,
            store_forward: None,
            range_test: None,
            telemetry: None,
            canned_message: None,
            audio: None,
            remote_hardware: None,
            neighbor_info: None,
            ambient_lighting: None,
            detection_sensor: None,
            paxcounter: None,
            version: 0,
        }
    }
}

} // verus!
