//! Message and enumeration types of the MQTT definitions.

use vstd::prelude::*;

verus! {

/// Information about a node intended to be reported unencrypted to a map using MQTT.
#[derive(Clone, Debug, PartialEq)]
pub struct MapReport {
    /// A full name for this user, i.e. "Kevin Hester"
    pub long_name: String,
    /// A VERY short name, ideally two characters.
    /// Suitable for a tiny OLED screen
    pub short_name: String,
    /// Role of the node that applies specific settings for a particular use-case
    pub role: i32,
    /// Hardware model of the node, i.e. T-Beam, Heltec V3, etc...
    pub hw_model: i32,
    /// Device firmware version string
    pub firmware_version: String,
    /// The region code for the radio (US, CN, EU433, etc...)
    pub region: i32,
    /// Modem preset used by the radio (LongFast, MediumSlow, etc...)
    pub modem_preset: i32,
    /// Whether the node has a channel with default PSK and name (LongFast, MediumSlow, etc...)
    /// and it uses the default frequency slot given the region and modem preset.
    pub has_default_channel: bool,
    /// Latitude: multiply by 1e-7 to get degrees in floating point
    pub latitude_i: i32,
    /// Longitude: multiply by 1e-7 to get degrees in floating point
    pub longitude_i: i32,
    /// Altitude in meters above MSL
    pub altitude: i32,
    /// Indicates the bits of precision for latitude and longitude set by the sending node
    pub position_precision: u32,
    /// Number of online nodes (heard in the last 2 hours) this node has in its list that were received locally (not via MQTT)
    pub num_online_local_nodes: u32,
}

impl MapReport {
    /// Returns the enum value of `role`, or the default if the field is set to an invalid enum value.
    pub fn role(&self) -> (r: crate::config::device_config::Role)
        ensures
            r == crate::config::device_config::Role::from_number_or_default(self.role),
            (exists|e: crate::config::device_config::Role| #[trigger] e.value() == self.role) ==> r.value() == self.role,
            (forall|e: crate::config::device_config::Role| #[trigger] e.value() != self.role) ==> r.value() == 0,
    {
        proof {
            crate::config::device_config::Role::lemma_number_or_default(self.role);
        }
        match crate::config::device_config::Role::from_i32(self.role) {
            Some(e) => e,
            None => <crate::config::device_config::Role as Default>::default(),
        }
    }

    /// Sets `role` to the provided enum value.
    pub fn set_role(&mut self, value: crate::config::device_config::Role)
        ensures
            *final(self) == (Self { role: value.value(), ..*old(self) }),
    {
        self.role = i32::from(value);
    }

    /// Returns the enum value of `hw_model`, or the default if the field is set to an invalid enum value.
    pub fn hw_model(&self) -> (r: crate::HardwareModel)
        ensures
            r == crate::HardwareModel::from_number_or_default(self.hw_model),
            (exists|e: crate::HardwareModel| #[trigger] e.value() == self.hw_model) ==> r.value() == self.hw_model,
            (forall|e: crate::HardwareModel| #[trigger] e.value() != self.hw_model) ==> r.value() == 0,
    {
        proof {
            crate::HardwareModel::lemma_number_or_default(self.hw_model);
        }
        match crate::HardwareModel::from_i32(self.hw_model) {
            Some(e) => e,
            None => <crate::HardwareModel as Default>::default(),
        }
    }

    /// Sets `hw_model` to the provided enum value.
    pub fn set_hw_model(&mut self, value: crate::HardwareModel)
        ensures
            *final(self) == (Self { hw_model: value.value(), ..*old(self) }),
    {
        self.hw_model = i32::from(value);
    }

    /// Returns the enum value of `region`, or the default if the field is set to an invalid enum value.
    pub fn region(&self) -> (r: crate::config::lo_ra_config::RegionCode)
        ensures
            r == crate::config::lo_ra_config::RegionCode::from_number_or_default(self.region),
            (exists|e: crate::config::lo_ra_config::RegionCode| #[trigger] e.value() == self.region) ==> r.value() == self.region,
            (forall|e: crate::config::lo_ra_config::RegionCode| #[trigger] e.value() != self.region) ==> r.value() == 0,
    {
        proof {
            crate::config::lo_ra_config::RegionCode::lemma_number_or_default(self.region);
        }
        match crate::config::lo_ra_config::RegionCode::from_i32(self.region) {
            Some(e) => e,
            None => <crate::config::lo_ra_config::RegionCode as Default>::default(),
        }
    }

    /// Sets `region` to the provided enum value.
    pub fn set_region(&mut self, value: crate::config::lo_ra_config::RegionCode)
        ensures
            *final(self) == (Self { region: value.value(), ..*old(self) }),
    {
        self.region = i32::from(value);
    }

    /// Returns the enum value of `modem_preset`, or the default if the field is set to an invalid enum value.
    pub fn modem_preset(&self) -> (r: crate::config::lo_ra_config::ModemPreset)
        ensures
            r == crate::config::lo_ra_config::ModemPreset::from_number_or_default(self.modem_preset),
            (exists|e: crate::config::lo_ra_config::ModemPreset| #[trigger] e.value() == self.modem_preset) ==> r.value() == self.modem_preset,
            (forall|e: crate::config::lo_ra_config::ModemPreset| #[trigger] e.value() != self.modem_preset) ==> r.value() == 0,
    {
        proof {
            crate::config::lo_ra_config::ModemPreset::lemma_number_or_default(self.modem_preset);
        }
        match crate::config::lo_ra_config::ModemPreset::from_i32(self.modem_preset) {
            Some(e) => e,
            None => <crate::config::lo_ra_config::ModemPreset as Default>::default(),
        }
    }

    /// Sets `modem_preset` to the provided enum value.
    pub fn set_modem_preset(&mut self, value: crate::config::lo_ra_config::ModemPreset)
        ensures
            *final(self) == (Self { modem_preset: value.value(), ..*old(self) }),
    {
        self.modem_preset = i32::from(value);
    }
}

impl Default for MapReport {
    /// The message with every field unset: numbers 0, flags false, strings, bytes and lists
    /// empty, and no nested message.
    fn default() -> (r: Self)
        ensures
            r.long_name@ == Seq::<char>::empty(),
            r.short_name@ == Seq::<char>::empty(),
            r.role == 0,
            r.hw_model == 0,
            r.firmware_version@ == Seq::<char>::empty(),
            r.region == 0,
            r.modem_preset == 0,
            r.has_default_channel == false,
            r.latitude_i == 0,
            r.longitude_i == 0,
            r.altitude == 0,
            r.position_precision == 0,
            r.num_online_local_nodes == 0,
    {
        MapReport {
            long_name: String::new(),
            short_name: String::new(),
            role: 0,
            hw_model: 0,
            firmware_version: String::new(),
            region: 0,
            modem_preset: 0,
            has_default_channel: false,
            latitude_i: 0,
            longitude_i: 0,
            altitude: 0,
            position_precision: 0,
            num_online_local_nodes: 0,
        }
    }
}

} // verus!
