//! Message and enumeration types of the device-only state definitions.

use vstd::prelude::*;

verus! {

/// Position with static location information only for NodeDBLite
#[derive(Clone, Debug, PartialEq)]
pub struct PositionLite {
    /// The new preferred location encoding, multiply by 1e-7 to get degrees
    /// in floating point
    pub latitude_i: i32,
    pub longitude_i: i32,
    /// In meters above MSL (but see issue #359)
    pub altitude: i32,
    /// This is usually not sent over the mesh (to save space), but it is sent
    /// from the phone so that the local device can set its RTC If it is sent over
    /// the mesh (because there are devices on the mesh without GPS), it will only
    /// be sent by devices which has a hardware GPS clock.
    /// seconds since 1970
    pub time: u32,
    pub location_source: i32,
}

impl PositionLite {
    /// Returns the enum value of `location_source`, or the default if the field is set to an invalid enum value.
    pub fn location_source(&self) -> (r: crate::position::LocSource)
        ensures
            r == crate::position::LocSource::from_number_or_default(self.location_source),
            (exists|e: crate::position::LocSource| #[trigger] e.value() == self.location_source) ==> r.value() == self.location_source,
            (forall|e: crate::position::LocSource| #[trigger] e.value() != self.location_source) ==> r.value() == 0,
    {
        proof {
            crate::position::LocSource::lemma_number_or_default(self.location_source);
        }
        match crate::position::LocSource::from_i32(self.location_source) {
            Some(e) => e,
            None => <crate::position::LocSource as Default>::default(),
        }
    }

    /// Sets `location_source` to the provided enum value.
    pub fn set_location_source(&mut self, value: crate::position::LocSource)
        ensures
            *final(self) == (Self { location_source: value.value(), ..*old(self) }),
    {
        self.location_source = i32::from(value);
    }
}

impl Default for PositionLite {
    /// The message with every field unset: numbers 0, flags false, strings, bytes and lists
    /// empty, and no nested message.
    fn default() -> (r: Self)
        ensures
            r.latitude_i == 0,
            r.longitude_i == 0,
            r.altitude == 0,
            r.time == 0,
            r.location_source == 0,
    {
        PositionLite {
            latitude_i: 0,
            longitude_i: 0,
            altitude: 0,
            time: 0,
            location_source: 0,
        }
    }
}

#[derive(Clone, Debug, PartialEq)]
pub struct UserLite {
    /// This is the addr of the radio.
    ///
    /// Deprecated.
    pub macaddr: Vec<u8>,
    /// A full name for this user, i.e. "Kevin Hester"
    pub long_name: String,
    /// A VERY short name, ideally two characters.
    /// Suitable for a tiny OLED screen
    pub short_name: String,
    /// TBEAM, HELTEC, etc...
    /// Starting in 1.2.11 moved to hw_model enum in the NodeInfo object.
    /// Apps will still need the string here for older builds
    /// (so OTA update can find the right image), but if the enum is available it will be used instead.
    pub hw_model: i32,
    /// In some regions Ham radio operators have different bandwidth limitations than others.
    /// If this user is a licensed operator, set this flag.
    /// Also, "long_name" should be their licence number.
    pub is_licensed: bool,
    /// Indicates that the user's role in the mesh
    pub role: i32,
    /// The public key of the user's device.
    /// This is sent out to other nodes on the mesh to allow them to compute a shared secret key.
    pub public_key: Vec<u8>,
}

impl UserLite {
    /// Returns the enum value of `hw_model`, or the default if the field is set to an invalid enum value.
    pub fn hw_model(&self) -> (r: crate::HardwareModel)
        ensures
            r == crate::HardwareModel::from_number_or_default(self.hw_model),
            (exists|e: crate::HardwareModel| #[trigger] e.value() == self.hw_model) ==> r.value() == self.hw_model,
            (forall|e: crate::HardwareModel| #[trigger] e.value() != self.hw_model) ==> r.value() == 0,
    {
        proof {
            crate::HardwareModel::lemma_number_or_default(self.hw_model);
        }
        match crate::HardwareModel::from_i32(self.hw_model) {
            Some(e) => e,
            None => <crate::HardwareModel as Default>::default(),
        }
    }

    /// Sets `hw_model` to the provided enum value.
    pub fn set_hw_model(&mut self, value: crate::HardwareModel)
        ensures
            *final(self) == (Self { hw_model: value.value(), ..*old(self) }),
    {
        self.hw_model = i32::from(value);
    }

    /// Returns the enum value of `role`, or the default if the field is set to an invalid enum value.
    pub fn role(&self) -> (r: crate::config::device_config::Role)
        ensures
            r == crate::config::device_config::Role::from_number_or_default(self.role),
            (exists|e: crate::config::device_config::Role| #[trigger] e.value() == self.role) ==> r.value() == self.role,
            (forall|e: crate::config::device_config::Role| #[trigger] e.value() != self.role) ==> r.value() == 0,
    {
        proof {
            crate::config::device_config::Role::lemma_number_or_default(self.role);
        }
        match crate::config::device_config::Role::from_i32(self.role) {
            Some(e) => e,
            None => <crate::config::device_config::Role as Default>::default(),
        }
    }

    /// Sets `role` to the provided enum value.
    pub fn set_role(&mut self, value: crate::config::device_config::Role)
        ensures
            *final(self) == (Self { role: value.value(), ..*old(self) }),
    {
        self.role = i32::from(value);
    }
}

impl Default for UserLite {
    /// The message with every field unset: numbers 0, flags false, strings, bytes and lists
    /// empty, and no nested message.
    fn default() -> (r: Self)
        ensures
            r.macaddr@.len() == 0,
            r.long_name@ == Seq::<char>::empty(),
            r.short_name@ == Seq::<char>::empty(),
            r.hw_model == 0,
            r.is_licensed == false,
            r.role == 0,
            r.public_key@.len() == 0,
    {
        UserLite {
            macaddr: Vec::new(),
            long_name: String::new(),
            short_name: String::new(),
            hw_model: 0,
            is_licensed: false,
            role: 0,
            public_key: Vec::new(),
        }
    }
}

/// The on-disk saved channels
#[derive(Clone, Debug, PartialEq)]
pub struct ChannelFile {
    /// The channels our node knows about
    pub channels: Vec<crate::Channel>,
    /// A version integer used to invalidate old save files when we make
    /// incompatible changes This integer is set at build time and is private to
    /// NodeDB.cpp in the device code.
    pub version: u32,
}

impl Default for ChannelFile {
    /// The message with every field unset: numbers 0, flags false, strings, bytes and lists
    /// empty, and no nested message.
    fn default() -> (r: Self)
        ensures
            r.channels@.len() == 0,
            r.version == 0,
    {
        ChannelFile {
            channels: Vec::new(),
            version: 0,
        }
    }
}

} // verus!
