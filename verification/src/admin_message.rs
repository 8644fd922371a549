//! Nested message and enum types in `AdminMessage`.

use vstd::prelude::*;
use crate::enum_error::make_unknown_enum_value;
use crate::text::str_eq;

verus! {

#[derive(Clone, Copy, Debug, PartialEq, Eq, Hash, PartialOrd, Ord)]
pub enum ConfigType {
    DeviceConfig,
    PositionConfig,
    PowerConfig,
    NetworkConfig,
    DisplayConfig,
    LoraConfig,
    BluetoothConfig,
    SecurityConfig,
    SessionkeyConfig,
    /// device-ui config
    DeviceuiConfig,
}

impl ConfigType {
    /// The name of this variant in the ProtoBuf definition.
    pub open spec fn str_name(self) -> Seq<char> {
        match self {
            ConfigType::DeviceConfig => "DEVICE_CONFIG"@,
            ConfigType::PositionConfig => "POSITION_CONFIG"@,
            ConfigType::PowerConfig => "POWER_CONFIG"@,
            ConfigType::NetworkConfig => "NETWORK_CONFIG"@,
            ConfigType::DisplayConfig => "DISPLAY_CONFIG"@,
            ConfigType::LoraConfig => "LORA_CONFIG"@,
            ConfigType::BluetoothConfig => "BLUETOOTH_CONFIG"@,
            ConfigType::SecurityConfig => "SECURITY_CONFIG"@,
            ConfigType::SessionkeyConfig => "SESSIONKEY_CONFIG"@,
            ConfigType::DeviceuiConfig => "DEVICEUI_CONFIG"@,
        }
    }

    /// The number of this variant in the ProtoBuf definition.
    pub open spec fn value(self) -> i32 {
        match self {
            ConfigType::DeviceConfig => 0,
            ConfigType::PositionConfig => 1,
            ConfigType::PowerConfig => 2,
            ConfigType::NetworkConfig => 3,
            ConfigType::DisplayConfig => 4,
            ConfigType::LoraConfig => 5,
            ConfigType::BluetoothConfig => 6,
            ConfigType::SecurityConfig => 7,
            ConfigType::SessionkeyConfig => 8,
            ConfigType::DeviceuiConfig => 9,
        }
    }

    /// The variant numbered 0, which a field holds when it is not set.
    pub open spec fn default_variant() -> Self {
        ConfigType::DeviceConfig
    }

    /// The variant numbered `value`, or the default variant when no variant has that number:
    /// what a message field holding `value` reads as.
    pub open spec fn from_number_or_default(value: i32) -> Self {
        match Self::with_value(value) {
            Some(e) => e,
            None => Self::default_variant(),
        }
    }

    /// The variant whose ProtoBuf name is `name`, if there is one.
    pub open spec fn named(name: Seq<char>) -> Option<Self> {
        if exists|e: Self| #[trigger] e.str_name() == name {
            Some(choose|e: Self| #[trigger] e.str_name() == name)
        } else {
            None
        }
    }

    /// The variant whose ProtoBuf number is `value`, if there is one.
    pub open spec fn with_value(value: i32) -> Option<Self> {
        if exists|e: Self| #[trigger] e.value() == value {
            Some(choose|e: Self| #[trigger] e.value() == value)
        } else {
            None
        }
    }

    spec fn name_lookup(name: Seq<char>) -> Option<Self> {
        if name == "DEVICE_CONFIG"@ {
            Some(ConfigType::DeviceConfig)
        } else if name == "POSITION_CONFIG"@ {
            Some(ConfigType::PositionConfig)
        } else if name == "POWER_CONFIG"@ {
            Some(ConfigType::PowerConfig)
        } else if name == "NETWORK_CONFIG"@ {
            Some(ConfigType::NetworkConfig)
        } else if name == "DISPLAY_CONFIG"@ {
            Some(ConfigType::DisplayConfig)
        } else if name == "LORA_CONFIG"@ {
            Some(ConfigType::LoraConfig)
        } else if name == "BLUETOOTH_CONFIG"@ {
            Some(ConfigType::BluetoothConfig)
        } else if name == "SECURITY_CONFIG"@ {
            Some(ConfigType::SecurityConfig)
        } else if name == "SESSIONKEY_CONFIG"@ {
            Some(ConfigType::SessionkeyConfig)
        } else if name == "DEVICEUI_CONFIG"@ {
            Some(ConfigType::DeviceuiConfig)
        } else {
            None
        }
    }

    spec fn value_lookup(value: i32) -> Option<Self> {
        if value == 0 {
            Some(ConfigType::DeviceConfig)
        } else if value == 1 {
            Some(ConfigType::PositionConfig)
        } else if value == 2 {
            Some(ConfigType::PowerConfig)
        } else if value == 3 {
            Some(ConfigType::NetworkConfig)
        } else if value == 4 {
            Some(ConfigType::DisplayConfig)
        } else if value == 5 {
            Some(ConfigType::LoraConfig)
        } else if value == 6 {
            Some(ConfigType::BluetoothConfig)
        } else if value == 7 {
            Some(ConfigType::SecurityConfig)
        } else if value == 8 {
            Some(ConfigType::SessionkeyConfig)
        } else if value == 9 {
            Some(ConfigType::DeviceuiConfig)
        } else {
            None
        }
    }

    proof fn lemma_lookups()
        ensures
            forall|e: Self| #[trigger] Self::name_lookup(e.str_name()) == Some(e),
            forall|e: Self| #[trigger] Self::value_lookup(e.value()) == Some(e),
    {
        reveal_strlit("DEVICE_CONFIG");
        assert("DEVICE_CONFIG"@.len() == 13);
        reveal_strlit("POSITION_CONFIG");
        assert("POSITION_CONFIG"@.len() == 15);
        assert("POSITION_CONFIG"@[0] == 'P');
        reveal_strlit("POWER_CONFIG");
        assert("POWER_CONFIG"@.len() == 12);
        reveal_strlit("NETWORK_CONFIG");
        assert("NETWORK_CONFIG"@.len() == 14);
        assert("NETWORK_CONFIG"@[0] == 'N');
        reveal_strlit("DISPLAY_CONFIG");
        assert("DISPLAY_CONFIG"@.len() == 14);
        assert("DISPLAY_CONFIG"@[0] == 'D');
        reveal_strlit("LORA_CONFIG");
        assert("LORA_CONFIG"@.len() == 11);
        reveal_strlit("BLUETOOTH_CONFIG");
        assert("BLUETOOTH_CONFIG"@.len() == 16);
        reveal_strlit("SECURITY_CONFIG");
        assert("SECURITY_CONFIG"@.len() == 15);
        assert("SECURITY_CONFIG"@[0] == 'S');
        reveal_strlit("SESSIONKEY_CONFIG");
        assert("SESSIONKEY_CONFIG"@.len() == 17);
        reveal_strlit("DEVICEUI_CONFIG");
        assert("DEVICEUI_CONFIG"@.len() == 15);
        assert("DEVICEUI_CONFIG"@[0] == 'D');
    }

    /// Distinct variants have distinct ProtoBuf names and distinct ProtoBuf numbers.
    pub proof fn lemma_injective(a: Self, b: Self)
        ensures
            a.str_name() == b.str_name() ==> a == b,
            a.value() == b.value() ==> a == b,
    {
        Self::lemma_lookups();
        assert(Self::name_lookup(a.str_name()) == Some(a));
        assert(Self::name_lookup(b.str_name()) == Some(b));
        assert(Self::value_lookup(a.value()) == Some(a));
        assert(Self::value_lookup(b.value()) == Some(b));
    }

    /// A name denotes a variant exactly when it is that variant's ProtoBuf name:
    /// `from_str_name` undoes `as_str_name`, and accepts nothing else.
    pub proof fn lemma_named(name: Seq<char>, e: Self)
        ensures
            Self::named(name) == Some(e) <==> e.str_name() == name,
    {
        if e.str_name() == name {
            let x = choose|x: Self| #[trigger] x.str_name() == name;
            Self::lemma_injective(x, e);
        }
    }

    /// A number denotes a variant exactly when it is that variant's ProtoBuf number:
    /// `from_i32` undoes the conversion to `i32`, and accepts nothing else.
    pub proof fn lemma_with_value(value: i32, e: Self)
        ensures
            Self::with_value(value) == Some(e) <==> e.value() == value,
    {
        if e.value() == value {
            let x = choose|x: Self| #[trigger] x.value() == value;
            Self::lemma_injective(x, e);
        }
    }

    /// What a field holding `value` reads as: the variant numbered `value` when some variant
    /// has that number, and otherwise the variant numbered 0.
    pub proof fn lemma_number_or_default(value: i32)
        ensures
            (exists|e: Self| #[trigger] e.value() == value) ==> Self::from_number_or_default(value).value() == value,
            (forall|e: Self| #[trigger] e.value() != value) ==> Self::from_number_or_default(value).value() == 0,
            (forall|e: Self| #[trigger] e.value() != value) ==> Self::from_number_or_default(value) == Self::default_variant(),
            Self::default_variant().value() == 0,
    {
        if exists|e: Self| #[trigger] e.value() == value {
            let e = choose|e: Self| #[trigger] e.value() == value;
            Self::lemma_with_value(value, e);
        }
    }

    /// `try_from` accepts exactly the numbers that variants have and gives back the variant with
    /// that number; every other number it rejects with the error that records that number.
    pub proof fn lemma_try_from(value: i32, e: Self)
        ensures
            (<Self as vstd::std_specs::convert::TryFromSpec<i32>>::try_from_spec(value) == Ok::<Self, prost::UnknownEnumValue>(e)) <==> e.value() == value,
            (forall|x: Self| #[trigger] x.value() != value) ==> <Self as vstd::std_specs::convert::TryFromSpec<i32>>::try_from_spec(value) == Err::<Self, prost::UnknownEnumValue>(crate::enum_error::unknown_enum_value(value)),
            (exists|x: Self| #[trigger] x.value() == value) ==> <Self as vstd::std_specs::convert::TryFromSpec<i32>>::try_from_spec(value) is Ok,
    {
        Self::lemma_with_value(value, e);
        if exists|x: Self| #[trigger] x.value() == value {
            let x = choose|x: Self| #[trigger] x.value() == value;
            Self::lemma_with_value(value, x);
        }
    }

    /// Reading back the number of a variant gives that variant: a field set to `e` reads as `e`.
    pub proof fn lemma_read_after_write(e: Self)
        ensures
            Self::from_number_or_default(e.value()) == e,
    {
        Self::lemma_with_value(e.value(), e);
    }

    /// String value of the enum field names used in the ProtoBuf definition.
    ///
    /// The values are not transformed in any way and thus are considered stable
    /// (if the ProtoBuf definition does not change) and safe for programmatic use.
    pub fn as_str_name(&self) -> (name: &'static str)
        ensures
            name@ == self.str_name(),
    {
        match self {
            ConfigType::DeviceConfig => "DEVICE_CONFIG",
            ConfigType::PositionConfig => "POSITION_CONFIG",
            ConfigType::PowerConfig => "POWER_CONFIG",
            ConfigType::NetworkConfig => "NETWORK_CONFIG",
            ConfigType::DisplayConfig => "DISPLAY_CONFIG",
            ConfigType::LoraConfig => "LORA_CONFIG",
            ConfigType::BluetoothConfig => "BLUETOOTH_CONFIG",
            ConfigType::SecurityConfig => "SECURITY_CONFIG",
            ConfigType::SessionkeyConfig => "SESSIONKEY_CONFIG",
            ConfigType::DeviceuiConfig => "DEVICEUI_CONFIG",
        }
    }

    /// Creates an enum from field names used in the ProtoBuf definition.
    pub fn from_str_name(value: &str) -> (r: Option<Self>)
        ensures
            r == Self::named(value@),
    {
        if str_eq(value, "DEVICE_CONFIG") {
            proof {
                Self::lemma_named(value@, ConfigType::DeviceConfig);
            }
            return Some(ConfigType::DeviceConfig);
        }
        if str_eq(value, "POSITION_CONFIG") {
            proof {
                Self::lemma_named(value@, ConfigType::PositionConfig);
            }
            return Some(ConfigType::PositionConfig);
        }
        if str_eq(value, "POWER_CONFIG") {
            proof {
                Self::lemma_named(value@, ConfigType::PowerConfig);
            }
            return Some(ConfigType::PowerConfig);
        }
        if str_eq(value, "NETWORK_CONFIG") {
            proof {
                Self::lemma_named(value@, ConfigType::NetworkConfig);
            }
            return Some(ConfigType::NetworkConfig);
        }
        if str_eq(value, "DISPLAY_CONFIG") {
            proof {
                Self::lemma_named(value@, ConfigType::DisplayConfig);
            }
            return Some(ConfigType::DisplayConfig);
        }
        if str_eq(value, "LORA_CONFIG") {
            proof {
                Self::lemma_named(value@, ConfigType::LoraConfig);
            }
            return Some(ConfigType::LoraConfig);
        }
        if str_eq(value, "BLUETOOTH_CONFIG") {
            proof {
                Self::lemma_named(value@, ConfigType::BluetoothConfig);
            }
            return Some(ConfigType::BluetoothConfig);
        }
        if str_eq(value, "SECURITY_CONFIG") {
            proof {
                Self::lemma_named(value@, ConfigType::SecurityConfig);
            }
            return Some(ConfigType::SecurityConfig);
        }
        if str_eq(value, "SESSIONKEY_CONFIG") {
            proof {
                Self::lemma_named(value@, ConfigType::SessionkeyConfig);
            }
            return Some(ConfigType::SessionkeyConfig);
        }
        if str_eq(value, "DEVICEUI_CONFIG") {
            proof {
                Self::lemma_named(value@, ConfigType::DeviceuiConfig);
            }
            return Some(ConfigType::DeviceuiConfig);
        }
        None
    }

    /// Returns `true` if `value` is a variant of `ConfigType`.
    pub fn is_valid(value: i32) -> (r: bool)
        ensures
            r == (Self::with_value(value) is Some),
    {
        Self::from_i32(value).is_some()
    }

    /// Converts an `i32` to a `ConfigType`, or `None` if `value` is not a valid variant.
    pub fn from_i32(value: i32) -> (r: Option<Self>)
        ensures
            r == Self::with_value(value),
    {
        if value == 0 {
            proof {
                Self::lemma_with_value(value, ConfigType::DeviceConfig);
            }
            return Some(ConfigType::DeviceConfig);
        }
        if value == 1 {
            proof {
                Self::lemma_with_value(value, ConfigType::PositionConfig);
            }
            return Some(ConfigType::PositionConfig);
        }
        if value == 2 {
            proof {
                Self::lemma_with_value(value, ConfigType::PowerConfig);
            }
            return Some(ConfigType::PowerConfig);
        }
        if value == 3 {
            proof {
                Self::lemma_with_value(value, ConfigType::NetworkConfig);
            }
            return Some(ConfigType::NetworkConfig);
        }
        if value == 4 {
            proof {
                Self::lemma_with_value(value, ConfigType::DisplayConfig);
            }
            return Some(ConfigType::DisplayConfig);
        }
        if value == 5 {
            proof {
                Self::lemma_with_value(value, ConfigType::LoraConfig);
            }
            return Some(ConfigType::LoraConfig);
        }
        if value == 6 {
            proof {
                Self::lemma_with_value(value, ConfigType::BluetoothConfig);
            }
            return Some(ConfigType::BluetoothConfig);
        }
        if value == 7 {
            proof {
                Self::lemma_with_value(value, ConfigType::SecurityConfig);
            }
            return Some(ConfigType::SecurityConfig);
        }
        if value == 8 {
            proof {
                Self::lemma_with_value(value, ConfigType::SessionkeyConfig);
            }
            return Some(ConfigType::SessionkeyConfig);
        }
        if value == 9 {
            proof {
                Self::lemma_with_value(value, ConfigType::DeviceuiConfig);
            }
            return Some(ConfigType::DeviceuiConfig);
        }
        None
    }
}

impl Default for ConfigType {
    /// The variant numbered 0, the default value of the field in ProtoBuf.
    fn default() -> (r: Self)
        ensures
            r == Self::default_variant(),
            r.value() == 0,
    {
        ConfigType::DeviceConfig
    }
}

impl From<ConfigType> for i32 {
    fn from(value: ConfigType) -> (r: i32) {
        match value {
            ConfigType::DeviceConfig => 0,
            ConfigType::PositionConfig => 1,
            ConfigType::PowerConfig => 2,
            ConfigType::NetworkConfig => 3,
            ConfigType::DisplayConfig => 4,
            ConfigType::LoraConfig => 5,
            ConfigType::BluetoothConfig => 6,
            ConfigType::SecurityConfig => 7,
            ConfigType::SessionkeyConfig => 8,
            ConfigType::DeviceuiConfig => 9,
        }
    }
}

impl TryFrom<i32> for ConfigType {
    type Error = prost::UnknownEnumValue;

    fn try_from(value: i32) -> (r: Result<ConfigType, prost::UnknownEnumValue>)
        ensures
            r matches Ok(e) ==> e.value() == value,
            (exists|e: ConfigType| #[trigger] e.value() == value) ==> r is Ok,
            r is Err ==> r == Err::<ConfigType, prost::UnknownEnumValue>(crate::enum_error::unknown_enum_value(value)),
    {
        proof {
            if exists|e: ConfigType| #[trigger] e.value() == value {
                let e = choose|e: ConfigType| #[trigger] e.value() == value;
                ConfigType::lemma_with_value(value, e);
            }
        }
        match ConfigType::from_i32(value) {
            Some(e) => Ok(e),
            None => Err(make_unknown_enum_value(value)),
        }
    }
}

impl vstd::std_specs::convert::TryFromSpecImpl<i32> for ConfigType {
    open spec fn obeys_try_from_spec() -> bool {
        true
    }

    open spec fn try_from_spec(value: i32) -> Result<ConfigType, prost::UnknownEnumValue> {
        match ConfigType::with_value(value) {
            Some(e) => Ok(e),
            None => Err(crate::enum_error::unknown_enum_value(value)),
        }
    }
}

impl vstd::std_specs::convert::FromSpecImpl<ConfigType> for i32 {
    open spec fn obeys_from_spec() -> bool {
        true
    }

    open spec fn from_spec(value: ConfigType) -> i32 {
        value.value()
    }
}

#[derive(Clone, Copy, Debug, PartialEq, Eq, Hash, PartialOrd, Ord)]
pub enum ModuleConfigType {
    MqttConfig,
    SerialConfig,
    ExtnotifConfig,
    StoreforwardConfig,
    RangetestConfig,
    TelemetryConfig,
    CannedmsgConfig,
    AudioConfig,
    RemotehardwareConfig,
    NeighborinfoConfig,
    AmbientlightingConfig,
    DetectionsensorConfig,
    PaxcounterConfig,
}

impl ModuleConfigType {
    /// The name of this variant in the ProtoBuf definition.
    pub open spec fn str_name(self) -> Seq<char> {
        match self {
            ModuleConfigType::MqttConfig => "MQTT_CONFIG"@,
            ModuleConfigType::SerialConfig => "SERIAL_CONFIG"@,
            ModuleConfigType::ExtnotifConfig => "EXTNOTIF_CONFIG"@,
            ModuleConfigType::StoreforwardConfig => "STOREFORWARD_CONFIG"@,
            ModuleConfigType::RangetestConfig => "RANGETEST_CONFIG"@,
            ModuleConfigType::TelemetryConfig => "TELEMETRY_CONFIG"@,
            ModuleConfigType::CannedmsgConfig => "CANNEDMSG_CONFIG"@,
            ModuleConfigType::AudioConfig => "AUDIO_CONFIG"@,
            ModuleConfigType::RemotehardwareConfig => "REMOTEHARDWARE_CONFIG"@,
            ModuleConfigType::NeighborinfoConfig => "NEIGHBORINFO_CONFIG"@,
            ModuleConfigType::AmbientlightingConfig => "AMBIENTLIGHTING_CONFIG"@,
            ModuleConfigType::DetectionsensorConfig => "DETECTIONSENSOR_CONFIG"@,
            ModuleConfigType::PaxcounterConfig => "PAXCOUNTER_CONFIG"@,
        }
    }

    /// The number of this variant in the ProtoBuf definition.
    pub open spec fn value(self) -> i32 {
        match self {
            ModuleConfigType::MqttConfig => 0,
            ModuleConfigType::SerialConfig => 1,
            ModuleConfigType::ExtnotifConfig => 2,
            ModuleConfigType::StoreforwardConfig => 3,
            ModuleConfigType::RangetestConfig => 4,
            ModuleConfigType::TelemetryConfig => 5,
            ModuleConfigType::CannedmsgConfig => 6,
            ModuleConfigType::AudioConfig => 7,
            ModuleConfigType::RemotehardwareConfig => 8,
            ModuleConfigType::NeighborinfoConfig => 9,
            ModuleConfigType::AmbientlightingConfig => 10,
            ModuleConfigType::DetectionsensorConfig => 11,
            ModuleConfigType::PaxcounterConfig => 12,
        }
    }

    /// The variant numbered 0, which a field holds when it is not set.
    pub open spec fn default_variant() -> Self {
        ModuleConfigType::MqttConfig
    }

    /// The variant numbered `value`, or the default variant when no variant has that number:
    /// what a message field holding `value` reads as.
    pub open spec fn from_number_or_default(value: i32) -> Self {
        match Self::with_value(value) {
            Some(e) => e,
            None => Self::default_variant(),
        }
    }

    /// The variant whose ProtoBuf name is `name`, if there is one.
    pub open spec fn named(name: Seq<char>) -> Option<Self> {
        if exists|e: Self| #[trigger] e.str_name() == name {
            Some(choose|e: Self| #[trigger] e.str_name() == name)
        } else {
            None
        }
    }

    /// The variant whose ProtoBuf number is `value`, if there is one.
    pub open spec fn with_value(value: i32) -> Option<Self> {
        if exists|e: Self| #[trigger] e.value() == value {
            Some(choose|e: Self| #[trigger] e.value() == value)
        } else {
            None
        }
    }

    spec fn name_lookup(name: Seq<char>) -> Option<Self> {
        if name == "MQTT_CONFIG"@ {
            Some(ModuleConfigType::MqttConfig)
        } else if name == "SERIAL_CONFIG"@ {
            Some(ModuleConfigType::SerialConfig)
        } else if name == "EXTNOTIF_CONFIG"@ {
            Some(ModuleConfigType::ExtnotifConfig)
        } else if name == "STOREFORWARD_CONFIG"@ {
            Some(ModuleConfigType::StoreforwardConfig)
        } else if name == "RANGETEST_CONFIG"@ {
            Some(ModuleConfigType::RangetestConfig)
        } else if name == "TELEMETRY_CONFIG"@ {
            Some(ModuleConfigType::TelemetryConfig)
        } else if name == "CANNEDMSG_CONFIG"@ {
            Some(ModuleConfigType::CannedmsgConfig)
        } else if name == "AUDIO_CONFIG"@ {
            Some(ModuleConfigType::AudioConfig)
        } else if name == "REMOTEHARDWARE_CONFIG"@ {
            Some(ModuleConfigType::RemotehardwareConfig)
        } else if name == "NEIGHBORINFO_CONFIG"@ {
            Some(ModuleConfigType::NeighborinfoConfig)
        } else if name == "AMBIENTLIGHTING_CONFIG"@ {
            Some(ModuleConfigType::AmbientlightingConfig)
        } else if name == "DETECTIONSENSOR_CONFIG"@ {
            Some(ModuleConfigType::DetectionsensorConfig)
        } else if name == "PAXCOUNTER_CONFIG"@ {
            Some(ModuleConfigType::PaxcounterConfig)
        } else {
            None
        }
    }

    spec fn value_lookup(value: i32) -> Option<Self> {
        if value == 0 {
            Some(ModuleConfigType::MqttConfig)
        } else if value == 1 {
            Some(ModuleConfigType::SerialConfig)
        } else if value == 2 {
            Some(ModuleConfigType::ExtnotifConfig)
        } else if value == 3 {
            Some(ModuleConfigType::StoreforwardConfig)
        } else if value == 4 {
            Some(ModuleConfigType::RangetestConfig)
        } else if value == 5 {
            Some(ModuleConfigType::TelemetryConfig)
        } else if value == 6 {
            Some(ModuleConfigType::CannedmsgConfig)
        } else if value == 7 {
            Some(ModuleConfigType::AudioConfig)
        } else if value == 8 {
            Some(ModuleConfigType::RemotehardwareConfig)
        } else if value == 9 {
            Some(ModuleConfigType::NeighborinfoConfig)
        } else if value == 10 {
            Some(ModuleConfigType::AmbientlightingConfig)
        } else if value == 11 {
            Some(ModuleConfigType::DetectionsensorConfig)
        } else if value == 12 {
            Some(ModuleConfigType::PaxcounterConfig)
        } else {
            None
        }
    }

    proof fn lemma_lookups()
        ensures
            forall|e: Self| #[trigger] Self::name_lookup(e.str_name()) == Some(e),
            forall|e: Self| #[trigger] Self::value_lookup(e.value()) == Some(e),
    {
        reveal_strlit("MQTT_CONFIG");
        assert("MQTT_CONFIG"@.len() == 11);
        reveal_strlit("SERIAL_CONFIG");
        assert("SERIAL_CONFIG"@.len() == 13);
        reveal_strlit("EXTNOTIF_CONFIG");
        assert("EXTNOTIF_CONFIG"@.len() == 15);
        reveal_strlit("STOREFORWARD_CONFIG");
        assert("STOREFORWARD_CONFIG"@.len() == 19);
        assert("STOREFORWARD_CONFIG"@[0] == 'S');
        reveal_strlit("RANGETEST_CONFIG");
        assert("RANGETEST_CONFIG"@.len() == 16);
        assert("RANGETEST_CONFIG"@[0] == 'R');
        reveal_strlit("TELEMETRY_CONFIG");
        assert("TELEMETRY_CONFIG"@.len() == 16);
        assert("TELEMETRY_CONFIG"@[0] == 'T');
        reveal_strlit("CANNEDMSG_CONFIG");
        assert("CANNEDMSG_CONFIG"@.len() == 16);
        assert("CANNEDMSG_CONFIG"@[0] == 'C');
        reveal_strlit("AUDIO_CONFIG");
        assert("AUDIO_CONFIG"@.len() == 12);
        reveal_strlit("REMOTEHARDWARE_CONFIG");
        assert("REMOTEHARDWARE_CONFIG"@.len() == 21);
        reveal_strlit("NEIGHBORINFO_CONFIG");
        assert("NEIGHBORINFO_CONFIG"@.len() == 19);
        assert("NEIGHBORINFO_CONFIG"@[0] == 'N');
        reveal_strlit("AMBIENTLIGHTING_CONFIG");
        assert("AMBIENTLIGHTING_CONFIG"@.len() == 22);
        assert("AMBIENTLIGHTING_CONFIG"@[0] == 'A');
        reveal_strlit("DETECTIONSENSOR_CONFIG");
        assert("DETECTIONSENSOR_CONFIG"@.len() == 22);
        assert("DETECTIONSENSOR_CONFIG"@[0] == 'D');
        reveal_strlit("PAXCOUNTER_CONFIG");
        assert("PAXCOUNTER_CONFIG"@.len() == 17);
    }

    /// Distinct variants have distinct ProtoBuf names and distinct ProtoBuf numbers.
    pub proof fn lemma_injective(a: Self, b: Self)
        ensures
            a.str_name() == b.str_name() ==> a == b,
            a.value() == b.value() ==> a == b,
    {
        Self::lemma_lookups();
        assert(Self::name_lookup(a.str_name()) == Some(a));
        assert(Self::name_lookup(b.str_name()) == Some(b));
        assert(Self::value_lookup(a.value()) == Some(a));
        assert(Self::value_lookup(b.value()) == Some(b));
    }

    /// A name denotes a variant exactly when it is that variant's ProtoBuf name:
    /// `from_str_name` undoes `as_str_name`, and accepts nothing else.
    pub proof fn lemma_named(name: Seq<char>, e: Self)
        ensures
            Self::named(name) == Some(e) <==> e.str_name() == name,
    {
        if e.str_name() == name {
            let x = choose|x: Self| #[trigger] x.str_name() == name;
            Self::lemma_injective(x, e);
        }
    }

    /// A number denotes a variant exactly when it is that variant's ProtoBuf number:
    /// `from_i32` undoes the conversion to `i32`, and accepts nothing else.
    pub proof fn lemma_with_value(value: i32, e: Self)
        ensures
            Self::with_value(value) == Some(e) <==> e.value() == value,
    {
        if e.value() == value {
            let x = choose|x: Self| #[trigger] x.value() == value;
            Self::lemma_injective(x, e);
        }
    }

    /// What a field holding `value` reads as: the variant numbered `value` when some variant
    /// has that number, and otherwise the variant numbered 0.
    pub proof fn lemma_number_or_default(value: i32)
        ensures
            (exists|e: Self| #[trigger] e.value() == value) ==> Self::from_number_or_default(value).value() == value,
            (forall|e: Self| #[trigger] e.value() != value) ==> Self::from_number_or_default(value).value() == 0,
            (forall|e: Self| #[trigger] e.value() != value) ==> Self::from_number_or_default(value) == Self::default_variant(),
            Self::default_variant().value() == 0,
    {
        if exists|e: Self| #[trigger] e.value() == value {
            let e = choose|e: Self| #[trigger] e.value() == value;
            Self::lemma_with_value(value, e);
        }
    }

    /// `try_from` accepts exactly the numbers that variants have and gives back the variant with
    /// that number; every other number it rejects with the error that records that number.
    pub proof fn lemma_try_from(value: i32, e: Self)
        ensures
            (<Self as vstd::std_specs::convert::TryFromSpec<i32>>::try_from_spec(value) == Ok::<Self, prost::UnknownEnumValue>(e)) <==> e.value() == value,
            (forall|x: Self| #[trigger] x.value() != value) ==> <Self as vstd::std_specs::convert::TryFromSpec<i32>>::try_from_spec(value) == Err::<Self, prost::UnknownEnumValue>(crate::enum_error::unknown_enum_value(value)),
            (exists|x: Self| #[trigger] x.value() == value) ==> <Self as vstd::std_specs::convert::TryFromSpec<i32>>::try_from_spec(value) is Ok,
    {
        Self::lemma_with_value(value, e);
        if exists|x: Self| #[trigger] x.value() == value {
            let x = choose|x: Self| #[trigger] x.value() == value;
            Self::lemma_with_value(value, x);
        }
    }

    /// Reading back the number of a variant gives that variant: a field set to `e` reads as `e`.
    pub proof fn lemma_read_after_write(e: Self)
        ensures
            Self::from_number_or_default(e.value()) == e,
    {
        Self::lemma_with_value(e.value(), e);
    }

    /// String value of the enum field names used in the ProtoBuf definition.
    ///
    /// The values are not transformed in any way and thus are considered stable
    /// (if the ProtoBuf definition does not change) and safe for programmatic use.
    pub fn as_str_name(&self) -> (name: &'static str)
        ensures
            name@ == self.str_name(),
    {
        match self {
            ModuleConfigType::MqttConfig => "MQTT_CONFIG",
            ModuleConfigType::SerialConfig => "SERIAL_CONFIG",
            ModuleConfigType::ExtnotifConfig => "EXTNOTIF_CONFIG",
            ModuleConfigType::StoreforwardConfig => "STOREFORWARD_CONFIG",
            ModuleConfigType::RangetestConfig => "RANGETEST_CONFIG",
            ModuleConfigType::TelemetryConfig => "TELEMETRY_CONFIG",
            ModuleConfigType::CannedmsgConfig => "CANNEDMSG_CONFIG",
            ModuleConfigType::AudioConfig => "AUDIO_CONFIG",
            ModuleConfigType::RemotehardwareConfig => "REMOTEHARDWARE_CONFIG",
            ModuleConfigType::NeighborinfoConfig => "NEIGHBORINFO_CONFIG",
            ModuleConfigType::AmbientlightingConfig => "AMBIENTLIGHTING_CONFIG",
            ModuleConfigType::DetectionsensorConfig => "DETECTIONSENSOR_CONFIG",
            ModuleConfigType::PaxcounterConfig => "PAXCOUNTER_CONFIG",
        }
    }

    /// Creates an enum from field names used in the ProtoBuf definition.
    pub fn from_str_name(value: &str) -> (r: Option<Self>)
        ensures
            r == Self::named(value@),
    {
        if str_eq(value, "MQTT_CONFIG") {
            proof {
                Self::lemma_named(value@, ModuleConfigType::MqttConfig);
            }
            return Some(ModuleConfigType::MqttConfig);
        }
        if str_eq(value, "SERIAL_CONFIG") {
            proof {
                Self::lemma_named(value@, ModuleConfigType::SerialConfig);
            }
            return Some(ModuleConfigType::SerialConfig);
        }
        if str_eq(value, "EXTNOTIF_CONFIG") {
            proof {
                Self::lemma_named(value@, ModuleConfigType::ExtnotifConfig);
            }
            return Some(ModuleConfigType::ExtnotifConfig);
        }
        if str_eq(value, "STOREFORWARD_CONFIG") {
            proof {
                Self::lemma_named(value@, ModuleConfigType::StoreforwardConfig);
            }
            return Some(ModuleConfigType::StoreforwardConfig);
        }
        if str_eq(value, "RANGETEST_CONFIG") {
            proof {
                Self::lemma_named(value@, ModuleConfigType::RangetestConfig);
            }
            return Some(ModuleConfigType::RangetestConfig);
        }
        if str_eq(value, "TELEMETRY_CONFIG") {
            proof {
                Self::lemma_named(value@, ModuleConfigType::TelemetryConfig);
            }
            return Some(ModuleConfigType::TelemetryConfig);
        }
        if str_eq(value, "CANNEDMSG_CONFIG") {
            proof {
                Self::lemma_named(value@, ModuleConfigType::CannedmsgConfig);
            }
            return Some(ModuleConfigType::CannedmsgConfig);
        }
        if str_eq(value, "AUDIO_CONFIG") {
            proof {
                Self::lemma_named(value@, ModuleConfigType::AudioConfig);
            }
            return Some(ModuleConfigType::AudioConfig);
        }
        if str_eq(value, "REMOTEHARDWARE_CONFIG") {
            proof {
                Self::lemma_named(value@, ModuleConfigType::RemotehardwareConfig);
            }
            return Some(ModuleConfigType::RemotehardwareConfig);
        }
        if str_eq(value, "NEIGHBORINFO_CONFIG") {
            proof {
                Self::lemma_named(value@, ModuleConfigType::NeighborinfoConfig);
            }
            return Some(ModuleConfigType::NeighborinfoConfig);
        }
        if str_eq(value, "AMBIENTLIGHTING_CONFIG") {
            proof {
                Self::lemma_named(value@, ModuleConfigType::AmbientlightingConfig);
            }
            return Some(ModuleConfigType::AmbientlightingConfig);
        }
        if str_eq(value, "DETECTIONSENSOR_CONFIG") {
            proof {
                Self::lemma_named(value@, ModuleConfigType::DetectionsensorConfig);
            }
            return Some(ModuleConfigType::DetectionsensorConfig);
        }
        if str_eq(value, "PAXCOUNTER_CONFIG") {
            proof {
                Self::lemma_named(value@, ModuleConfigType::PaxcounterConfig);
            }
            return Some(ModuleConfigType::PaxcounterConfig);
        }
        None
    }

    /// Returns `true` if `value` is a variant of `ModuleConfigType`.
    pub fn is_valid(value: i32) -> (r: bool)
        ensures
            r == (Self::with_value(value) is Some),
    {
        Self::from_i32(value).is_some()
    }

    /// Converts an `i32` to a `ModuleConfigType`, or `None` if `value` is not a valid variant.
    pub fn from_i32(value: i32) -> (r: Option<Self>)
        ensures
            r == Self::with_value(value),
    {
        if value == 0 {
            proof {
                Self::lemma_with_value(value, ModuleConfigType::MqttConfig);
            }
            return Some(ModuleConfigType::MqttConfig);
        }
        if value == 1 {
            proof {
                Self::lemma_with_value(value, ModuleConfigType::SerialConfig);
            }
            return Some(ModuleConfigType::SerialConfig);
        }
        if value == 2 {
            proof {
                Self::lemma_with_value(value, ModuleConfigType::ExtnotifConfig);
            }
            return Some(ModuleConfigType::ExtnotifConfig);
        }
        if value == 3 {
            proof {
                Self::lemma_with_value(value, ModuleConfigType::StoreforwardConfig);
            }
            return Some(ModuleConfigType::StoreforwardConfig);
        }
        if value == 4 {
            proof {
                Self::lemma_with_value(value, ModuleConfigType::RangetestConfig);
            }
            return Some(ModuleConfigType::RangetestConfig);
        }
        if value == 5 {
            proof {
                Self::lemma_with_value(value, ModuleConfigType::TelemetryConfig);
            }
            return Some(ModuleConfigType::TelemetryConfig);
        }
        if value == 6 {
            proof {
                Self::lemma_with_value(value, ModuleConfigType::CannedmsgConfig);
            }
            return Some(ModuleConfigType::CannedmsgConfig);
        }
        if value == 7 {
            proof {
                Self::lemma_with_value(value, ModuleConfigType::AudioConfig);
            }
            return Some(ModuleConfigType::AudioConfig);
        }
        if value == 8 {
            proof {
                Self::lemma_with_value(value, ModuleConfigType::RemotehardwareConfig);
            }
            return Some(ModuleConfigType::RemotehardwareConfig);
        }
        if value == 9 {
            proof {
                Self::lemma_with_value(value, ModuleConfigType::NeighborinfoConfig);
            }
            return Some(ModuleConfigType::NeighborinfoConfig);
        }
        if value == 10 {
            proof {
                Self::lemma_with_value(value, ModuleConfigType::AmbientlightingConfig);
            }
            return Some(ModuleConfigType::AmbientlightingConfig);
        }
        if value == 11 {
            proof {
                Self::lemma_with_value(value, ModuleConfigType::DetectionsensorConfig);
            }
            return Some(ModuleConfigType::DetectionsensorConfig);
        }
        if value == 12 {
            proof {
                Self::lemma_with_value(value, ModuleConfigType::PaxcounterConfig);
            }
            return Some(ModuleConfigType::PaxcounterConfig);
        }
        None
    }
}

impl Default for ModuleConfigType {
    /// The variant numbered 0, the default value of the field in ProtoBuf.
    fn default() -> (r: Self)
        ensures
            r == Self::default_variant(),
            r.value() == 0,
    {
        ModuleConfigType::MqttConfig
    }
}

impl From<ModuleConfigType> for i32 {
    fn from(value: ModuleConfigType) -> (r: i32) {
        match value {
            ModuleConfigType::MqttConfig => 0,
            ModuleConfigType::SerialConfig => 1,
            ModuleConfigType::ExtnotifConfig => 2,
            ModuleConfigType::StoreforwardConfig => 3,
            ModuleConfigType::RangetestConfig => 4,
            ModuleConfigType::TelemetryConfig => 5,
            ModuleConfigType::CannedmsgConfig => 6,
            ModuleConfigType::AudioConfig => 7,
            ModuleConfigType::RemotehardwareConfig => 8,
            ModuleConfigType::NeighborinfoConfig => 9,
            ModuleConfigType::AmbientlightingConfig => 10,
            ModuleConfigType::DetectionsensorConfig => 11,
            ModuleConfigType::PaxcounterConfig => 12,
        }
    }
}

impl TryFrom<i32> for ModuleConfigType {
    type Error = prost::UnknownEnumValue;

    fn try_from(value: i32) -> (r: Result<ModuleConfigType, prost::UnknownEnumValue>)
        ensures
            r matches Ok(e) ==> e.value() == value,
            (exists|e: ModuleConfigType| #[trigger] e.value() == value) ==> r is Ok,
            r is Err ==> r == Err::<ModuleConfigType, prost::UnknownEnumValue>(crate::enum_error::unknown_enum_value(value)),
    {
        proof {
            if exists|e: ModuleConfigType| #[trigger] e.value() == value {
                let e = choose|e: ModuleConfigType| #[trigger] e.value() == value;
                ModuleConfigType::lemma_with_value(value, e);
            }
        }
        match ModuleConfigType::from_i32(value) {
            Some(e) => Ok(e),
            None => Err(make_unknown_enum_value(value)),
        }
    }
}

impl vstd::std_specs::convert::TryFromSpecImpl<i32> for ModuleConfigType {
    open spec fn obeys_try_from_spec() -> bool {
        true
    }

    open spec fn try_from_spec(value: i32) -> Result<ModuleConfigType, prost::UnknownEnumValue> {
        match ModuleConfigType::with_value(value) {
            Some(e) => Ok(e),
            None => Err(crate::enum_error::unknown_enum_value(value)),
        }
    }
}

impl vstd::std_specs::convert::FromSpecImpl<ModuleConfigType> for i32 {
    open spec fn obeys_from_spec() -> bool {
        true
    }

    open spec fn from_spec(value: ModuleConfigType) -> i32 {
        value.value()
    }
}

} // verus!
