//! Nested message and enum types in `PositionConfig`.

use vstd::prelude::*;
use crate::enum_error::make_unknown_enum_value;
use crate::text::str_eq;

verus! {

/// Bit field of boolean configuration options, indicating which optional
/// fields to include when assembling POSITION messages.
/// Longitude, latitude, altitude, speed, heading, and DOP
/// are always included (also time if GPS-synced)
/// NOTE: the more fields are included, the larger the message will be -
/// leading to longer airtime and a higher risk of packet loss
#[derive(Clone, Copy, Debug, PartialEq, Eq, Hash, PartialOrd, Ord)]
pub enum PositionFlags {
    /// Required for compilation
    Unset,
    /// Include an altitude value (if available)
    Altitude,
    /// Altitude value is MSL
    AltitudeMsl,
    /// Include geoidal separation
    GeoidalSeparation,
    /// Include the DOP value ; PDOP used by default, see below
    Dop,
    /// If POS_DOP set, send separate HDOP / VDOP values instead of PDOP
    Hvdop,
    /// Include number of "satellites in view"
    Satinview,
    /// Include a sequence number incremented per packet
    SeqNo,
    /// Include positional timestamp (from GPS solution)
    Timestamp,
    /// Include positional heading
    /// Intended for use with vehicle not walking speeds
    /// walking speeds are likely to be error prone like the compass
    Heading,
    /// Include positional speed
    /// Intended for use with vehicle not walking speeds
    /// walking speeds are likely to be error prone like the compass
    Speed,
}

impl PositionFlags {
    /// The name of this variant in the ProtoBuf definition.
    pub open spec fn str_name(self) -> Seq<char> {
        match self {
            PositionFlags::Unset => "UNSET"@,
            PositionFlags::Altitude => "ALTITUDE"@,
            PositionFlags::AltitudeMsl => "ALTITUDE_MSL"@,
            PositionFlags::GeoidalSeparation => "GEOIDAL_SEPARATION"@,
            PositionFlags::Dop => "DOP"@,
            PositionFlags::Hvdop => "HVDOP"@,
            PositionFlags::Satinview => "SATINVIEW"@,
            PositionFlags::SeqNo => "SEQ_NO"@,
            PositionFlags::Timestamp => "TIMESTAMP"@,
            PositionFlags::Heading => "HEADING"@,
            PositionFlags::Speed => "SPEED"@,
        }
    }

    /// The number of this variant in the ProtoBuf definition.
    pub open spec fn value(self) -> i32 {
        match self {
            PositionFlags::Unset => 0,
            PositionFlags::Altitude => 1,
            PositionFlags::AltitudeMsl => 2,
            PositionFlags::GeoidalSeparation => 4,
            PositionFlags::Dop => 8,
            PositionFlags::Hvdop => 16,
            PositionFlags::Satinview => 32,
            PositionFlags::SeqNo => 64,
            PositionFlags::Timestamp => 128,
            PositionFlags::Heading => 256,
            PositionFlags::Speed => 512,
        }
    }

    /// The variant numbered 0, which a field holds when it is not set.
    pub open spec fn default_variant() -> Self {
        PositionFlags::Unset
    }

    /// The variant numbered `value`, or the default variant when no variant has that number:
    /// what a message field holding `value` reads as.
    pub open spec fn from_number_or_default(value: i32) -> Self {
        match Self::with_value(value) {
            Some(e) => e,
            None => Self::default_variant(),
        }
    }

    /// The variant whose ProtoBuf name is `name`, if there is one.
    pub open spec fn named(name: Seq<char>) -> Option<Self> {
        if exists|e: Self| #[trigger] e.str_name() == name {
            Some(choose|e: Self| #[trigger] e.str_name() == name)
        } else {
            None
        }
    }

    /// The variant whose ProtoBuf number is `value`, if there is one.
    pub open spec fn with_value(value: i32) -> Option<Self> {
        if exists|e: Self| #[trigger] e.value() == value {
            Some(choose|e: Self| #[trigger] e.value() == value)
        } else {
            None
        }
    }

    spec fn name_lookup(name: Seq<char>) -> Option<Self> {
        if name == "UNSET"@ {
            Some(PositionFlags::Unset)
        } else if name == "ALTITUDE"@ {
            Some(PositionFlags::Altitude)
        } else if name == "ALTITUDE_MSL"@ {
            Some(PositionFlags::AltitudeMsl)
        } else if name == "GEOIDAL_SEPARATION"@ {
            Some(PositionFlags::GeoidalSeparation)
        } else if name == "DOP"@ {
            Some(PositionFlags::Dop)
        } else if name == "HVDOP"@ {
            Some(PositionFlags::Hvdop)
        } else if name == "SATINVIEW"@ {
            Some(PositionFlags::Satinview)
        } else if name == "SEQ_NO"@ {
            Some(PositionFlags::SeqNo)
        } else if name == "TIMESTAMP"@ {
            Some(PositionFlags::Timestamp)
        } else if name == "HEADING"@ {
            Some(PositionFlags::Heading)
        } else if name == "SPEED"@ {
            Some(PositionFlags::Speed)
        } else {
            None
        }
    }

    spec fn value_lookup(value: i32) -> Option<Self> {
        if value == 0 {
            Some(PositionFlags::Unset)
        } else if value == 1 {
            Some(PositionFlags::Altitude)
        } else if value == 2 {
            Some(PositionFlags::AltitudeMsl)
        } else if value == 4 {
            Some(PositionFlags::GeoidalSeparation)
        } else if value == 8 {
            Some(PositionFlags::Dop)
        } else if value == 16 {
            Some(PositionFlags::Hvdop)
        } else if value == 32 {
            Some(PositionFlags::Satinview)
        } else if value == 64 {
            Some(PositionFlags::SeqNo)
        } else if value == 128 {
            Some(PositionFlags::Timestamp)
        } else if value == 256 {
            Some(PositionFlags::Heading)
        } else if value == 512 {
            Some(PositionFlags::Speed)
        } else {
            None
        }
    }

    proof fn lemma_lookups()
        ensures
            forall|e: Self| #[trigger] Self::name_lookup(e.str_name()) == Some(e),
            forall|e: Self| #[trigger] Self::value_lookup(e.value()) == Some(e),
    {
        reveal_strlit("UNSET");
        assert("UNSET"@.len() == 5);
        assert("UNSET"@[0] == 'U');
        reveal_strlit("ALTITUDE");
        assert("ALTITUDE"@.len() == 8);
        reveal_strlit("ALTITUDE_MSL");
        assert("ALTITUDE_MSL"@.len() == 12);
        reveal_strlit("GEOIDAL_SEPARATION");
        assert("GEOIDAL_SEPARATION"@.len() == 18);
        reveal_strlit("DOP");
        assert("DOP"@.len() == 3);
        reveal_strlit("HVDOP");
        assert("HVDOP"@.len() == 5);
        assert("HVDOP"@[0] == 'H');
        reveal_strlit("SATINVIEW");
        assert("SATINVIEW"@.len() == 9);
        assert("SATINVIEW"@[0] == 'S');
        reveal_strlit("SEQ_NO");
        assert("SEQ_NO"@.len() == 6);
        reveal_strlit("TIMESTAMP");
        assert("TIMESTAMP"@.len() == 9);
        assert("TIMESTAMP"@[0] == 'T');
        reveal_strlit("HEADING");
        assert("HEADING"@.len() == 7);
        reveal_strlit("SPEED");
        assert("SPEED"@.len() == 5);
        assert("SPEED"@[0] == 'S');
    }

    /// Distinct variants have distinct ProtoBuf names and distinct ProtoBuf numbers.
    pub proof fn lemma_injective(a: Self, b: Self)
        ensures
            a.str_name() == b.str_name() ==> a == b,
            a.value() == b.value() ==> a == b,
    {
        Self::lemma_lookups();
        assert(Self::name_lookup(a.str_name()) == Some(a));
        assert(Self::name_lookup(b.str_name()) == Some(b));
        assert(Self::value_lookup(a.value()) == Some(a));
        assert(Self::value_lookup(b.value()) == Some(b));
    }

    /// A name denotes a variant exactly when it is that variant's ProtoBuf name:
    /// `from_str_name` undoes `as_str_name`, and accepts nothing else.
    pub proof fn lemma_named(name: Seq<char>, e: Self)
        ensures
            Self::named(name) == Some(e) <==> e.str_name() == name,
    {
        if e.str_name() == name {
            let x = choose|x: Self| #[trigger] x.str_name() == name;
            Self::lemma_injective(x, e);
        }
    }

    /// A number denotes a variant exactly when it is that variant's ProtoBuf number:
    /// `from_i32` undoes the conversion to `i32`, and accepts nothing else.
    pub proof fn lemma_with_value(value: i32, e: Self)
        ensures
            Self::with_value(value) == Some(e) <==> e.value() == value,
    {
        if e.value() == value {
            let x = choose|x: Self| #[trigger] x.value() == value;
            Self::lemma_injective(x, e);
        }
    }

    /// What a field holding `value` reads as: the variant numbered `value` when some variant
    /// has that number, and otherwise the variant numbered 0.
    pub proof fn lemma_number_or_default(value: i32)
        ensures
            (exists|e: Self| #[trigger] e.value() == value) ==> Self::from_number_or_default(value).value() == value,
            (forall|e: Self| #[trigger] e.value() != value) ==> Self::from_number_or_default(value).value() == 0,
            (forall|e: Self| #[trigger] e.value() != value) ==> Self::from_number_or_default(value) == Self::default_variant(),
            Self::default_variant().value() == 0,
    {
        if exists|e: Self| #[trigger] e.value() == value {
            let e = choose|e: Self| #[trigger] e.value() == value;
            Self::lemma_with_value(value, e);
        }
    }

    /// `try_from` accepts exactly the numbers that variants have and gives back the variant with
    /// that number; every other number it rejects with the error that records that number.
    pub proof fn lemma_try_from(value: i32, e: Self)
        ensures
            (<Self as vstd::std_specs::convert::TryFromSpec<i32>>::try_from_spec(value) == Ok::<Self, prost::UnknownEnumValue>(e)) <==> e.value() == value,
            (forall|x: Self| #[trigger] x.value() != value) ==> <Self as vstd::std_specs::convert::TryFromSpec<i32>>::try_from_spec(value) == Err::<Self, prost::UnknownEnumValue>(crate::enum_error::unknown_enum_value(value)),
            (exists|x: Self| #[trigger] x.value() == value) ==> <Self as vstd::std_specs::convert::TryFromSpec<i32>>::try_from_spec(value) is Ok,
    {
        Self::lemma_with_value(value, e);
        if exists|x: Self| #[trigger] x.value() == value {
            let x = choose|x: Self| #[trigger] x.value() == value;
            Self::lemma_with_value(value, x);
        }
    }

    /// Reading back the number of a variant gives that variant: a field set to `e` reads as `e`.
    pub proof fn lemma_read_after_write(e: Self)
        ensures
            Self::from_number_or_default(e.value()) == e,
    {
        Self::lemma_with_value(e.value(), e);
    }

    /// String value of the enum field names used in the ProtoBuf definition.
    ///
    /// The values are not transformed in any way and thus are considered stable
    /// (if the ProtoBuf definition does not change) and safe for programmatic use.
    pub fn as_str_name(&self) -> (name: &'static str)
        ensures
            name@ == self.str_name(),
    {
        match self {
            PositionFlags::Unset => "UNSET",
            PositionFlags::Altitude => "ALTITUDE",
            PositionFlags::AltitudeMsl => "ALTITUDE_MSL",
            PositionFlags::GeoidalSeparation => "GEOIDAL_SEPARATION",
            PositionFlags::Dop => "DOP",
            PositionFlags::Hvdop => "HVDOP",
            PositionFlags::Satinview => "SATINVIEW",
            PositionFlags::SeqNo => "SEQ_NO",
            PositionFlags::Timestamp => "TIMESTAMP",
            PositionFlags::Heading => "HEADING",
            PositionFlags::Speed => "SPEED",
        }
    }

    /// Creates an enum from field names used in the ProtoBuf definition.
    pub fn from_str_name(value: &str) -> (r: Option<Self>)
        ensures
            r == Self::named(value@),
    {
        if str_eq(value, "UNSET") {
            proof {
                Self::lemma_named(value@, PositionFlags::Unset);
            }
            return Some(PositionFlags::Unset);
        }
        if str_eq(value, "ALTITUDE") {
            proof {
                Self::lemma_named(value@, PositionFlags::Altitude);
            }
            return Some(PositionFlags::Altitude);
        }
        if str_eq(value, "ALTITUDE_MSL") {
            proof {
                Self::lemma_named(value@, PositionFlags::AltitudeMsl);
            }
            return Some(PositionFlags::AltitudeMsl);
        }
        if str_eq(value, "GEOIDAL_SEPARATION") {
            proof {
                Self::lemma_named(value@, PositionFlags::GeoidalSeparation);
            }
            return Some(PositionFlags::GeoidalSeparation);
        }
        if str_eq(value, "DOP") {
            proof {
                Self::lemma_named(value@, PositionFlags::Dop);
            }
            return Some(PositionFlags::Dop);
        }
        if str_eq(value, "HVDOP") {
            proof {
                Self::lemma_named(value@, PositionFlags::Hvdop);
            }
            return Some(PositionFlags::Hvdop);
        }
        if str_eq(value, "SATINVIEW") {
            proof {
                Self::lemma_named(value@, PositionFlags::Satinview);
            }
            return Some(PositionFlags::Satinview);
        }
        if str_eq(value, "SEQ_NO") {
            proof {
                Self::lemma_named(value@, PositionFlags::SeqNo);
            }
            return Some(PositionFlags::SeqNo);
        }
        if str_eq(value, "TIMESTAMP") {
            proof {
                Self::lemma_named(value@, PositionFlags::Timestamp);
            }
            return Some(PositionFlags::Timestamp);
        }
        if str_eq(value, "HEADING") {
            proof {
                Self::lemma_named(value@, PositionFlags::Heading);
            }
            return Some(PositionFlags::Heading);
        }
        if str_eq(value, "SPEED") {
            proof {
                Self::lemma_named(value@, PositionFlags::Speed);
            }
            return Some(PositionFlags::Speed);
        }
        None
    }

    /// Returns `true` if `value` is a variant of `PositionFlags`.
    pub fn is_valid(value: i32) -> (r: bool)
        ensures
            r == (Self::with_value(value) is Some),
    {
        Self::from_i32(value).is_some()
    }

    /// Converts an `i32` to a `PositionFlags`, or `None` if `value` is not a valid variant.
    pub fn from_i32(value: i32) -> (r: Option<Self>)
        ensures
            r == Self::with_value(value),
    {
        if value == 0 {
            proof {
                Self::lemma_with_value(value, PositionFlags::Unset);
            }
            return Some(PositionFlags::Unset);
        }
        if value == 1 {
            proof {
                Self::lemma_with_value(value, PositionFlags::Altitude);
            }
            return Some(PositionFlags::Altitude);
        }
        if value == 2 {
            proof {
                Self::lemma_with_value(value, PositionFlags::AltitudeMsl);
            }
            return Some(PositionFlags::AltitudeMsl);
        }
        if value == 4 {
            proof {
                Self::lemma_with_value(value, PositionFlags::GeoidalSeparation);
            }
            return Some(PositionFlags::GeoidalSeparation);
        }
        if value == 8 {
            proof {
                Self::lemma_with_value(value, PositionFlags::Dop);
            }
            return Some(PositionFlags::Dop);
        }
        if value == 16 {
            proof {
                Self::lemma_with_value(value, PositionFlags::Hvdop);
            }
            return Some(PositionFlags::Hvdop);
        }
        if value == 32 {
            proof {
                Self::lemma_with_value(value, PositionFlags::Satinview);
            }
            return Some(PositionFlags::Satinview);
        }
        if value == 64 {
            proof {
                Self::lemma_with_value(value, PositionFlags::SeqNo);
            }
            return Some(PositionFlags::SeqNo);
        }
        if value == 128 {
            proof {
                Self::lemma_with_value(value, PositionFlags::Timestamp);
            }
            return Some(PositionFlags::Timestamp);
        }
        if value == 256 {
            proof {
                Self::lemma_with_value(value, PositionFlags::Heading);
            }
            return Some(PositionFlags::Heading);
        }
        if value == 512 {
            proof {
                Self::lemma_with_value(value, PositionFlags::Speed);
            }
            return Some(PositionFlags::Speed);
        }
        None
    }
}

impl Default for PositionFlags {
    /// The variant numbered 0, the default value of the field in ProtoBuf.
    fn default() -> (r: Self)
        ensures
            r == Self::default_variant(),
            r.value() == 0,
    {
        PositionFlags::Unset
    }
}

impl From<PositionFlags> for i32 {
    fn from(value: PositionFlags) -> (r: i32) {
        match value {
            PositionFlags::Unset => 0,
            PositionFlags::Altitude => 1,
            PositionFlags::AltitudeMsl => 2,
            PositionFlags::GeoidalSeparation => 4,
            PositionFlags::Dop => 8,
            PositionFlags::Hvdop => 16,
            PositionFlags::Satinview => 32,
            PositionFlags::SeqNo => 64,
            PositionFlags::Timestamp => 128,
            PositionFlags::Heading => 256,
            PositionFlags::Speed => 512,
        }
    }
}

impl TryFrom<i32> for PositionFlags {
    type Error = prost::UnknownEnumValue;

    fn try_from(value: i32) -> (r: Result<PositionFlags, prost::UnknownEnumValue>)
        ensures
            r matches Ok(e) ==> e.value() == value,
            (exists|e: PositionFlags| #[trigger] e.value() == value) ==> r is Ok,
            r is Err ==> r == Err::<PositionFlags, prost::UnknownEnumValue>(crate::enum_error::unknown_enum_value(value)),
    {
        proof {
            if exists|e: PositionFlags| #[trigger] e.value() == value {
                let e = choose|e: PositionFlags| #[trigger] e.value() == value;
                PositionFlags::lemma_with_value(value, e);
            }
        }
        match PositionFlags::from_i32(value) {
            Some(e) => Ok(e),
            None => Err(make_unknown_enum_value(value)),
        }
    }
}

impl vstd::std_specs::convert::TryFromSpecImpl<i32> for PositionFlags {
    open spec fn obeys_try_from_spec() -> bool {
        true
    }

    open spec fn try_from_spec(value: i32) -> Result<PositionFlags, prost::UnknownEnumValue> {
        match PositionFlags::with_value(value) {
            Some(e) => Ok(e),
            None => Err(crate::enum_error::unknown_enum_value(value)),
        }
    }
}

impl vstd::std_specs::convert::FromSpecImpl<PositionFlags> for i32 {
    open spec fn obeys_from_spec() -> bool {
        true
    }

    open spec fn from_spec(value: PositionFlags) -> i32 {
        value.value()
    }
}

#[derive(Clone, Copy, Debug, PartialEq, Eq, Hash, PartialOrd, Ord)]
pub enum GpsMode {
    /// GPS is present but disabled
    Disabled,
    /// GPS is present and enabled
    Enabled,
    /// GPS is not present on the device
    NotPresent,
}

impl GpsMode {
    /// The name of this variant in the ProtoBuf definition.
    pub open spec fn str_name(self) -> Seq<char> {
        match self {
            GpsMode::Disabled => "DISABLED"@,
            GpsMode::Enabled => "ENABLED"@,
            GpsMode::NotPresent => "NOT_PRESENT"@,
        }
    }

    /// The number of this variant in the ProtoBuf definition.
    pub open spec fn value(self) -> i32 {
        match self {
            GpsMode::Disabled => 0,
            GpsMode::Enabled => 1,
            GpsMode::NotPresent => 2,
        }
    }

    /// The variant numbered 0, which a field holds when it is not set.
    pub open spec fn default_variant() -> Self {
        GpsMode::Disabled
    }

    /// The variant numbered `value`, or the default variant when no variant has that number:
    /// what a message field holding `value` reads as.
    pub open spec fn from_number_or_default(value: i32) -> Self {
        match Self::with_value(value) {
            Some(e) => e,
            None => Self::default_variant(),
        }
    }

    /// The variant whose ProtoBuf name is `name`, if there is one.
    pub open spec fn named(name: Seq<char>) -> Option<Self> {
        if exists|e: Self| #[trigger] e.str_name() == name {
            Some(choose|e: Self| #[trigger] e.str_name() == name)
        } else {
            None
        }
    }

    /// The variant whose ProtoBuf number is `value`, if there is one.
    pub open spec fn with_value(value: i32) -> Option<Self> {
        if exists|e: Self| #[trigger] e.value() == value {
            Some(choose|e: Self| #[trigger] e.value() == value)
        } else {
            None
        }
    }

    spec fn name_lookup(name: Seq<char>) -> Option<Self> {
        if name == "DISABLED"@ {
            Some(GpsMode::Disabled)
        } else if name == "ENABLED"@ {
            Some(GpsMode::Enabled)
        } else if name == "NOT_PRESENT"@ {
            Some(GpsMode::NotPresent)
        } else {
            None
        }
    }

    spec fn value_lookup(value: i32) -> Option<Self> {
        if value == 0 {
            Some(GpsMode::Disabled)
        } else if value == 1 {
            Some(GpsMode::Enabled)
        } else if value == 2 {
            Some(GpsMode::NotPresent)
        } else {
            None
        }
    }

    proof fn lemma_lookups()
        ensures
            forall|e: Self| #[trigger] Self::name_lookup(e.str_name()) == Some(e),
            forall|e: Self| #[trigger] Self::value_lookup(e.value()) == Some(e),
    {
        reveal_strlit("DISABLED");
        assert("DISABLED"@.len() == 8);
        reveal_strlit("ENABLED");
        assert("ENABLED"@.len() == 7);
        reveal_strlit("NOT_PRESENT");
        assert("NOT_PRESENT"@.len() == 11);
    }

    /// Distinct variants have distinct ProtoBuf names and distinct ProtoBuf numbers.
    pub proof fn lemma_injective(a: Self, b: Self)
        ensures
            a.str_name() == b.str_name() ==> a == b,
            a.value() == b.value() ==> a == b,
    {
        Self::lemma_lookups();
        assert(Self::name_lookup(a.str_name()) == Some(a));
        assert(Self::name_lookup(b.str_name()) == Some(b));
        assert(Self::value_lookup(a.value()) == Some(a));
        assert(Self::value_lookup(b.value()) == Some(b));
    }

    /// A name denotes a variant exactly when it is that variant's ProtoBuf name:
    /// `from_str_name` undoes `as_str_name`, and accepts nothing else.
    pub proof fn lemma_named(name: Seq<char>, e: Self)
        ensures
            Self::named(name) == Some(e) <==> e.str_name() == name,
    {
        if e.str_name() == name {
            let x = choose|x: Self| #[trigger] x.str_name() == name;
            Self::lemma_injective(x, e);
        }
    }

    /// A number denotes a variant exactly when it is that variant's ProtoBuf number:
    /// `from_i32` undoes the conversion to `i32`, and accepts nothing else.
    pub proof fn lemma_with_value(value: i32, e: Self)
        ensures
            Self::with_value(value) == Some(e) <==> e.value() == value,
    {
        if e.value() == value {
            let x = choose|x: Self| #[trigger] x.value() == value;
            Self::lemma_injective(x, e);
        }
    }

    /// What a field holding `value` reads as: the variant numbered `value` when some variant
    /// has that number, and otherwise the variant numbered 0.
    pub proof fn lemma_number_or_default(value: i32)
        ensures
            (exists|e: Self| #[trigger] e.value() == value) ==> Self::from_number_or_default(value).value() == value,
            (forall|e: Self| #[trigger] e.value() != value) ==> Self::from_number_or_default(value).value() == 0,
            (forall|e: Self| #[trigger] e.value() != value) ==> Self::from_number_or_default(value) == Self::default_variant(),
            Self::default_variant().value() == 0,
    {
        if exists|e: Self| #[trigger] e.value() == value {
            let e = choose|e: Self| #[trigger] e.value() == value;
            Self::lemma_with_value(value, e);
        }
    }

    /// `try_from` accepts exactly the numbers that variants have and gives back the variant with
    /// that number; every other number it rejects with the error that records that number.
    pub proof fn lemma_try_from(value: i32, e: Self)
        ensures
            (<Self as vstd::std_specs::convert::TryFromSpec<i32>>::try_from_spec(value) == Ok::<Self, prost::UnknownEnumValue>(e)) <==> e.value() == value,
            (forall|x: Self| #[trigger] x.value() != value) ==> <Self as vstd::std_specs::convert::TryFromSpec<i32>>::try_from_spec(value) == Err::<Self, prost::UnknownEnumValue>(crate::enum_error::unknown_enum_value(value)),
            (exists|x: Self| #[trigger] x.value() == value) ==> <Self as vstd::std_specs::convert::TryFromSpec<i32>>::try_from_spec(value) is Ok,
    {
        Self::lemma_with_value(value, e);
        if exists|x: Self| #[trigger] x.value() == value {
            let x = choose|x: Self| #[trigger] x.value() == value;
            Self::lemma_with_value(value, x);
        }
    }

    /// Reading back the number of a variant gives that variant: a field set to `e` reads as `e`.
    pub proof fn lemma_read_after_write(e: Self)
        ensures
            Self::from_number_or_default(e.value()) == e,
    {
        Self::lemma_with_value(e.value(), e);
    }

    /// String value of the enum field names used in the ProtoBuf definition.
    ///
    /// The values are not transformed in any way and thus are considered stable
    /// (if the ProtoBuf definition does not change) and safe for programmatic use.
    pub fn as_str_name(&self) -> (name: &'static str)
        ensures
            name@ == self.str_name(),
    {
        match self {
            GpsMode::Disabled => "DISABLED",
            GpsMode::Enabled => "ENABLED",
            GpsMode::NotPresent => "NOT_PRESENT",
        }
    }

    /// Creates an enum from field names used in the ProtoBuf definition.
    pub fn from_str_name(value: &str) -> (r: Option<Self>)
        ensures
            r == Self::named(value@),
    {
        if str_eq(value, "DISABLED") {
            proof {
                Self::lemma_named(value@, GpsMode::Disabled);
            }
            return Some(GpsMode::Disabled);
        }
        if str_eq(value, "ENABLED") {
            proof {
                Self::lemma_named(value@, GpsMode::Enabled);
            }
            return Some(GpsMode::Enabled);
        }
        if str_eq(value, "NOT_PRESENT") {
            proof {
                Self::lemma_named(value@, GpsMode::NotPresent);
            }
            return Some(GpsMode::NotPresent);
        }
        None
    }

    /// Returns `true` if `value` is a variant of `GpsMode`.
    pub fn is_valid(value: i32) -> (r: bool)
        ensures
            r == (Self::with_value(value) is Some),
    {
        Self::from_i32(value).is_some()
    }

    /// Converts an `i32` to a `GpsMode`, or `None` if `value` is not a valid variant.
    pub fn from_i32(value: i32) -> (r: Option<Self>)
        ensures
            r == Self::with_value(value),
    {
        if value == 0 {
            proof {
                Self::lemma_with_value(value, GpsMode::Disabled);
            }
            return Some(GpsMode::Disabled);
        }
        if value == 1 {
            proof {
                Self::lemma_with_value(value, GpsMode::Enabled);
            }
            return Some(GpsMode::Enabled);
        }
        if value == 2 {
            proof {
                Self::lemma_with_value(value, GpsMode::NotPresent);
            }
            return Some(GpsMode::NotPresent);
        }
        None
    }
}

impl Default for GpsMode {
    /// The variant numbered 0, the default value of the field in ProtoBuf.
    fn default() -> (r: Self)
        ensures
            r == Self::default_variant(),
            r.value() == 0,
    {
        GpsMode::Disabled
    }
}

impl From<GpsMode> for i32 {
    fn from(value: GpsMode) -> (r: i32) {
        match value {
            GpsMode::Disabled => 0,
            GpsMode::Enabled => 1,
            GpsMode::NotPresent => 2,
        }
    }
}

impl TryFrom<i32> for GpsMode {
    type Error = prost::UnknownEnumValue;

    fn try_from(value: i32) -> (r: Result<GpsMode, prost::UnknownEnumValue>)
        ensures
            r matches Ok(e) ==> e.value() == value,
            (exists|e: GpsMode| #[trigger] e.value() == value) ==> r is Ok,
            r is Err ==> r == Err::<GpsMode, prost::UnknownEnumValue>(crate::enum_error::unknown_enum_value(value)),
    {
        proof {
            if exists|e: GpsMode| #[trigger] e.value() == value {
                let e = choose|e: GpsMode| #[trigger] e.value() == value;
                GpsMode::lemma_with_value(value, e);
            }
        }
        match GpsMode::from_i32(value) {
            Some(e) => Ok(e),
            None => Err(make_unknown_enum_value(value)),
        }
    }
}

impl vstd::std_specs::convert::TryFromSpecImpl<i32> for GpsMode {
    open spec fn obeys_try_from_spec() -> bool {
        true
    }

    open spec fn try_from_spec(value: i32) -> Result<GpsMode, prost::UnknownEnumValue> {
        match GpsMode::with_value(value) {
            Some(e) => Ok(e),
            None => Err(crate::enum_error::unknown_enum_value(value)),
        }
    }
}

impl vstd::std_specs::convert::FromSpecImpl<GpsMode> for i32 {
    open spec fn obeys_from_spec() -> bool {
        true
    }

    open spec fn from_spec(value: GpsMode) -> i32 {
        value.value()
    }
}

} // verus!
