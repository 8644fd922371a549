//! Nested message and enum types in `DisplayConfig`.

use vstd::prelude::*;
use crate::enum_error::make_unknown_enum_value;
use crate::text::str_eq;

verus! {

/// How the GPS coordinates are displayed on the OLED screen.
#[derive(Clone, Copy, Debug, PartialEq, Eq, Hash, PartialOrd, Ord)]
pub enum GpsCoordinateFormat {
    /// GPS coordinates are displayed in the normal decimal degrees format:
    /// DD.DDDDDD DDD.DDDDDD
    Dec,
    /// GPS coordinates are displayed in the degrees minutes seconds format:
    /// DD°MM'SS"C DDD°MM'SS"C, where C is the compass point representing the locations quadrant
    Dms,
    /// Universal Transverse Mercator format:
    /// ZZB EEEEEE NNNNNNN, where Z is zone, B is band, E is easting, N is northing
    Utm,
    /// Military Grid Reference System format:
    /// ZZB CD EEEEE NNNNN, where Z is zone, B is band, C is the east 100k square, D is the north 100k square,
    /// E is easting, N is northing
    Mgrs,
    /// Open Location Code (aka Plus Codes).
    Olc,
    /// Ordnance Survey Grid Reference (the National Grid System of the UK).
    /// Format: AB EEEEE NNNNN, where A is the east 100k square, B is the north 100k square,
    /// E is the easting, N is the northing
    Osgr,
}

impl GpsCoordinateFormat {
    /// The name of this variant in the ProtoBuf definition.
    pub open spec fn str_name(self) -> Seq<char> {
        match self {
            GpsCoordinateFormat::Dec => "DEC"@,
            GpsCoordinateFormat::Dms => "DMS"@,
            GpsCoordinateFormat::Utm => "UTM"@,
            GpsCoordinateFormat::Mgrs => "MGRS"@,
            GpsCoordinateFormat::Olc => "OLC"@,
            GpsCoordinateFormat::Osgr => "OSGR"@,
        }
    }

    /// The number of this variant in the ProtoBuf definition.
    pub open spec fn value(self) -> i32 {
        match self {
            GpsCoordinateFormat::Dec => 0,
            GpsCoordinateFormat::Dms => 1,
            GpsCoordinateFormat::Utm => 2,
            GpsCoordinateFormat::Mgrs => 3,
            GpsCoordinateFormat::Olc => 4,
            GpsCoordinateFormat::Osgr => 5,
        }
    }

    /// The variant numbered 0, which a field holds when it is not set.
    pub open spec fn default_variant() -> Self {
        GpsCoordinateFormat::Dec
    }

    /// The variant numbered `value`, or the default variant when no variant has that number:
    /// what a message field holding `value` reads as.
    pub open spec fn from_number_or_default(value: i32) -> Self {
        match Self::with_value(value) {
            Some(e) => e,
            None => Self::default_variant(),
        }
    }

    /// The variant whose ProtoBuf name is `name`, if there is one.
    pub open spec fn named(name: Seq<char>) -> Option<Self> {
        if exists|e: Self| #[trigger] e.str_name() == name {
            Some(choose|e: Self| #[trigger] e.str_name() == name)
        } else {
            None
        }
    }

    /// The variant whose ProtoBuf number is `value`, if there is one.
    pub open spec fn with_value(value: i32) -> Option<Self> {
        if exists|e: Self| #[trigger] e.value() == value {
            Some(choose|e: Self| #[trigger] e.value() == value)
        } else {
            None
        }
    }

    spec fn name_lookup(name: Seq<char>) -> Option<Self> {
        if name == "DEC"@ {
            Some(GpsCoordinateFormat::Dec)
        } else if name == "DMS"@ {
            Some(GpsCoordinateFormat::Dms)
        } else if name == "UTM"@ {
            Some(GpsCoordinateFormat::Utm)
        } else if name == "MGRS"@ {
            Some(GpsCoordinateFormat::Mgrs)
        } else if name == "OLC"@ {
            Some(GpsCoordinateFormat::Olc)
        } else if name == "OSGR"@ {
            Some(GpsCoordinateFormat::Osgr)
        } else {
            None
        }
    }

    spec fn value_lookup(value: i32) -> Option<Self> {
        if value == 0 {
            Some(GpsCoordinateFormat::Dec)
        } else if value == 1 {
            Some(GpsCoordinateFormat::Dms)
        } else if value == 2 {
            Some(GpsCoordinateFormat::Utm)
        } else if value == 3 {
            Some(GpsCoordinateFormat::Mgrs)
        } else if value == 4 {
            Some(GpsCoordinateFormat::Olc)
        } else if value == 5 {
            Some(GpsCoordinateFormat::Osgr)
        } else {
            None
        }
    }

    proof fn lemma_lookups()
        ensures
            forall|e: Self| #[trigger] Self::name_lookup(e.str_name()) == Some(e),
            forall|e: Self| #[trigger] Self::value_lookup(e.value()) == Some(e),
    {
        reveal_strlit("DEC");
        assert("DEC"@.len() == 3);
        assert("DEC"@[0] == 'D');
        assert("DEC"@[1] == 'E');
        reveal_strlit("DMS");
        assert("DMS"@.len() == 3);
        assert("DMS"@[0] == 'D');
        assert("DMS"@[1] == 'M');
        reveal_strlit("UTM");
        assert("UTM"@.len() == 3);
        assert("UTM"@[0] == 'U');
        reveal_strlit("MGRS");
        assert("MGRS"@.len() == 4);
        assert("MGRS"@[0] == 'M');
        reveal_strlit("OLC");
        assert("OLC"@.len() == 3);
        assert("OLC"@[0] == 'O');
        reveal_strlit("OSGR");
        assert("OSGR"@.len() == 4);
        assert("OSGR"@[0] == 'O');
    }

    /// Distinct variants have distinct ProtoBuf names and distinct ProtoBuf numbers.
    pub proof fn lemma_injective(a: Self, b: Self)
        ensures
            a.str_name() == b.str_name() ==> a == b,
            a.value() == b.value() ==> a == b,
    {
        Self::lemma_lookups();
        assert(Self::name_lookup(a.str_name()) == Some(a));
        assert(Self::name_lookup(b.str_name()) == Some(b));
        assert(Self::value_lookup(a.value()) == Some(a));
        assert(Self::value_lookup(b.value()) == Some(b));
    }

    /// A name denotes a variant exactly when it is that variant's ProtoBuf name:
    /// `from_str_name` undoes `as_str_name`, and accepts nothing else.
    pub proof fn lemma_named(name: Seq<char>, e: Self)
        ensures
            Self::named(name) == Some(e) <==> e.str_name() == name,
    {
        if e.str_name() == name {
            let x = choose|x: Self| #[trigger] x.str_name() == name;
            Self::lemma_injective(x, e);
        }
    }

    /// A number denotes a variant exactly when it is that variant's ProtoBuf number:
    /// `from_i32` undoes the conversion to `i32`, and accepts nothing else.
    pub proof fn lemma_with_value(value: i32, e: Self)
        ensures
            Self::with_value(value) == Some(e) <==> e.value() == value,
    {
        if e.value() == value {
            let x = choose|x: Self| #[trigger] x.value() == value;
            Self::lemma_injective(x, e);
        }
    }

    /// What a field holding `value` reads as: the variant numbered `value` when some variant
    /// has that number, and otherwise the variant numbered 0.
    pub proof fn lemma_number_or_default(value: i32)
        ensures
            (exists|e: Self| #[trigger] e.value() == value) ==> Self::from_number_or_default(value).value() == value,
            (forall|e: Self| #[trigger] e.value() != value) ==> Self::from_number_or_default(value).value() == 0,
            (forall|e: Self| #[trigger] e.value() != value) ==> Self::from_number_or_default(value) == Self::default_variant(),
            Self::default_variant().value() == 0,
    {
        if exists|e: Self| #[trigger] e.value() == value {
            let e = choose|e: Self| #[trigger] e.value() == value;
            Self::lemma_with_value(value, e);
        }
    }

    /// `try_from` accepts exactly the numbers that variants have and gives back the variant with
    /// that number; every other number it rejects with the error that records that number.
    pub proof fn lemma_try_from(value: i32, e: Self)
        ensures
            (<Self as vstd::std_specs::convert::TryFromSpec<i32>>::try_from_spec(value) == Ok::<Self, prost::UnknownEnumValue>(e)) <==> e.value() == value,
            (forall|x: Self| #[trigger] x.value() != value) ==> <Self as vstd::std_specs::convert::TryFromSpec<i32>>::try_from_spec(value) == Err::<Self, prost::UnknownEnumValue>(crate::enum_error::unknown_enum_value(value)),
            (exists|x: Self| #[trigger] x.value() == value) ==> <Self as vstd::std_specs::convert::TryFromSpec<i32>>::try_from_spec(value) is Ok,
    {
        Self::lemma_with_value(value, e);
        if exists|x: Self| #[trigger] x.value() == value {
            let x = choose|x: Self| #[trigger] x.value() == value;
            Self::lemma_with_value(value, x);
        }
    }

    /// Reading back the number of a variant gives that variant: a field set to `e` reads as `e`.
    pub proof fn lemma_read_after_write(e: Self)
        ensures
            Self::from_number_or_default(e.value()) == e,
    {
        Self::lemma_with_value(e.value(), e);
    }

    /// String value of the enum field names used in the ProtoBuf definition.
    ///
    /// The values are not transformed in any way and thus are considered stable
    /// (if the ProtoBuf definition does not change) and safe for programmatic use.
    pub fn as_str_name(&self) -> (name: &'static str)
        ensures
            name@ == self.str_name(),
    {
        match self {
            GpsCoordinateFormat::Dec => "DEC",
            GpsCoordinateFormat::Dms => "DMS",
            GpsCoordinateFormat::Utm => "UTM",
            GpsCoordinateFormat::Mgrs => "MGRS",
            GpsCoordinateFormat::Olc => "OLC",
            GpsCoordinateFormat::Osgr => "OSGR",
        }
    }

    /// Creates an enum from field names used in the ProtoBuf definition.
    pub fn from_str_name(value: &str) -> (r: Option<Self>)
        ensures
            r == Self::named(value@),
    {
        if str_eq(value, "DEC") {
            proof {
                Self::lemma_named(value@, GpsCoordinateFormat::Dec);
            }
            return Some(GpsCoordinateFormat::Dec);
        }
        if str_eq(value, "DMS") {
            proof {
                Self::lemma_named(value@, GpsCoordinateFormat::Dms);
            }
            return Some(GpsCoordinateFormat::Dms);
        }
        if str_eq(value, "UTM") {
            proof {
                Self::lemma_named(value@, GpsCoordinateFormat::Utm);
            }
            return Some(GpsCoordinateFormat::Utm);
        }
        if str_eq(value, "MGRS") {
            proof {
                Self::lemma_named(value@, GpsCoordinateFormat::Mgrs);
            }
            return Some(GpsCoordinateFormat::Mgrs);
        }
        if str_eq(value, "OLC") {
            proof {
                Self::lemma_named(value@, GpsCoordinateFormat::Olc);
            }
            return Some(GpsCoordinateFormat::Olc);
        }
        if str_eq(value, "OSGR") {
            proof {
                Self::lemma_named(value@, GpsCoordinateFormat::Osgr);
            }
            return Some(GpsCoordinateFormat::Osgr);
        }
        None
    }

    /// Returns `true` if `value` is a variant of `GpsCoordinateFormat`.
    pub fn is_valid(value: i32) -> (r: bool)
        ensures
            r == (Self::with_value(value) is Some),
    {
        Self::from_i32(value).is_some()
    }

    /// Converts an `i32` to a `GpsCoordinateFormat`, or `None` if `value` is not a valid variant.
    pub fn from_i32(value: i32) -> (r: Option<Self>)
        ensures
            r == Self::with_value(value),
    {
        if value == 0 {
            proof {
                Self::lemma_with_value(value, GpsCoordinateFormat::Dec);
            }
            return Some(GpsCoordinateFormat::Dec);
        }
        if value == 1 {
            proof {
                Self::lemma_with_value(value, GpsCoordinateFormat::Dms);
            }
            return Some(GpsCoordinateFormat::Dms);
        }
        if value == 2 {
            proof {
                Self::lemma_with_value(value, GpsCoordinateFormat::Utm);
            }
            return Some(GpsCoordinateFormat::Utm);
        }
        if value == 3 {
            proof {
                Self::lemma_with_value(value, GpsCoordinateFormat::Mgrs);
            }
            return Some(GpsCoordinateFormat::Mgrs);
        }
        if value == 4 {
            proof {
                Self::lemma_with_value(value, GpsCoordinateFormat::Olc);
            }
            return Some(GpsCoordinateFormat::Olc);
        }
        if value == 5 {
            proof {
                Self::lemma_with_value(value, GpsCoordinateFormat::Osgr);
            }
            return Some(GpsCoordinateFormat::Osgr);
        }
        None
    }
}

impl Default for GpsCoordinateFormat {
    /// The variant numbered 0, the default value of the field in ProtoBuf.
    fn default() -> (r: Self)
        ensures
            r == Self::default_variant(),
            r.value() == 0,
    {
        GpsCoordinateFormat::Dec
    }
}

impl From<GpsCoordinateFormat> for i32 {
    fn from(value: GpsCoordinateFormat) -> (r: i32) {
        match value {
            GpsCoordinateFormat::Dec => 0,
            GpsCoordinateFormat::Dms => 1,
            GpsCoordinateFormat::Utm => 2,
            GpsCoordinateFormat::Mgrs => 3,
            GpsCoordinateFormat::Olc => 4,
            GpsCoordinateFormat::Osgr => 5,
        }
    }
}

impl TryFrom<i32> for GpsCoordinateFormat {
    type Error = prost::UnknownEnumValue;

    fn try_from(value: i32) -> (r: Result<GpsCoordinateFormat, prost::UnknownEnumValue>)
        ensures
            r matches Ok(e) ==> e.value() == value,
            (exists|e: GpsCoordinateFormat| #[trigger] e.value() == value) ==> r is Ok,
            r is Err ==> r == Err::<GpsCoordinateFormat, prost::UnknownEnumValue>(crate::enum_error::unknown_enum_value(value)),
    {
        proof {
            if exists|e: GpsCoordinateFormat| #[trigger] e.value() == value {
                let e = choose|e: GpsCoordinateFormat| #[trigger] e.value() == value;
                GpsCoordinateFormat::lemma_with_value(value, e);
            }
        }
        match GpsCoordinateFormat::from_i32(value) {
            Some(e) => Ok(e),
            None => Err(make_unknown_enum_value(value)),
        }
    }
}

impl vstd::std_specs::convert::TryFromSpecImpl<i32> for GpsCoordinateFormat {
    open spec fn obeys_try_from_spec() -> bool {
        true
    }

    open spec fn try_from_spec(value: i32) -> Result<GpsCoordinateFormat, prost::UnknownEnumValue> {
        match GpsCoordinateFormat::with_value(value) {
            Some(e) => Ok(e),
            None => Err(crate::enum_error::unknown_enum_value(value)),
        }
    }
}

impl vstd::std_specs::convert::FromSpecImpl<GpsCoordinateFormat> for i32 {
    open spec fn obeys_from_spec() -> bool {
        true
    }

    open spec fn from_spec(value: GpsCoordinateFormat) -> i32 {
        value.value()
    }
}

/// Unit display preference
#[derive(Clone, Copy, Debug, PartialEq, Eq, Hash, PartialOrd, Ord)]
pub enum DisplayUnits {
    /// Metric (Default)
    Metric,
    /// Imperial
    Imperial,
}

impl DisplayUnits {
    /// The name of this variant in the ProtoBuf definition.
    pub open spec fn str_name(self) -> Seq<char> {
        match self {
            DisplayUnits::Metric => "METRIC"@,
            DisplayUnits::Imperial => "IMPERIAL"@,
        }
    }

    /// The number of this variant in the ProtoBuf definition.
    pub open spec fn value(self) -> i32 {
        match self {
            DisplayUnits::Metric => 0,
            DisplayUnits::Imperial => 1,
        }
    }

    /// The variant numbered 0, which a field holds when it is not set.
    pub open spec fn default_variant() -> Self {
        DisplayUnits::Metric
    }

    /// The variant numbered `value`, or the default variant when no variant has that number:
    /// what a message field holding `value` reads as.
    pub open spec fn from_number_or_default(value: i32) -> Self {
        match Self::with_value(value) {
            Some(e) => e,
            None => Self::default_variant(),
        }
    }

    /// The variant whose ProtoBuf name is `name`, if there is one.
    pub open spec fn named(name: Seq<char>) -> Option<Self> {
        if exists|e: Self| #[trigger] e.str_name() == name {
            Some(choose|e: Self| #[trigger] e.str_name() == name)
        } else {
            None
        }
    }

    /// The variant whose ProtoBuf number is `value`, if there is one.
    pub open spec fn with_value(value: i32) -> Option<Self> {
        if exists|e: Self| #[trigger] e.value() == value {
            Some(choose|e: Self| #[trigger] e.value() == value)
        } else {
            None
        }
    }

    spec fn name_lookup(name: Seq<char>) -> Option<Self> {
        if name == "METRIC"@ {
            Some(DisplayUnits::Metric)
        } else if name == "IMPERIAL"@ {
            Some(DisplayUnits::Imperial)
        } else {
            None
        }
    }

    spec fn value_lookup(value: i32) -> Option<Self> {
        if value == 0 {
            Some(DisplayUnits::Metric)
        } else if value == 1 {
            Some(DisplayUnits::Imperial)
        } else {
            None
        }
    }

    proof fn lemma_lookups()
        ensures
            forall|e: Self| #[trigger] Self::name_lookup(e.str_name()) == Some(e),
            forall|e: Self| #[trigger] Self::value_lookup(e.value()) == Some(e),
    {
        reveal_strlit("METRIC");
        assert("METRIC"@.len() == 6);
        reveal_strlit("IMPERIAL");
        assert("IMPERIAL"@.len() == 8);
    }

    /// Distinct variants have distinct ProtoBuf names and distinct ProtoBuf numbers.
    pub proof fn lemma_injective(a: Self, b: Self)
        ensures
            a.str_name() == b.str_name() ==> a == b,
            a.value() == b.value() ==> a == b,
    {
        Self::lemma_lookups();
        assert(Self::name_lookup(a.str_name()) == Some(a));
        assert(Self::name_lookup(b.str_name()) == Some(b));
        assert(Self::value_lookup(a.value()) == Some(a));
        assert(Self::value_lookup(b.value()) == Some(b));
    }

    /// A name denotes a variant exactly when it is that variant's ProtoBuf name:
    /// `from_str_name` undoes `as_str_name`, and accepts nothing else.
    pub proof fn lemma_named(name: Seq<char>, e: Self)
        ensures
            Self::named(name) == Some(e) <==> e.str_name() == name,
    {
        if e.str_name() == name {
            let x = choose|x: Self| #[trigger] x.str_name() == name;
            Self::lemma_injective(x, e);
        }
    }

    /// A number denotes a variant exactly when it is that variant's ProtoBuf number:
    /// `from_i32` undoes the conversion to `i32`, and accepts nothing else.
    pub proof fn lemma_with_value(value: i32, e: Self)
        ensures
            Self::with_value(value) == Some(e) <==> e.value() == value,
    {
        if e.value() == value {
            let x = choose|x: Self| #[trigger] x.value() == value;
            Self::lemma_injective(x, e);
        }
    }

    /// What a field holding `value` reads as: the variant numbered `value` when some variant
    /// has that number, and otherwise the variant numbered 0.
    pub proof fn lemma_number_or_default(value: i32)
        ensures
            (exists|e: Self| #[trigger] e.value() == value) ==> Self::from_number_or_default(value).value() == value,
            (forall|e: Self| #[trigger] e.value() != value) ==> Self::from_number_or_default(value).value() == 0,
            (forall|e: Self| #[trigger] e.value() != value) ==> Self::from_number_or_default(value) == Self::default_variant(),
            Self::default_variant().value() == 0,
    {
        if exists|e: Self| #[trigger] e.value() == value {
            let e = choose|e: Self| #[trigger] e.value() == value;
            Self::lemma_with_value(value, e);
        }
    }

    /// `try_from` accepts exactly the numbers that variants have and gives back the variant with
    /// that number; every other number it rejects with the error that records that number.
    pub proof fn lemma_try_from(value: i32, e: Self)
        ensures
            (<Self as vstd::std_specs::convert::TryFromSpec<i32>>::try_from_spec(value) == Ok::<Self, prost::UnknownEnumValue>(e)) <==> e.value() == value,
            (forall|x: Self| #[trigger] x.value() != value) ==> <Self as vstd::std_specs::convert::TryFromSpec<i32>>::try_from_spec(value) == Err::<Self, prost::UnknownEnumValue>(crate::enum_error::unknown_enum_value(value)),
            (exists|x: Self| #[trigger] x.value() == value) ==> <Self as vstd::std_specs::convert::TryFromSpec<i32>>::try_from_spec(value) is Ok,
    {
        Self::lemma_with_value(value, e);
        if exists|x: Self| #[trigger] x.value() == value {
            let x = choose|x: Self| #[trigger] x.value() == value;
            Self::lemma_with_value(value, x);
        }
    }

    /// Reading back the number of a variant gives that variant: a field set to `e` reads as `e`.
    pub proof fn lemma_read_after_write(e: Self)
        ensures
            Self::from_number_or_default(e.value()) == e,
    {
        Self::lemma_with_value(e.value(), e);
    }

    /// String value of the enum field names used in the ProtoBuf definition.
    ///
    /// The values are not transformed in any way and thus are considered stable
    /// (if the ProtoBuf definition does not change) and safe for programmatic use.
    pub fn as_str_name(&self) -> (name: &'static str)
        ensures
            name@ == self.str_name(),
    {
        match self {
            DisplayUnits::Metric => "METRIC",
            DisplayUnits::Imperial => "IMPERIAL",
        }
    }

    /// Creates an enum from field names used in the ProtoBuf definition.
    pub fn from_str_name(value: &str) -> (r: Option<Self>)
        ensures
            r == Self::named(value@),
    {
        if str_eq(value, "METRIC") {
            proof {
                Self::lemma_named(value@, DisplayUnits::Metric);
            }
            return Some(DisplayUnits::Metric);
        }
        if str_eq(value, "IMPERIAL") {
            proof {
                Self::lemma_named(value@, DisplayUnits::Imperial);
            }
            return Some(DisplayUnits::Imperial);
        }
        None
    }

    /// Returns `true` if `value` is a variant of `DisplayUnits`.
    pub fn is_valid(value: i32) -> (r: bool)
        ensures
            r == (Self::with_value(value) is Some),
    {
        Self::from_i32(value).is_some()
    }

    /// Converts an `i32` to a `DisplayUnits`, or `None` if `value` is not a valid variant.
    pub fn from_i32(value: i32) -> (r: Option<Self>)
        ensures
            r == Self::with_value(value),
    {
        if value == 0 {
            proof {
                Self::lemma_with_value(value, DisplayUnits::Metric);
            }
            return Some(DisplayUnits::Metric);
        }
        if value == 1 {
            proof {
                Self::lemma_with_value(value, DisplayUnits::Imperial);
            }
            return Some(DisplayUnits::Imperial);
        }
        None
    }
}

impl Default for DisplayUnits {
    /// The variant numbered 0, the default value of the field in ProtoBuf.
    fn default() -> (r: Self)
        ensures
            r == Self::default_variant(),
            r.value() == 0,
    {
        DisplayUnits::Metric
    }
}

impl From<DisplayUnits> for i32 {
    fn from(value: DisplayUnits) -> (r: i32) {
        match value {
            DisplayUnits::Metric => 0,
            DisplayUnits::Imperial => 1,
        }
    }
}

impl TryFrom<i32> for DisplayUnits {
    type Error = prost::UnknownEnumValue;

    fn try_from(value: i32) -> (r: Result<DisplayUnits, prost::UnknownEnumValue>)
        ensures
            r matches Ok(e) ==> e.value() == value,
            (exists|e: DisplayUnits| #[trigger] e.value() == value) ==> r is Ok,
            r is Err ==> r == Err::<DisplayUnits, prost::UnknownEnumValue>(crate::enum_error::unknown_enum_value(value)),
    {
        proof {
            if exists|e: DisplayUnits| #[trigger] e.value() == value {
                let e = choose|e: DisplayUnits| #[trigger] e.value() == value;
                DisplayUnits::lemma_with_value(value, e);
            }
        }
        match DisplayUnits::from_i32(value) {
            Some(e) => Ok(e),
            None => Err(make_unknown_enum_value(value)),
        }
    }
}

impl vstd::std_specs::convert::TryFromSpecImpl<i32> for DisplayUnits {
    open spec fn obeys_try_from_spec() -> bool {
        true
    }

    open spec fn try_from_spec(value: i32) -> Result<DisplayUnits, prost::UnknownEnumValue> {
        match DisplayUnits::with_value(value) {
            Some(e) => Ok(e),
            None => Err(crate::enum_error::unknown_enum_value(value)),
        }
    }
}

impl vstd::std_specs::convert::FromSpecImpl<DisplayUnits> for i32 {
    open spec fn obeys_from_spec() -> bool {
        true
    }

    open spec fn from_spec(value: DisplayUnits) -> i32 {
        value.value()
    }
}

/// Override OLED outo detect with this if it fails.
#[derive(Clone, Copy, Debug, PartialEq, Eq, Hash, PartialOrd, Ord)]
pub enum OledType {
    /// Default / Auto
    OledAuto,
    /// Default / Auto
    OledSsd1306,
    /// Default / Auto
    OledSh1106,
    /// Can not be auto detected but set by proto. Used for 128x128 screens
    OledSh1107,
}

impl OledType {
    /// The name of this variant in the ProtoBuf definition.
    pub open spec fn str_name(self) -> Seq<char> {
        match self {
            OledType::OledAuto => "OLED_AUTO"@,
            OledType::OledSsd1306 => "OLED_SSD1306"@,
            OledType::OledSh1106 => "OLED_SH1106"@,
            OledType::OledSh1107 => "OLED_SH1107"@,
        }
    }

    /// The number of this variant in the ProtoBuf definition.
    pub open spec fn value(self) -> i32 {
        match self {
            OledType::OledAuto => 0,
            OledType::OledSsd1306 => 1,
            OledType::OledSh1106 => 2,
            OledType::OledSh1107 => 3,
        }
    }

    /// The variant numbered 0, which a field holds when it is not set.
    pub open spec fn default_variant() -> Self {
        OledType::OledAuto
    }

    /// The variant numbered `value`, or the default variant when no variant has that number:
    /// what a message field holding `value` reads as.
    pub open spec fn from_number_or_default(value: i32) -> Self {
        match Self::with_value(value) {
            Some(e) => e,
            None => Self::default_variant(),
        }
    }

    /// The variant whose ProtoBuf name is `name`, if there is one.
    pub open spec fn named(name: Seq<char>) -> Option<Self> {
        if exists|e: Self| #[trigger] e.str_name() == name {
            Some(choose|e: Self| #[trigger] e.str_name() == name)
        } else {
            None
        }
    }

    /// The variant whose ProtoBuf number is `value`, if there is one.
    pub open spec fn with_value(value: i32) -> Option<Self> {
        if exists|e: Self| #[trigger] e.value() == value {
            Some(choose|e: Self| #[trigger] e.value() == value)
        } else {
            None
        }
    }

    spec fn name_lookup(name: Seq<char>) -> Option<Self> {
        if name == "OLED_AUTO"@ {
            Some(OledType::OledAuto)
        } else if name == "OLED_SSD1306"@ {
            Some(OledType::OledSsd1306)
        } else if name == "OLED_SH1106"@ {
            Some(OledType::OledSh1106)
        } else if name == "OLED_SH1107"@ {
            Some(OledType::OledSh1107)
        } else {
            None
        }
    }

    spec fn value_lookup(value: i32) -> Option<Self> {
        if value == 0 {
            Some(OledType::OledAuto)
        } else if value == 1 {
            Some(OledType::OledSsd1306)
        } else if value == 2 {
            Some(OledType::OledSh1106)
        } else if value == 3 {
            Some(OledType::OledSh1107)
        } else {
            None
        }
    }

    proof fn lemma_lookups()
        ensures
            forall|e: Self| #[trigger] Self::name_lookup(e.str_name()) == Some(e),
            forall|e: Self| #[trigger] Self::value_lookup(e.value()) == Some(e),
    {
        reveal_strlit("OLED_AUTO");
        assert("OLED_AUTO"@.len() == 9);
        reveal_strlit("OLED_SSD1306");
        assert("OLED_SSD1306"@.len() == 12);
        reveal_strlit("OLED_SH1106");
        assert("OLED_SH1106"@.len() == 11);
        assert("OLED_SH1106"@[10] == '6');
        reveal_strlit("OLED_SH1107");
        assert("OLED_SH1107"@.len() == 11);
        assert("OLED_SH1107"@[10] == '7');
    }

    /// Distinct variants have distinct ProtoBuf names and distinct ProtoBuf numbers.
    pub proof fn lemma_injective(a: Self, b: Self)
        ensures
            a.str_name() == b.str_name() ==> a == b,
            a.value() == b.value() ==> a == b,
    {
        Self::lemma_lookups();
        assert(Self::name_lookup(a.str_name()) == Some(a));
        assert(Self::name_lookup(b.str_name()) == Some(b));
        assert(Self::value_lookup(a.value()) == Some(a));
        assert(Self::value_lookup(b.value()) == Some(b));
    }

    /// A name denotes a variant exactly when it is that variant's ProtoBuf name:
    /// `from_str_name` undoes `as_str_name`, and accepts nothing else.
    pub proof fn lemma_named(name: Seq<char>, e: Self)
        ensures
            Self::named(name) == Some(e) <==> e.str_name() == name,
    {
        if e.str_name() == name {
            let x = choose|x: Self| #[trigger] x.str_name() == name;
            Self::lemma_injective(x, e);
        }
    }

    /// A number denotes a variant exactly when it is that variant's ProtoBuf number:
    /// `from_i32` undoes the conversion to `i32`, and accepts nothing else.
    pub proof fn lemma_with_value(value: i32, e: Self)
        ensures
            Self::with_value(value) == Some(e) <==> e.value() == value,
    {
        if e.value() == value {
            let x = choose|x: Self| #[trigger] x.value() == value;
            Self::lemma_injective(x, e);
        }
    }

    /// What a field holding `value` reads as: the variant numbered `value` when some variant
    /// has that number, and otherwise the variant numbered 0.
    pub proof fn lemma_number_or_default(value: i32)
        ensures
            (exists|e: Self| #[trigger] e.value() == value) ==> Self::from_number_or_default(value).value() == value,
            (forall|e: Self| #[trigger] e.value() != value) ==> Self::from_number_or_default(value).value() == 0,
            (forall|e: Self| #[trigger] e.value() != value) ==> Self::from_number_or_default(value) == Self::default_variant(),
            Self::default_variant().value() == 0,
    {
        if exists|e: Self| #[trigger] e.value() == value {
            let e = choose|e: Self| #[trigger] e.value() == value;
            Self::lemma_with_value(value, e);
        }
    }

    /// `try_from` accepts exactly the numbers that variants have and gives back the variant with
    /// that number; every other number it rejects with the error that records that number.
    pub proof fn lemma_try_from(value: i32, e: Self)
        ensures
            (<Self as vstd::std_specs::convert::TryFromSpec<i32>>::try_from_spec(value) == Ok::<Self, prost::UnknownEnumValue>(e)) <==> e.value() == value,
            (forall|x: Self| #[trigger] x.value() != value) ==> <Self as vstd::std_specs::convert::TryFromSpec<i32>>::try_from_spec(value) == Err::<Self, prost::UnknownEnumValue>(crate::enum_error::unknown_enum_value(value)),
            (exists|x: Self| #[trigger] x.value() == value) ==> <Self as vstd::std_specs::convert::TryFromSpec<i32>>::try_from_spec(value) is Ok,
    {
        Self::lemma_with_value(value, e);
        if exists|x: Self| #[trigger] x.value() == value {
            let x = choose|x: Self| #[trigger] x.value() == value;
            Self::lemma_with_value(value, x);
        }
    }

    /// Reading back the number of a variant gives that variant: a field set to `e` reads as `e`.
    pub proof fn lemma_read_after_write(e: Self)
        ensures
            Self::from_number_or_default(e.value()) == e,
    {
        Self::lemma_with_value(e.value(), e);
    }

    /// String value of the enum field names used in the ProtoBuf definition.
    ///
    /// The values are not transformed in any way and thus are considered stable
    /// (if the ProtoBuf definition does not change) and safe for programmatic use.
    pub fn as_str_name(&self) -> (name: &'static str)
        ensures
            name@ == self.str_name(),
    {
        match self {
            OledType::OledAuto => "OLED_AUTO",
            OledType::OledSsd1306 => "OLED_SSD1306",
            OledType::OledSh1106 => "OLED_SH1106",
            OledType::OledSh1107 => "OLED_SH1107",
        }
    }

    /// Creates an enum from field names used in the ProtoBuf definition.
    pub fn from_str_name(value: &str) -> (r: Option<Self>)
        ensures
            r == Self::named(value@),
    {
        if str_eq(value, "OLED_AUTO") {
            proof {
                Self::lemma_named(value@, OledType::OledAuto);
            }
            return Some(OledType::OledAuto);
        }
        if str_eq(value, "OLED_SSD1306") {
            proof {
                Self::lemma_named(value@, OledType::OledSsd1306);
            }
            return Some(OledType::OledSsd1306);
        }
        if str_eq(value, "OLED_SH1106") {
            proof {
                Self::lemma_named(value@, OledType::OledSh1106);
            }
            return Some(OledType::OledSh1106);
        }
        if str_eq(value, "OLED_SH1107") {
            proof {
                Self::lemma_named(value@, OledType::OledSh1107);
            }
            return Some(OledType::OledSh1107);
        }
        None
    }

    /// Returns `true` if `value` is a variant of `OledType`.
    pub fn is_valid(value: i32) -> (r: bool)
        ensures
            r == (Self::with_value(value) is Some),
    {
        Self::from_i32(value).is_some()
    }

    /// Converts an `i32` to a `OledType`, or `None` if `value` is not a valid variant.
    pub fn from_i32(value: i32) -> (r: Option<Self>)
        ensures
            r == Self::with_value(value),
    {
        if value == 0 {
            proof {
                Self::lemma_with_value(value, OledType::OledAuto);
            }
            return Some(OledType::OledAuto);
        }
        if value == 1 {
            proof {
                Self::lemma_with_value(value, OledType::OledSsd1306);
            }
            return Some(OledType::OledSsd1306);
        }
        if value == 2 {
            proof {
                Self::lemma_with_value(value, OledType::OledSh1106);
            }
            return Some(OledType::OledSh1106);
        }
        if value == 3 {
            proof {
                Self::lemma_with_value(value, OledType::OledSh1107);
            }
            return Some(OledType::OledSh1107);
        }
        None
    }
}

impl Default for OledType {
    /// The variant numbered 0, the default value of the field in ProtoBuf.
    fn default() -> (r: Self)
        ensures
            r == Self::default_variant(),
            r.value() == 0,
    {
        OledType::OledAuto
    }
}

impl From<OledType> for i32 {
    fn from(value: OledType) -> (r: i32) {
        match value {
            OledType::OledAuto => 0,
            OledType::OledSsd1306 => 1,
            OledType::OledSh1106 => 2,
            OledType::OledSh1107 => 3,
        }
    }
}

impl TryFrom<i32> for OledType {
    type Error = prost::UnknownEnumValue;

    fn try_from(value: i32) -> (r: Result<OledType, prost::UnknownEnumValue>)
        ensures
            r matches Ok(e) ==> e.value() == value,
            (exists|e: OledType| #[trigger] e.value() == value) ==> r is Ok,
            r is Err ==> r == Err::<OledType, prost::UnknownEnumValue>(crate::enum_error::unknown_enum_value(value)),
    {
        proof {
            if exists|e: OledType| #[trigger] e.value() == value {
                let e = choose|e: OledType| #[trigger] e.value() == value;
                OledType::lemma_with_value(value, e);
            }
        }
        match OledType::from_i32(value) {
            Some(e) => Ok(e),
            None => Err(make_unknown_enum_value(value)),
        }
    }
}

impl vstd::std_specs::convert::TryFromSpecImpl<i32> for OledType {
    open spec fn obeys_try_from_spec() -> bool {
        true
    }

    open spec fn try_from_spec(value: i32) -> Result<OledType, prost::UnknownEnumValue> {
        match OledType::with_value(value) {
            Some(e) => Ok(e),
            None => Err(crate::enum_error::unknown_enum_value(value)),
        }
    }
}

impl vstd::std_specs::convert::FromSpecImpl<OledType> for i32 {
    open spec fn obeys_from_spec() -> bool {
        true
    }

    open spec fn from_spec(value: OledType) -> i32 {
        value.value()
    }
}

#[derive(Clone, Copy, Debug, PartialEq, Eq, Hash, PartialOrd, Ord)]
pub enum DisplayMode {
    /// Default. The old style for the 128x64 OLED screen
    Default,
    /// Rearrange display elements to cater for bicolor OLED displays
    Twocolor,
    /// Same as TwoColor, but with inverted top bar. Not so good for Epaper displays
    Inverted,
    /// TFT Full Color Displays (not implemented yet)
    Color,
}

impl DisplayMode {
    /// The name of this variant in the ProtoBuf definition.
    pub open spec fn str_name(self) -> Seq<char> {
        match self {
            DisplayMode::Default => "DEFAULT"@,
            DisplayMode::Twocolor => "TWOCOLOR"@,
            DisplayMode::Inverted => "INVERTED"@,
            DisplayMode::Color => "COLOR"@,
        }
    }

    /// The number of this variant in the ProtoBuf definition.
    pub open spec fn value(self) -> i32 {
        match self {
            DisplayMode::Default => 0,
            DisplayMode::Twocolor => 1,
            DisplayMode::Inverted => 2,
            DisplayMode::Color => 3,
        }
    }

    /// The variant numbered 0, which a field holds when it is not set.
    pub open spec fn default_variant() -> Self {
        DisplayMode::Default
    }

    /// The variant numbered `value`, or the default variant when no variant has that number:
    /// what a message field holding `value` reads as.
    pub open spec fn from_number_or_default(value: i32) -> Self {
        match Self::with_value(value) {
            Some(e) => e,
            None => Self::default_variant(),
        }
    }

    /// The variant whose ProtoBuf name is `name`, if there is one.
    pub open spec fn named(name: Seq<char>) -> Option<Self> {
        if exists|e: Self| #[trigger] e.str_name() == name {
            Some(choose|e: Self| #[trigger] e.str_name() == name)
        } else {
            None
        }
    }

    /// The variant whose ProtoBuf number is `value`, if there is one.
    pub open spec fn with_value(value: i32) -> Option<Self> {
        if exists|e: Self| #[trigger] e.value() == value {
            Some(choose|e: Self| #[trigger] e.value() == value)
        } else {
            None
        }
    }

    spec fn name_lookup(name: Seq<char>) -> Option<Self> {
        if name == "DEFAULT"@ {
            Some(DisplayMode::Default)
        } else if name == "TWOCOLOR"@ {
            Some(DisplayMode::Twocolor)
        } else if name == "INVERTED"@ {
            Some(DisplayMode::Inverted)
        } else if name == "COLOR"@ {
            Some(DisplayMode::Color)
        } else {
            None
        }
    }

    spec fn value_lookup(value: i32) -> Option<Self> {
        if value == 0 {
            Some(DisplayMode::Default)
        } else if value == 1 {
            Some(DisplayMode::Twocolor)
        } else if value == 2 {
            Some(DisplayMode::Inverted)
        } else if value == 3 {
            Some(DisplayMode::Color)
        } else {
            None
        }
    }

    proof fn lemma_lookups()
        ensures
            forall|e: Self| #[trigger] Self::name_lookup(e.str_name()) == Some(e),
            forall|e: Self| #[trigger] Self::value_lookup(e.value()) == Some(e),
    {
        reveal_strlit("DEFAULT");
        assert("DEFAULT"@.len() == 7);
        reveal_strlit("TWOCOLOR");
        assert("TWOCOLOR"@.len() == 8);
        assert("TWOCOLOR"@[0] == 'T');
        reveal_strlit("INVERTED");
        assert("INVERTED"@.len() == 8);
        assert("INVERTED"@[0] == 'I');
        reveal_strlit("COLOR");
        assert("COLOR"@.len() == 5);
    }

    /// Distinct variants have distinct ProtoBuf names and distinct ProtoBuf numbers.
    pub proof fn lemma_injective(a: Self, b: Self)
        ensures
            a.str_name() == b.str_name() ==> a == b,
            a.value() == b.value() ==> a == b,
    {
        Self::lemma_lookups();
        assert(Self::name_lookup(a.str_name()) == Some(a));
        assert(Self::name_lookup(b.str_name()) == Some(b));
        assert(Self::value_lookup(a.value()) == Some(a));
        assert(Self::value_lookup(b.value()) == Some(b));
    }

    /// A name denotes a variant exactly when it is that variant's ProtoBuf name:
    /// `from_str_name` undoes `as_str_name`, and accepts nothing else.
    pub proof fn lemma_named(name: Seq<char>, e: Self)
        ensures
            Self::named(name) == Some(e) <==> e.str_name() == name,
    {
        if e.str_name() == name {
            let x = choose|x: Self| #[trigger] x.str_name() == name;
            Self::lemma_injective(x, e);
        }
    }

    /// A number denotes a variant exactly when it is that variant's ProtoBuf number:
    /// `from_i32` undoes the conversion to `i32`, and accepts nothing else.
    pub proof fn lemma_with_value(value: i32, e: Self)
        ensures
            Self::with_value(value) == Some(e) <==> e.value() == value,
    {
        if e.value() == value {
            let x = choose|x: Self| #[trigger] x.value() == value;
            Self::lemma_injective(x, e);
        }
    }

    /// What a field holding `value` reads as: the variant numbered `value` when some variant
    /// has that number, and otherwise the variant numbered 0.
    pub proof fn lemma_number_or_default(value: i32)
        ensures
            (exists|e: Self| #[trigger] e.value() == value) ==> Self::from_number_or_default(value).value() == value,
            (forall|e: Self| #[trigger] e.value() != value) ==> Self::from_number_or_default(value).value() == 0,
            (forall|e: Self| #[trigger] e.value() != value) ==> Self::from_number_or_default(value) == Self::default_variant(),
            Self::default_variant().value() == 0,
    {
        if exists|e: Self| #[trigger] e.value() == value {
            let e = choose|e: Self| #[trigger] e.value() == value;
            Self::lemma_with_value(value, e);
        }
    }

    /// `try_from` accepts exactly the numbers that variants have and gives back the variant with
    /// that number; every other number it rejects with the error that records that number.
    pub proof fn lemma_try_from(value: i32, e: Self)
        ensures
            (<Self as vstd::std_specs::convert::TryFromSpec<i32>>::try_from_spec(value) == Ok::<Self, prost::UnknownEnumValue>(e)) <==> e.value() == value,
            (forall|x: Self| #[trigger] x.value() != value) ==> <Self as vstd::std_specs::convert::TryFromSpec<i32>>::try_from_spec(value) == Err::<Self, prost::UnknownEnumValue>(crate::enum_error::unknown_enum_value(value)),
            (exists|x: Self| #[trigger] x.value() == value) ==> <Self as vstd::std_specs::convert::TryFromSpec<i32>>::try_from_spec(value) is Ok,
    {
        Self::lemma_with_value(value, e);
        if exists|x: Self| #[trigger] x.value() == value {
            let x = choose|x: Self| #[trigger] x.value() == value;
            Self::lemma_with_value(value, x);
        }
    }

    /// Reading back the number of a variant gives that variant: a field set to `e` reads as `e`.
    pub proof fn lemma_read_after_write(e: Self)
        ensures
            Self::from_number_or_default(e.value()) == e,
    {
        Self::lemma_with_value(e.value(), e);
    }

    /// String value of the enum field names used in the ProtoBuf definition.
    ///
    /// The values are not transformed in any way and thus are considered stable
    /// (if the ProtoBuf definition does not change) and safe for programmatic use.
    pub fn as_str_name(&self) -> (name: &'static str)
        ensures
            name@ == self.str_name(),
    {
        match self {
            DisplayMode::Default => "DEFAULT",
            DisplayMode::Twocolor => "TWOCOLOR",
            DisplayMode::Inverted => "INVERTED",
            DisplayMode::Color => "COLOR",
        }
    }

    /// Creates an enum from field names used in the ProtoBuf definition.
    pub fn from_str_name(value: &str) -> (r: Option<Self>)
        ensures
            r == Self::named(value@),
    {
        if str_eq(value, "DEFAULT") {
            proof {
                Self::lemma_named(value@, DisplayMode::Default);
            }
            return Some(DisplayMode::Default);
        }
        if str_eq(value, "TWOCOLOR") {
            proof {
                Self::lemma_named(value@, DisplayMode::Twocolor);
            }
            return Some(DisplayMode::Twocolor);
        }
        if str_eq(value, "INVERTED") {
            proof {
                Self::lemma_named(value@, DisplayMode::Inverted);
            }
            return Some(DisplayMode::Inverted);
        }
        if str_eq(value, "COLOR") {
            proof {
                Self::lemma_named(value@, DisplayMode::Color);
            }
            return Some(DisplayMode::Color);
        }
        None
    }

    /// Returns `true` if `value` is a variant of `DisplayMode`.
    pub fn is_valid(value: i32) -> (r: bool)
        ensures
            r == (Self::with_value(value) is Some),
    {
        Self::from_i32(value).is_some()
    }

    /// Converts an `i32` to a `DisplayMode`, or `None` if `value` is not a valid variant.
    pub fn from_i32(value: i32) -> (r: Option<Self>)
        ensures
            r == Self::with_value(value),
    {
        if value == 0 {
            proof {
                Self::lemma_with_value(value, DisplayMode::Default);
            }
            return Some(DisplayMode::Default);
        }
        if value == 1 {
            proof {
                Self::lemma_with_value(value, DisplayMode::Twocolor);
            }
            return Some(DisplayMode::Twocolor);
        }
        if value == 2 {
            proof {
                Self::lemma_with_value(value, DisplayMode::Inverted);
            }
            return Some(DisplayMode::Inverted);
        }
        if value == 3 {
            proof {
                Self::lemma_with_value(value, DisplayMode::Color);
            }
            return Some(DisplayMode::Color);
        }
        None
    }
}

impl Default for DisplayMode {
    /// The variant numbered 0, the default value of the field in ProtoBuf.
    fn default() -> (r: Self)
        ensures
            r == Self::default_variant(),
            r.value() == 0,
    {
        DisplayMode::Default
    }
}

impl From<DisplayMode> for i32 {
    fn from(value: DisplayMode) -> (r: i32) {
        match value {
            DisplayMode::Default => 0,
            DisplayMode::Twocolor => 1,
            DisplayMode::Inverted => 2,
            DisplayMode::Color => 3,
        }
    }
}

impl TryFrom<i32> for DisplayMode {
    type Error = prost::UnknownEnumValue;

    fn try_from(value: i32) -> (r: Result<DisplayMode, prost::UnknownEnumValue>)
        ensures
            r matches Ok(e) ==> e.value() == value,
            (exists|e: DisplayMode| #[trigger] e.value() == value) ==> r is Ok,
            r is Err ==> r == Err::<DisplayMode, prost::UnknownEnumValue>(crate::enum_error::unknown_enum_value(value)),
    {
        proof {
            if exists|e: DisplayMode| #[trigger] e.value() == value {
                let e = choose|e: DisplayMode| #[trigger] e.value() == value;
                DisplayMode::lemma_with_value(value, e);
            }
        }
        match DisplayMode::from_i32(value) {
            Some(e) => Ok(e),
            None => Err(make_unknown_enum_value(value)),
        }
    }
}

impl vstd::std_specs::convert::TryFromSpecImpl<i32> for DisplayMode {
    open spec fn obeys_try_from_spec() -> bool {
        true
    }

    open spec fn try_from_spec(value: i32) -> Result<DisplayMode, prost::UnknownEnumValue> {
        match DisplayMode::with_value(value) {
            Some(e) => Ok(e),
            None => Err(crate::enum_error::unknown_enum_value(value)),
        }
    }
}

impl vstd::std_specs::convert::FromSpecImpl<DisplayMode> for i32 {
    open spec fn obeys_from_spec() -> bool {
        true
    }

    open spec fn from_spec(value: DisplayMode) -> i32 {
        value.value()
    }
}

#[derive(Clone, Copy, Debug, PartialEq, Eq, Hash, PartialOrd, Ord)]
pub enum CompassOrientation {
    /// The compass and the display are in the same orientation.
    Degrees0,
    /// Rotate the compass by 90 degrees.
    Degrees90,
    /// Rotate the compass by 180 degrees.
    Degrees180,
    /// Rotate the compass by 270 degrees.
    Degrees270,
    /// Don't rotate the compass, but invert the result.
    Degrees0Inverted,
    /// Rotate the compass by 90 degrees and invert.
    Degrees90Inverted,
    /// Rotate the compass by 180 degrees and invert.
    Degrees180Inverted,
    /// Rotate the compass by 270 degrees and invert.
    Degrees270Inverted,
}

impl CompassOrientation {
    /// The name of this variant in the ProtoBuf definition.
    pub open spec fn str_name(self) -> Seq<char> {
        match self {
            CompassOrientation::Degrees0 => "DEGREES_0"@,
            CompassOrientation::Degrees90 => "DEGREES_90"@,
            CompassOrientation::Degrees180 => "DEGREES_180"@,
            CompassOrientation::Degrees270 => "DEGREES_270"@,
            CompassOrientation::Degrees0Inverted => "DEGREES_0_INVERTED"@,
            CompassOrientation::Degrees90Inverted => "DEGREES_90_INVERTED"@,
            CompassOrientation::Degrees180Inverted => "DEGREES_180_INVERTED"@,
            CompassOrientation::Degrees270Inverted => "DEGREES_270_INVERTED"@,
        }
    }

    /// The number of this variant in the ProtoBuf definition.
    pub open spec fn value(self) -> i32 {
        match self {
            CompassOrientation::Degrees0 => 0,
            CompassOrientation::Degrees90 => 1,
            CompassOrientation::Degrees180 => 2,
            CompassOrientation::Degrees270 => 3,
            CompassOrientation::Degrees0Inverted => 4,
            CompassOrientation::Degrees90Inverted => 5,
            CompassOrientation::Degrees180Inverted => 6,
            CompassOrientation::Degrees270Inverted => 7,
        }
    }

    /// The variant numbered 0, which a field holds when it is not set.
    pub open spec fn default_variant() -> Self {
        CompassOrientation::Degrees0
    }

    /// The variant numbered `value`, or the default variant when no variant has that number:
    /// what a message field holding `value` reads as.
    pub open spec fn from_number_or_default(value: i32) -> Self {
        match Self::with_value(value) {
            Some(e) => e,
            None => Self::default_variant(),
        }
    }

    /// The variant whose ProtoBuf name is `name`, if there is one.
    pub open spec fn named(name: Seq<char>) -> Option<Self> {
        if exists|e: Self| #[trigger] e.str_name() == name {
            Some(choose|e: Self| #[trigger] e.str_name() == name)
        } else {
            None
        }
    }

    /// The variant whose ProtoBuf number is `value`, if there is one.
    pub open spec fn with_value(value: i32) -> Option<Self> {
        if exists|e: Self| #[trigger] e.value() == value {
            Some(choose|e: Self| #[trigger] e.value() == value)
        } else {
            None
        }
    }

    spec fn name_lookup(name: Seq<char>) -> Option<Self> {
        if name == "DEGREES_0"@ {
            Some(CompassOrientation::Degrees0)
        } else if name == "DEGREES_90"@ {
            Some(CompassOrientation::Degrees90)
        } else if name == "DEGREES_180"@ {
            Some(CompassOrientation::Degrees180)
        } else if name == "DEGREES_270"@ {
            Some(CompassOrientation::Degrees270)
        } else if name == "DEGREES_0_INVERTED"@ {
            Some(CompassOrientation::Degrees0Inverted)
        } else if name == "DEGREES_90_INVERTED"@ {
            Some(CompassOrientation::Degrees90Inverted)
        } else if name == "DEGREES_180_INVERTED"@ {
            Some(CompassOrientation::Degrees180Inverted)
        } else if name == "DEGREES_270_INVERTED"@ {
            Some(CompassOrientation::Degrees270Inverted)
        } else {
            None
        }
    }

    spec fn value_lookup(value: i32) -> Option<Self> {
        if value == 0 {
            Some(CompassOrientation::Degrees0)
        } else if value == 1 {
            Some(CompassOrientation::Degrees90)
        } else if value == 2 {
            Some(CompassOrientation::Degrees180)
        } else if value == 3 {
            Some(CompassOrientation::Degrees270)
        } else if value == 4 {
            Some(CompassOrientation::Degrees0Inverted)
        } else if value == 5 {
            Some(CompassOrientation::Degrees90Inverted)
        } else if value == 6 {
            Some(CompassOrientation::Degrees180Inverted)
        } else if value == 7 {
            Some(CompassOrientation::Degrees270Inverted)
        } else {
            None
        }
    }

    proof fn lemma_lookups()
        ensures
            forall|e: Self| #[trigger] Self::name_lookup(e.str_name()) == Some(e),
            forall|e: Self| #[trigger] Self::value_lookup(e.value()) == Some(e),
    {
        reveal_strlit("DEGREES_0");
        assert("DEGREES_0"@.len() == 9);
        reveal_strlit("DEGREES_90");
        assert("DEGREES_90"@.len() == 10);
        reveal_strlit("DEGREES_180");
        assert("DEGREES_180"@.len() == 11);
        assert("DEGREES_180"@[8] == '1');
        reveal_strlit("DEGREES_270");
        assert("DEGREES_270"@.len() == 11);
        assert("DEGREES_270"@[8] == '2');
        reveal_strlit("DEGREES_0_INVERTED");
        assert("DEGREES_0_INVERTED"@.len() == 18);
        reveal_strlit("DEGREES_90_INVERTED");
        assert("DEGREES_90_INVERTED"@.len() == 19);
        reveal_strlit("DEGREES_180_INVERTED");
        assert("DEGREES_180_INVERTED"@.len() == 20);
        assert("DEGREES_180_INVERTED"@[8] == '1');
        reveal_strlit("DEGREES_270_INVERTED");
        assert("DEGREES_270_INVERTED"@.len() == 20);
        assert("DEGREES_270_INVERTED"@[8] == '2');
    }

    /// Distinct variants have distinct ProtoBuf names and distinct ProtoBuf numbers.
    pub proof fn lemma_injective(a: Self, b: Self)
        ensures
            a.str_name() == b.str_name() ==> a == b,
            a.value() == b.value() ==> a == b,
    {
        Self::lemma_lookups();
        assert(Self::name_lookup(a.str_name()) == Some(a));
        assert(Self::name_lookup(b.str_name()) == Some(b));
        assert(Self::value_lookup(a.value()) == Some(a));
        assert(Self::value_lookup(b.value()) == Some(b));
    }

    /// A name denotes a variant exactly when it is that variant's ProtoBuf name:
    /// `from_str_name` undoes `as_str_name`, and accepts nothing else.
    pub proof fn lemma_named(name: Seq<char>, e: Self)
        ensures
            Self::named(name) == Some(e) <==> e.str_name() == name,
    {
        if e.str_name() == name {
            let x = choose|x: Self| #[trigger] x.str_name() == name;
            Self::lemma_injective(x, e);
        }
    }

    /// A number denotes a variant exactly when it is that variant's ProtoBuf number:
    /// `from_i32` undoes the conversion to `i32`, and accepts nothing else.
    pub proof fn lemma_with_value(value: i32, e: Self)
        ensures
            Self::with_value(value) == Some(e) <==> e.value() == value,
    {
        if e.value() == value {
            let x = choose|x: Self| #[trigger] x.value() == value;
            Self::lemma_injective(x, e);
        }
    }

    /// What a field holding `value` reads as: the variant numbered `value` when some variant
    /// has that number, and otherwise the variant numbered 0.
    pub proof fn lemma_number_or_default(value: i32)
        ensures
            (exists|e: Self| #[trigger] e.value() == value) ==> Self::from_number_or_default(value).value() == value,
            (forall|e: Self| #[trigger] e.value() != value) ==> Self::from_number_or_default(value).value() == 0,
            (forall|e: Self| #[trigger] e.value() != value) ==> Self::from_number_or_default(value) == Self::default_variant(),
            Self::default_variant().value() == 0,
    {
        if exists|e: Self| #[trigger] e.value() == value {
            let e = choose|e: Self| #[trigger] e.value() == value;
            Self::lemma_with_value(value, e);
        }
    }

    /// `try_from` accepts exactly the numbers that variants have and gives back the variant with
    /// that number; every other number it rejects with the error that records that number.
    pub proof fn lemma_try_from(value: i32, e: Self)
        ensures
            (<Self as vstd::std_specs::convert::TryFromSpec<i32>>::try_from_spec(value) == Ok::<Self, prost::UnknownEnumValue>(e)) <==> e.value() == value,
            (forall|x: Self| #[trigger] x.value() != value) ==> <Self as vstd::std_specs::convert::TryFromSpec<i32>>::try_from_spec(value) == Err::<Self, prost::UnknownEnumValue>(crate::enum_error::unknown_enum_value(value)),
            (exists|x: Self| #[trigger] x.value() == value) ==> <Self as vstd::std_specs::convert::TryFromSpec<i32>>::try_from_spec(value) is Ok,
    {
        Self::lemma_with_value(value, e);
        if exists|x: Self| #[trigger] x.value() == value {
            let x = choose|x: Self| #[trigger] x.value() == value;
            Self::lemma_with_value(value, x);
        }
    }

    /// Reading back the number of a variant gives that variant: a field set to `e` reads as `e`.
    pub proof fn lemma_read_after_write(e: Self)
        ensures
            Self::from_number_or_default(e.value()) == e,
    {
        Self::lemma_with_value(e.value(), e);
    }

    /// String value of the enum field names used in the ProtoBuf definition.
    ///
    /// The values are not transformed in any way and thus are considered stable
    /// (if the ProtoBuf definition does not change) and safe for programmatic use.
    pub fn as_str_name(&self) -> (name: &'static str)
        ensures
            name@ == self.str_name(),
    {
        match self {
            CompassOrientation::Degrees0 => "DEGREES_0",
            CompassOrientation::Degrees90 => "DEGREES_90",
            CompassOrientation::Degrees180 => "DEGREES_180",
            CompassOrientation::Degrees270 => "DEGREES_270",
            CompassOrientation::Degrees0Inverted => "DEGREES_0_INVERTED",
            CompassOrientation::Degrees90Inverted => "DEGREES_90_INVERTED",
            CompassOrientation::Degrees180Inverted => "DEGREES_180_INVERTED",
            CompassOrientation::Degrees270Inverted => "DEGREES_270_INVERTED",
        }
    }

    /// Creates an enum from field names used in the ProtoBuf definition.
    pub fn from_str_name(value: &str) -> (r: Option<Self>)
        ensures
            r == Self::named(value@),
    {
        if str_eq(value, "DEGREES_0") {
            proof {
                Self::lemma_named(value@, CompassOrientation::Degrees0);
            }
            return Some(CompassOrientation::Degrees0);
        }
        if str_eq(value, "DEGREES_90") {
            proof {
                Self::lemma_named(value@, CompassOrientation::Degrees90);
            }
            return Some(CompassOrientation::Degrees90);
        }
        if str_eq(value, "DEGREES_180") {
            proof {
                Self::lemma_named(value@, CompassOrientation::Degrees180);
            }
            return Some(CompassOrientation::Degrees180);
        }
        if str_eq(value, "DEGREES_270") {
            proof {
                Self::lemma_named(value@, CompassOrientation::Degrees270);
            }
            return Some(CompassOrientation::Degrees270);
        }
        if str_eq(value, "DEGREES_0_INVERTED") {
            proof {
                Self::lemma_named(value@, CompassOrientation::Degrees0Inverted);
            }
            return Some(CompassOrientation::Degrees0Inverted);
        }
        if str_eq(value, "DEGREES_90_INVERTED") {
            proof {
                Self::lemma_named(value@, CompassOrientation::Degrees90Inverted);
            }
            return Some(CompassOrientation::Degrees90Inverted);
        }
        if str_eq(value, "DEGREES_180_INVERTED") {
            proof {
                Self::lemma_named(value@, CompassOrientation::Degrees180Inverted);
            }
            return Some(CompassOrientation::Degrees180Inverted);
        }
        if str_eq(value, "DEGREES_270_INVERTED") {
            proof {
                Self::lemma_named(value@, CompassOrientation::Degrees270Inverted);
            }
            return Some(CompassOrientation::Degrees270Inverted);
        }
        None
    }

    /// Returns `true` if `value` is a variant of `CompassOrientation`.
    pub fn is_valid(value: i32) -> (r: bool)
        ensures
            r == (Self::with_value(value) is Some),
    {
        Self::from_i32(value).is_some()
    }

    /// Converts an `i32` to a `CompassOrientation`, or `None` if `value` is not a valid variant.
    pub fn from_i32(value: i32) -> (r: Option<Self>)
        ensures
            r == Self::with_value(value),
    {
        if value == 0 {
            proof {
                Self::lemma_with_value(value, CompassOrientation::Degrees0);
            }
            return Some(CompassOrientation::Degrees0);
        }
        if value == 1 {
            proof {
                Self::lemma_with_value(value, CompassOrientation::Degrees90);
            }
            return Some(CompassOrientation::Degrees90);
        }
        if value == 2 {
            proof {
                Self::lemma_with_value(value, CompassOrientation::Degrees180);
            }
            return Some(CompassOrientation::Degrees180);
        }
        if value == 3 {
            proof {
                Self::lemma_with_value(value, CompassOrientation::Degrees270);
            }
            return Some(CompassOrientation::Degrees270);
        }
        if value == 4 {
            proof {
                Self::lemma_with_value(value, CompassOrientation::Degrees0Inverted);
            }
            return Some(CompassOrientation::Degrees0Inverted);
        }
        if value == 5 {
            proof {
                Self::lemma_with_value(value, CompassOrientation::Degrees90Inverted);
            }
            return Some(CompassOrientation::Degrees90Inverted);
        }
        if value == 6 {
            proof {
                Self::lemma_with_value(value, CompassOrientation::Degrees180Inverted);
            }
            return Some(CompassOrientation::Degrees180Inverted);
        }
        if value == 7 {
            proof {
                Self::lemma_with_value(value, CompassOrientation::Degrees270Inverted);
            }
            return Some(CompassOrientation::Degrees270Inverted);
        }
        None
    }
}

impl Default for CompassOrientation {
    /// The variant numbered 0, the default value of the field in ProtoBuf.
    fn default() -> (r: Self)
        ensures
            r == Self::default_variant(),
            r.value() == 0,
    {
        CompassOrientation::Degrees0
    }
}

impl From<CompassOrientation> for i32 {
    fn from(value: CompassOrientation) -> (r: i32) {
        match value {
            CompassOrientation::Degrees0 => 0,
            CompassOrientation::Degrees90 => 1,
            CompassOrientation::Degrees180 => 2,
            CompassOrientation::Degrees270 => 3,
            CompassOrientation::Degrees0Inverted => 4,
            CompassOrientation::Degrees90Inverted => 5,
            CompassOrientation::Degrees180Inverted => 6,
            CompassOrientation::Degrees270Inverted => 7,
        }
    }
}

impl TryFrom<i32> for CompassOrientation {
    type Error = prost::UnknownEnumValue;

    fn try_from(value: i32) -> (r: Result<CompassOrientation, prost::UnknownEnumValue>)
        ensures
            r matches Ok(e) ==> e.value() == value,
            (exists|e: CompassOrientation| #[trigger] e.value() == value) ==> r is Ok,
            r is Err ==> r == Err::<CompassOrientation, prost::UnknownEnumValue>(crate::enum_error::unknown_enum_value(value)),
    {
        proof {
            if exists|e: CompassOrientation| #[trigger] e.value() == value {
                let e = choose|e: CompassOrientation| #[trigger] e.value() == value;
                CompassOrientation::lemma_with_value(value, e);
            }
        }
        match CompassOrientation::from_i32(value) {
            Some(e) => Ok(e),
            None => Err(make_unknown_enum_value(value)),
        }
    }
}

impl vstd::std_specs::convert::TryFromSpecImpl<i32> for CompassOrientation {
    open spec fn obeys_try_from_spec() -> bool {
        true
    }

    open spec fn try_from_spec(value: i32) -> Result<CompassOrientation, prost::UnknownEnumValue> {
        match CompassOrientation::with_value(value) {
            Some(e) => Ok(e),
            None => Err(crate::enum_error::unknown_enum_value(value)),
        }
    }
}

impl vstd::std_specs::convert::FromSpecImpl<CompassOrientation> for i32 {
    open spec fn obeys_from_spec() -> bool {
        true
    }

    open spec fn from_spec(value: CompassOrientation) -> i32 {
        value.value()
    }
}

} // verus!
