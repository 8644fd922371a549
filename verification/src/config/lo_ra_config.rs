//! Nested message and enum types in `LoRaConfig`.

use vstd::prelude::*;
use crate::enum_error::make_unknown_enum_value;
use crate::text::str_eq;

verus! {

#[derive(Clone, Copy, Debug, PartialEq, Eq, Hash, PartialOrd, Ord)]
pub enum RegionCode {
    /// Region is not set
    Unset,
    /// United States
    Us,
    /// European Union 433mhz
    Eu433,
    /// European Union 868mhz
    Eu868,
    /// China
    Cn,
    /// Japan
    Jp,
    /// Australia / New Zealand
    Anz,
    /// Korea
    Kr,
    /// Taiwan
    Tw,
    /// Russia
    Ru,
    /// India
    In,
    /// New Zealand 865mhz
    Nz865,
    /// Thailand
    Th,
    /// WLAN Band
    Lora24,
    /// Ukraine 433mhz
    Ua433,
    /// Ukraine 868mhz
    Ua868,
    /// Malaysia 433mhz
    My433,
    /// Malaysia 919mhz
    My919,
    /// Singapore 923mhz
    Sg923,
    /// Philippines 433mhz
    Ph433,
    /// Philippines 868mhz
    Ph868,
    /// Philippines 915mhz
    Ph915,
}

impl RegionCode {
    /// The name of this variant in the ProtoBuf definition.
    pub open spec fn str_name(self) -> Seq<char> {
        match self {
            RegionCode::Unset => "UNSET"@,
            RegionCode::Us => "US"@,
            RegionCode::Eu433 => "EU_433"@,
            RegionCode::Eu868 => "EU_868"@,
            RegionCode::Cn => "CN"@,
            RegionCode::Jp => "JP"@,
            RegionCode::Anz => "ANZ"@,
            RegionCode::Kr => "KR"@,
            RegionCode::Tw => "TW"@,
            RegionCode::Ru => "RU"@,
            RegionCode::In => "IN"@,
            RegionCode::Nz865 => "NZ_865"@,
            RegionCode::Th => "TH"@,
            RegionCode::Lora24 => "LORA_24"@,
            RegionCode::Ua433 => "UA_433"@,
            RegionCode::Ua868 => "UA_868"@,
            RegionCode::My433 => "MY_433"@,
            RegionCode::My919 => "MY_919"@,
            RegionCode::Sg923 => "SG_923"@,
            RegionCode::Ph433 => "PH_433"@,
            RegionCode::Ph868 => "PH_868"@,
            RegionCode::Ph915 => "PH_915"@,
        }
    }

    /// The number of this variant in the ProtoBuf definition.
    pub open spec fn value(self) -> i32 {
        match self {
            RegionCode::Unset => 0,
            RegionCode::Us => 1,
            RegionCode::Eu433 => 2,
            RegionCode::Eu868 => 3,
            RegionCode::Cn => 4,
            RegionCode::Jp => 5,
            RegionCode::Anz => 6,
            RegionCode::Kr => 7,
            RegionCode::Tw => 8,
            RegionCode::Ru => 9,
            RegionCode::In => 10,
            RegionCode::Nz865 => 11,
            RegionCode::Th => 12,
            RegionCode::Lora24 => 13,
            RegionCode::Ua433 => 14,
            RegionCode::Ua868 => 15,
            RegionCode::My433 => 16,
            RegionCode::My919 => 17,
            RegionCode::Sg923 => 18,
            RegionCode::Ph433 => 19,
            RegionCode::Ph868 => 20,
            RegionCode::Ph915 => 21,
        }
    }

    /// The variant numbered 0, which a field holds when it is not set.
    pub open spec fn default_variant() -> Self {
        RegionCode::Unset
    }

    /// The variant numbered `value`, or the default variant when no variant has that number:
    /// what a message field holding `value` reads as.
    pub open spec fn from_number_or_default(value: i32) -> Self {
        match Self::with_value(value) {
            Some(e) => e,
            None => Self::default_variant(),
        }
    }

    /// The variant whose ProtoBuf name is `name`, if there is one.
    pub open spec fn named(name: Seq<char>) -> Option<Self> {
        if exists|e: Self| #[trigger] e.str_name() == name {
            Some(choose|e: Self| #[trigger] e.str_name() == name)
        } else {
            None
        }
    }

    /// The variant whose ProtoBuf number is `value`, if there is one.
    pub open spec fn with_value(value: i32) -> Option<Self> {
        if exists|e: Self| #[trigger] e.value() == value {
            Some(choose|e: Self| #[trigger] e.value() == value)
        } else {
            None
        }
    }

    spec fn name_lookup(name: Seq<char>) -> Option<Self> {
        if name == "UNSET"@ {
            Some(RegionCode::Unset)
        } else if name == "US"@ {
            Some(RegionCode::Us)
        } else if name == "EU_433"@ {
            Some(RegionCode::Eu433)
        } else if name == "EU_868"@ {
            Some(RegionCode::Eu868)
        } else if name == "CN"@ {
            Some(RegionCode::Cn)
        } else if name == "JP"@ {
            Some(RegionCode::Jp)
        } else if name == "ANZ"@ {
            Some(RegionCode::Anz)
        } else if name == "KR"@ {
            Some(RegionCode::Kr)
        } else if name == "TW"@ {
            Some(RegionCode::Tw)
        } else if name == "RU"@ {
            Some(RegionCode::Ru)
        } else if name == "IN"@ {
            Some(RegionCode::In)
        } else if name == "NZ_865"@ {
            Some(RegionCode::Nz865)
        } else if name == "TH"@ {
            Some(RegionCode::Th)
        } else if name == "LORA_24"@ {
            Some(RegionCode::Lora24)
        } else if name == "UA_433"@ {
            Some(RegionCode::Ua433)
        } else if name == "UA_868"@ {
            Some(RegionCode::Ua868)
        } else if name == "MY_433"@ {
            Some(RegionCode::My433)
        } else if name == "MY_919"@ {
            Some(RegionCode::My919)
        } else if name == "SG_923"@ {
            Some(RegionCode::Sg923)
        } else if name == "PH_433"@ {
            Some(RegionCode::Ph433)
        } else if name == "PH_868"@ {
            Some(RegionCode::Ph868)
        } else if name == "PH_915"@ {
            Some(RegionCode::Ph915)
        } else {
            None
        }
    }

    spec fn value_lookup(value: i32) -> Option<Self> {
        if value == 0 {
            Some(RegionCode::Unset)
        } else if value == 1 {
            Some(RegionCode::Us)
        } else if value == 2 {
            Some(RegionCode::Eu433)
        } else if value == 3 {
            Some(RegionCode::Eu868)
        } else if value == 4 {
            Some(RegionCode::Cn)
        } else if value == 5 {
            Some(RegionCode::Jp)
        } else if value == 6 {
            Some(RegionCode::Anz)
        } else if value == 7 {
            Some(RegionCode::Kr)
        } else if value == 8 {
            Some(RegionCode::Tw)
        } else if value == 9 {
            Some(RegionCode::Ru)
        } else if value == 10 {
            Some(RegionCode::In)
        } else if value == 11 {
            Some(RegionCode::Nz865)
        } else if value == 12 {
            Some(RegionCode::Th)
        } else if value == 13 {
            Some(RegionCode::Lora24)
        } else if value == 14 {
            Some(RegionCode::Ua433)
        } else if value == 15 {
            Some(RegionCode::Ua868)
        } else if value == 16 {
            Some(RegionCode::My433)
        } else if value == 17 {
            Some(RegionCode::My919)
        } else if value == 18 {
            Some(RegionCode::Sg923)
        } else if value == 19 {
            Some(RegionCode::Ph433)
        } else if value == 20 {
            Some(RegionCode::Ph868)
        } else if value == 21 {
            Some(RegionCode::Ph915)
        } else {
            None
        }
    }

    proof fn lemma_lookups()
        ensures
            forall|e: Self| #[trigger] Self::name_lookup(e.str_name()) == Some(e),
            forall|e: Self| #[trigger] Self::value_lookup(e.value()) == Some(e),
    {
        reveal_strlit("UNSET");
        assert("UNSET"@.len() == 5);
        reveal_strlit("US");
        assert("US"@.len() == 2);
        assert("US"@[0] == 'U');
        reveal_strlit("EU_433");
        assert("EU_433"@.len() == 6);
        assert("EU_433"@[0] == 'E');
        assert("EU_433"@[3] == '4');
        reveal_strlit("EU_868");
        assert("EU_868"@.len() == 6);
        assert("EU_868"@[0] == 'E');
        assert("EU_868"@[3] == '8');
        reveal_strlit("CN");
        assert("CN"@.len() == 2);
        assert("CN"@[0] == 'C');
        reveal_strlit("JP");
        assert("JP"@.len() == 2);
        assert("JP"@[0] == 'J');
        reveal_strlit("ANZ");
        assert("ANZ"@.len() == 3);
        reveal_strlit("KR");
        assert("KR"@.len() == 2);
        assert("KR"@[0] == 'K');
        reveal_strlit("TW");
        assert("TW"@.len() == 2);
        assert("TW"@[0] == 'T');
        assert("TW"@[1] == 'W');
        reveal_strlit("RU");
        assert("RU"@.len() == 2);
        assert("RU"@[0] == 'R');
        reveal_strlit("IN");
        assert("IN"@.len() == 2);
        assert("IN"@[0] == 'I');
        reveal_strlit("NZ_865");
        assert("NZ_865"@.len() == 6);
        assert("NZ_865"@[0] == 'N');
        reveal_strlit("TH");
        assert("TH"@.len() == 2);
        assert("TH"@[0] == 'T');
        assert("TH"@[1] == 'H');
        reveal_strlit("LORA_24");
        assert("LORA_24"@.len() == 7);
        reveal_strlit("UA_433");
        assert("UA_433"@.len() == 6);
        assert("UA_433"@[0] == 'U');
        assert("UA_433"@[3] == '4');
        reveal_strlit("UA_868");
        assert("UA_868"@.len() == 6);
        assert("UA_868"@[0] == 'U');
        assert("UA_868"@[3] == '8');
        reveal_strlit("MY_433");
        assert("MY_433"@.len() == 6);
        assert("MY_433"@[0] == 'M');
        assert("MY_433"@[3] == '4');
        reveal_strlit("MY_919");
        assert("MY_919"@.len() == 6);
        assert("MY_919"@[0] == 'M');
        assert("MY_919"@[3] == '9');
        reveal_strlit("SG_923");
        assert("SG_923"@.len() == 6);
        assert("SG_923"@[0] == 'S');
        reveal_strlit("PH_433");
        assert("PH_433"@.len() == 6);
        assert("PH_433"@[0] == 'P');
        assert("PH_433"@[3] == '4');
        reveal_strlit("PH_868");
        assert("PH_868"@.len() == 6);
        assert("PH_868"@[0] == 'P');
        assert("PH_868"@[3] == '8');
        reveal_strlit("PH_915");
        assert("PH_915"@.len() == 6);
        assert("PH_915"@[0] == 'P');
        assert("PH_915"@[3] == '9');
    }

    /// Distinct variants have distinct ProtoBuf names and distinct ProtoBuf numbers.
    pub proof fn lemma_injective(a: Self, b: Self)
        ensures
            a.str_name() == b.str_name() ==> a == b,
            a.value() == b.value() ==> a == b,
    {
        Self::lemma_lookups();
        assert(Self::name_lookup(a.str_name()) == Some(a));
        assert(Self::name_lookup(b.str_name()) == Some(b));
        assert(Self::value_lookup(a.value()) == Some(a));
        assert(Self::value_lookup(b.value()) == Some(b));
    }

    /// A name denotes a variant exactly when it is that variant's ProtoBuf name:
    /// `from_str_name` undoes `as_str_name`, and accepts nothing else.
    pub proof fn lemma_named(name: Seq<char>, e: Self)
        ensures
            Self::named(name) == Some(e) <==> e.str_name() == name,
    {
        if e.str_name() == name {
            let x = choose|x: Self| #[trigger] x.str_name() == name;
            Self::lemma_injective(x, e);
        }
    }

    /// A number denotes a variant exactly when it is that variant's ProtoBuf number:
    /// `from_i32` undoes the conversion to `i32`, and accepts nothing else.
    pub proof fn lemma_with_value(value: i32, e: Self)
        ensures
            Self::with_value(value) == Some(e) <==> e.value() == value,
    {
        if e.value() == value {
            let x = choose|x: Self| #[trigger] x.value() == value;
            Self::lemma_injective(x, e);
        }
    }

    /// What a field holding `value` reads as: the variant numbered `value` when some variant
    /// has that number, and otherwise the variant numbered 0.
    pub proof fn lemma_number_or_default(value: i32)
        ensures
            (exists|e: Self| #[trigger] e.value() == value) ==> Self::from_number_or_default(value).value() == value,
            (forall|e: Self| #[trigger] e.value() != value) ==> Self::from_number_or_default(value).value() == 0,
            (forall|e: Self| #[trigger] e.value() != value) ==> Self::from_number_or_default(value) == Self::default_variant(),
            Self::default_variant().value() == 0,
    {
        if exists|e: Self| #[trigger] e.value() == value {
            let e = choose|e: Self| #[trigger] e.value() == value;
            Self::lemma_with_value(value, e);
        }
    }

    /// `try_from` accepts exactly the numbers that variants have and gives back the variant with
    /// that number; every other number it rejects with the error that records that number.
    pub proof fn lemma_try_from(value: i32, e: Self)
        ensures
            (<Self as vstd::std_specs::convert::TryFromSpec<i32>>::try_from_spec(value) == Ok::<Self, prost::UnknownEnumValue>(e)) <==> e.value() == value,
            (forall|x: Self| #[trigger] x.value() != value) ==> <Self as vstd::std_specs::convert::TryFromSpec<i32>>::try_from_spec(value) == Err::<Self, prost::UnknownEnumValue>(crate::enum_error::unknown_enum_value(value)),
            (exists|x: Self| #[trigger] x.value() == value) ==> <Self as vstd::std_specs::convert::TryFromSpec<i32>>::try_from_spec(value) is Ok,
    {
        Self::lemma_with_value(value, e);
        if exists|x: Self| #[trigger] x.value() == value {
            let x = choose|x: Self| #[trigger] x.value() == value;
            Self::lemma_with_value(value, x);
        }
    }

    /// Reading back the number of a variant gives that variant: a field set to `e` reads as `e`.
    pub proof fn lemma_read_after_write(e: Self)
        ensures
            Self::from_number_or_default(e.value()) == e,
    {
        Self::lemma_with_value(e.value(), e);
    }

    /// String value of the enum field names used in the ProtoBuf definition.
    ///
    /// The values are not transformed in any way and thus are considered stable
    /// (if the ProtoBuf definition does not change) and safe for programmatic use.
    pub fn as_str_name(&self) -> (name: &'static str)
        ensures
            name@ == self.str_name(),
    {
        match self {
            RegionCode::Unset => "UNSET",
            RegionCode::Us => "US",
            RegionCode::Eu433 => "EU_433",
            RegionCode::Eu868 => "EU_868",
            RegionCode::Cn => "CN",
            RegionCode::Jp => "JP",
            RegionCode::Anz => "ANZ",
            RegionCode::Kr => "KR",
            RegionCode::Tw => "TW",
            RegionCode::Ru => "RU",
            RegionCode::In => "IN",
            RegionCode::Nz865 => "NZ_865",
            RegionCode::Th => "TH",
            RegionCode::Lora24 => "LORA_24",
            RegionCode::Ua433 => "UA_433",
            RegionCode::Ua868 => "UA_868",
            RegionCode::My433 => "MY_433",
            RegionCode::My919 => "MY_919",
            RegionCode::Sg923 => "SG_923",
            RegionCode::Ph433 => "PH_433",
            RegionCode::Ph868 => "PH_868",
            RegionCode::Ph915 => "PH_915",
        }
    }

    /// Creates an enum from field names used in the ProtoBuf definition.
    pub fn from_str_name(value: &str) -> (r: Option<Self>)
        ensures
            r == Self::named(value@),
    {
        if str_eq(value, "UNSET") {
            proof {
                Self::lemma_named(value@, RegionCode::Unset);
            }
            return Some(RegionCode::Unset);
        }
        if str_eq(value, "US") {
            proof {
                Self::lemma_named(value@, RegionCode::Us);
            }
            return Some(RegionCode::Us);
        }
        if str_eq(value, "EU_433") {
            proof {
                Self::lemma_named(value@, RegionCode::Eu433);
            }
            return Some(RegionCode::Eu433);
        }
        if str_eq(value, "EU_868") {
            proof {
                Self::lemma_named(value@, RegionCode::Eu868);
            }
            return Some(RegionCode::Eu868);
        }
        if str_eq(value, "CN") {
            proof {
                Self::lemma_named(value@, RegionCode::Cn);
            }
            return Some(RegionCode::Cn);
        }
        if str_eq(value, "JP") {
            proof {
                Self::lemma_named(value@, RegionCode::Jp);
            }
            return Some(RegionCode::Jp);
        }
        if str_eq(value, "ANZ") {
            proof {
                Self::lemma_named(value@, RegionCode::Anz);
            }
            return Some(RegionCode::Anz);
        }
        if str_eq(value, "KR") {
            proof {
                Self::lemma_named(value@, RegionCode::Kr);
            }
            return Some(RegionCode::Kr);
        }
        if str_eq(value, "TW") {
            proof {
                Self::lemma_named(value@, RegionCode::Tw);
            }
            return Some(RegionCode::Tw);
        }
        if str_eq(value, "RU") {
            proof {
                Self::lemma_named(value@, RegionCode::Ru);
            }
            return Some(RegionCode::Ru);
        }
        if str_eq(value, "IN") {
            proof {
                Self::lemma_named(value@, RegionCode::In);
            }
            return Some(RegionCode::In);
        }
        if str_eq(value, "NZ_865") {
            proof {
                Self::lemma_named(value@, RegionCode::Nz865);
            }
            return Some(RegionCode::Nz865);
        }
        if str_eq(value, "TH") {
            proof {
                Self::lemma_named(value@, RegionCode::Th);
            }
            return Some(RegionCode::Th);
        }
        if str_eq(value, "LORA_24") {
            proof {
                Self::lemma_named(value@, RegionCode::Lora24);
            }
            return Some(RegionCode::Lora24);
        }
        if str_eq(value, "UA_433") {
            proof {
                Self::lemma_named(value@, RegionCode::Ua433);
            }
            return Some(RegionCode::Ua433);
        }
        if str_eq(value, "UA_868") {
            proof {
                Self::lemma_named(value@, RegionCode::Ua868);
            }
            return Some(RegionCode::Ua868);
        }
        if str_eq(value, "MY_433") {
            proof {
                Self::lemma_named(value@, RegionCode::My433);
            }
            return Some(RegionCode::My433);
        }
        if str_eq(value, "MY_919") {
            proof {
                Self::lemma_named(value@, RegionCode::My919);
            }
            return Some(RegionCode::My919);
        }
        if str_eq(value, "SG_923") {
            proof {
                Self::lemma_named(value@, RegionCode::Sg923);
            }
            return Some(RegionCode::Sg923);
        }
        if str_eq(value, "PH_433") {
            proof {
                Self::lemma_named(value@, RegionCode::Ph433);
            }
            return Some(RegionCode::Ph433);
        }
        if str_eq(value, "PH_868") {
            proof {
                Self::lemma_named(value@, RegionCode::Ph868);
            }
            return Some(RegionCode::Ph868);
        }
        if str_eq(value, "PH_915") {
            proof {
                Self::lemma_named(value@, RegionCode::Ph915);
            }
            return Some(RegionCode::Ph915);
        }
        None
    }

    /// Returns `true` if `value` is a variant of `RegionCode`.
    pub fn is_valid(value: i32) -> (r: bool)
        ensures
            r == (Self::with_value(value) is Some),
    {
        Self::from_i32(value).is_some()
    }

    /// Converts an `i32` to a `RegionCode`, or `None` if `value` is not a valid variant.
    pub fn from_i32(value: i32) -> (r: Option<Self>)
        ensures
            r == Self::with_value(value),
    {
        if value == 0 {
            proof {
                Self::lemma_with_value(value, RegionCode::Unset);
            }
            return Some(RegionCode::Unset);
        }
        if value == 1 {
            proof {
                Self::lemma_with_value(value, RegionCode::Us);
            }
            return Some(RegionCode::Us);
        }
        if value == 2 {
            proof {
                Self::lemma_with_value(value, RegionCode::Eu433);
            }
            return Some(RegionCode::Eu433);
        }
        if value == 3 {
            proof {
                Self::lemma_with_value(value, RegionCode::Eu868);
            }
            return Some(RegionCode::Eu868);
        }
        if value == 4 {
            proof {
                Self::lemma_with_value(value, RegionCode::Cn);
            }
            return Some(RegionCode::Cn);
        }
        if value == 5 {
            proof {
                Self::lemma_with_value(value, RegionCode::Jp);
            }
            return Some(RegionCode::Jp);
        }
        if value == 6 {
            proof {
                Self::lemma_with_value(value, RegionCode::Anz);
            }
            return Some(RegionCode::Anz);
        }
        if value == 7 {
            proof {
                Self::lemma_with_value(value, RegionCode::Kr);
            }
            return Some(RegionCode::Kr);
        }
        if value == 8 {
            proof {
                Self::lemma_with_value(value, RegionCode::Tw);
            }
            return Some(RegionCode::Tw);
        }
        if value == 9 {
            proof {
                Self::lemma_with_value(value, RegionCode::Ru);
            }
            return Some(RegionCode::Ru);
        }
        if value == 10 {
            proof {
                Self::lemma_with_value(value, RegionCode::In);
            }
            return Some(RegionCode::In);
        }
        if value == 11 {
            proof {
                Self::lemma_with_value(value, RegionCode::Nz865);
            }
            return Some(RegionCode::Nz865);
        }
        if value == 12 {
            proof {
                Self::lemma_with_value(value, RegionCode::Th);
            }
            return Some(RegionCode::Th);
        }
        if value == 13 {
            proof {
                Self::lemma_with_value(value, RegionCode::Lora24);
            }
            return Some(RegionCode::Lora24);
        }
        if value == 14 {
            proof {
                Self::lemma_with_value(value, RegionCode::Ua433);
            }
            return Some(RegionCode::Ua433);
        }
        if value == 15 {
            proof {
                Self::lemma_with_value(value, RegionCode::Ua868);
            }
            return Some(RegionCode::Ua868);
        }
        if value == 16 {
            proof {
                Self::lemma_with_value(value, RegionCode::My433);
            }
            return Some(RegionCode::My433);
        }
        if value == 17 {
            proof {
                Self::lemma_with_value(value, RegionCode::My919);
            }
            return Some(RegionCode::My919);
        }
        if value == 18 {
            proof {
                Self::lemma_with_value(value, RegionCode::Sg923);
            }
            return Some(RegionCode::Sg923);
        }
        if value == 19 {
            proof {
                Self::lemma_with_value(value, RegionCode::Ph433);
            }
            return Some(RegionCode::Ph433);
        }
        if value == 20 {
            proof {
                Self::lemma_with_value(value, RegionCode::Ph868);
            }
            return Some(RegionCode::Ph868);
        }
        if value == 21 {
            proof {
                Self::lemma_with_value(value, RegionCode::Ph915);
            }
            return Some(RegionCode::Ph915);
        }
        None
    }
}

impl Default for RegionCode {
    /// The variant numbered 0, the default value of the field in ProtoBuf.
    fn default() -> (r: Self)
        ensures
            r == Self::default_variant(),
            r.value() == 0,
    {
        RegionCode::Unset
    }
}

impl From<RegionCode> for i32 {
    fn from(value: RegionCode) -> (r: i32) {
        match value {
            RegionCode::Unset => 0,
            RegionCode::Us => 1,
            RegionCode::Eu433 => 2,
            RegionCode::Eu868 => 3,
            RegionCode::Cn => 4,
            RegionCode::Jp => 5,
            RegionCode::Anz => 6,
            RegionCode::Kr => 7,
            RegionCode::Tw => 8,
            RegionCode::Ru => 9,
            RegionCode::In => 10,
            RegionCode::Nz865 => 11,
            RegionCode::Th => 12,
            RegionCode::Lora24 => 13,
            RegionCode::Ua433 => 14,
            RegionCode::Ua868 => 15,
            RegionCode::My433 => 16,
            RegionCode::My919 => 17,
            RegionCode::Sg923 => 18,
            RegionCode::Ph433 => 19,
            RegionCode::Ph868 => 20,
            RegionCode::Ph915 => 21,
        }
    }
}

impl TryFrom<i32> for RegionCode {
    type Error = prost::UnknownEnumValue;

    fn try_from(value: i32) -> (r: Result<RegionCode, prost::UnknownEnumValue>)
        ensures
            r matches Ok(e) ==> e.value() == value,
            (exists|e: RegionCode| #[trigger] e.value() == value) ==> r is Ok,
            r is Err ==> r == Err::<RegionCode, prost::UnknownEnumValue>(crate::enum_error::unknown_enum_value(value)),
    {
        proof {
            if exists|e: RegionCode| #[trigger] e.value() == value {
                let e = choose|e: RegionCode| #[trigger] e.value() == value;
                RegionCode::lemma_with_value(value, e);
            }
        }
        match RegionCode::from_i32(value) {
            Some(e) => Ok(e),
            None => Err(make_unknown_enum_value(value)),
        }
    }
}

impl vstd::std_specs::convert::TryFromSpecImpl<i32> for RegionCode {
    open spec fn obeys_try_from_spec() -> bool {
        true
    }

    open spec fn try_from_spec(value: i32) -> Result<RegionCode, prost::UnknownEnumValue> {
        match RegionCode::with_value(value) {
            Some(e) => Ok(e),
            None => Err(crate::enum_error::unknown_enum_value(value)),
        }
    }
}

impl vstd::std_specs::convert::FromSpecImpl<RegionCode> for i32 {
    open spec fn obeys_from_spec() -> bool {
        true
    }

    open spec fn from_spec(value: RegionCode) -> i32 {
        value.value()
    }
}

/// Standard predefined channel settings
/// Note: these mappings must match ModemPreset Choice in the device code.
#[derive(Clone, Copy, Debug, PartialEq, Eq, Hash, PartialOrd, Ord)]
pub enum ModemPreset {
    /// Long Range - Fast
    LongFast,
    /// Long Range - Slow
    LongSlow,
    /// Very Long Range - Slow
    /// Deprecated in 2.5: Works only with txco and is unusably slow
    VeryLongSlow,
    /// Medium Range - Slow
    MediumSlow,
    /// Medium Range - Fast
    MediumFast,
    /// Short Range - Slow
    ShortSlow,
    /// Short Range - Fast
    ShortFast,
    /// Long Range - Moderately Fast
    LongModerate,
    /// Short Range - Turbo
    /// This is the fastest preset and the only one with 500kHz bandwidth.
    /// It is not legal to use in all regions due to this wider bandwidth.
    ShortTurbo,
}

impl ModemPreset {
    /// The name of this variant in the ProtoBuf definition.
    pub open spec fn str_name(self) -> Seq<char> {
        match self {
            ModemPreset::LongFast => "LONG_FAST"@,
            ModemPreset::LongSlow => "LONG_SLOW"@,
            ModemPreset::VeryLongSlow => "VERY_LONG_SLOW"@,
            ModemPreset::MediumSlow => "MEDIUM_SLOW"@,
            ModemPreset::MediumFast => "MEDIUM_FAST"@,
            ModemPreset::ShortSlow => "SHORT_SLOW"@,
            ModemPreset::ShortFast => "SHORT_FAST"@,
            ModemPreset::LongModerate => "LONG_MODERATE"@,
            ModemPreset::ShortTurbo => "SHORT_TURBO"@,
        }
    }

    /// The number of this variant in the ProtoBuf definition.
    pub open spec fn value(self) -> i32 {
        match self {
            ModemPreset::LongFast => 0,
            ModemPreset::LongSlow => 1,
            ModemPreset::VeryLongSlow => 2,
            ModemPreset::MediumSlow => 3,
            ModemPreset::MediumFast => 4,
            ModemPreset::ShortSlow => 5,
            ModemPreset::ShortFast => 6,
            ModemPreset::LongModerate => 7,
            ModemPreset::ShortTurbo => 8,
        }
    }

    /// The variant numbered 0, which a field holds when it is not set.
    pub open spec fn default_variant() -> Self {
        ModemPreset::LongFast
    }

    /// The variant numbered `value`, or the default variant when no variant has that number:
    /// what a message field holding `value` reads as.
    pub open spec fn from_number_or_default(value: i32) -> Self {
        match Self::with_value(value) {
            Some(e) => e,
            None => Self::default_variant(),
        }
    }

    /// The variant whose ProtoBuf name is `name`, if there is one.
    pub open spec fn named(name: Seq<char>) -> Option<Self> {
        if exists|e: Self| #[trigger] e.str_name() == name {
            Some(choose|e: Self| #[trigger] e.str_name() == name)
        } else {
            None
        }
    }

    /// The variant whose ProtoBuf number is `value`, if there is one.
    pub open spec fn with_value(value: i32) -> Option<Self> {
        if exists|e: Self| #[trigger] e.value() == value {
            Some(choose|e: Self| #[trigger] e.value() == value)
        } else {
            None
        }
    }

    spec fn name_lookup(name: Seq<char>) -> Option<Self> {
        if name == "LONG_FAST"@ {
            Some(ModemPreset::LongFast)
        } else if name == "LONG_SLOW"@ {
            Some(ModemPreset::LongSlow)
        } else if name == "VERY_LONG_SLOW"@ {
            Some(ModemPreset::VeryLongSlow)
        } else if name == "MEDIUM_SLOW"@ {
            Some(ModemPreset::MediumSlow)
        } else if name == "MEDIUM_FAST"@ {
            Some(ModemPreset::MediumFast)
        } else if name == "SHORT_SLOW"@ {
            Some(ModemPreset::ShortSlow)
        } else if name == "SHORT_FAST"@ {
            Some(ModemPreset::ShortFast)
        } else if name == "LONG_MODERATE"@ {
            Some(ModemPreset::LongModerate)
        } else if name == "SHORT_TURBO"@ {
            Some(ModemPreset::ShortTurbo)
        } else {
            None
        }
    }

    spec fn value_lookup(value: i32) -> Option<Self> {
        if value == 0 {
            Some(ModemPreset::LongFast)
        } else if value == 1 {
            Some(ModemPreset::LongSlow)
        } else if value == 2 {
            Some(ModemPreset::VeryLongSlow)
        } else if value == 3 {
            Some(ModemPreset::MediumSlow)
        } else if value == 4 {
            Some(ModemPreset::MediumFast)
        } else if value == 5 {
            Some(ModemPreset::ShortSlow)
        } else if value == 6 {
            Some(ModemPreset::ShortFast)
        } else if value == 7 {
            Some(ModemPreset::LongModerate)
        } else if value == 8 {
            Some(ModemPreset::ShortTurbo)
        } else {
            None
        }
    }

    proof fn lemma_lookups()
        ensures
            forall|e: Self| #[trigger] Self::name_lookup(e.str_name()) == Some(e),
            forall|e: Self| #[trigger] Self::value_lookup(e.value()) == Some(e),
    {
        reveal_strlit("LONG_FAST");
        assert("LONG_FAST"@.len() == 9);
        assert("LONG_FAST"@[5] == 'F');
        reveal_strlit("LONG_SLOW");
        assert("LONG_SLOW"@.len() == 9);
        assert("LONG_SLOW"@[5] == 'S');
        reveal_strlit("VERY_LONG_SLOW");
        assert("VERY_LONG_SLOW"@.len() == 14);
        reveal_strlit("MEDIUM_SLOW");
        assert("MEDIUM_SLOW"@.len() == 11);
        assert("MEDIUM_SLOW"@[0] == 'M');
        assert("MEDIUM_SLOW"@[7] == 'S');
        reveal_strlit("MEDIUM_FAST");
        assert("MEDIUM_FAST"@.len() == 11);
        assert("MEDIUM_FAST"@[0] == 'M');
        assert("MEDIUM_FAST"@[7] == 'F');
        reveal_strlit("SHORT_SLOW");
        assert("SHORT_SLOW"@.len() == 10);
        assert("SHORT_SLOW"@[6] == 'S');
        reveal_strlit("SHORT_FAST");
        assert("SHORT_FAST"@.len() == 10);
        assert("SHORT_FAST"@[6] == 'F');
        reveal_strlit("LONG_MODERATE");
        assert("LONG_MODERATE"@.len() == 13);
        reveal_strlit("SHORT_TURBO");
        assert("SHORT_TURBO"@.len() == 11);
        assert("SHORT_TURBO"@[0] == 'S');
    }

    /// Distinct variants have distinct ProtoBuf names and distinct ProtoBuf numbers.
    pub proof fn lemma_injective(a: Self, b: Self)
        ensures
            a.str_name() == b.str_name() ==> a == b,
            a.value() == b.value() ==> a == b,
    {
        Self::lemma_lookups();
        assert(Self::name_lookup(a.str_name()) == Some(a));
        assert(Self::name_lookup(b.str_name()) == Some(b));
        assert(Self::value_lookup(a.value()) == Some(a));
        assert(Self::value_lookup(b.value()) == Some(b));
    }

    /// A name denotes a variant exactly when it is that variant's ProtoBuf name:
    /// `from_str_name` undoes `as_str_name`, and accepts nothing else.
    pub proof fn lemma_named(name: Seq<char>, e: Self)
        ensures
            Self::named(name) == Some(e) <==> e.str_name() == name,
    {
        if e.str_name() == name {
            let x = choose|x: Self| #[trigger] x.str_name() == name;
            Self::lemma_injective(x, e);
        }
    }

    /// A number denotes a variant exactly when it is that variant's ProtoBuf number:
    /// `from_i32` undoes the conversion to `i32`, and accepts nothing else.
    pub proof fn lemma_with_value(value: i32, e: Self)
        ensures
            Self::with_value(value) == Some(e) <==> e.value() == value,
    {
        if e.value() == value {
            let x = choose|x: Self| #[trigger] x.value() == value;
            Self::lemma_injective(x, e);
        }
    }

    /// What a field holding `value` reads as: the variant numbered `value` when some variant
    /// has that number, and otherwise the variant numbered 0.
    pub proof fn lemma_number_or_default(value: i32)
        ensures
            (exists|e: Self| #[trigger] e.value() == value) ==> Self::from_number_or_default(value).value() == value,
            (forall|e: Self| #[trigger] e.value() != value) ==> Self::from_number_or_default(value).value() == 0,
            (forall|e: Self| #[trigger] e.value() != value) ==> Self::from_number_or_default(value) == Self::default_variant(),
            Self::default_variant().value() == 0,
    {
        if exists|e: Self| #[trigger] e.value() == value {
            let e = choose|e: Self| #[trigger] e.value() == value;
            Self::lemma_with_value(value, e);
        }
    }

    /// `try_from` accepts exactly the numbers that variants have and gives back the variant with
    /// that number; every other number it rejects with the error that records that number.
    pub proof fn lemma_try_from(value: i32, e: Self)
        ensures
            (<Self as vstd::std_specs::convert::TryFromSpec<i32>>::try_from_spec(value) == Ok::<Self, prost::UnknownEnumValue>(e)) <==> e.value() == value,
            (forall|x: Self| #[trigger] x.value() != value) ==> <Self as vstd::std_specs::convert::TryFromSpec<i32>>::try_from_spec(value) == Err::<Self, prost::UnknownEnumValue>(crate::enum_error::unknown_enum_value(value)),
            (exists|x: Self| #[trigger] x.value() == value) ==> <Self as vstd::std_specs::convert::TryFromSpec<i32>>::try_from_spec(value) is Ok,
    {
        Self::lemma_with_value(value, e);
        if exists|x: Self| #[trigger] x.value() == value {
            let x = choose|x: Self| #[trigger] x.value() == value;
            Self::lemma_with_value(value, x);
        }
    }

    /// Reading back the number of a variant gives that variant: a field set to `e` reads as `e`.
    pub proof fn lemma_read_after_write(e: Self)
        ensures
            Self::from_number_or_default(e.value()) == e,
    {
        Self::lemma_with_value(e.value(), e);
    }

    /// String value of the enum field names used in the ProtoBuf definition.
    ///
    /// The values are not transformed in any way and thus are considered stable
    /// (if the ProtoBuf definition does not change) and safe for programmatic use.
    pub fn as_str_name(&self) -> (name: &'static str)
        ensures
            name@ == self.str_name(),
    {
        match self {
            ModemPreset::LongFast => "LONG_FAST",
            ModemPreset::LongSlow => "LONG_SLOW",
            ModemPreset::VeryLongSlow => "VERY_LONG_SLOW",
            ModemPreset::MediumSlow => "MEDIUM_SLOW",
            ModemPreset::MediumFast => "MEDIUM_FAST",
            ModemPreset::ShortSlow => "SHORT_SLOW",
            ModemPreset::ShortFast => "SHORT_FAST",
            ModemPreset::LongModerate => "LONG_MODERATE",
            ModemPreset::ShortTurbo => "SHORT_TURBO",
        }
    }

    /// Creates an enum from field names used in the ProtoBuf definition.
    pub fn from_str_name(value: &str) -> (r: Option<Self>)
        ensures
            r == Self::named(value@),
    {
        if str_eq(value, "LONG_FAST") {
            proof {
                Self::lemma_named(value@, ModemPreset::LongFast);
            }
            return Some(ModemPreset::LongFast);
        }
        if str_eq(value, "LONG_SLOW") {
            proof {
                Self::lemma_named(value@, ModemPreset::LongSlow);
            }
            return Some(ModemPreset::LongSlow);
        }
        if str_eq(value, "VERY_LONG_SLOW") {
            proof {
                Self::lemma_named(value@, ModemPreset::VeryLongSlow);
            }
            return Some(ModemPreset::VeryLongSlow);
        }
        if str_eq(value, "MEDIUM_SLOW") {
            proof {
                Self::lemma_named(value@, ModemPreset::MediumSlow);
            }
            return Some(ModemPreset::MediumSlow);
        }
        if str_eq(value, "MEDIUM_FAST") {
            proof {
                Self::lemma_named(value@, ModemPreset::MediumFast);
            }
            return Some(ModemPreset::MediumFast);
        }
        if str_eq(value, "SHORT_SLOW") {
            proof {
                Self::lemma_named(value@, ModemPreset::ShortSlow);
            }
            return Some(ModemPreset::ShortSlow);
        }
        if str_eq(value, "SHORT_FAST") {
            proof {
                Self::lemma_named(value@, ModemPreset::ShortFast);
            }
            return Some(ModemPreset::ShortFast);
        }
        if str_eq(value, "LONG_MODERATE") {
            proof {
                Self::lemma_named(value@, ModemPreset::LongModerate);
            }
            return Some(ModemPreset::LongModerate);
        }
        if str_eq(value, "SHORT_TURBO") {
            proof {
                Self::lemma_named(value@, ModemPreset::ShortTurbo);
            }
            return Some(ModemPreset::ShortTurbo);
        }
        None
    }

    /// Returns `true` if `value` is a variant of `ModemPreset`.
    pub fn is_valid(value: i32) -> (r: bool)
        ensures
            r == (Self::with_value(value) is Some),
    {
        Self::from_i32(value).is_some()
    }

    /// Converts an `i32` to a `ModemPreset`, or `None` if `value` is not a valid variant.
    pub fn from_i32(value: i32) -> (r: Option<Self>)
        ensures
            r == Self::with_value(value),
    {
        if value == 0 {
            proof {
                Self::lemma_with_value(value, ModemPreset::LongFast);
            }
            return Some(ModemPreset::LongFast);
        }
        if value == 1 {
            proof {
                Self::lemma_with_value(value, ModemPreset::LongSlow);
            }
            return Some(ModemPreset::LongSlow);
        }
        if value == 2 {
            proof {
                Self::lemma_with_value(value, ModemPreset::VeryLongSlow);
            }
            return Some(ModemPreset::VeryLongSlow);
        }
        if value == 3 {
            proof {
                Self::lemma_with_value(value, ModemPreset::MediumSlow);
            }
            return Some(ModemPreset::MediumSlow);
        }
        if value == 4 {
            proof {
                Self::lemma_with_value(value, ModemPreset::MediumFast);
            }
            return Some(ModemPreset::MediumFast);
        }
        if value == 5 {
            proof {
                Self::lemma_with_value(value, ModemPreset::ShortSlow);
            }
            return Some(ModemPreset::ShortSlow);
        }
        if value == 6 {
            proof {
                Self::lemma_with_value(value, ModemPreset::ShortFast);
            }
            return Some(ModemPreset::ShortFast);
        }
        if value == 7 {
            proof {
                Self::lemma_with_value(value, ModemPreset::LongModerate);
            }
            return Some(ModemPreset::LongModerate);
        }
        if value == 8 {
            proof {
                Self::lemma_with_value(value, ModemPreset::ShortTurbo);
            }
            return Some(ModemPreset::ShortTurbo);
        }
        None
    }
}

impl Default for ModemPreset {
    /// The variant numbered 0, the default value of the field in ProtoBuf.
    fn default() -> (r: Self)
        ensures
            r == Self::default_variant(),
            r.value() == 0,
    {
        ModemPreset::LongFast
    }
}

impl From<ModemPreset> for i32 {
    fn from(value: ModemPreset) -> (r: i32) {
        match value {
            ModemPreset::LongFast => 0,
            ModemPreset::LongSlow => 1,
            ModemPreset::VeryLongSlow => 2,
            ModemPreset::MediumSlow => 3,
            ModemPreset::MediumFast => 4,
            ModemPreset::ShortSlow => 5,
            ModemPreset::ShortFast => 6,
            ModemPreset::LongModerate => 7,
            ModemPreset::ShortTurbo => 8,
        }
    }
}

impl TryFrom<i32> for ModemPreset {
    type Error = prost::UnknownEnumValue;

    fn try_from(value: i32) -> (r: Result<ModemPreset, prost::UnknownEnumValue>)
        ensures
            r matches Ok(e) ==> e.value() == value,
            (exists|e: ModemPreset| #[trigger] e.value() == value) ==> r is Ok,
            r is Err ==> r == Err::<ModemPreset, prost::UnknownEnumValue>(crate::enum_error::unknown_enum_value(value)),
    {
        proof {
            if exists|e: ModemPreset| #[trigger] e.value() == value {
                let e = choose|e: ModemPreset| #[trigger] e.value() == value;
                ModemPreset::lemma_with_value(value, e);
            }
        }
        match ModemPreset::from_i32(value) {
            Some(e) => Ok(e),
            None => Err(make_unknown_enum_value(value)),
        }
    }
}

impl vstd::std_specs::convert::TryFromSpecImpl<i32> for ModemPreset {
    open spec fn obeys_try_from_spec() -> bool {
        true
    }

    open spec fn try_from_spec(value: i32) -> Result<ModemPreset, prost::UnknownEnumValue> {
        match ModemPreset::with_value(value) {
            Some(e) => Ok(e),
            None => Err(crate::enum_error::unknown_enum_value(value)),
        }
    }
}

impl vstd::std_specs::convert::FromSpecImpl<ModemPreset> for i32 {
    open spec fn obeys_from_spec() -> bool {
        true
    }

    open spec fn from_spec(value: ModemPreset) -> i32 {
        value.value()
    }
}

} // verus!
