//! Nested message and enum types in `Position`.

use vstd::prelude::*;
use crate::enum_error::make_unknown_enum_value;
use crate::text::str_eq;

verus! {

/// How the location was acquired: manual, onboard GPS, external (EUD) GPS
#[derive(Clone, Copy, Debug, PartialEq, Eq, Hash, PartialOrd, Ord)]
pub enum LocSource {
    LocUnset,
    LocManual,
    LocInternal,
    LocExternal,
}

impl LocSource {
    /// The name of this variant in the ProtoBuf definition.
    pub open spec fn str_name(self) -> Seq<char> {
        match self {
            LocSource::LocUnset => "LOC_UNSET"@,
            LocSource::LocManual => "LOC_MANUAL"@,
            LocSource::LocInternal => "LOC_INTERNAL"@,
            LocSource::LocExternal => "LOC_EXTERNAL"@,
        }
    }

    /// The number of this variant in the ProtoBuf definition.
    pub open spec fn value(self) -> i32 {
        match self {
            LocSource::LocUnset => 0,
            LocSource::LocManual => 1,
            LocSource::LocInternal => 2,
            LocSource::LocExternal => 3,
        }
    }

    /// The variant numbered 0, which a field holds when it is not set.
    pub open spec fn default_variant() -> Self {
        LocSource::LocUnset
    }

    /// The variant numbered `value`, or the default variant when no variant has that number:
    /// what a message field holding `value` reads as.
    pub open spec fn from_number_or_default(value: i32) -> Self {
        match Self::with_value(value) {
            Some(e) => e,
            None => Self::default_variant(),
        }
    }

    /// The variant whose ProtoBuf name is `name`, if there is one.
    pub open spec fn named(name: Seq<char>) -> Option<Self> {
        if exists|e: Self| #[trigger] e.str_name() == name {
            Some(choose|e: Self| #[trigger] e.str_name() == name)
        } else {
            None
        }
    }

    /// The variant whose ProtoBuf number is `value`, if there is one.
    pub open spec fn with_value(value: i32) -> Option<Self> {
        if exists|e: Self| #[trigger] e.value() == value {
            Some(choose|e: Self| #[trigger] e.value() == value)
        } else {
            None
        }
    }

    spec fn name_lookup(name: Seq<char>) -> Option<Self> {
        if name == "LOC_UNSET"@ {
            Some(LocSource::LocUnset)
        } else if name == "LOC_MANUAL"@ {
            Some(LocSource::LocManual)
        } else if name == "LOC_INTERNAL"@ {
            Some(LocSource::LocInternal)
        } else if name == "LOC_EXTERNAL"@ {
            Some(LocSource::LocExternal)
        } else {
            None
        }
    }

    spec fn value_lookup(value: i32) -> Option<Self> {
        if value == 0 {
            Some(LocSource::LocUnset)
        } else if value == 1 {
            Some(LocSource::LocManual)
        } else if value == 2 {
            Some(LocSource::LocInternal)
        } else if value == 3 {
            Some(LocSource::LocExternal)
        } else {
            None
        }
    }

    proof fn lemma_lookups()
        ensures
            forall|e: Self| #[trigger] Self::name_lookup(e.str_name()) == Some(e),
            forall|e: Self| #[trigger] Self::value_lookup(e.value()) == Some(e),
    {
        reveal_strlit("LOC_UNSET");
        assert("LOC_UNSET"@.len() == 9);
        reveal_strlit("LOC_MANUAL");
        assert("LOC_MANUAL"@.len() == 10);
        reveal_strlit("LOC_INTERNAL");
        assert("LOC_INTERNAL"@.len() == 12);
        assert("LOC_INTERNAL"@[4] == 'I');
        reveal_strlit("LOC_EXTERNAL");
        assert("LOC_EXTERNAL"@.len() == 12);
        assert("LOC_EXTERNAL"@[4] == 'E');
    }

    /// Distinct variants have distinct ProtoBuf names and distinct ProtoBuf numbers.
    pub proof fn lemma_injective(a: Self, b: Self)
        ensures
            a.str_name() == b.str_name() ==> a == b,
            a.value() == b.value() ==> a == b,
    {
        Self::lemma_lookups();
        assert(Self::name_lookup(a.str_name()) == Some(a));
        assert(Self::name_lookup(b.str_name()) == Some(b));
        assert(Self::value_lookup(a.value()) == Some(a));
        assert(Self::value_lookup(b.value()) == Some(b));
    }

    /// A name denotes a variant exactly when it is that variant's ProtoBuf name:
    /// `from_str_name` undoes `as_str_name`, and accepts nothing else.
    pub proof fn lemma_named(name: Seq<char>, e: Self)
        ensures
            Self::named(name) == Some(e) <==> e.str_name() == name,
    {
        if e.str_name() == name {
            let x = choose|x: Self| #[trigger] x.str_name() == name;
            Self::lemma_injective(x, e);
        }
    }

    /// A number denotes a variant exactly when it is that variant's ProtoBuf number:
    /// `from_i32` undoes the conversion to `i32`, and accepts nothing else.
    pub proof fn lemma_with_value(value: i32, e: Self)
        ensures
            Self::with_value(value) == Some(e) <==> e.value() == value,
    {
        if e.value() == value {
            let x = choose|x: Self| #[trigger] x.value() == value;
            Self::lemma_injective(x, e);
        }
    }

    /// What a field holding `value` reads as: the variant numbered `value` when some variant
    /// has that number, and otherwise the variant numbered 0.
    pub proof fn lemma_number_or_default(value: i32)
        ensures
            (exists|e: Self| #[trigger] e.value() == value) ==> Self::from_number_or_default(value).value() == value,
            (forall|e: Self| #[trigger] e.value() != value) ==> Self::from_number_or_default(value).value() == 0,
            (forall|e: Self| #[trigger] e.value() != value) ==> Self::from_number_or_default(value) == Self::default_variant(),
            Self::default_variant().value() == 0,
    {
        if exists|e: Self| #[trigger] e.value() == value {
            let e = choose|e: Self| #[trigger] e.value() == value;
            Self::lemma_with_value(value, e);
        }
    }

    /// `try_from` accepts exactly the numbers that variants have and gives back the variant with
    /// that number; every other number it rejects with the error that records that number.
    pub proof fn lemma_try_from(value: i32, e: Self)
        ensures
            (<Self as vstd::std_specs::convert::TryFromSpec<i32>>::try_from_spec(value) == Ok::<Self, prost::UnknownEnumValue>(e)) <==> e.value() == value,
            (forall|x: Self| #[trigger] x.value() != value) ==> <Self as vstd::std_specs::convert::TryFromSpec<i32>>::try_from_spec(value) == Err::<Self, prost::UnknownEnumValue>(crate::enum_error::unknown_enum_value(value)),
            (exists|x: Self| #[trigger] x.value() == value) ==> <Self as vstd::std_specs::convert::TryFromSpec<i32>>::try_from_spec(value) is Ok,
    {
        Self::lemma_with_value(value, e);
        if exists|x: Self| #[trigger] x.value() == value {
            let x = choose|x: Self| #[trigger] x.value() == value;
            Self::lemma_with_value(value, x);
        }
    }

    /// Reading back the number of a variant gives that variant: a field set to `e` reads as `e`.
    pub proof fn lemma_read_after_write(e: Self)
        ensures
            Self::from_number_or_default(e.value()) == e,
    {
        Self::lemma_with_value(e.value(), e);
    }

    /// String value of the enum field names used in the ProtoBuf definition.
    ///
    /// The values are not transformed in any way and thus are considered stable
    /// (if the ProtoBuf definition does not change) and safe for programmatic use.
    pub fn as_str_name(&self) -> (name: &'static str)
        ensures
            name@ == self.str_name(),
    {
        match self {
            LocSource::LocUnset => "LOC_UNSET",
            LocSource::LocManual => "LOC_MANUAL",
            LocSource::LocInternal => "LOC_INTERNAL",
            LocSource::LocExternal => "LOC_EXTERNAL",
        }
    }

    /// Creates an enum from field names used in the ProtoBuf definition.
    pub fn from_str_name(value: &str) -> (r: Option<Self>)
        ensures
            r == Self::named(value@),
    {
        if str_eq(value, "LOC_UNSET") {
            proof {
                Self::lemma_named(value@, LocSource::LocUnset);
            }
            return Some(LocSource::LocUnset);
        }
        if str_eq(value, "LOC_MANUAL") {
            proof {
                Self::lemma_named(value@, LocSource::LocManual);
            }
            return Some(LocSource::LocManual);
        }
        if str_eq(value, "LOC_INTERNAL") {
            proof {
                Self::lemma_named(value@, LocSource::LocInternal);
            }
            return Some(LocSource::LocInternal);
        }
        if str_eq(value, "LOC_EXTERNAL") {
            proof {
                Self::lemma_named(value@, LocSource::LocExternal);
            }
            return Some(LocSource::LocExternal);
        }
        None
    }

    /// Returns `true` if `value` is a variant of `LocSource`.
    pub fn is_valid(value: i32) -> (r: bool)
        ensures
            r == (Self::with_value(value) is Some),
    {
        Self::from_i32(value).is_some()
    }

    /// Converts an `i32` to a `LocSource`, or `None` if `value` is not a valid variant.
    pub fn from_i32(value: i32) -> (r: Option<Self>)
        ensures
            r == Self::with_value(value),
    {
        if value == 0 {
            proof {
                Self::lemma_with_value(value, LocSource::LocUnset);
            }
            return Some(LocSource::LocUnset);
        }
        if value == 1 {
            proof {
                Self::lemma_with_value(value, LocSource::LocManual);
            }
            return Some(LocSource::LocManual);
        }
        if value == 2 {
            proof {
                Self::lemma_with_value(value, LocSource::LocInternal);
            }
            return Some(LocSource::LocInternal);
        }
        if value == 3 {
            proof {
                Self::lemma_with_value(value, LocSource::LocExternal);
            }
            return Some(LocSource::LocExternal);
        }
        None
    }
}

impl Default for LocSource {
    /// The variant numbered 0, the default value of the field in ProtoBuf.
    fn default() -> (r: Self)
        ensures
            r == Self::default_variant(),
            r.value() == 0,
    {
        LocSource::LocUnset
    }
}

impl From<LocSource> for i32 {
    fn from(value: LocSource) -> (r: i32) {
        match value {
            LocSource::LocUnset => 0,
            LocSource::LocManual => 1,
            LocSource::LocInternal => 2,
            LocSource::LocExternal => 3,
        }
    }
}

impl TryFrom<i32> for LocSource {
    type Error = prost::UnknownEnumValue;

    fn try_from(value: i32) -> (r: Result<LocSource, prost::UnknownEnumValue>)
        ensures
            r matches Ok(e) ==> e.value() == value,
            (exists|e: LocSource| #[trigger] e.value() == value) ==> r is Ok,
            r is Err ==> r == Err::<LocSource, prost::UnknownEnumValue>(crate::enum_error::unknown_enum_value(value)),
    {
        proof {
            if exists|e: LocSource| #[trigger] e.value() == value {
                let e = choose|e: LocSource| #[trigger] e.value() == value;
                LocSource::lemma_with_value(value, e);
            }
        }
        match LocSource::from_i32(value) {
            Some(e) => Ok(e),
            None => Err(make_unknown_enum_value(value)),
        }
    }
}

impl vstd::std_specs::convert::TryFromSpecImpl<i32> for LocSource {
    open spec fn obeys_try_from_spec() -> bool {
        true
    }

    open spec fn try_from_spec(value: i32) -> Result<LocSource, prost::UnknownEnumValue> {
        match LocSource::with_value(value) {
            Some(e) => Ok(e),
            None => Err(crate::enum_error::unknown_enum_value(value)),
        }
    }
}

impl vstd::std_specs::convert::FromSpecImpl<LocSource> for i32 {
    open spec fn obeys_from_spec() -> bool {
        true
    }

    open spec fn from_spec(value: LocSource) -> i32 {
        value.value()
    }
}

/// How the altitude was acquired: manual, GPS int/ext, etc
/// Default: same as location_source if present
#[derive(Clone, Copy, Debug, PartialEq, Eq, Hash, PartialOrd, Ord)]
pub enum AltSource {
    AltUnset,
    AltManual,
    AltInternal,
    AltExternal,
    AltBarometric,
}

impl AltSource {
    /// The name of this variant in the ProtoBuf definition.
    pub open spec fn str_name(self) -> Seq<char> {
        match self {
            AltSource::AltUnset => "ALT_UNSET"@,
            AltSource::AltManual => "ALT_MANUAL"@,
            AltSource::AltInternal => "ALT_INTERNAL"@,
            AltSource::AltExternal => "ALT_EXTERNAL"@,
            AltSource::AltBarometric => "ALT_BAROMETRIC"@,
        }
    }

    /// The number of this variant in the ProtoBuf definition.
    pub open spec fn value(self) -> i32 {
        match self {
            AltSource::AltUnset => 0,
            AltSource::AltManual => 1,
            AltSource::AltInternal => 2,
            AltSource::AltExternal => 3,
            AltSource::AltBarometric => 4,
        }
    }

    /// The variant numbered 0, which a field holds when it is not set.
    pub open spec fn default_variant() -> Self {
        AltSource::AltUnset
    }

    /// The variant numbered `value`, or the default variant when no variant has that number:
    /// what a message field holding `value` reads as.
    pub open spec fn from_number_or_default(value: i32) -> Self {
        match Self::with_value(value) {
            Some(e) => e,
            None => Self::default_variant(),
        }
    }

    /// The variant whose ProtoBuf name is `name`, if there is one.
    pub open spec fn named(name: Seq<char>) -> Option<Self> {
        if exists|e: Self| #[trigger] e.str_name() == name {
            Some(choose|e: Self| #[trigger] e.str_name() == name)
        } else {
            None
        }
    }

    /// The variant whose ProtoBuf number is `value`, if there is one.
    pub open spec fn with_value(value: i32) -> Option<Self> {
        if exists|e: Self| #[trigger] e.value() == value {
            Some(choose|e: Self| #[trigger] e.value() == value)
        } else {
            None
        }
    }

    spec fn name_lookup(name: Seq<char>) -> Option<Self> {
        if name == "ALT_UNSET"@ {
            Some(AltSource::AltUnset)
        } else if name == "ALT_MANUAL"@ {
            Some(AltSource::AltManual)
        } else if name == "ALT_INTERNAL"@ {
            Some(AltSource::AltInternal)
        } else if name == "ALT_EXTERNAL"@ {
            Some(AltSource::AltExternal)
        } else if name == "ALT_BAROMETRIC"@ {
            Some(AltSource::AltBarometric)
        } else {
            None
        }
    }

    spec fn value_lookup(value: i32) -> Option<Self> {
        if value == 0 {
            Some(AltSource::AltUnset)
        } else if value == 1 {
            Some(AltSource::AltManual)
        } else if value == 2 {
            Some(AltSource::AltInternal)
        } else if value == 3 {
            Some(AltSource::AltExternal)
        } else if value == 4 {
            Some(AltSource::AltBarometric)
        } else {
            None
        }
    }

    proof fn lemma_lookups()
        ensures
            forall|e: Self| #[trigger] Self::name_lookup(e.str_name()) == Some(e),
            forall|e: Self| #[trigger] Self::value_lookup(e.value()) == Some(e),
    {
        reveal_strlit("ALT_UNSET");
        assert("ALT_UNSET"@.len() == 9);
        reveal_strlit("ALT_MANUAL");
        assert("ALT_MANUAL"@.len() == 10);
        reveal_strlit("ALT_INTERNAL");
        assert("ALT_INTERNAL"@.len() == 12);
        assert("ALT_INTERNAL"@[4] == 'I');
        reveal_strlit("ALT_EXTERNAL");
        assert("ALT_EXTERNAL"@.len() == 12);
        assert("ALT_EXTERNAL"@[4] == 'E');
        reveal_strlit("ALT_BAROMETRIC");
        assert("ALT_BAROMETRIC"@.len() == 14);
    }

    /// Distinct variants have distinct ProtoBuf names and distinct ProtoBuf numbers.
    pub proof fn lemma_injective(a: Self, b: Self)
        ensures
            a.str_name() == b.str_name() ==> a == b,
            a.value() == b.value() ==> a == b,
    {
        Self::lemma_lookups();
        assert(Self::name_lookup(a.str_name()) == Some(a));
        assert(Self::name_lookup(b.str_name()) == Some(b));
        assert(Self::value_lookup(a.value()) == Some(a));
        assert(Self::value_lookup(b.value()) == Some(b));
    }

    /// A name denotes a variant exactly when it is that variant's ProtoBuf name:
    /// `from_str_name` undoes `as_str_name`, and accepts nothing else.
    pub proof fn lemma_named(name: Seq<char>, e: Self)
        ensures
            Self::named(name) == Some(e) <==> e.str_name() == name,
    {
        if e.str_name() == name {
            let x = choose|x: Self| #[trigger] x.str_name() == name;
            Self::lemma_injective(x, e);
        }
    }

    /// A number denotes a variant exactly when it is that variant's ProtoBuf number:
    /// `from_i32` undoes the conversion to `i32`, and accepts nothing else.
    pub proof fn lemma_with_value(value: i32, e: Self)
        ensures
            Self::with_value(value) == Some(e) <==> e.value() == value,
    {
        if e.value() == value {
            let x = choose|x: Self| #[trigger] x.value() == value;
            Self::lemma_injective(x, e);
        }
    }

    /// What a field holding `value` reads as: the variant numbered `value` when some variant
    /// has that number, and otherwise the variant numbered 0.
    pub proof fn lemma_number_or_default(value: i32)
        ensures
            (exists|e: Self| #[trigger] e.value() == value) ==> Self::from_number_or_default(value).value() == value,
            (forall|e: Self| #[trigger] e.value() != value) ==> Self::from_number_or_default(value).value() == 0,
            (forall|e: Self| #[trigger] e.value() != value) ==> Self::from_number_or_default(value) == Self::default_variant(),
            Self::default_variant().value() == 0,
    {
        if exists|e: Self| #[trigger] e.value() == value {
            let e = choose|e: Self| #[trigger] e.value() == value;
            Self::lemma_with_value(value, e);
        }
    }

    /// `try_from` accepts exactly the numbers that variants have and gives back the variant with
    /// that number; every other number it rejects with the error that records that number.
    pub proof fn lemma_try_from(value: i32, e: Self)
        ensures
            (<Self as vstd::std_specs::convert::TryFromSpec<i32>>::try_from_spec(value) == Ok::<Self, prost::UnknownEnumValue>(e)) <==> e.value() == value,
            (forall|x: Self| #[trigger] x.value() != value) ==> <Self as vstd::std_specs::convert::TryFromSpec<i32>>::try_from_spec(value) == Err::<Self, prost::UnknownEnumValue>(crate::enum_error::unknown_enum_value(value)),
            (exists|x: Self| #[trigger] x.value() == value) ==> <Self as vstd::std_specs::convert::TryFromSpec<i32>>::try_from_spec(value) is Ok,
    {
        Self::lemma_with_value(value, e);
        if exists|x: Self| #[trigger] x.value() == value {
            let x = choose|x: Self| #[trigger] x.value() == value;
            Self::lemma_with_value(value, x);
        }
    }

    /// Reading back the number of a variant gives that variant: a field set to `e` reads as `e`.
    pub proof fn lemma_read_after_write(e: Self)
        ensures
            Self::from_number_or_default(e.value()) == e,
    {
        Self::lemma_with_value(e.value(), e);
    }

    /// String value of the enum field names used in the ProtoBuf definition.
    ///
    /// The values are not transformed in any way and thus are considered stable
    /// (if the ProtoBuf definition does not change) and safe for programmatic use.
    pub fn as_str_name(&self) -> (name: &'static str)
        ensures
            name@ == self.str_name(),
    {
        match self {
            AltSource::AltUnset => "ALT_UNSET",
            AltSource::AltManual => "ALT_MANUAL",
            AltSource::AltInternal => "ALT_INTERNAL",
            AltSource::AltExternal => "ALT_EXTERNAL",
            AltSource::AltBarometric => "ALT_BAROMETRIC",
        }
    }

    /// Creates an enum from field names used in the ProtoBuf definition.
    pub fn from_str_name(value: &str) -> (r: Option<Self>)
        ensures
            r == Self::named(value@),
    {
        if str_eq(value, "ALT_UNSET") {
            proof {
                Self::lemma_named(value@, AltSource::AltUnset);
            }
            return Some(AltSource::AltUnset);
        }
        if str_eq(value, "ALT_MANUAL") {
            proof {
                Self::lemma_named(value@, AltSource::AltManual);
            }
            return Some(AltSource::AltManual);
        }
        if str_eq(value, "ALT_INTERNAL") {
            proof {
                Self::lemma_named(value@, AltSource::AltInternal);
            }
            return Some(AltSource::AltInternal);
        }
        if str_eq(value, "ALT_EXTERNAL") {
            proof {
                Self::lemma_named(value@, AltSource::AltExternal);
            }
            return Some(AltSource::AltExternal);
        }
        if str_eq(value, "ALT_BAROMETRIC") {
            proof {
                Self::lemma_named(value@, AltSource::AltBarometric);
            }
            return Some(AltSource::AltBarometric);
        }
        None
    }

    /// Returns `true` if `value` is a variant of `AltSource`.
    pub fn is_valid(value: i32) -> (r: bool)
        ensures
            r == (Self::with_value(value) is Some),
    {
        Self::from_i32(value).is_some()
    }

    /// Converts an `i32` to a `AltSource`, or `None` if `value` is not a valid variant.
    pub fn from_i32(value: i32) -> (r: Option<Self>)
        ensures
            r == Self::with_value(value),
    {
        if value == 0 {
            proof {
                Self::lemma_with_value(value, AltSource::AltUnset);
            }
            return Some(AltSource::AltUnset);
        }
        if value == 1 {
            proof {
                Self::lemma_with_value(value, AltSource::AltManual);
            }
            return Some(AltSource::AltManual);
        }
        if value == 2 {
            proof {
                Self::lemma_with_value(value, AltSource::AltInternal);
            }
            return Some(AltSource::AltInternal);
        }
        if value == 3 {
            proof {
                Self::lemma_with_value(value, AltSource::AltExternal);
            }
            return Some(AltSource::AltExternal);
        }
        if value == 4 {
            proof {
                Self::lemma_with_value(value, AltSource::AltBarometric);
            }
            return Some(AltSource::AltBarometric);
        }
        None
    }
}

impl Default for AltSource {
    /// The variant numbered 0, the default value of the field in ProtoBuf.
    fn default() -> (r: Self)
        ensures
            r == Self::default_variant(),
            r.value() == 0,
    {
        AltSource::AltUnset
    }
}

impl From<AltSource> for i32 {
    fn from(value: AltSource) -> (r: i32) {
        match value {
            AltSource::AltUnset => 0,
            AltSource::AltManual => 1,
            AltSource::AltInternal => 2,
            AltSource::AltExternal => 3,
            AltSource::AltBarometric => 4,
        }
    }
}

impl TryFrom<i32> for AltSource {
    type Error = prost::UnknownEnumValue;

    fn try_from(value: i32) -> (r: Result<AltSource, prost::UnknownEnumValue>)
        ensures
            r matches Ok(e) ==> e.value() == value,
            (exists|e: AltSource| #[trigger] e.value() == value) ==> r is Ok,
            r is Err ==> r == Err::<AltSource, prost::UnknownEnumValue>(crate::enum_error::unknown_enum_value(value)),
    {
        proof {
            if exists|e: AltSource| #[trigger] e.value() == value {
                let e = choose|e: AltSource| #[trigger] e.value() == value;
                AltSource::lemma_with_value(value, e);
            }
        }
        match AltSource::from_i32(value) {
            Some(e) => Ok(e),
            None => Err(make_unknown_enum_value(value)),
        }
    }
}

impl vstd::std_specs::convert::TryFromSpecImpl<i32> for AltSource {
    open spec fn obeys_try_from_spec() -> bool {
        true
    }

    open spec fn try_from_spec(value: i32) -> Result<AltSource, prost::UnknownEnumValue> {
        match AltSource::with_value(value) {
            Some(e) => Ok(e),
            None => Err(crate::enum_error::unknown_enum_value(value)),
        }
    }
}

impl vstd::std_specs::convert::FromSpecImpl<AltSource> for i32 {
    open spec fn obeys_from_spec() -> bool {
        true
    }

    open spec fn from_spec(value: AltSource) -> i32 {
        value.value()
    }
}

} // verus!
