//! Nested message and enum types in `DetectionSensorConfig`.

use vstd::prelude::*;
use crate::enum_error::make_unknown_enum_value;
use crate::text::str_eq;

verus! {

#[derive(Clone, Copy, Debug, PartialEq, Eq, Hash, PartialOrd, Ord)]
pub enum TriggerType {
    /// Event is triggered if pin is low
    LogicLow,
    /// Event is triggered if pin is high
    LogicHigh,
    /// Event is triggered when pin goes high to low
    FallingEdge,
    /// Event is triggered when pin goes low to high
    RisingEdge,
    /// Event is triggered on every pin state change, low is considered to be
    /// "active"
    EitherEdgeActiveLow,
    /// Event is triggered on every pin state change, high is considered to be
    /// "active"
    EitherEdgeActiveHigh,
}

impl TriggerType {
    /// The name of this variant in the ProtoBuf definition.
    pub open spec fn str_name(self) -> Seq<char> {
        match self {
            TriggerType::LogicLow => "LOGIC_LOW"@,
            TriggerType::LogicHigh => "LOGIC_HIGH"@,
            TriggerType::FallingEdge => "FALLING_EDGE"@,
            TriggerType::RisingEdge => "RISING_EDGE"@,
            TriggerType::EitherEdgeActiveLow => "EITHER_EDGE_ACTIVE_LOW"@,
            TriggerType::EitherEdgeActiveHigh => "EITHER_EDGE_ACTIVE_HIGH"@,
        }
    }

    /// The number of this variant in the ProtoBuf definition.
    pub open spec fn value(self) -> i32 {
        match self {
            TriggerType::LogicLow => 0,
            TriggerType::LogicHigh => 1,
            TriggerType::FallingEdge => 2,
            TriggerType::RisingEdge => 3,
            TriggerType::EitherEdgeActiveLow => 4,
            TriggerType::EitherEdgeActiveHigh => 5,
        }
    }

    /// The variant numbered 0, which a field holds when it is not set.
    pub open spec fn default_variant() -> Self {
        TriggerType::LogicLow
    }

    /// The variant numbered `value`, or the default variant when no variant has that number:
    /// what a message field holding `value` reads as.
    pub open spec fn from_number_or_default(value: i32) -> Self {
        match Self::with_value(value) {
            Some(e) => e,
            None => Self::default_variant(),
        }
    }

    /// The variant whose ProtoBuf name is `name`, if there is one.
    pub open spec fn named(name: Seq<char>) -> Option<Self> {
        if exists|e: Self| #[trigger] e.str_name() == name {
            Some(choose|e: Self| #[trigger] e.str_name() == name)
        } else {
            None
        }
    }

    /// The variant whose ProtoBuf number is `value`, if there is one.
    pub open spec fn with_value(value: i32) -> Option<Self> {
        if exists|e: Self| #[trigger] e.value() == value {
            Some(choose|e: Self| #[trigger] e.value() == value)
        } else {
            None
        }
    }

    spec fn name_lookup(name: Seq<char>) -> Option<Self> {
        if name == "LOGIC_LOW"@ {
            Some(TriggerType::LogicLow)
        } else if name == "LOGIC_HIGH"@ {
            Some(TriggerType::LogicHigh)
        } else if name == "FALLING_EDGE"@ {
            Some(TriggerType::FallingEdge)
        } else if name == "RISING_EDGE"@ {
            Some(TriggerType::RisingEdge)
        } else if name == "EITHER_EDGE_ACTIVE_LOW"@ {
            Some(TriggerType::EitherEdgeActiveLow)
        } else if name == "EITHER_EDGE_ACTIVE_HIGH"@ {
            Some(TriggerType::EitherEdgeActiveHigh)
        } else {
            None
        }
    }

    spec fn value_lookup(value: i32) -> Option<Self> {
        if value == 0 {
            Some(TriggerType::LogicLow)
        } else if value == 1 {
            Some(TriggerType::LogicHigh)
        } else if value == 2 {
            Some(TriggerType::FallingEdge)
        } else if value == 3 {
            Some(TriggerType::RisingEdge)
        } else if value == 4 {
            Some(TriggerType::EitherEdgeActiveLow)
        } else if value == 5 {
            Some(TriggerType::EitherEdgeActiveHigh)
        } else {
            None
        }
    }

    proof fn lemma_lookups()
        ensures
            forall|e: Self| #[trigger] Self::name_lookup(e.str_name()) == Some(e),
            forall|e: Self| #[trigger] Self::value_lookup(e.value()) == Some(e),
    {
        reveal_strlit("LOGIC_LOW");
        assert("LOGIC_LOW"@.len() == 9);
        reveal_strlit("LOGIC_HIGH");
        assert("LOGIC_HIGH"@.len() == 10);
        reveal_strlit("FALLING_EDGE");
        assert("FALLING_EDGE"@.len() == 12);
        reveal_strlit("RISING_EDGE");
        assert("RISING_EDGE"@.len() == 11);
        reveal_strlit("EITHER_EDGE_ACTIVE_LOW");
        assert("EITHER_EDGE_ACTIVE_LOW"@.len() == 22);
        reveal_strlit("EITHER_EDGE_ACTIVE_HIGH");
        assert("EITHER_EDGE_ACTIVE_HIGH"@.len() == 23);
    }

    /// Distinct variants have distinct ProtoBuf names and distinct ProtoBuf numbers.
    pub proof fn lemma_injective(a: Self, b: Self)
        ensures
            a.str_name() == b.str_name() ==> a == b,
            a.value() == b.value() ==> a == b,
    {
        Self::lemma_lookups();
        assert(Self::name_lookup(a.str_name()) == Some(a));
        assert(Self::name_lookup(b.str_name()) == Some(b));
        assert(Self::value_lookup(a.value()) == Some(a));
        assert(Self::value_lookup(b.value()) == Some(b));
    }

    /// A name denotes a variant exactly when it is that variant's ProtoBuf name:
    /// `from_str_name` undoes `as_str_name`, and accepts nothing else.
    pub proof fn lemma_named(name: Seq<char>, e: Self)
        ensures
            Self::named(name) == Some(e) <==> e.str_name() == name,
    {
        if e.str_name() == name {
            let x = choose|x: Self| #[trigger] x.str_name() == name;
            Self::lemma_injective(x, e);
        }
    }

    /// A number denotes a variant exactly when it is that variant's ProtoBuf number:
    /// `from_i32` undoes the conversion to `i32`, and accepts nothing else.
    pub proof fn lemma_with_value(value: i32, e: Self)
        ensures
            Self::with_value(value) == Some(e) <==> e.value() == value,
    {
        if e.value() == value {
            let x = choose|x: Self| #[trigger] x.value() == value;
            Self::lemma_injective(x, e);
        }
    }

    /// What a field holding `value` reads as: the variant numbered `value` when some variant
    /// has that number, and otherwise the variant numbered 0.
    pub proof fn lemma_number_or_default(value: i32)
        ensures
            (exists|e: Self| #[trigger] e.value() == value) ==> Self::from_number_or_default(value).value() == value,
            (forall|e: Self| #[trigger] e.value() != value) ==> Self::from_number_or_default(value).value() == 0,
            (forall|e: Self| #[trigger] e.value() != value) ==> Self::from_number_or_default(value) == Self::default_variant(),
            Self::default_variant().value() == 0,
    {
        if exists|e: Self| #[trigger] e.value() == value {
            let e = choose|e: Self| #[trigger] e.value() == value;
            Self::lemma_with_value(value, e);
        }
    }

    /// `try_from` accepts exactly the numbers that variants have and gives back the variant with
    /// that number; every other number it rejects with the error that records that number.
    pub proof fn lemma_try_from(value: i32, e: Self)
        ensures
            (<Self as vstd::std_specs::convert::TryFromSpec<i32>>::try_from_spec(value) == Ok::<Self, prost::UnknownEnumValue>(e)) <==> e.value() == value,
            (forall|x: Self| #[trigger] x.value() != value) ==> <Self as vstd::std_specs::convert::TryFromSpec<i32>>::try_from_spec(value) == Err::<Self, prost::UnknownEnumValue>(crate::enum_error::unknown_enum_value(value)),
            (exists|x: Self| #[trigger] x.value() == value) ==> <Self as vstd::std_specs::convert::TryFromSpec<i32>>::try_from_spec(value) is Ok,
    {
        Self::lemma_with_value(value, e);
        if exists|x: Self| #[trigger] x.value() == value {
            let x = choose|x: Self| #[trigger] x.value() == value;
            Self::lemma_with_value(value, x);
        }
    }

    /// Reading back the number of a variant gives that variant: a field set to `e` reads as `e`.
    pub proof fn lemma_read_after_write(e: Self)
        ensures
            Self::from_number_or_default(e.value()) == e,
    {
        Self::lemma_with_value(e.value(), e);
    }

    /// String value of the enum field names used in the ProtoBuf definition.
    ///
    /// The values are not transformed in any way and thus are considered stable
    /// (if the ProtoBuf definition does not change) and safe for programmatic use.
    pub fn as_str_name(&self) -> (name: &'static str)
        ensures
            name@ == self.str_name(),
    {
        match self {
            TriggerType::LogicLow => "LOGIC_LOW",
            TriggerType::LogicHigh => "LOGIC_HIGH",
            TriggerType::FallingEdge => "FALLING_EDGE",
            TriggerType::RisingEdge => "RISING_EDGE",
            TriggerType::EitherEdgeActiveLow => "EITHER_EDGE_ACTIVE_LOW",
            TriggerType::EitherEdgeActiveHigh => "EITHER_EDGE_ACTIVE_HIGH",
        }
    }

    /// Creates an enum from field names used in the ProtoBuf definition.
    pub fn from_str_name(value: &str) -> (r: Option<Self>)
        ensures
            r == Self::named(value@),
    {
        if str_eq(value, "LOGIC_LOW") {
            proof {
                Self::lemma_named(value@, TriggerType::LogicLow);
            }
            return Some(TriggerType::LogicLow);
        }
        if str_eq(value, "LOGIC_HIGH") {
            proof {
                Self::lemma_named(value@, TriggerType::LogicHigh);
            }
            return Some(TriggerType::LogicHigh);
        }
        if str_eq(value, "FALLING_EDGE") {
            proof {
                Self::lemma_named(value@, TriggerType::FallingEdge);
            }
            return Some(TriggerType::FallingEdge);
        }
        if str_eq(value, "RISING_EDGE") {
            proof {
                Self::lemma_named(value@, TriggerType::RisingEdge);
            }
            return Some(TriggerType::RisingEdge);
        }
        if str_eq(value, "EITHER_EDGE_ACTIVE_LOW") {
            proof {
                Self::lemma_named(value@, TriggerType::EitherEdgeActiveLow);
            }
            return Some(TriggerType::EitherEdgeActiveLow);
        }
        if str_eq(value, "EITHER_EDGE_ACTIVE_HIGH") {
            proof {
                Self::lemma_named(value@, TriggerType::EitherEdgeActiveHigh);
            }
            return Some(TriggerType::EitherEdgeActiveHigh);
        }
        None
    }

    /// Returns `true` if `value` is a variant of `TriggerType`.
    pub fn is_valid(value: i32) -> (r: bool)
        ensures
            r == (Self::with_value(value) is Some),
    {
        Self::from_i32(value).is_some()
    }

    /// Converts an `i32` to a `TriggerType`, or `None` if `value` is not a valid variant.
    pub fn from_i32(value: i32) -> (r: Option<Self>)
        ensures
            r == Self::with_value(value),
    {
        if value == 0 {
            proof {
                Self::lemma_with_value(value, TriggerType::LogicLow);
            }
            return Some(TriggerType::LogicLow);
        }
        if value == 1 {
            proof {
                Self::lemma_with_value(value, TriggerType::LogicHigh);
            }
            return Some(TriggerType::LogicHigh);
        }
        if value == 2 {
            proof {
                Self::lemma_with_value(value, TriggerType::FallingEdge);
            }
            return Some(TriggerType::FallingEdge);
        }
        if value == 3 {
            proof {
                Self::lemma_with_value(value, TriggerType::RisingEdge);
            }
            return Some(TriggerType::RisingEdge);
        }
        if value == 4 {
            proof {
                Self::lemma_with_value(value, TriggerType::EitherEdgeActiveLow);
            }
            return Some(TriggerType::EitherEdgeActiveLow);
        }
        if value == 5 {
            proof {
                Self::lemma_with_value(value, TriggerType::EitherEdgeActiveHigh);
            }
            return Some(TriggerType::EitherEdgeActiveHigh);
        }
        None
    }
}

impl Default for TriggerType {
    /// The variant numbered 0, the default value of the field in ProtoBuf.
    fn default() -> (r: Self)
        ensures
            r == Self::default_variant(),
            r.value() == 0,
    {
        TriggerType::LogicLow
    }
}

impl From<TriggerType> for i32 {
    fn from(value: TriggerType) -> (r: i32) {
        match value {
            TriggerType::LogicLow => 0,
            TriggerType::LogicHigh => 1,
            TriggerType::FallingEdge => 2,
            TriggerType::RisingEdge => 3,
            TriggerType::EitherEdgeActiveLow => 4,
            TriggerType::EitherEdgeActiveHigh => 5,
        }
    }
}

impl TryFrom<i32> for TriggerType {
    type Error = prost::UnknownEnumValue;

    fn try_from(value: i32) -> (r: Result<TriggerType, prost::UnknownEnumValue>)
        ensures
            r matches Ok(e) ==> e.value() == value,
            (exists|e: TriggerType| #[trigger] e.value() == value) ==> r is Ok,
            r is Err ==> r == Err::<TriggerType, prost::UnknownEnumValue>(crate::enum_error::unknown_enum_value(value)),
    {
        proof {
            if exists|e: TriggerType| #[trigger] e.value() == value {
                let e = choose|e: TriggerType| #[trigger] e.value() == value;
                TriggerType::lemma_with_value(value, e);
            }
        }
        match TriggerType::from_i32(value) {
            Some(e) => Ok(e),
            None => Err(make_unknown_enum_value(value)),
        }
    }
}

impl vstd::std_specs::convert::TryFromSpecImpl<i32> for TriggerType {
    open spec fn obeys_try_from_spec() -> bool {
        true
    }

    open spec fn try_from_spec(value: i32) -> Result<TriggerType, prost::UnknownEnumValue> {
        match TriggerType::with_value(value) {
            Some(e) => Ok(e),
            None => Err(crate::enum_error::unknown_enum_value(value)),
        }
    }
}

impl vstd::std_specs::convert::FromSpecImpl<TriggerType> for i32 {
    open spec fn obeys_from_spec() -> bool {
        true
    }

    open spec fn from_spec(value: TriggerType) -> i32 {
        value.value()
    }
}

} // verus!
