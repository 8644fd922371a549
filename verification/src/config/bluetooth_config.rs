//! Nested message and enum types in `BluetoothConfig`.

use vstd::prelude::*;
use crate::enum_error::make_unknown_enum_value;
use crate::text::str_eq;

verus! {

#[derive(Clone, Copy, Debug, PartialEq, Eq, Hash, PartialOrd, Ord)]
pub enum PairingMode {
    /// Device generates a random PIN that will be shown on the screen of the device for pairing
    RandomPin,
    /// Device requires a specified fixed PIN for pairing
    FixedPin,
    /// Device requires no PIN for pairing
    NoPin,
}

impl PairingMode {
    /// The name of this variant in the ProtoBuf definition.
    pub open spec fn str_name(self) -> Seq<char> {
        match self {
            PairingMode::RandomPin => "RANDOM_PIN"@,
            PairingMode::FixedPin => "FIXED_PIN"@,
            PairingMode::NoPin => "NO_PIN"@,
        }
    }

    /// The number of this variant in the ProtoBuf definition.
    pub open spec fn value(self) -> i32 {
        match self {
            PairingMode::RandomPin => 0,
            PairingMode::FixedPin => 1,
            PairingMode::NoPin => 2,
        }
    }

    /// The variant numbered 0, which a field holds when it is not set.
    pub open spec fn default_variant() -> Self {
        PairingMode::RandomPin
    }

    /// The variant numbered `value`, or the default variant when no variant has that number:
    /// what a message field holding `value` reads as.
    pub open spec fn from_number_or_default(value: i32) -> Self {
        match Self::with_value(value) {
            Some(e) => e,
            None => Self::default_variant(),
        }
    }

    /// The variant whose ProtoBuf name is `name`, if there is one.
    pub open spec fn named(name: Seq<char>) -> Option<Self> {
        if exists|e: Self| #[trigger] e.str_name() == name {
            Some(choose|e: Self| #[trigger] e.str_name() == name)
        } else {
            None
        }
    }

    /// The variant whose ProtoBuf number is `value`, if there is one.
    pub open spec fn with_value(value: i32) -> Option<Self> {
        if exists|e: Self| #[trigger] e.value() == value {
            Some(choose|e: Self| #[trigger] e.value() == value)
        } else {
            None
        }
    }

    spec fn name_lookup(name: Seq<char>) -> Option<Self> {
        if name == "RANDOM_PIN"@ {
            Some(PairingMode::RandomPin)
        } else if name == "FIXED_PIN"@ {
            Some(PairingMode::FixedPin)
        } else if name == "NO_PIN"@ {
            Some(PairingMode::NoPin)
        } else {
            None
        }
    }

    spec fn value_lookup(value: i32) -> Option<Self> {
        if value == 0 {
            Some(PairingMode::RandomPin)
        } else if value == 1 {
            Some(PairingMode::FixedPin)
        } else if value == 2 {
            Some(PairingMode::NoPin)
        } else {
            None
        }
    }

    proof fn lemma_lookups()
        ensures
            forall|e: Self| #[trigger] Self::name_lookup(e.str_name()) == Some(e),
            forall|e: Self| #[trigger] Self::value_lookup(e.value()) == Some(e),
    {
        reveal_strlit("RANDOM_PIN");
        assert("RANDOM_PIN"@.len() == 10);
        reveal_strlit("FIXED_PIN");
        assert("FIXED_PIN"@.len() == 9);
        reveal_strlit("NO_PIN");
        assert("NO_PIN"@.len() == 6);
    }

    /// Distinct variants have distinct ProtoBuf names and distinct ProtoBuf numbers.
    pub proof fn lemma_injective(a: Self, b: Self)
        ensures
            a.str_name() == b.str_name() ==> a == b,
            a.value() == b.value() ==> a == b,
    {
        Self::lemma_lookups();
        assert(Self::name_lookup(a.str_name()) == Some(a));
        assert(Self::name_lookup(b.str_name()) == Some(b));
        assert(Self::value_lookup(a.value()) == Some(a));
        assert(Self::value_lookup(b.value()) == Some(b));
    }

    /// A name denotes a variant exactly when it is that variant's ProtoBuf name:
    /// `from_str_name` undoes `as_str_name`, and accepts nothing else.
    pub proof fn lemma_named(name: Seq<char>, e: Self)
        ensures
            Self::named(name) == Some(e) <==> e.str_name() == name,
    {
        if e.str_name() == name {
            let x = choose|x: Self| #[trigger] x.str_name() == name;
            Self::lemma_injective(x, e);
        }
    }

    /// A number denotes a variant exactly when it is that variant's ProtoBuf number:
    /// `from_i32` undoes the conversion to `i32`, and accepts nothing else.
    pub proof fn lemma_with_value(value: i32, e: Self)
        ensures
            Self::with_value(value) == Some(e) <==> e.value() == value,
    {
        if e.value() == value {
            let x = choose|x: Self| #[trigger] x.value() == value;
            Self::lemma_injective(x, e);
        }
    }

    /// What a field holding `value` reads as: the variant numbered `value` when some variant
    /// has that number, and otherwise the variant numbered 0.
    pub proof fn lemma_number_or_default(value: i32)
        ensures
            (exists|e: Self| #[trigger] e.value() == value) ==> Self::from_number_or_default(value).value() == value,
            (forall|e: Self| #[trigger] e.value() != value) ==> Self::from_number_or_default(value).value() == 0,
            (forall|e: Self| #[trigger] e.value() != value) ==> Self::from_number_or_default(value) == Self::default_variant(),
            Self::default_variant().value() == 0,
    {
        if exists|e: Self| #[trigger] e.value() == value {
            let e = choose|e: Self| #[trigger] e.value() == value;
            Self::lemma_with_value(value, e);
        }
    }

    /// `try_from` accepts exactly the numbers that variants have and gives back the variant with
    /// that number; every other number it rejects with the error that records that number.
    pub proof fn lemma_try_from(value: i32, e: Self)
        ensures
            (<Self as vstd::std_specs::convert::TryFromSpec<i32>>::try_from_spec(value) == Ok::<Self, prost::UnknownEnumValue>(e)) <==> e.value() == value,
            (forall|x: Self| #[trigger] x.value() != value) ==> <Self as vstd::std_specs::convert::TryFromSpec<i32>>::try_from_spec(value) == Err::<Self, prost::UnknownEnumValue>(crate::enum_error::unknown_enum_value(value)),
            (exists|x: Self| #[trigger] x.value() == value) ==> <Self as vstd::std_specs::convert::TryFromSpec<i32>>::try_from_spec(value) is Ok,
    {
        Self::lemma_with_value(value, e);
        if exists|x: Self| #[trigger] x.value() == value {
            let x = choose|x: Self| #[trigger] x.value() == value;
            Self::lemma_with_value(value, x);
        }
    }

    /// Reading back the number of a variant gives that variant: a field set to `e` reads as `e`.
    pub proof fn lemma_read_after_write(e: Self)
        ensures
            Self::from_number_or_default(e.value()) == e,
    {
        Self::lemma_with_value(e.value(), e);
    }

    /// String value of the enum field names used in the ProtoBuf definition.
    ///
    /// The values are not transformed in any way and thus are considered stable
    /// (if the ProtoBuf definition does not change) and safe for programmatic use.
    pub fn as_str_name(&self) -> (name: &'static str)
        ensures
            name@ == self.str_name(),
    {
        match self {
            PairingMode::RandomPin => "RANDOM_PIN",
            PairingMode::FixedPin => "FIXED_PIN",
            PairingMode::NoPin => "NO_PIN",
        }
    }

    /// Creates an enum from field names used in the ProtoBuf definition.
    pub fn from_str_name(value: &str) -> (r: Option<Self>)
        ensures
            r == Self::named(value@),
    {
        if str_eq(value, "RANDOM_PIN") {
            proof {
                Self::lemma_named(value@, PairingMode::RandomPin);
            }
            return Some(PairingMode::RandomPin);
        }
        if str_eq(value, "FIXED_PIN") {
            proof {
                Self::lemma_named(value@, PairingMode::FixedPin);
            }
            return Some(PairingMode::FixedPin);
        }
        if str_eq(value, "NO_PIN") {
            proof {
                Self::lemma_named(value@, PairingMode::NoPin);
            }
            return Some(PairingMode::NoPin);
        }
        None
    }

    /// Returns `true` if `value` is a variant of `PairingMode`.
    pub fn is_valid(value: i32) -> (r: bool)
        ensures
            r == (Self::with_value(value) is Some),
    {
        Self::from_i32(value).is_some()
    }

    /// Converts an `i32` to a `PairingMode`, or `None` if `value` is not a valid variant.
    pub fn from_i32(value: i32) -> (r: Option<Self>)
        ensures
            r == Self::with_value(value),
    {
        if value == 0 {
            proof {
                Self::lemma_with_value(value, PairingMode::RandomPin);
            }
            return Some(PairingMode::RandomPin);
        }
        if value == 1 {
            proof {
                Self::lemma_with_value(value, PairingMode::FixedPin);
            }
            return Some(PairingMode::FixedPin);
        }
        if value == 2 {
            proof {
                Self::lemma_with_value(value, PairingMode::NoPin);
            }
            return Some(PairingMode::NoPin);
        }
        None
    }
}

impl Default for PairingMode {
    /// The variant numbered 0, the default value of the field in ProtoBuf.
    fn default() -> (r: Self)
        ensures
            r == Self::default_variant(),
            r.value() == 0,
    {
        PairingMode::RandomPin
    }
}

impl From<PairingMode> for i32 {
    fn from(value: PairingMode) -> (r: i32) {
        match value {
            PairingMode::RandomPin => 0,
            PairingMode::FixedPin => 1,
            PairingMode::NoPin => 2,
        }
    }
}

impl TryFrom<i32> for PairingMode {
    type Error = prost::UnknownEnumValue;

    fn try_from(value: i32) -> (r: Result<PairingMode, prost::UnknownEnumValue>)
        ensures
            r matches Ok(e) ==> e.value() == value,
            (exists|e: PairingMode| #[trigger] e.value() == value) ==> r is Ok,
            r is Err ==> r == Err::<PairingMode, prost::UnknownEnumValue>(crate::enum_error::unknown_enum_value(value)),
    {
        proof {
            if exists|e: PairingMode| #[trigger] e.value() == value {
                let e = choose|e: PairingMode| #[trigger] e.value() == value;
                PairingMode::lemma_with_value(value, e);
            }
        }
        match PairingMode::from_i32(value) {
            Some(e) => Ok(e),
            None => Err(make_unknown_enum_value(value)),
        }
    }
}

impl vstd::std_specs::convert::TryFromSpecImpl<i32> for PairingMode {
    open spec fn obeys_try_from_spec() -> bool {
        true
    }

    open spec fn try_from_spec(value: i32) -> Result<PairingMode, prost::UnknownEnumValue> {
        match PairingMode::with_value(value) {
            Some(e) => Ok(e),
            None => Err(crate::enum_error::unknown_enum_value(value)),
        }
    }
}

impl vstd::std_specs::convert::FromSpecImpl<PairingMode> for i32 {
    open spec fn obeys_from_spec() -> bool {
        true
    }

    open spec fn from_spec(value: PairingMode) -> i32 {
        value.value()
    }
}

} // verus!
