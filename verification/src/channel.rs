//! Nested message and enum types in `Channel`.

use vstd::prelude::*;
use crate::enum_error::make_unknown_enum_value;
use crate::text::str_eq;

verus! {

/// How this channel is being used (or not).
/// Note: this field is an enum to give us options for the future.
/// In particular, someday we might make a 'SCANNING' option.
/// SCANNING channels could have different frequencies and the radio would
/// occasionally check that freq to see if anything is being transmitted.
/// For devices that have multiple physical radios attached, we could keep multiple PRIMARY/SCANNING channels active at once to allow
/// cross band routing as needed.
/// If a device has only a single radio (the common case) only one channel can be PRIMARY at a time
/// (but any number of SECONDARY channels can't be sent received on that common frequency)
#[derive(Clone, Copy, Debug, PartialEq, Eq, Hash, PartialOrd, Ord)]
pub enum Role {
    /// This channel is not in use right now
    Disabled,
    /// This channel is used to set the frequency for the radio - all other enabled channels must be SECONDARY
    Primary,
    /// Secondary channels are only used for encryption/decryption/authentication purposes.
    /// Their radio settings (freq etc) are ignored, only psk is used.
    Secondary,
}

impl Role {
    /// The name of this variant in the ProtoBuf definition.
    pub open spec fn str_name(self) -> Seq<char> {
        match self {
            Role::Disabled => "DISABLED"@,
            Role::Primary => "PRIMARY"@,
            Role::Secondary => "SECONDARY"@,
        }
    }

    /// The number of this variant in the ProtoBuf definition.
    pub open spec fn value(self) -> i32 {
        match self {
            Role::Disabled => 0,
            Role::Primary => 1,
            Role::Secondary => 2,
        }
    }

    /// The variant numbered 0, which a field holds when it is not set.
    pub open spec fn default_variant() -> Self {
        Role::Disabled
    }

    /// The variant numbered `value`, or the default variant when no variant has that number:
    /// what a message field holding `value` reads as.
    pub open spec fn from_number_or_default(value: i32) -> Self {
        match Self::with_value(value) {
            Some(e) => e,
            None => Self::default_variant(),
        }
    }

    /// The variant whose ProtoBuf name is `name`, if there is one.
    pub open spec fn named(name: Seq<char>) -> Option<Self> {
        if exists|e: Self| #[trigger] e.str_name() == name {
            Some(choose|e: Self| #[trigger] e.str_name() == name)
        } else {
            None
        }
    }

    /// The variant whose ProtoBuf number is `value`, if there is one.
    pub open spec fn with_value(value: i32) -> Option<Self> {
        if exists|e: Self| #[trigger] e.value() == value {
            Some(choose|e: Self| #[trigger] e.value() == value)
        } else {
            None
        }
    }

    spec fn name_lookup(name: Seq<char>) -> Option<Self> {
        if name == "DISABLED"@ {
            Some(Role::Disabled)
        } else if name == "PRIMARY"@ {
            Some(Role::Primary)
        } else if name == "SECONDARY"@ {
            Some(Role::Secondary)
        } else {
            None
        }
    }

    spec fn value_lookup(value: i32) -> Option<Self> {
        if value == 0 {
            Some(Role::Disabled)
        } else if value == 1 {
            Some(Role::Primary)
        } else if value == 2 {
            Some(Role::Secondary)
        } else {
            None
        }
    }

    proof fn lemma_lookups()
        ensures
            forall|e: Self| #[trigger] Self::name_lookup(e.str_name()) == Some(e),
            forall|e: Self| #[trigger] Self::value_lookup(e.value()) == Some(e),
    {
        reveal_strlit("DISABLED");
        assert("DISABLED"@.len() == 8);
        reveal_strlit("PRIMARY");
        assert("PRIMARY"@.len() == 7);
        reveal_strlit("SECONDARY");
        assert("SECONDARY"@.len() == 9);
    }

    /// Distinct variants have distinct ProtoBuf names and distinct ProtoBuf numbers.
    pub proof fn lemma_injective(a: Self, b: Self)
        ensures
            a.str_name() == b.str_name() ==> a == b,
            a.value() == b.value() ==> a == b,
    {
        Self::lemma_lookups();
        assert(Self::name_lookup(a.str_name()) == Some(a));
        assert(Self::name_lookup(b.str_name()) == Some(b));
        assert(Self::value_lookup(a.value()) == Some(a));
        assert(Self::value_lookup(b.value()) == Some(b));
    }

    /// A name denotes a variant exactly when it is that variant's ProtoBuf name:
    /// `from_str_name` undoes `as_str_name`, and accepts nothing else.
    pub proof fn lemma_named(name: Seq<char>, e: Self)
        ensures
            Self::named(name) == Some(e) <==> e.str_name() == name,
    {
        if e.str_name() == name {
            let x = choose|x: Self| #[trigger] x.str_name() == name;
            Self::lemma_injective(x, e);
        }
    }

    /// A number denotes a variant exactly when it is that variant's ProtoBuf number:
    /// `from_i32` undoes the conversion to `i32`, and accepts nothing else.
    pub proof fn lemma_with_value(value: i32, e: Self)
        ensures
            Self::with_value(value) == Some(e) <==> e.value() == value,
    {
        if e.value() == value {
            let x = choose|x: Self| #[trigger] x.value() == value;
            Self::lemma_injective(x, e);
        }
    }

    /// What a field holding `value` reads as: the variant numbered `value` when some variant
    /// has that number, and otherwise the variant numbered 0.
    pub proof fn lemma_number_or_default(value: i32)
        ensures
            (exists|e: Self| #[trigger] e.value() == value) ==> Self::from_number_or_default(value).value() == value,
            (forall|e: Self| #[trigger] e.value() != value) ==> Self::from_number_or_default(value).value() == 0,
            (forall|e: Self| #[trigger] e.value() != value) ==> Self::from_number_or_default(value) == Self::default_variant(),
            Self::default_variant().value() == 0,
    {
        if exists|e: Self| #[trigger] e.value() == value {
            let e = choose|e: Self| #[trigger] e.value() == value;
            Self::lemma_with_value(value, e);
        }
    }

    /// `try_from` accepts exactly the numbers that variants have and gives back the variant with
    /// that number; every other number it rejects with the error that records that number.
    pub proof fn lemma_try_from(value: i32, e: Self)
        ensures
            (<Self as vstd::std_specs::convert::TryFromSpec<i32>>::try_from_spec(value) == Ok::<Self, prost::UnknownEnumValue>(e)) <==> e.value() == value,
            (forall|x: Self| #[trigger] x.value() != value) ==> <Self as vstd::std_specs::convert::TryFromSpec<i32>>::try_from_spec(value) == Err::<Self, prost::UnknownEnumValue>(crate::enum_error::unknown_enum_value(value)),
            (exists|x: Self| #[trigger] x.value() == value) ==> <Self as vstd::std_specs::convert::TryFromSpec<i32>>::try_from_spec(value) is Ok,
    {
        Self::lemma_with_value(value, e);
        if exists|x: Self| #[trigger] x.value() == value {
            let x = choose|x: Self| #[trigger] x.value() == value;
            Self::lemma_with_value(value, x);
        }
    }

    /// Reading back the number of a variant gives that variant: a field set to `e` reads as `e`.
    pub proof fn lemma_read_after_write(e: Self)
        ensures
            Self::from_number_or_default(e.value()) == e,
    {
        Self::lemma_with_value(e.value(), e);
    }

    /// String value of the enum field names used in the ProtoBuf definition.
    ///
    /// The values are not transformed in any way and thus are considered stable
    /// (if the ProtoBuf definition does not change) and safe for programmatic use.
    pub fn as_str_name(&self) -> (name: &'static str)
        ensures
            name@ == self.str_name(),
    {
        match self {
            Role::Disabled => "DISABLED",
            Role::Primary => "PRIMARY",
            Role::Secondary => "SECONDARY",
        }
    }

    /// Creates an enum from field names used in the ProtoBuf definition.
    pub fn from_str_name(value: &str) -> (r: Option<Self>)
        ensures
            r == Self::named(value@),
    {
        if str_eq(value, "DISABLED") {
            proof {
                Self::lemma_named(value@, Role::Disabled);
            }
            return Some(Role::Disabled);
        }
        if str_eq(value, "PRIMARY") {
            proof {
                Self::lemma_named(value@, Role::Primary);
            }
            return Some(Role::Primary);
        }
        if str_eq(value, "SECONDARY") {
            proof {
                Self::lemma_named(value@, Role::Secondary);
            }
            return Some(Role::Secondary);
        }
        None
    }

    /// Returns `true` if `value` is a variant of `Role`.
    pub fn is_valid(value: i32) -> (r: bool)
        ensures
            r == (Self::with_value(value) is Some),
    {
        Self::from_i32(value).is_some()
    }

    /// Converts an `i32` to a `Role`, or `None` if `value` is not a valid variant.
    pub fn from_i32(value: i32) -> (r: Option<Self>)
        ensures
            r == Self::with_value(value),
    {
        if value == 0 {
            proof {
                Self::lemma_with_value(value, Role::Disabled);
            }
            return Some(Role::Disabled);
        }
        if value == 1 {
            proof {
                Self::lemma_with_value(value, Role::Primary);
            }
            return Some(Role::Primary);
        }
        if value == 2 {
            proof {
                Self::lemma_with_value(value, Role::Secondary);
            }
            return Some(Role::Secondary);
        }
        None
    }
}

impl Default for Role {
    /// The variant numbered 0, the default value of the field in ProtoBuf.
    fn default() -> (r: Self)
        ensures
            r == Self::default_variant(),
            r.value() == 0,
    {
        Role::Disabled
    }
}

impl From<Role> for i32 {
    fn from(value: Role) -> (r: i32) {
        match value {
            Role::Disabled => 0,
            Role::Primary => 1,
            Role::Secondary => 2,
        }
    }
}

impl TryFrom<i32> for Role {
    type Error = prost::UnknownEnumValue;

    fn try_from(value: i32) -> (r: Result<Role, prost::UnknownEnumValue>)
        ensures
            r matches Ok(e) ==> e.value() == value,
            (exists|e: Role| #[trigger] e.value() == value) ==> r is Ok,
            r is Err ==> r == Err::<Role, prost::UnknownEnumValue>(crate::enum_error::unknown_enum_value(value)),
    {
        proof {
            if exists|e: Role| #[trigger] e.value() == value {
                let e = choose|e: Role| #[trigger] e.value() == value;
                Role::lemma_with_value(value, e);
            }
        }
        match Role::from_i32(value) {
            Some(e) => Ok(e),
            None => Err(make_unknown_enum_value(value)),
        }
    }
}

impl vstd::std_specs::convert::TryFromSpecImpl<i32> for Role {
    open spec fn obeys_try_from_spec() -> bool {
        true
    }

    open spec fn try_from_spec(value: i32) -> Result<Role, prost::UnknownEnumValue> {
        match Role::with_value(value) {
            Some(e) => Ok(e),
            None => Err(crate::enum_error::unknown_enum_value(value)),
        }
    }
}

impl vstd::std_specs::convert::FromSpecImpl<Role> for i32 {
    open spec fn obeys_from_spec() -> bool {
        true
    }

    open spec fn from_spec(value: Role) -> i32 {
        value.value()
    }
}

} // verus!
