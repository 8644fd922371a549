//! Message and enumeration types of the module configuration definitions.

use vstd::prelude::*;
use crate::enum_error::make_unknown_enum_value;
use crate::text::str_eq;

verus! {

/// Module Config
#[derive(Clone, Debug, PartialEq)]
pub struct ModuleConfig {
    pub payload_variant: Option<crate::module_config::PayloadVariant>,
}

impl Default for ModuleConfig {
    /// The message with every field unset: numbers 0, flags false, strings, bytes and lists
    /// empty, and no nested message.
    fn default() -> (r: Self)
        ensures
            r.payload_variant is None,
    {
        ModuleConfig {
            payload_variant: None,
        }
    }
}

/// A GPIO pin definition for remote hardware module
#[derive(Clone, Debug, PartialEq)]
pub struct RemoteHardwarePin {
    /// GPIO Pin number (must match Arduino)
    pub gpio_pin: u32,
    /// Name for the GPIO pin (i.e. Front gate, mailbox, etc)
    pub name: String,
    /// Type of GPIO access available to consumers on the mesh
    pub type_: i32,
}

impl RemoteHardwarePin {
    /// Returns the enum value of `type_`, or the default if the field is set to an invalid enum value.
    pub fn type_(&self) -> (r: crate::RemoteHardwarePinType)
        ensures
            r == crate::RemoteHardwarePinType::from_number_or_default(self.type_),
            (exists|e: crate::RemoteHardwarePinType| #[trigger] e.value() == self.type_) ==> r.value() == self.type_,
            (forall|e: crate::RemoteHardwarePinType| #[trigger] e.value() != self.type_) ==> r.value() == 0,
    {
        proof {
            crate::RemoteHardwarePinType::lemma_number_or_default(self.type_);
        }
        match crate::RemoteHardwarePinType::from_i32(self.type_) {
            Some(e) => e,
            None => <crate::RemoteHardwarePinType as Default>::default(),
        }
    }

    /// Sets `type_` to the provided enum value.
    pub fn set_type(&mut self, value: crate::RemoteHardwarePinType)
        ensures
            *final(self) == (Self { type_: value.value(), ..*old(self) }),
    {
        self.type_ = i32::from(value);
    }
}

impl Default for RemoteHardwarePin {
    /// The message with every field unset: numbers 0, flags false, strings, bytes and lists
    /// empty, and no nested message.
    fn default() -> (r: Self)
        ensures
            r.gpio_pin == 0,
            r.name@ == Seq::<char>::empty(),
            r.type_ == 0,
    {
        RemoteHardwarePin {
            gpio_pin: 0,
            name: String::new(),
            type_: 0,
        }
    }
}

#[derive(Clone, Copy, Debug, PartialEq, Eq, Hash, PartialOrd, Ord)]
pub enum RemoteHardwarePinType {
    /// Unset/unused
    Unknown,
    /// GPIO pin can be read (if it is high / low)
    DigitalRead,
    /// GPIO pin can be written to (high / low)
    DigitalWrite,
}

impl RemoteHardwarePinType {
    /// The name of this variant in the ProtoBuf definition.
    pub open spec fn str_name(self) -> Seq<char> {
        match self {
            RemoteHardwarePinType::Unknown => "UNKNOWN"@,
            RemoteHardwarePinType::DigitalRead => "DIGITAL_READ"@,
            RemoteHardwarePinType::DigitalWrite => "DIGITAL_WRITE"@,
        }
    }

    /// The number of this variant in the ProtoBuf definition.
    pub open spec fn value(self) -> i32 {
        match self {
            RemoteHardwarePinType::Unknown => 0,
            RemoteHardwarePinType::DigitalRead => 1,
            RemoteHardwarePinType::DigitalWrite => 2,
        }
    }

    /// The variant numbered 0, which a field holds when it is not set.
    pub open spec fn default_variant() -> Self {
        RemoteHardwarePinType::Unknown
    }

    /// The variant numbered `value`, or the default variant when no variant has that number:
    /// what a message field holding `value` reads as.
    pub open spec fn from_number_or_default(value: i32) -> Self {
        match Self::with_value(value) {
            Some(e) => e,
            None => Self::default_variant(),
        }
    }

    /// The variant whose ProtoBuf name is `name`, if there is one.
    pub open spec fn named(name: Seq<char>) -> Option<Self> {
        if exists|e: Self| #[trigger] e.str_name() == name {
            Some(choose|e: Self| #[trigger] e.str_name() == name)
        } else {
            None
        }
    }

    /// The variant whose ProtoBuf number is `value`, if there is one.
    pub open spec fn with_value(value: i32) -> Option<Self> {
        if exists|e: Self| #[trigger] e.value() == value {
            Some(choose|e: Self| #[trigger] e.value() == value)
        } else {
            None
        }
    }

    spec fn name_lookup(name: Seq<char>) -> Option<Self> {
        if name == "UNKNOWN"@ {
            Some(RemoteHardwarePinType::Unknown)
        } else if name == "DIGITAL_READ"@ {
            Some(RemoteHardwarePinType::DigitalRead)
        } else if name == "DIGITAL_WRITE"@ {
            Some(RemoteHardwarePinType::DigitalWrite)
        } else {
            None
        }
    }

    spec fn value_lookup(value: i32) -> Option<Self> {
        if value == 0 {
            Some(RemoteHardwarePinType::Unknown)
        } else if value == 1 {
            Some(RemoteHardwarePinType::DigitalRead)
        } else if value == 2 {
            Some(RemoteHardwarePinType::DigitalWrite)
        } else {
            None
        }
    }

    proof fn lemma_lookups()
        ensures
            forall|e: Self| #[trigger] Self::name_lookup(e.str_name()) == Some(e),
            forall|e: Self| #[trigger] Self::value_lookup(e.value()) == Some(e),
    {
        reveal_strlit("UNKNOWN");
        assert("UNKNOWN"@.len() == 7);
        reveal_strlit("DIGITAL_READ");
        assert("DIGITAL_READ"@.len() == 12);
        reveal_strlit("DIGITAL_WRITE");
        assert("DIGITAL_WRITE"@.len() == 13);
    }

    /// Distinct variants have distinct ProtoBuf names and distinct ProtoBuf numbers.
    pub proof fn lemma_injective(a: Self, b: Self)
        ensures
            a.str_name() == b.str_name() ==> a == b,
            a.value() == b.value() ==> a == b,
    {
        Self::lemma_lookups();
        assert(Self::name_lookup(a.str_name()) == Some(a));
        assert(Self::name_lookup(b.str_name()) == Some(b));
        assert(Self::value_lookup(a.value()) == Some(a));
        assert(Self::value_lookup(b.value()) == Some(b));
    }

    /// A name denotes a variant exactly when it is that variant's ProtoBuf name:
    /// `from_str_name` undoes `as_str_name`, and accepts nothing else.
    pub proof fn lemma_named(name: Seq<char>, e: Self)
        ensures
            Self::named(name) == Some(e) <==> e.str_name() == name,
    {
        if e.str_name() == name {
            let x = choose|x: Self| #[trigger] x.str_name() == name;
            Self::lemma_injective(x, e);
        }
    }

    /// A number denotes a variant exactly when it is that variant's ProtoBuf number:
    /// `from_i32` undoes the conversion to `i32`, and accepts nothing else.
    pub proof fn lemma_with_value(value: i32, e: Self)
        ensures
            Self::with_value(value) == Some(e) <==> e.value() == value,
    {
        if e.value() == value {
            let x = choose|x: Self| #[trigger] x.value() == value;
            Self::lemma_injective(x, e);
        }
    }

    /// What a field holding `value` reads as: the variant numbered `value` when some variant
    /// has that number, and otherwise the variant numbered 0.
    pub proof fn lemma_number_or_default(value: i32)
        ensures
            (exists|e: Self| #[trigger] e.value() == value) ==> Self::from_number_or_default(value).value() == value,
            (forall|e: Self| #[trigger] e.value() != value) ==> Self::from_number_or_default(value).value() == 0,
            (forall|e: Self| #[trigger] e.value() != value) ==> Self::from_number_or_default(value) == Self::default_variant(),
            Self::default_variant().value() == 0,
    {
        if exists|e: Self| #[trigger] e.value() == value {
            let e = choose|e: Self| #[trigger] e.value() == value;
            Self::lemma_with_value(value, e);
        }
    }

    /// `try_from` accepts exactly the numbers that variants have and gives back the variant with
    /// that number; every other number it rejects with the error that records that number.
    pub proof fn lemma_try_from(value: i32, e: Self)
        ensures
            (<Self as vstd::std_specs::convert::TryFromSpec<i32>>::try_from_spec(value) == Ok::<Self, prost::UnknownEnumValue>(e)) <==> e.value() == value,
            (forall|x: Self| #[trigger] x.value() != value) ==> <Self as vstd::std_specs::convert::TryFromSpec<i32>>::try_from_spec(value) == Err::<Self, prost::UnknownEnumValue>(crate::enum_error::unknown_enum_value(value)),
            (exists|x: Self| #[trigger] x.value() == value) ==> <Self as vstd::std_specs::convert::TryFromSpec<i32>>::try_from_spec(value) is Ok,
    {
        Self::lemma_with_value(value, e);
        if exists|x: Self| #[trigger] x.value() == value {
            let x = choose|x: Self| #[trigger] x.value() == value;
            Self::lemma_with_value(value, x);
        }
    }

    /// Reading back the number of a variant gives that variant: a field set to `e` reads as `e`.
    pub proof fn lemma_read_after_write(e: Self)
        ensures
            Self::from_number_or_default(e.value()) == e,
    {
        Self::lemma_with_value(e.value(), e);
    }

    /// String value of the enum field names used in the ProtoBuf definition.
    ///
    /// The values are not transformed in any way and thus are considered stable
    /// (if the ProtoBuf definition does not change) and safe for programmatic use.
    pub fn as_str_name(&self) -> (name: &'static str)
        ensures
            name@ == self.str_name(),
    {
        match self {
            RemoteHardwarePinType::Unknown => "UNKNOWN",
            RemoteHardwarePinType::DigitalRead => "DIGITAL_READ",
            RemoteHardwarePinType::DigitalWrite => "DIGITAL_WRITE",
        }
    }

    /// Creates an enum from field names used in the ProtoBuf definition.
    pub fn from_str_name(value: &str) -> (r: Option<Self>)
        ensures
            r == Self::named(value@),
    {
        if str_eq(value, "UNKNOWN") {
            proof {
                Self::lemma_named(value@, RemoteHardwarePinType::Unknown);
            }
            return Some(RemoteHardwarePinType::Unknown);
        }
        if str_eq(value, "DIGITAL_READ") {
            proof {
                Self::lemma_named(value@, RemoteHardwarePinType::DigitalRead);
            }
            return Some(RemoteHardwarePinType::DigitalRead);
        }
        if str_eq(value, "DIGITAL_WRITE") {
            proof {
                Self::lemma_named(value@, RemoteHardwarePinType::DigitalWrite);
            }
            return Some(RemoteHardwarePinType::DigitalWrite);
        }
        None
    }

    /// Returns `true` if `value` is a variant of `RemoteHardwarePinType`.
    pub fn is_valid(value: i32) -> (r: bool)
        ensures
            r == (Self::with_value(value) is Some),
    {
        Self::from_i32(value).is_some()
    }

    /// Converts an `i32` to a `RemoteHardwarePinType`, or `None` if `value` is not a valid variant.
    pub fn from_i32(value: i32) -> (r: Option<Self>)
        ensures
            r == Self::with_value(value),
    {
        if value == 0 {
            proof {
                Self::lemma_with_value(value, RemoteHardwarePinType::Unknown);
            }
            return Some(RemoteHardwarePinType::Unknown);
        }
        if value == 1 {
            proof {
                Self::lemma_with_value(value, RemoteHardwarePinType::DigitalRead);
            }
            return Some(RemoteHardwarePinType::DigitalRead);
        }
        if value == 2 {
            proof {
                Self::lemma_with_value(value, RemoteHardwarePinType::DigitalWrite);
            }
            return Some(RemoteHardwarePinType::DigitalWrite);
        }
        None
    }
}

impl Default for RemoteHardwarePinType {
    /// The variant numbered 0, the default value of the field in ProtoBuf.
    fn default() -> (r: Self)
        ensures
            r == Self::default_variant(),
            r.value() == 0,
    {
        RemoteHardwarePinType::Unknown
    }
}

impl From<RemoteHardwarePinType> for i32 {
    fn from(value: RemoteHardwarePinType) -> (r: i32) {
        match value {
            RemoteHardwarePinType::Unknown => 0,
            RemoteHardwarePinType::DigitalRead => 1,
            RemoteHardwarePinType::DigitalWrite => 2,
        }
    }
}

impl TryFrom<i32> for RemoteHardwarePinType {
    type Error = prost::UnknownEnumValue;

    fn try_from(value: i32) -> (r: Result<RemoteHardwarePinType, prost::UnknownEnumValue>)
        ensures
            r matches Ok(e) ==> e.value() == value,
            (exists|e: RemoteHardwarePinType| #[trigger] e.value() == value) ==> r is Ok,
            r is Err ==> r == Err::<RemoteHardwarePinType, prost::UnknownEnumValue>(crate::enum_error::unknown_enum_value(value)),
    {
        proof {
            if exists|e: RemoteHardwarePinType| #[trigger] e.value() == value {
                let e = choose|e: RemoteHardwarePinType| #[trigger] e.value() == value;
                RemoteHardwarePinType::lemma_with_value(value, e);
            }
        }
        match RemoteHardwarePinType::from_i32(value) {
            Some(e) => Ok(e),
            None => Err(make_unknown_enum_value(value)),
        }
    }
}

impl vstd::std_specs::convert::TryFromSpecImpl<i32> for RemoteHardwarePinType {
    open spec fn obeys_try_from_spec() -> bool {
        true
    }

    open spec fn try_from_spec(value: i32) -> Result<RemoteHardwarePinType, prost::UnknownEnumValue> {
        match RemoteHardwarePinType::with_value(value) {
            Some(e) => Ok(e),
            None => Err(crate::enum_error::unknown_enum_value(value)),
        }
    }
}

impl vstd::std_specs::convert::FromSpecImpl<RemoteHardwarePinType> for i32 {
    open spec fn obeys_from_spec() -> bool {
        true
    }

    open spec fn from_spec(value: RemoteHardwarePinType) -> i32 {
        value.value()
    }
}

} // verus!
