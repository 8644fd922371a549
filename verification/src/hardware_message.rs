//! Nested message and enum types in `HardwareMessage`.

use vstd::prelude::*;
use crate::enum_error::make_unknown_enum_value;
use crate::text::str_eq;

verus! {

#[derive(Clone, Copy, Debug, PartialEq, Eq, Hash, PartialOrd, Ord)]
pub enum Type {
    /// Unset/unused
    Unset,
    /// Set gpio gpios based on gpio_mask/gpio_value
    WriteGpios,
    /// We are now interested in watching the gpio_mask gpios.
    /// If the selected gpios change, please broadcast GPIOS_CHANGED.
    /// Will implicitly change the gpios requested to be INPUT gpios.
    WatchGpios,
    /// The gpios listed in gpio_mask have changed, the new values are listed in gpio_value
    GpiosChanged,
    /// Read the gpios specified in gpio_mask, send back a READ_GPIOS_REPLY reply with gpio_value populated
    ReadGpios,
    /// A reply to READ_GPIOS. gpio_mask and gpio_value will be populated
    ReadGpiosReply,
}

impl Type {
    /// The name of this variant in the ProtoBuf definition.
    pub open spec fn str_name(self) -> Seq<char> {
        match self {
            Type::Unset => "UNSET"@,
            Type::WriteGpios => "WRITE_GPIOS"@,
            Type::WatchGpios => "WATCH_GPIOS"@,
            Type::GpiosChanged => "GPIOS_CHANGED"@,
            Type::ReadGpios => "READ_GPIOS"@,
            Type::ReadGpiosReply => "READ_GPIOS_REPLY"@,
        }
    }

    /// The number of this variant in the ProtoBuf definition.
    pub open spec fn value(self) -> i32 {
        match self {
            Type::Unset => 0,
            Type::WriteGpios => 1,
            Type::WatchGpios => 2,
            Type::GpiosChanged => 3,
            Type::ReadGpios => 4,
            Type::ReadGpiosReply => 5,
        }
    }

    /// The variant numbered 0, which a field holds when it is not set.
    pub open spec fn default_variant() -> Self {
        Type::Unset
    }

    /// The variant numbered `value`, or the default variant when no variant has that number:
    /// what a message field holding `value` reads as.
    pub open spec fn from_number_or_default(value: i32) -> Self {
        match Self::with_value(value) {
            Some(e) => e,
            None => Self::default_variant(),
        }
    }

    /// The variant whose ProtoBuf name is `name`, if there is one.
    pub open spec fn named(name: Seq<char>) -> Option<Self> {
        if exists|e: Self| #[trigger] e.str_name() == name {
            Some(choose|e: Self| #[trigger] e.str_name() == name)
        } else {
            None
        }
    }

    /// The variant whose ProtoBuf number is `value`, if there is one.
    pub open spec fn with_value(value: i32) -> Option<Self> {
        if exists|e: Self| #[trigger] e.value() == value {
            Some(choose|e: Self| #[trigger] e.value() == value)
        } else {
            None
        }
    }

    spec fn name_lookup(name: Seq<char>) -> Option<Self> {
        if name == "UNSET"@ {
            Some(Type::Unset)
        } else if name == "WRITE_GPIOS"@ {
            Some(Type::WriteGpios)
        } else if name == "WATCH_GPIOS"@ {
            Some(Type::WatchGpios)
        } else if name == "GPIOS_CHANGED"@ {
            Some(Type::GpiosChanged)
        } else if name == "READ_GPIOS"@ {
            Some(Type::ReadGpios)
        } else if name == "READ_GPIOS_REPLY"@ {
            Some(Type::ReadGpiosReply)
        } else {
            None
        }
    }

    spec fn value_lookup(value: i32) -> Option<Self> {
        if value == 0 {
            Some(Type::Unset)
        } else if value == 1 {
            Some(Type::WriteGpios)
        } else if value == 2 {
            Some(Type::WatchGpios)
        } else if value == 3 {
            Some(Type::GpiosChanged)
        } else if value == 4 {
            Some(Type::ReadGpios)
        } else if value == 5 {
            Some(Type::ReadGpiosReply)
        } else {
            None
        }
    }

    proof fn lemma_lookups()
        ensures
            forall|e: Self| #[trigger] Self::name_lookup(e.str_name()) == Some(e),
            forall|e: Self| #[trigger] Self::value_lookup(e.value()) == Some(e),
    {
        reveal_strlit("UNSET");
        assert("UNSET"@.len() == 5);
        reveal_strlit("WRITE_GPIOS");
        assert("WRITE_GPIOS"@.len() == 11);
        assert("WRITE_GPIOS"@[1] == 'R');
        reveal_strlit("WATCH_GPIOS");
        assert("WATCH_GPIOS"@.len() == 11);
        assert("WATCH_GPIOS"@[1] == 'A');
        reveal_strlit("GPIOS_CHANGED");
        assert("GPIOS_CHANGED"@.len() == 13);
        reveal_strlit("READ_GPIOS");
        assert("READ_GPIOS"@.len() == 10);
        reveal_strlit("READ_GPIOS_REPLY");
        assert("READ_GPIOS_REPLY"@.len() == 16);
    }

    /// Distinct variants have distinct ProtoBuf names and distinct ProtoBuf numbers.
    pub proof fn lemma_injective(a: Self, b: Self)
        ensures
            a.str_name() == b.str_name() ==> a == b,
            a.value() == b.value() ==> a == b,
    {
        Self::lemma_lookups();
        assert(Self::name_lookup(a.str_name()) == Some(a));
        assert(Self::name_lookup(b.str_name()) == Some(b));
        assert(Self::value_lookup(a.value()) == Some(a));
        assert(Self::value_lookup(b.value()) == Some(b));
    }

    /// A name denotes a variant exactly when it is that variant's ProtoBuf name:
    /// `from_str_name` undoes `as_str_name`, and accepts nothing else.
    pub proof fn lemma_named(name: Seq<char>, e: Self)
        ensures
            Self::named(name) == Some(e) <==> e.str_name() == name,
    {
        if e.str_name() == name {
            let x = choose|x: Self| #[trigger] x.str_name() == name;
            Self::lemma_injective(x, e);
        }
    }

    /// A number denotes a variant exactly when it is that variant's ProtoBuf number:
    /// `from_i32` undoes the conversion to `i32`, and accepts nothing else.
    pub proof fn lemma_with_value(value: i32, e: Self)
        ensures
            Self::with_value(value) == Some(e) <==> e.value() == value,
    {
        if e.value() == value {
            let x = choose|x: Self| #[trigger] x.value() == value;
            Self::lemma_injective(x, e);
        }
    }

    /// What a field holding `value` reads as: the variant numbered `value` when some variant
    /// has that number, and otherwise the variant numbered 0.
    pub proof fn lemma_number_or_default(value: i32)
        ensures
            (exists|e: Self| #[trigger] e.value() == value) ==> Self::from_number_or_default(value).value() == value,
            (forall|e: Self| #[trigger] e.value() != value) ==> Self::from_number_or_default(value).value() == 0,
            (forall|e: Self| #[trigger] e.value() != value) ==> Self::from_number_or_default(value) == Self::default_variant(),
            Self::default_variant().value() == 0,
    {
        if exists|e: Self| #[trigger] e.value() == value {
            let e = choose|e: Self| #[trigger] e.value() == value;
            Self::lemma_with_value(value, e);
        }
    }

    /// `try_from` accepts exactly the numbers that variants have and gives back the variant with
    /// that number; every other number it rejects with the error that records that number.
    pub proof fn lemma_try_from(value: i32, e: Self)
        ensures
            (<Self as vstd::std_specs::convert::TryFromSpec<i32>>::try_from_spec(value) == Ok::<Self, prost::UnknownEnumValue>(e)) <==> e.value() == value,
            (forall|x: Self| #[trigger] x.value() != value) ==> <Self as vstd::std_specs::convert::TryFromSpec<i32>>::try_from_spec(value) == Err::<Self, prost::UnknownEnumValue>(crate::enum_error::unknown_enum_value(value)),
            (exists|x: Self| #[trigger] x.value() == value) ==> <Self as vstd::std_specs::convert::TryFromSpec<i32>>::try_from_spec(value) is Ok,
    {
        Self::lemma_with_value(value, e);
        if exists|x: Self| #[trigger] x.value() == value {
            let x = choose|x: Self| #[trigger] x.value() == value;
            Self::lemma_with_value(value, x);
        }
    }

    /// Reading back the number of a variant gives that variant: a field set to `e` reads as `e`.
    pub proof fn lemma_read_after_write(e: Self)
        ensures
            Self::from_number_or_default(e.value()) == e,
    {
        Self::lemma_with_value(e.value(), e);
    }

    /// String value of the enum field names used in the ProtoBuf definition.
    ///
    /// The values are not transformed in any way and thus are considered stable
    /// (if the ProtoBuf definition does not change) and safe for programmatic use.
    pub fn as_str_name(&self) -> (name: &'static str)
        ensures
            name@ == self.str_name(),
    {
        match self {
            Type::Unset => "UNSET",
            Type::WriteGpios => "WRITE_GPIOS",
            Type::WatchGpios => "WATCH_GPIOS",
            Type::GpiosChanged => "GPIOS_CHANGED",
            Type::ReadGpios => "READ_GPIOS",
            Type::ReadGpiosReply => "READ_GPIOS_REPLY",
        }
    }

    /// Creates an enum from field names used in the ProtoBuf definition.
    pub fn from_str_name(value: &str) -> (r: Option<Self>)
        ensures
            r == Self::named(value@),
    {
        if str_eq(value, "UNSET") {
            proof {
                Self::lemma_named(value@, Type::Unset);
            }
            return Some(Type::Unset);
        }
        if str_eq(value, "WRITE_GPIOS") {
            proof {
                Self::lemma_named(value@, Type::WriteGpios);
            }
            return Some(Type::WriteGpios);
        }
        if str_eq(value, "WATCH_GPIOS") {
            proof {
                Self::lemma_named(value@, Type::WatchGpios);
            }
            return Some(Type::WatchGpios);
        }
        if str_eq(value, "GPIOS_CHANGED") {
            proof {
                Self::lemma_named(value@, Type::GpiosChanged);
            }
            return Some(Type::GpiosChanged);
        }
        if str_eq(value, "READ_GPIOS") {
            proof {
                Self::lemma_named(value@, Type::ReadGpios);
            }
            return Some(Type::ReadGpios);
        }
        if str_eq(value, "READ_GPIOS_REPLY") {
            proof {
                Self::lemma_named(value@, Type::ReadGpiosReply);
            }
            return Some(Type::ReadGpiosReply);
        }
        None
    }

    /// Returns `true` if `value` is a variant of `Type`.
    pub fn is_valid(value: i32) -> (r: bool)
        ensures
            r == (Self::with_value(value) is Some),
    {
        Self::from_i32(value).is_some()
    }

    /// Converts an `i32` to a `Type`, or `None` if `value` is not a valid variant.
    pub fn from_i32(value: i32) -> (r: Option<Self>)
        ensures
            r == Self::with_value(value),
    {
        if value == 0 {
            proof {
                Self::lemma_with_value(value, Type::Unset);
            }
            return Some(Type::Unset);
        }
        if value == 1 {
            proof {
                Self::lemma_with_value(value, Type::WriteGpios);
            }
            return Some(Type::WriteGpios);
        }
        if value == 2 {
            proof {
                Self::lemma_with_value(value, Type::WatchGpios);
            }
            return Some(Type::WatchGpios);
        }
        if value == 3 {
            proof {
                Self::lemma_with_value(value, Type::GpiosChanged);
            }
            return Some(Type::GpiosChanged);
        }
        if value == 4 {
            proof {
                Self::lemma_with_value(value, Type::ReadGpios);
            }
            return Some(Type::ReadGpios);
        }
        if value == 5 {
            proof {
                Self::lemma_with_value(value, Type::ReadGpiosReply);
            }
            return Some(Type::ReadGpiosReply);
        }
        None
    }
}

impl Default for Type {
    /// The variant numbered 0, the default value of the field in ProtoBuf.
    fn default() -> (r: Self)
        ensures
            r == Self::default_variant(),
            r.value() == 0,
    {
        Type::Unset
    }
}

impl From<Type> for i32 {
    fn from(value: Type) -> (r: i32) {
        match value {
            Type::Unset => 0,
            Type::WriteGpios => 1,
            Type::WatchGpios => 2,
            Type::GpiosChanged => 3,
            Type::ReadGpios => 4,
            Type::ReadGpiosReply => 5,
        }
    }
}

impl TryFrom<i32> for Type {
    type Error = prost::UnknownEnumValue;

    fn try_from(value: i32) -> (r: Result<Type, prost::UnknownEnumValue>)
        ensures
            r matches Ok(e) ==> e.value() == value,
            (exists|e: Type| #[trigger] e.value() == value) ==> r is Ok,
            r is Err ==> r == Err::<Type, prost::UnknownEnumValue>(crate::enum_error::unknown_enum_value(value)),
    {
        proof {
            if exists|e: Type| #[trigger] e.value() == value {
                let e = choose|e: Type| #[trigger] e.value() == value;
                Type::lemma_with_value(value, e);
            }
        }
        match Type::from_i32(value) {
            Some(e) => Ok(e),
            None => Err(make_unknown_enum_value(value)),
        }
    }
}

impl vstd::std_specs::convert::TryFromSpecImpl<i32> for Type {
    open spec fn obeys_try_from_spec() -> bool {
        true
    }

    open spec fn try_from_spec(value: i32) -> Result<Type, prost::UnknownEnumValue> {
        match Type::with_value(value) {
            Some(e) => Ok(e),
            None => Err(crate::enum_error::unknown_enum_value(value)),
        }
    }
}

impl vstd::std_specs::convert::FromSpecImpl<Type> for i32 {
    open spec fn obeys_from_spec() -> bool {
        true
    }

    open spec fn from_spec(value: Type) -> i32 {
        value.value()
    }
}

} // verus!
