//! Nested message and enum types in `XModem`.

use vstd::prelude::*;
use crate::enum_error::make_unknown_enum_value;
use crate::text::str_eq;

verus! {

#[derive(Clone, Copy, Debug, PartialEq, Eq, Hash, PartialOrd, Ord)]
pub enum Control {
    Nul,
    Soh,
    Stx,
    Eot,
    Ack,
    Nak,
    Can,
    Ctrlz,
}

impl Control {
    /// The name of this variant in the ProtoBuf definition.
    pub open spec fn str_name(self) -> Seq<char> {
        match self {
            Control::Nul => "NUL"@,
            Control::Soh => "SOH"@,
            Control::Stx => "STX"@,
            Control::Eot => "EOT"@,
            Control::Ack => "ACK"@,
            Control::Nak => "NAK"@,
            Control::Can => "CAN"@,
            Control::Ctrlz => "CTRLZ"@,
        }
    }

    /// The number of this variant in the ProtoBuf definition.
    pub open spec fn value(self) -> i32 {
        match self {
            Control::Nul => 0,
            Control::Soh => 1,
            Control::Stx => 2,
            Control::Eot => 4,
            Control::Ack => 6,
            Control::Nak => 21,
            Control::Can => 24,
            Control::Ctrlz => 26,
        }
    }

    /// The variant numbered 0, which a field holds when it is not set.
    pub open spec fn default_variant() -> Self {
        Control::Nul
    }

    /// The variant numbered `value`, or the default variant when no variant has that number:
    /// what a message field holding `value` reads as.
    pub open spec fn from_number_or_default(value: i32) -> Self {
        match Self::with_value(value) {
            Some(e) => e,
            None => Self::default_variant(),
        }
    }

    /// The variant whose ProtoBuf name is `name`, if there is one.
    pub open spec fn named(name: Seq<char>) -> Option<Self> {
        if exists|e: Self| #[trigger] e.str_name() == name {
            Some(choose|e: Self| #[trigger] e.str_name() == name)
        } else {
            None
        }
    }

    /// The variant whose ProtoBuf number is `value`, if there is one.
    pub open spec fn with_value(value: i32) -> Option<Self> {
        if exists|e: Self| #[trigger] e.value() == value {
            Some(choose|e: Self| #[trigger] e.value() == value)
        } else {
            None
        }
    }

    spec fn name_lookup(name: Seq<char>) -> Option<Self> {
        if name == "NUL"@ {
            Some(Control::Nul)
        } else if name == "SOH"@ {
            Some(Control::Soh)
        } else if name == "STX"@ {
            Some(Control::Stx)
        } else if name == "EOT"@ {
            Some(Control::Eot)
        } else if name == "ACK"@ {
            Some(Control::Ack)
        } else if name == "NAK"@ {
            Some(Control::Nak)
        } else if name == "CAN"@ {
            Some(Control::Can)
        } else if name == "CTRLZ"@ {
            Some(Control::Ctrlz)
        } else {
            None
        }
    }

    spec fn value_lookup(value: i32) -> Option<Self> {
        if value == 0 {
            Some(Control::Nul)
        } else if value == 1 {
            Some(Control::Soh)
        } else if value == 2 {
            Some(Control::Stx)
        } else if value == 4 {
            Some(Control::Eot)
        } else if value == 6 {
            Some(Control::Ack)
        } else if value == 21 {
            Some(Control::Nak)
        } else if value == 24 {
            Some(Control::Can)
        } else if value == 26 {
            Some(Control::Ctrlz)
        } else {
            None
        }
    }

    proof fn lemma_lookups()
        ensures
            forall|e: Self| #[trigger] Self::name_lookup(e.str_name()) == Some(e),
            forall|e: Self| #[trigger] Self::value_lookup(e.value()) == Some(e),
    {
        reveal_strlit("NUL");
        assert("NUL"@.len() == 3);
        assert("NUL"@[0] == 'N');
        assert("NUL"@[1] == 'U');
        reveal_strlit("SOH");
        assert("SOH"@.len() == 3);
        assert("SOH"@[0] == 'S');
        assert("SOH"@[1] == 'O');
        reveal_strlit("STX");
        assert("STX"@.len() == 3);
        assert("STX"@[0] == 'S');
        assert("STX"@[1] == 'T');
        reveal_strlit("EOT");
        assert("EOT"@.len() == 3);
        assert("EOT"@[0] == 'E');
        reveal_strlit("ACK");
        assert("ACK"@.len() == 3);
        assert("ACK"@[0] == 'A');
        reveal_strlit("NAK");
        assert("NAK"@.len() == 3);
        assert("NAK"@[0] == 'N');
        assert("NAK"@[1] == 'A');
        reveal_strlit("CAN");
        assert("CAN"@.len() == 3);
        assert("CAN"@[0] == 'C');
        reveal_strlit("CTRLZ");
        assert("CTRLZ"@.len() == 5);
    }

    /// Distinct variants have distinct ProtoBuf names and distinct ProtoBuf numbers.
    pub proof fn lemma_injective(a: Self, b: Self)
        ensures
            a.str_name() == b.str_name() ==> a == b,
            a.value() == b.value() ==> a == b,
    {
        Self::lemma_lookups();
        assert(Self::name_lookup(a.str_name()) == Some(a));
        assert(Self::name_lookup(b.str_name()) == Some(b));
        assert(Self::value_lookup(a.value()) == Some(a));
        assert(Self::value_lookup(b.value()) == Some(b));
    }

    /// A name denotes a variant exactly when it is that variant's ProtoBuf name:
    /// `from_str_name` undoes `as_str_name`, and accepts nothing else.
    pub proof fn lemma_named(name: Seq<char>, e: Self)
        ensures
            Self::named(name) == Some(e) <==> e.str_name() == name,
    {
        if e.str_name() == name {
            let x = choose|x: Self| #[trigger] x.str_name() == name;
            Self::lemma_injective(x, e);
        }
    }

    /// A number denotes a variant exactly when it is that variant's ProtoBuf number:
    /// `from_i32` undoes the conversion to `i32`, and accepts nothing else.
    pub proof fn lemma_with_value(value: i32, e: Self)
        ensures
            Self::with_value(value) == Some(e) <==> e.value() == value,
    {
        if e.value() == value {
            let x = choose|x: Self| #[trigger] x.value() == value;
            Self::lemma_injective(x, e);
        }
    }

    /// What a field holding `value` reads as: the variant numbered `value` when some variant
    /// has that number, and otherwise the variant numbered 0.
    pub proof fn lemma_number_or_default(value: i32)
        ensures
            (exists|e: Self| #[trigger] e.value() == value) ==> Self::from_number_or_default(value).value() == value,
            (forall|e: Self| #[trigger] e.value() != value) ==> Self::from_number_or_default(value).value() == 0,
            (forall|e: Self| #[trigger] e.value() != value) ==> Self::from_number_or_default(value) == Self::default_variant(),
            Self::default_variant().value() == 0,
    {
        if exists|e: Self| #[trigger] e.value() == value {
            let e = choose|e: Self| #[trigger] e.value() == value;
            Self::lemma_with_value(value, e);
        }
    }

    /// `try_from` accepts exactly the numbers that variants have and gives back the variant with
    /// that number; every other number it rejects with the error that records that number.
    pub proof fn lemma_try_from(value: i32, e: Self)
        ensures
            (<Self as vstd::std_specs::convert::TryFromSpec<i32>>::try_from_spec(value) == Ok::<Self, prost::UnknownEnumValue>(e)) <==> e.value() == value,
            (forall|x: Self| #[trigger] x.value() != value) ==> <Self as vstd::std_specs::convert::TryFromSpec<i32>>::try_from_spec(value) == Err::<Self, prost::UnknownEnumValue>(crate::enum_error::unknown_enum_value(value)),
            (exists|x: Self| #[trigger] x.value() == value) ==> <Self as vstd::std_specs::convert::TryFromSpec<i32>>::try_from_spec(value) is Ok,
    {
        Self::lemma_with_value(value, e);
        if exists|x: Self| #[trigger] x.value() == value {
            let x = choose|x: Self| #[trigger] x.value() == value;
            Self::lemma_with_value(value, x);
        }
    }

    /// Reading back the number of a variant gives that variant: a field set to `e` reads as `e`.
    pub proof fn lemma_read_after_write(e: Self)
        ensures
            Self::from_number_or_default(e.value()) == e,
    {
        Self::lemma_with_value(e.value(), e);
    }

    /// String value of the enum field names used in the ProtoBuf definition.
    ///
    /// The values are not transformed in any way and thus are considered stable
    /// (if the ProtoBuf definition does not change) and safe for programmatic use.
    pub fn as_str_name(&self) -> (name: &'static str)
        ensures
            name@ == self.str_name(),
    {
        match self {
            Control::Nul => "NUL",
            Control::Soh => "SOH",
            Control::Stx => "STX",
            Control::Eot => "EOT",
            Control::Ack => "ACK",
            Control::Nak => "NAK",
            Control::Can => "CAN",
            Control::Ctrlz => "CTRLZ",
        }
    }

    /// Creates an enum from field names used in the ProtoBuf definition.
    pub fn from_str_name(value: &str) -> (r: Option<Self>)
        ensures
            r == Self::named(value@),
    {
        if str_eq(value, "NUL") {
            proof {
                Self::lemma_named(value@, Control::Nul);
            }
            return Some(Control::Nul);
        }
        if str_eq(value, "SOH") {
            proof {
                Self::lemma_named(value@, Control::Soh);
            }
            return Some(Control::Soh);
        }
        if str_eq(value, "STX") {
            proof {
                Self::lemma_named(value@, Control::Stx);
            }
            return Some(Control::Stx);
        }
        if str_eq(value, "EOT") {
            proof {
                Self::lemma_named(value@, Control::Eot);
            }
            return Some(Control::Eot);
        }
        if str_eq(value, "ACK") {
            proof {
                Self::lemma_named(value@, Control::Ack);
            }
            return Some(Control::Ack);
        }
        if str_eq(value, "NAK") {
            proof {
                Self::lemma_named(value@, Control::Nak);
            }
            return Some(Control::Nak);
        }
        if str_eq(value, "CAN") {
            proof {
                Self::lemma_named(value@, Control::Can);
            }
            return Some(Control::Can);
        }
        if str_eq(value, "CTRLZ") {
            proof {
                Self::lemma_named(value@, Control::Ctrlz);
            }
            return Some(Control::Ctrlz);
        }
        None
    }

    /// Returns `true` if `value` is a variant of `Control`.
    pub fn is_valid(value: i32) -> (r: bool)
        ensures
            r == (Self::with_value(value) is Some),
    {
        Self::from_i32(value).is_some()
    }

    /// Converts an `i32` to a `Control`, or `None` if `value` is not a valid variant.
    pub fn from_i32(value: i32) -> (r: Option<Self>)
        ensures
            r == Self::with_value(value),
    {
        if value == 0 {
            proof {
                Self::lemma_with_value(value, Control::Nul);
            }
            return Some(Control::Nul);
        }
        if value == 1 {
            proof {
                Self::lemma_with_value(value, Control::Soh);
            }
            return Some(Control::Soh);
        }
        if value == 2 {
            proof {
                Self::lemma_with_value(value, Control::Stx);
            }
            return Some(Control::Stx);
        }
        if value == 4 {
            proof {
                Self::lemma_with_value(value, Control::Eot);
            }
            return Some(Control::Eot);
        }
        if value == 6 {
            proof {
                Self::lemma_with_value(value, Control::Ack);
            }
            return Some(Control::Ack);
        }
        if value == 21 {
            proof {
                Self::lemma_with_value(value, Control::Nak);
            }
            return Some(Control::Nak);
        }
        if value == 24 {
            proof {
                Self::lemma_with_value(value, Control::Can);
            }
            return Some(Control::Can);
        }
        if value == 26 {
            proof {
                Self::lemma_with_value(value, Control::Ctrlz);
            }
            return Some(Control::Ctrlz);
        }
        None
    }
}

impl Default for Control {
    /// The variant numbered 0, the default value of the field in ProtoBuf.
    fn default() -> (r: Self)
        ensures
            r == Self::default_variant(),
            r.value() == 0,
    {
        Control::Nul
    }
}

impl From<Control> for i32 {
    fn from(value: Control) -> (r: i32) {
        match value {
            Control::Nul => 0,
            Control::Soh => 1,
            Control::Stx => 2,
            Control::Eot => 4,
            Control::Ack => 6,
            Control::Nak => 21,
            Control::Can => 24,
            Control::Ctrlz => 26,
        }
    }
}

impl TryFrom<i32> for Control {
    type Error = prost::UnknownEnumValue;

    fn try_from(value: i32) -> (r: Result<Control, prost::UnknownEnumValue>)
        ensures
            r matches Ok(e) ==> e.value() == value,
            (exists|e: Control| #[trigger] e.value() == value) ==> r is Ok,
            r is Err ==> r == Err::<Control, prost::UnknownEnumValue>(crate::enum_error::unknown_enum_value(value)),
    {
        proof {
            if exists|e: Control| #[trigger] e.value() == value {
                let e = choose|e: Control| #[trigger] e.value() == value;
                Control::lemma_with_value(value, e);
            }
        }
        match Control::from_i32(value) {
            Some(e) => Ok(e),
            None => Err(make_unknown_enum_value(value)),
        }
    }
}

impl vstd::std_specs::convert::TryFromSpecImpl<i32> for Control {
    open spec fn obeys_try_from_spec() -> bool {
        true
    }

    open spec fn try_from_spec(value: i32) -> Result<Control, prost::UnknownEnumValue> {
        match Control::with_value(value) {
            Some(e) => Ok(e),
            None => Err(crate::enum_error::unknown_enum_value(value)),
        }
    }
}

impl vstd::std_specs::convert::FromSpecImpl<Control> for i32 {
    open spec fn obeys_from_spec() -> bool {
        true
    }

    open spec fn from_spec(value: Control) -> i32 {
        value.value()
    }
}

} // verus!
