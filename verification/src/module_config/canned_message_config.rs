//! Nested message and enum types in `CannedMessageConfig`.

use vstd::prelude::*;
use crate::enum_error::make_unknown_enum_value;
use crate::text::str_eq;

verus! {

#[derive(Clone, Copy, Debug, PartialEq, Eq, Hash, PartialOrd, Ord)]
pub enum InputEventChar {
    NoneValue,
    /// '\n'
    Select,
    Up,
    Down,
    Left,
    Right,
    Cancel,
    Back,
}

impl InputEventChar {
    /// The name of this variant in the ProtoBuf definition.
    pub open spec fn str_name(self) -> Seq<char> {
        match self {
            InputEventChar::NoneValue => "NONE"@,
            InputEventChar::Select => "SELECT"@,
            InputEventChar::Up => "UP"@,
            InputEventChar::Down => "DOWN"@,
            InputEventChar::Left => "LEFT"@,
            InputEventChar::Right => "RIGHT"@,
            InputEventChar::Cancel => "CANCEL"@,
            InputEventChar::Back => "BACK"@,
        }
    }

    /// The number of this variant in the ProtoBuf definition.
    pub open spec fn value(self) -> i32 {
        match self {
            InputEventChar::NoneValue => 0,
            InputEventChar::Select => 10,
            InputEventChar::Up => 17,
            InputEventChar::Down => 18,
            InputEventChar::Left => 19,
            InputEventChar::Right => 20,
            InputEventChar::Cancel => 24,
            InputEventChar::Back => 27,
        }
    }

    /// The variant numbered 0, which a field holds when it is not set.
    pub open spec fn default_variant() -> Self {
        InputEventChar::NoneValue
    }

    /// The variant numbered `value`, or the default variant when no variant has that number:
    /// what a message field holding `value` reads as.
    pub open spec fn from_number_or_default(value: i32) -> Self {
        match Self::with_value(value) {
            Some(e) => e,
            None => Self::default_variant(),
        }
    }

    /// The variant whose ProtoBuf name is `name`, if there is one.
    pub open spec fn named(name: Seq<char>) -> Option<Self> {
        if exists|e: Self| #[trigger] e.str_name() == name {
            Some(choose|e: Self| #[trigger] e.str_name() == name)
        } else {
            None
        }
    }

    /// The variant whose ProtoBuf number is `value`, if there is one.
    pub open spec fn with_value(value: i32) -> Option<Self> {
        if exists|e: Self| #[trigger] e.value() == value {
            Some(choose|e: Self| #[trigger] e.value() == value)
        } else {
            None
        }
    }

    spec fn name_lookup(name: Seq<char>) -> Option<Self> {
        if name == "NONE"@ {
            Some(InputEventChar::NoneValue)
        } else if name == "SELECT"@ {
            Some(InputEventChar::Select)
        } else if name == "UP"@ {
            Some(InputEventChar::Up)
        } else if name == "DOWN"@ {
            Some(InputEventChar::Down)
        } else if name == "LEFT"@ {
            Some(InputEventChar::Left)
        } else if name == "RIGHT"@ {
            Some(InputEventChar::Right)
        } else if name == "CANCEL"@ {
            Some(InputEventChar::Cancel)
        } else if name == "BACK"@ {
            Some(InputEventChar::Back)
        } else {
            None
        }
    }

    spec fn value_lookup(value: i32) -> Option<Self> {
        if value == 0 {
            Some(InputEventChar::NoneValue)
        } else if value == 10 {
            Some(InputEventChar::Select)
        } else if value == 17 {
            Some(InputEventChar::Up)
        } else if value == 18 {
            Some(InputEventChar::Down)
        } else if value == 19 {
            Some(InputEventChar::Left)
        } else if value == 20 {
            Some(InputEventChar::Right)
        } else if value == 24 {
            Some(InputEventChar::Cancel)
        } else if value == 27 {
            Some(InputEventChar::Back)
        } else {
            None
        }
    }

    proof fn lemma_lookups()
        ensures
            forall|e: Self| #[trigger] Self::name_lookup(e.str_name()) == Some(e),
            forall|e: Self| #[trigger] Self::value_lookup(e.value()) == Some(e),
    {
        reveal_strlit("NONE");
        assert("NONE"@.len() == 4);
        assert("NONE"@[0] == 'N');
        reveal_strlit("SELECT");
        assert("SELECT"@.len() == 6);
        assert("SELECT"@[0] == 'S');
        reveal_strlit("UP");
        assert("UP"@.len() == 2);
        reveal_strlit("DOWN");
        assert("DOWN"@.len() == 4);
        assert("DOWN"@[0] == 'D');
        reveal_strlit("LEFT");
        assert("LEFT"@.len() == 4);
        assert("LEFT"@[0] == 'L');
        reveal_strlit("RIGHT");
        assert("RIGHT"@.len() == 5);
        reveal_strlit("CANCEL");
        assert("CANCEL"@.len() == 6);
        assert("CANCEL"@[0] == 'C');
        reveal_strlit("BACK");
        assert("BACK"@.len() == 4);
        assert("BACK"@[0] == 'B');
    }

    /// Distinct variants have distinct ProtoBuf names and distinct ProtoBuf numbers.
    pub proof fn lemma_injective(a: Self, b: Self)
        ensures
            a.str_name() == b.str_name() ==> a == b,
            a.value() == b.value() ==> a == b,
    {
        Self::lemma_lookups();
        assert(Self::name_lookup(a.str_name()) == Some(a));
        assert(Self::name_lookup(b.str_name()) == Some(b));
        assert(Self::value_lookup(a.value()) == Some(a));
        assert(Self::value_lookup(b.value()) == Some(b));
    }

    /// A name denotes a variant exactly when it is that variant's ProtoBuf name:
    /// `from_str_name` undoes `as_str_name`, and accepts nothing else.
    pub proof fn lemma_named(name: Seq<char>, e: Self)
        ensures
            Self::named(name) == Some(e) <==> e.str_name() == name,
    {
        if e.str_name() == name {
            let x = choose|x: Self| #[trigger] x.str_name() == name;
            Self::lemma_injective(x, e);
        }
    }

    /// A number denotes a variant exactly when it is that variant's ProtoBuf number:
    /// `from_i32` undoes the conversion to `i32`, and accepts nothing else.
    pub proof fn lemma_with_value(value: i32, e: Self)
        ensures
            Self::with_value(value) == Some(e) <==> e.value() == value,
    {
        if e.value() == value {
            let x = choose|x: Self| #[trigger] x.value() == value;
            Self::lemma_injective(x, e);
        }
    }

    /// What a field holding `value` reads as: the variant numbered `value` when some variant
    /// has that number, and otherwise the variant numbered 0.
    pub proof fn lemma_number_or_default(value: i32)
        ensures
            (exists|e: Self| #[trigger] e.value() == value) ==> Self::from_number_or_default(value).value() == value,
            (forall|e: Self| #[trigger] e.value() != value) ==> Self::from_number_or_default(value).value() == 0,
            (forall|e: Self| #[trigger] e.value() != value) ==> Self::from_number_or_default(value) == Self::default_variant(),
            Self::default_variant().value() == 0,
    {
        if exists|e: Self| #[trigger] e.value() == value {
            let e = choose|e: Self| #[trigger] e.value() == value;
            Self::lemma_with_value(value, e);
        }
    }

    /// `try_from` accepts exactly the numbers that variants have and gives back the variant with
    /// that number; every other number it rejects with the error that records that number.
    pub proof fn lemma_try_from(value: i32, e: Self)
        ensures
            (<Self as vstd::std_specs::convert::TryFromSpec<i32>>::try_from_spec(value) == Ok::<Self, prost::UnknownEnumValue>(e)) <==> e.value() == value,
            (forall|x: Self| #[trigger] x.value() != value) ==> <Self as vstd::std_specs::convert::TryFromSpec<i32>>::try_from_spec(value) == Err::<Self, prost::UnknownEnumValue>(crate::enum_error::unknown_enum_value(value)),
            (exists|x: Self| #[trigger] x.value() == value) ==> <Self as vstd::std_specs::convert::TryFromSpec<i32>>::try_from_spec(value) is Ok,
    {
        Self::lemma_with_value(value, e);
        if exists|x: Self| #[trigger] x.value() == value {
            let x = choose|x: Self| #[trigger] x.value() == value;
            Self::lemma_with_value(value, x);
        }
    }

    /// Reading back the number of a variant gives that variant: a field set to `e` reads as `e`.
    pub proof fn lemma_read_after_write(e: Self)
        ensures
            Self::from_number_or_default(e.value()) == e,
    {
        Self::lemma_with_value(e.value(), e);
    }

    /// String value of the enum field names used in the ProtoBuf definition.
    ///
    /// The values are not transformed in any way and thus are considered stable
    /// (if the ProtoBuf definition does not change) and safe for programmatic use.
    pub fn as_str_name(&self) -> (name: &'static str)
        ensures
            name@ == self.str_name(),
    {
        match self {
            InputEventChar::NoneValue => "NONE",
            InputEventChar::Select => "SELECT",
            InputEventChar::Up => "UP",
            InputEventChar::Down => "DOWN",
            InputEventChar::Left => "LEFT",
            InputEventChar::Right => "RIGHT",
            InputEventChar::Cancel => "CANCEL",
            InputEventChar::Back => "BACK",
        }
    }

    /// Creates an enum from field names used in the ProtoBuf definition.
    pub fn from_str_name(value: &str) -> (r: Option<Self>)
        ensures
            r == Self::named(value@),
    {
        if str_eq(value, "NONE") {
            proof {
                Self::lemma_named(value@, InputEventChar::NoneValue);
            }
            return Some(InputEventChar::NoneValue);
        }
        if str_eq(value, "SELECT") {
            proof {
                Self::lemma_named(value@, InputEventChar::Select);
            }
            return Some(InputEventChar::Select);
        }
        if str_eq(value, "UP") {
            proof {
                Self::lemma_named(value@, InputEventChar::Up);
            }
            return Some(InputEventChar::Up);
        }
        if str_eq(value, "DOWN") {
            proof {
                Self::lemma_named(value@, InputEventChar::Down);
            }
            return Some(InputEventChar::Down);
        }
        if str_eq(value, "LEFT") {
            proof {
                Self::lemma_named(value@, InputEventChar::Left);
            }
            return Some(InputEventChar::Left);
        }
        if str_eq(value, "RIGHT") {
            proof {
                Self::lemma_named(value@, InputEventChar::Right);
            }
            return Some(InputEventChar::Right);
        }
        if str_eq(value, "CANCEL") {
            proof {
                Self::lemma_named(value@, InputEventChar::Cancel);
            }
            return Some(InputEventChar::Cancel);
        }
        if str_eq(value, "BACK") {
            proof {
                Self::lemma_named(value@, InputEventChar::Back);
            }
            return Some(InputEventChar::Back);
        }
        None
    }

    /// Returns `true` if `value` is a variant of `InputEventChar`.
    pub fn is_valid(value: i32) -> (r: bool)
        ensures
            r == (Self::with_value(value) is Some),
    {
        Self::from_i32(value).is_some()
    }

    /// Converts an `i32` to a `InputEventChar`, or `None` if `value` is not a valid variant.
    pub fn from_i32(value: i32) -> (r: Option<Self>)
        ensures
            r == Self::with_value(value),
    {
        if value == 0 {
            proof {
                Self::lemma_with_value(value, InputEventChar::NoneValue);
            }
            return Some(InputEventChar::NoneValue);
        }
        if value == 10 {
            proof {
                Self::lemma_with_value(value, InputEventChar::Select);
            }
            return Some(InputEventChar::Select);
        }
        if value == 17 {
            proof {
                Self::lemma_with_value(value, InputEventChar::Up);
            }
            return Some(InputEventChar::Up);
        }
        if value == 18 {
            proof {
                Self::lemma_with_value(value, InputEventChar::Down);
            }
            return Some(InputEventChar::Down);
        }
        if value == 19 {
            proof {
                Self::lemma_with_value(value, InputEventChar::Left);
            }
            return Some(InputEventChar::Left);
        }
        if value == 20 {
            proof {
                Self::lemma_with_value(value, InputEventChar::Right);
            }
            return Some(InputEventChar::Right);
        }
        if value == 24 {
            proof {
                Self::lemma_with_value(value, InputEventChar::Cancel);
            }
            return Some(InputEventChar::Cancel);
        }
        if value == 27 {
            proof {
                Self::lemma_with_value(value, InputEventChar::Back);
            }
            return Some(InputEventChar::Back);
        }
        None
    }
}

impl Default for InputEventChar {
    /// The variant numbered 0, the default value of the field in ProtoBuf.
    fn default() -> (r: Self)
        ensures
            r == Self::default_variant(),
            r.value() == 0,
    {
        InputEventChar::NoneValue
    }
}

impl From<InputEventChar> for i32 {
    fn from(value: InputEventChar) -> (r: i32) {
        match value {
            InputEventChar::NoneValue => 0,
            InputEventChar::Select => 10,
            InputEventChar::Up => 17,
            InputEventChar::Down => 18,
            InputEventChar::Left => 19,
            InputEventChar::Right => 20,
            InputEventChar::Cancel => 24,
            InputEventChar::Back => 27,
        }
    }
}

impl TryFrom<i32> for InputEventChar {
    type Error = prost::UnknownEnumValue;

    fn try_from(value: i32) -> (r: Result<InputEventChar, prost::UnknownEnumValue>)
        ensures
            r matches Ok(e) ==> e.value() == value,
            (exists|e: InputEventChar| #[trigger] e.value() == value) ==> r is Ok,
            r is Err ==> r == Err::<InputEventChar, prost::UnknownEnumValue>(crate::enum_error::unknown_enum_value(value)),
    {
        proof {
            if exists|e: InputEventChar| #[trigger] e.value() == value {
                let e = choose|e: InputEventChar| #[trigger] e.value() == value;
                InputEventChar::lemma_with_value(value, e);
            }
        }
        match InputEventChar::from_i32(value) {
            Some(e) => Ok(e),
            None => Err(make_unknown_enum_value(value)),
        }
    }
}

impl vstd::std_specs::convert::TryFromSpecImpl<i32> for InputEventChar {
    open spec fn obeys_try_from_spec() -> bool {
        true
    }

    open spec fn try_from_spec(value: i32) -> Result<InputEventChar, prost::UnknownEnumValue> {
        match InputEventChar::with_value(value) {
            Some(e) => Ok(e),
            None => Err(crate::enum_error::unknown_enum_value(value)),
        }
    }
}

impl vstd::std_specs::convert::FromSpecImpl<InputEventChar> for i32 {
    open spec fn obeys_from_spec() -> bool {
        true
    }

    open spec fn from_spec(value: InputEventChar) -> i32 {
        value.value()
    }
}

} // verus!
