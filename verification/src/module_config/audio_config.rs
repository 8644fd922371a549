//! Nested message and enum types in `AudioConfig`.

use vstd::prelude::*;
use crate::enum_error::make_unknown_enum_value;
use crate::text::str_eq;

verus! {

/// Baudrate for codec2 voice
#[derive(Clone, Copy, Debug, PartialEq, Eq, Hash, PartialOrd, Ord)]
pub enum AudioBaud {
    Codec2Default,
    Codec23200,
    Codec22400,
    Codec21600,
    Codec21400,
    Codec21300,
    Codec21200,
    Codec2700,
    Codec2700b,
}

impl AudioBaud {
    /// The name of this variant in the ProtoBuf definition.
    pub open spec fn str_name(self) -> Seq<char> {
        match self {
            AudioBaud::Codec2Default => "CODEC2_DEFAULT"@,
            AudioBaud::Codec23200 => "CODEC2_3200"@,
            AudioBaud::Codec22400 => "CODEC2_2400"@,
            AudioBaud::Codec21600 => "CODEC2_1600"@,
            AudioBaud::Codec21400 => "CODEC2_1400"@,
            AudioBaud::Codec21300 => "CODEC2_1300"@,
            AudioBaud::Codec21200 => "CODEC2_1200"@,
            AudioBaud::Codec2700 => "CODEC2_700"@,
            AudioBaud::Codec2700b => "CODEC2_700B"@,
        }
    }

    /// The number of this variant in the ProtoBuf definition.
    pub open spec fn value(self) -> i32 {
        match self {
            AudioBaud::Codec2Default => 0,
            AudioBaud::Codec23200 => 1,
            AudioBaud::Codec22400 => 2,
            AudioBaud::Codec21600 => 3,
            AudioBaud::Codec21400 => 4,
            AudioBaud::Codec21300 => 5,
            AudioBaud::Codec21200 => 6,
            AudioBaud::Codec2700 => 7,
            AudioBaud::Codec2700b => 8,
        }
    }

    /// The variant numbered 0, which a field holds when it is not set.
    pub open spec fn default_variant() -> Self {
        AudioBaud::Codec2Default
    }

    /// The variant numbered `value`, or the default variant when no variant has that number:
    /// what a message field holding `value` reads as.
    pub open spec fn from_number_or_default(value: i32) -> Self {
        match Self::with_value(value) {
            Some(e) => e,
            None => Self::default_variant(),
        }
    }

    /// The variant whose ProtoBuf name is `name`, if there is one.
    pub open spec fn named(name: Seq<char>) -> Option<Self> {
        if exists|e: Self| #[trigger] e.str_name() == name {
            Some(choose|e: Self| #[trigger] e.str_name() == name)
        } else {
            None
        }
    }

    /// The variant whose ProtoBuf number is `value`, if there is one.
    pub open spec fn with_value(value: i32) -> Option<Self> {
        if exists|e: Self| #[trigger] e.value() == value {
            Some(choose|e: Self| #[trigger] e.value() == value)
        } else {
            None
        }
    }

    spec fn name_lookup(name: Seq<char>) -> Option<Self> {
        if name == "CODEC2_DEFAULT"@ {
            Some(AudioBaud::Codec2Default)
        } else if name == "CODEC2_3200"@ {
            Some(AudioBaud::Codec23200)
        } else if name == "CODEC2_2400"@ {
            Some(AudioBaud::Codec22400)
        } else if name == "CODEC2_1600"@ {
            Some(AudioBaud::Codec21600)
        } else if name == "CODEC2_1400"@ {
            Some(AudioBaud::Codec21400)
        } else if name == "CODEC2_1300"@ {
            Some(AudioBaud::Codec21300)
        } else if name == "CODEC2_1200"@ {
            Some(AudioBaud::Codec21200)
        } else if name == "CODEC2_700"@ {
            Some(AudioBaud::Codec2700)
        } else if name == "CODEC2_700B"@ {
            Some(AudioBaud::Codec2700b)
        } else {
            None
        }
    }

    spec fn value_lookup(value: i32) -> Option<Self> {
        if value == 0 {
            Some(AudioBaud::Codec2Default)
        } else if value == 1 {
            Some(AudioBaud::Codec23200)
        } else if value == 2 {
            Some(AudioBaud::Codec22400)
        } else if value == 3 {
            Some(AudioBaud::Codec21600)
        } else if value == 4 {
            Some(AudioBaud::Codec21400)
        } else if value == 5 {
            Some(AudioBaud::Codec21300)
        } else if value == 6 {
            Some(AudioBaud::Codec21200)
        } else if value == 7 {
            Some(AudioBaud::Codec2700)
        } else if value == 8 {
            Some(AudioBaud::Codec2700b)
        } else {
            None
        }
    }

    proof fn lemma_lookups()
        ensures
            forall|e: Self| #[trigger] Self::name_lookup(e.str_name()) == Some(e),
            forall|e: Self| #[trigger] Self::value_lookup(e.value()) == Some(e),
    {
        reveal_strlit("CODEC2_DEFAULT");
        assert("CODEC2_DEFAULT"@.len() == 14);
        reveal_strlit("CODEC2_3200");
        assert("CODEC2_3200"@.len() == 11);
        assert("CODEC2_3200"@[7] == '3');
        reveal_strlit("CODEC2_2400");
        assert("CODEC2_2400"@.len() == 11);
        assert("CODEC2_2400"@[7] == '2');
        reveal_strlit("CODEC2_1600");
        assert("CODEC2_1600"@.len() == 11);
        assert("CODEC2_1600"@[7] == '1');
        assert("CODEC2_1600"@[8] == '6');
        reveal_strlit("CODEC2_1400");
        assert("CODEC2_1400"@.len() == 11);
        assert("CODEC2_1400"@[7] == '1');
        assert("CODEC2_1400"@[8] == '4');
        reveal_strlit("CODEC2_1300");
        assert("CODEC2_1300"@.len() == 11);
        assert("CODEC2_1300"@[7] == '1');
        assert("CODEC2_1300"@[8] == '3');
        reveal_strlit("CODEC2_1200");
        assert("CODEC2_1200"@.len() == 11);
        assert("CODEC2_1200"@[7] == '1');
        assert("CODEC2_1200"@[8] == '2');
        reveal_strlit("CODEC2_700");
        assert("CODEC2_700"@.len() == 10);
        reveal_strlit("CODEC2_700B");
        assert("CODEC2_700B"@.len() == 11);
        assert("CODEC2_700B"@[7] == '7');
    }

    /// Distinct variants have distinct ProtoBuf names and distinct ProtoBuf numbers.
    pub proof fn lemma_injective(a: Self, b: Self)
        ensures
            a.str_name() == b.str_name() ==> a == b,
            a.value() == b.value() ==> a == b,
    {
        Self::lemma_lookups();
        assert(Self::name_lookup(a.str_name()) == Some(a));
        assert(Self::name_lookup(b.str_name()) == Some(b));
        assert(Self::value_lookup(a.value()) == Some(a));
        assert(Self::value_lookup(b.value()) == Some(b));
    }

    /// A name denotes a variant exactly when it is that variant's ProtoBuf name:
    /// `from_str_name` undoes `as_str_name`, and accepts nothing else.
    pub proof fn lemma_named(name: Seq<char>, e: Self)
        ensures
            Self::named(name) == Some(e) <==> e.str_name() == name,
    {
        if e.str_name() == name {
            let x = choose|x: Self| #[trigger] x.str_name() == name;
            Self::lemma_injective(x, e);
        }
    }

    /// A number denotes a variant exactly when it is that variant's ProtoBuf number:
    /// `from_i32` undoes the conversion to `i32`, and accepts nothing else.
    pub proof fn lemma_with_value(value: i32, e: Self)
        ensures
            Self::with_value(value) == Some(e) <==> e.value() == value,
    {
        if e.value() == value {
            let x = choose|x: Self| #[trigger] x.value() == value;
            Self::lemma_injective(x, e);
        }
    }

    /// What a field holding `value` reads as: the variant numbered `value` when some variant
    /// has that number, and otherwise the variant numbered 0.
    pub proof fn lemma_number_or_default(value: i32)
        ensures
            (exists|e: Self| #[trigger] e.value() == value) ==> Self::from_number_or_default(value).value() == value,
            (forall|e: Self| #[trigger] e.value() != value) ==> Self::from_number_or_default(value).value() == 0,
            (forall|e: Self| #[trigger] e.value() != value) ==> Self::from_number_or_default(value) == Self::default_variant(),
            Self::default_variant().value() == 0,
    {
        if exists|e: Self| #[trigger] e.value() == value {
            let e = choose|e: Self| #[trigger] e.value() == value;
            Self::lemma_with_value(value, e);
        }
    }

    /// `try_from` accepts exactly the numbers that variants have and gives back the variant with
    /// that number; every other number it rejects with the error that records that number.
    pub proof fn lemma_try_from(value: i32, e: Self)
        ensures
            (<Self as vstd::std_specs::convert::TryFromSpec<i32>>::try_from_spec(value) == Ok::<Self, prost::UnknownEnumValue>(e)) <==> e.value() == value,
            (forall|x: Self| #[trigger] x.value() != value) ==> <Self as vstd::std_specs::convert::TryFromSpec<i32>>::try_from_spec(value) == Err::<Self, prost::UnknownEnumValue>(crate::enum_error::unknown_enum_value(value)),
            (exists|x: Self| #[trigger] x.value() == value) ==> <Self as vstd::std_specs::convert::TryFromSpec<i32>>::try_from_spec(value) is Ok,
    {
        Self::lemma_with_value(value, e);
        if exists|x: Self| #[trigger] x.value() == value {
            let x = choose|x: Self| #[trigger] x.value() == value;
            Self::lemma_with_value(value, x);
        }
    }

    /// Reading back the number of a variant gives that variant: a field set to `e` reads as `e`.
    pub proof fn lemma_read_after_write(e: Self)
        ensures
            Self::from_number_or_default(e.value()) == e,
    {
        Self::lemma_with_value(e.value(), e);
    }

    /// String value of the enum field names used in the ProtoBuf definition.
    ///
    /// The values are not transformed in any way and thus are considered stable
    /// (if the ProtoBuf definition does not change) and safe for programmatic use.
    pub fn as_str_name(&self) -> (name: &'static str)
        ensures
            name@ == self.str_name(),
    {
        match self {
            AudioBaud::Codec2Default => "CODEC2_DEFAULT",
            AudioBaud::Codec23200 => "CODEC2_3200",
            AudioBaud::Codec22400 => "CODEC2_2400",
            AudioBaud::Codec21600 => "CODEC2_1600",
            AudioBaud::Codec21400 => "CODEC2_1400",
            AudioBaud::Codec21300 => "CODEC2_1300",
            AudioBaud::Codec21200 => "CODEC2_1200",
            AudioBaud::Codec2700 => "CODEC2_700",
            AudioBaud::Codec2700b => "CODEC2_700B",
        }
    }

    /// Creates an enum from field names used in the ProtoBuf definition.
    pub fn from_str_name(value: &str) -> (r: Option<Self>)
        ensures
            r == Self::named(value@),
    {
        if str_eq(value, "CODEC2_DEFAULT") {
            proof {
                Self::lemma_named(value@, AudioBaud::Codec2Default);
            }
            return Some(AudioBaud::Codec2Default);
        }
        if str_eq(value, "CODEC2_3200") {
            proof {
                Self::lemma_named(value@, AudioBaud::Codec23200);
            }
            return Some(AudioBaud::Codec23200);
        }
        if str_eq(value, "CODEC2_2400") {
            proof {
                Self::lemma_named(value@, AudioBaud::Codec22400);
            }
            return Some(AudioBaud::Codec22400);
        }
        if str_eq(value, "CODEC2_1600") {
            proof {
                Self::lemma_named(value@, AudioBaud::Codec21600);
            }
            return Some(AudioBaud::Codec21600);
        }
        if str_eq(value, "CODEC2_1400") {
            proof {
                Self::lemma_named(value@, AudioBaud::Codec21400);
            }
            return Some(AudioBaud::Codec21400);
        }
        if str_eq(value, "CODEC2_1300") {
            proof {
                Self::lemma_named(value@, AudioBaud::Codec21300);
            }
            return Some(AudioBaud::Codec21300);
        }
        if str_eq(value, "CODEC2_1200") {
            proof {
                Self::lemma_named(value@, AudioBaud::Codec21200);
            }
            return Some(AudioBaud::Codec21200);
        }
        if str_eq(value, "CODEC2_700") {
            proof {
                Self::lemma_named(value@, AudioBaud::Codec2700);
            }
            return Some(AudioBaud::Codec2700);
        }
        if str_eq(value, "CODEC2_700B") {
            proof {
                Self::lemma_named(value@, AudioBaud::Codec2700b);
            }
            return Some(AudioBaud::Codec2700b);
        }
        None
    }

    /// Returns `true` if `value` is a variant of `AudioBaud`.
    pub fn is_valid(value: i32) -> (r: bool)
        ensures
            r == (Self::with_value(value) is Some),
    {
        Self::from_i32(value).is_some()
    }

    /// Converts an `i32` to a `AudioBaud`, or `None` if `value` is not a valid variant.
    pub fn from_i32(value: i32) -> (r: Option<Self>)
        ensures
            r == Self::with_value(value),
    {
        if value == 0 {
            proof {
                Self::lemma_with_value(value, AudioBaud::Codec2Default);
            }
            return Some(AudioBaud::Codec2Default);
        }
        if value == 1 {
            proof {
                Self::lemma_with_value(value, AudioBaud::Codec23200);
            }
            return Some(AudioBaud::Codec23200);
        }
        if value == 2 {
            proof {
                Self::lemma_with_value(value, AudioBaud::Codec22400);
            }
            return Some(AudioBaud::Codec22400);
        }
        if value == 3 {
            proof {
                Self::lemma_with_value(value, AudioBaud::Codec21600);
            }
            return Some(AudioBaud::Codec21600);
        }
        if value == 4 {
            proof {
                Self::lemma_with_value(value, AudioBaud::Codec21400);
            }
            return Some(AudioBaud::Codec21400);
        }
        if value == 5 {
            proof {
                Self::lemma_with_value(value, AudioBaud::Codec21300);
            }
            return Some(AudioBaud::Codec21300);
        }
        if value == 6 {
            proof {
                Self::lemma_with_value(value, AudioBaud::Codec21200);
            }
            return Some(AudioBaud::Codec21200);
        }
        if value == 7 {
            proof {
                Self::lemma_with_value(value, AudioBaud::Codec2700);
            }
            return Some(AudioBaud::Codec2700);
        }
        if value == 8 {
            proof {
                Self::lemma_with_value(value, AudioBaud::Codec2700b);
            }
            return Some(AudioBaud::Codec2700b);
        }
        None
    }
}

impl Default for AudioBaud {
    /// The variant numbered 0, the default value of the field in ProtoBuf.
    fn default() -> (r: Self)
        ensures
            r == Self::default_variant(),
            r.value() == 0,
    {
        AudioBaud::Codec2Default
    }
}

impl From<AudioBaud> for i32 {
    fn from(value: AudioBaud) -> (r: i32) {
        match value {
            AudioBaud::Codec2Default => 0,
            AudioBaud::Codec23200 => 1,
            AudioBaud::Codec22400 => 2,
            AudioBaud::Codec21600 => 3,
            AudioBaud::Codec21400 => 4,
            AudioBaud::Codec21300 => 5,
            AudioBaud::Codec21200 => 6,
            AudioBaud::Codec2700 => 7,
            AudioBaud::Codec2700b => 8,
        }
    }
}

impl TryFrom<i32> for AudioBaud {
    type Error = prost::UnknownEnumValue;

    fn try_from(value: i32) -> (r: Result<AudioBaud, prost::UnknownEnumValue>)
        ensures
            r matches Ok(e) ==> e.value() == value,
            (exists|e: AudioBaud| #[trigger] e.value() == value) ==> r is Ok,
            r is Err ==> r == Err::<AudioBaud, prost::UnknownEnumValue>(crate::enum_error::unknown_enum_value(value)),
    {
        proof {
            if exists|e: AudioBaud| #[trigger] e.value() == value {
                let e = choose|e: AudioBaud| #[trigger] e.value() == value;
                AudioBaud::lemma_with_value(value, e);
            }
        }
        match AudioBaud::from_i32(value) {
            Some(e) => Ok(e),
            None => Err(make_unknown_enum_value(value)),
        }
    }
}

impl vstd::std_specs::convert::TryFromSpecImpl<i32> for AudioBaud {
    open spec fn obeys_try_from_spec() -> bool {
        true
    }

    open spec fn try_from_spec(value: i32) -> Result<AudioBaud, prost::UnknownEnumValue> {
        match AudioBaud::with_value(value) {
            Some(e) => Ok(e),
            None => Err(crate::enum_error::unknown_enum_value(value)),
        }
    }
}

impl vstd::std_specs::convert::FromSpecImpl<AudioBaud> for i32 {
    open spec fn obeys_from_spec() -> bool {
        true
    }

    open spec fn from_spec(value: AudioBaud) -> i32 {
        value.value()
    }
}

} // verus!
