//! Nested message and enum types in `SerialConfig`.

use vstd::prelude::*;
use crate::enum_error::make_unknown_enum_value;
use crate::text::str_eq;

verus! {

#[derive(Clone, Copy, Debug, PartialEq, Eq, Hash, PartialOrd, Ord)]
pub enum SerialBaud {
    BaudDefault,
    Baud110,
    Baud300,
    Baud600,
    Baud1200,
    Baud2400,
    Baud4800,
    Baud9600,
    Baud19200,
    Baud38400,
    Baud57600,
    Baud115200,
    Baud230400,
    Baud460800,
    Baud576000,
    Baud921600,
}

impl SerialBaud {
    /// The name of this variant in the ProtoBuf definition.
    pub open spec fn str_name(self) -> Seq<char> {
        match self {
            SerialBaud::BaudDefault => "BAUD_DEFAULT"@,
            SerialBaud::Baud110 => "BAUD_110"@,
            SerialBaud::Baud300 => "BAUD_300"@,
            SerialBaud::Baud600 => "BAUD_600"@,
            SerialBaud::Baud1200 => "BAUD_1200"@,
            SerialBaud::Baud2400 => "BAUD_2400"@,
            SerialBaud::Baud4800 => "BAUD_4800"@,
            SerialBaud::Baud9600 => "BAUD_9600"@,
            SerialBaud::Baud19200 => "BAUD_19200"@,
            SerialBaud::Baud38400 => "BAUD_38400"@,
            SerialBaud::Baud57600 => "BAUD_57600"@,
            SerialBaud::Baud115200 => "BAUD_115200"@,
            SerialBaud::Baud230400 => "BAUD_230400"@,
            SerialBaud::Baud460800 => "BAUD_460800"@,
            SerialBaud::Baud576000 => "BAUD_576000"@,
            SerialBaud::Baud921600 => "BAUD_921600"@,
        }
    }

    /// The number of this variant in the ProtoBuf definition.
    pub open spec fn value(self) -> i32 {
        match self {
            SerialBaud::BaudDefault => 0,
            SerialBaud::Baud110 => 1,
            SerialBaud::Baud300 => 2,
            SerialBaud::Baud600 => 3,
            SerialBaud::Baud1200 => 4,
            SerialBaud::Baud2400 => 5,
            SerialBaud::Baud4800 => 6,
            SerialBaud::Baud9600 => 7,
            SerialBaud::Baud19200 => 8,
            SerialBaud::Baud38400 => 9,
            SerialBaud::Baud57600 => 10,
            SerialBaud::Baud115200 => 11,
            SerialBaud::Baud230400 => 12,
            SerialBaud::Baud460800 => 13,
            SerialBaud::Baud576000 => 14,
            SerialBaud::Baud921600 => 15,
        }
    }

    /// The variant numbered 0, which a field holds when it is not set.
    pub open spec fn default_variant() -> Self {
        SerialBaud::BaudDefault
    }

    /// The variant numbered `value`, or the default variant when no variant has that number:
    /// what a message field holding `value` reads as.
    pub open spec fn from_number_or_default(value: i32) -> Self {
        match Self::with_value(value) {
            Some(e) => e,
            None => Self::default_variant(),
        }
    }

    /// The variant whose ProtoBuf name is `name`, if there is one.
    pub open spec fn named(name: Seq<char>) -> Option<Self> {
        if exists|e: Self| #[trigger] e.str_name() == name {
            Some(choose|e: Self| #[trigger] e.str_name() == name)
        } else {
            None
        }
    }

    /// The variant whose ProtoBuf number is `value`, if there is one.
    pub open spec fn with_value(value: i32) -> Option<Self> {
        if exists|e: Self| #[trigger] e.value() == value {
            Some(choose|e: Self| #[trigger] e.value() == value)
        } else {
            None
        }
    }

    spec fn name_lookup(name: Seq<char>) -> Option<Self> {
        if name == "BAUD_DEFAULT"@ {
            Some(SerialBaud::BaudDefault)
        } else if name == "BAUD_110"@ {
            Some(SerialBaud::Baud110)
        } else if name == "BAUD_300"@ {
            Some(SerialBaud::Baud300)
        } else if name == "BAUD_600"@ {
            Some(SerialBaud::Baud600)
        } else if name == "BAUD_1200"@ {
            Some(SerialBaud::Baud1200)
        } else if name == "BAUD_2400"@ {
            Some(SerialBaud::Baud2400)
        } else if name == "BAUD_4800"@ {
            Some(SerialBaud::Baud4800)
        } else if name == "BAUD_9600"@ {
            Some(SerialBaud::Baud9600)
        } else if name == "BAUD_19200"@ {
            Some(SerialBaud::Baud19200)
        } else if name == "BAUD_38400"@ {
            Some(SerialBaud::Baud38400)
        } else if name == "BAUD_57600"@ {
            Some(SerialBaud::Baud57600)
        } else if name == "BAUD_115200"@ {
            Some(SerialBaud::Baud115200)
        } else if name == "BAUD_230400"@ {
            Some(SerialBaud::Baud230400)
        } else if name == "BAUD_460800"@ {
            Some(SerialBaud::Baud460800)
        } else if name == "BAUD_576000"@ {
            Some(SerialBaud::Baud576000)
        } else if name == "BAUD_921600"@ {
            Some(SerialBaud::Baud921600)
        } else {
            None
        }
    }

    spec fn value_lookup(value: i32) -> Option<Self> {
        if value == 0 {
            Some(SerialBaud::BaudDefault)
        } else if value == 1 {
            Some(SerialBaud::Baud110)
        } else if value == 2 {
            Some(SerialBaud::Baud300)
        } else if value == 3 {
            Some(SerialBaud::Baud600)
        } else if value == 4 {
            Some(SerialBaud::Baud1200)
        } else if value == 5 {
            Some(SerialBaud::Baud2400)
        } else if value == 6 {
            Some(SerialBaud::Baud4800)
        } else if value == 7 {
            Some(SerialBaud::Baud9600)
        } else if value == 8 {
            Some(SerialBaud::Baud19200)
        } else if value == 9 {
            Some(SerialBaud::Baud38400)
        } else if value == 10 {
            Some(SerialBaud::Baud57600)
        } else if value == 11 {
            Some(SerialBaud::Baud115200)
        } else if value == 12 {
            Some(SerialBaud::Baud230400)
        } else if value == 13 {
            Some(SerialBaud::Baud460800)
        } else if value == 14 {
            Some(SerialBaud::Baud576000)
        } else if value == 15 {
            Some(SerialBaud::Baud921600)
        } else {
            None
        }
    }

    proof fn lemma_lookups()
        ensures
            forall|e: Self| #[trigger] Self::name_lookup(e.str_name()) == Some(e),
            forall|e: Self| #[trigger] Self::value_lookup(e.value()) == Some(e),
    {
        reveal_strlit("BAUD_DEFAULT");
        assert("BAUD_DEFAULT"@.len() == 12);
        reveal_strlit("BAUD_110");
        assert("BAUD_110"@.len() == 8);
        assert("BAUD_110"@[5] == '1');
        reveal_strlit("BAUD_300");
        assert("BAUD_300"@.len() == 8);
        assert("BAUD_300"@[5] == '3');
        reveal_strlit("BAUD_600");
        assert("BAUD_600"@.len() == 8);
        assert("BAUD_600"@[5] == '6');
        reveal_strlit("BAUD_1200");
        assert("BAUD_1200"@.len() == 9);
        assert("BAUD_1200"@[5] == '1');
        reveal_strlit("BAUD_2400");
        assert("BAUD_2400"@.len() == 9);
        assert("BAUD_2400"@[5] == '2');
        reveal_strlit("BAUD_4800");
        assert("BAUD_4800"@.len() == 9);
        assert("BAUD_4800"@[5] == '4');
        reveal_strlit("BAUD_9600");
        assert("BAUD_9600"@.len() == 9);
        assert("BAUD_9600"@[5] == '9');
        reveal_strlit("BAUD_19200");
        assert("BAUD_19200"@.len() == 10);
        assert("BAUD_19200"@[5] == '1');
        reveal_strlit("BAUD_38400");
        assert("BAUD_38400"@.len() == 10);
        assert("BAUD_38400"@[5] == '3');
        reveal_strlit("BAUD_57600");
        assert("BAUD_57600"@.len() == 10);
        assert("BAUD_57600"@[5] == '5');
        reveal_strlit("BAUD_115200");
        assert("BAUD_115200"@.len() == 11);
        assert("BAUD_115200"@[5] == '1');
        reveal_strlit("BAUD_230400");
        assert("BAUD_230400"@.len() == 11);
        assert("BAUD_230400"@[5] == '2');
        reveal_strlit("BAUD_460800");
        assert("BAUD_460800"@.len() == 11);
        assert("BAUD_460800"@[5] == '4');
        reveal_strlit("BAUD_576000");
        assert("BAUD_576000"@.len() == 11);
        assert("BAUD_576000"@[5] == '5');
        reveal_strlit("BAUD_921600");
        assert("BAUD_921600"@.len() == 11);
        assert("BAUD_921600"@[5] == '9');
    }

    /// Distinct variants have distinct ProtoBuf names and distinct ProtoBuf numbers.
    pub proof fn lemma_injective(a: Self, b: Self)
        ensures
            a.str_name() == b.str_name() ==> a == b,
            a.value() == b.value() ==> a == b,
    {
        Self::lemma_lookups();
        assert(Self::name_lookup(a.str_name()) == Some(a));
        assert(Self::name_lookup(b.str_name()) == Some(b));
        assert(Self::value_lookup(a.value()) == Some(a));
        assert(Self::value_lookup(b.value()) == Some(b));
    }

    /// A name denotes a variant exactly when it is that variant's ProtoBuf name:
    /// `from_str_name` undoes `as_str_name`, and accepts nothing else.
    pub proof fn lemma_named(name: Seq<char>, e: Self)
        ensures
            Self::named(name) == Some(e) <==> e.str_name() == name,
    {
        if e.str_name() == name {
            let x = choose|x: Self| #[trigger] x.str_name() == name;
            Self::lemma_injective(x, e);
        }
    }

    /// A number denotes a variant exactly when it is that variant's ProtoBuf number:
    /// `from_i32` undoes the conversion to `i32`, and accepts nothing else.
    pub proof fn lemma_with_value(value: i32, e: Self)
        ensures
            Self::with_value(value) == Some(e) <==> e.value() == value,
    {
        if e.value() == value {
            let x = choose|x: Self| #[trigger] x.value() == value;
            Self::lemma_injective(x, e);
        }
    }

    /// What a field holding `value` reads as: the variant numbered `value` when some variant
    /// has that number, and otherwise the variant numbered 0.
    pub proof fn lemma_number_or_default(value: i32)
        ensures
            (exists|e: Self| #[trigger] e.value() == value) ==> Self::from_number_or_default(value).value() == value,
            (forall|e: Self| #[trigger] e.value() != value) ==> Self::from_number_or_default(value).value() == 0,
            (forall|e: Self| #[trigger] e.value() != value) ==> Self::from_number_or_default(value) == Self::default_variant(),
            Self::default_variant().value() == 0,
    {
        if exists|e: Self| #[trigger] e.value() == value {
            let e = choose|e: Self| #[trigger] e.value() == value;
            Self::lemma_with_value(value, e);
        }
    }

    /// `try_from` accepts exactly the numbers that variants have and gives back the variant with
    /// that number; every other number it rejects with the error that records that number.
    pub proof fn lemma_try_from(value: i32, e: Self)
        ensures
            (<Self as vstd::std_specs::convert::TryFromSpec<i32>>::try_from_spec(value) == Ok::<Self, prost::UnknownEnumValue>(e)) <==> e.value() == value,
            (forall|x: Self| #[trigger] x.value() != value) ==> <Self as vstd::std_specs::convert::TryFromSpec<i32>>::try_from_spec(value) == Err::<Self, prost::UnknownEnumValue>(crate::enum_error::unknown_enum_value(value)),
            (exists|x: Self| #[trigger] x.value() == value) ==> <Self as vstd::std_specs::convert::TryFromSpec<i32>>::try_from_spec(value) is Ok,
    {
        Self::lemma_with_value(value, e);
        if exists|x: Self| #[trigger] x.value() == value {
            let x = choose|x: Self| #[trigger] x.value() == value;
            Self::lemma_with_value(value, x);
        }
    }

    /// Reading back the number of a variant gives that variant: a field set to `e` reads as `e`.
    pub proof fn lemma_read_after_write(e: Self)
        ensures
            Self::from_number_or_default(e.value()) == e,
    {
        Self::lemma_with_value(e.value(), e);
    }

    /// String value of the enum field names used in the ProtoBuf definition.
    ///
    /// The values are not transformed in any way and thus are considered stable
    /// (if the ProtoBuf definition does not change) and safe for programmatic use.
    pub fn as_str_name(&self) -> (name: &'static str)
        ensures
            name@ == self.str_name(),
    {
        match self {
            SerialBaud::BaudDefault => "BAUD_DEFAULT",
            SerialBaud::Baud110 => "BAUD_110",
            SerialBaud::Baud300 => "BAUD_300",
            SerialBaud::Baud600 => "BAUD_600",
            SerialBaud::Baud1200 => "BAUD_1200",
            SerialBaud::Baud2400 => "BAUD_2400",
            SerialBaud::Baud4800 => "BAUD_4800",
            SerialBaud::Baud9600 => "BAUD_9600",
            SerialBaud::Baud19200 => "BAUD_19200",
            SerialBaud::Baud38400 => "BAUD_38400",
            SerialBaud::Baud57600 => "BAUD_57600",
            SerialBaud::Baud115200 => "BAUD_115200",
            SerialBaud::Baud230400 => "BAUD_230400",
            SerialBaud::Baud460800 => "BAUD_460800",
            SerialBaud::Baud576000 => "BAUD_576000",
            SerialBaud::Baud921600 => "BAUD_921600",
        }
    }

    /// Creates an enum from field names used in the ProtoBuf definition.
    pub fn from_str_name(value: &str) -> (r: Option<Self>)
        ensures
            r == Self::named(value@),
    {
        if str_eq(value, "BAUD_DEFAULT") {
            proof {
                Self::lemma_named(value@, SerialBaud::BaudDefault);
            }
            return Some(SerialBaud::BaudDefault);
        }
        if str_eq(value, "BAUD_110") {
            proof {
                Self::lemma_named(value@, SerialBaud::Baud110);
            }
            return Some(SerialBaud::Baud110);
        }
        if str_eq(value, "BAUD_300") {
            proof {
                Self::lemma_named(value@, SerialBaud::Baud300);
            }
            return Some(SerialBaud::Baud300);
        }
        if str_eq(value, "BAUD_600") {
            proof {
                Self::lemma_named(value@, SerialBaud::Baud600);
            }
            return Some(SerialBaud::Baud600);
        }
        if str_eq(value, "BAUD_1200") {
            proof {
                Self::lemma_named(value@, SerialBaud::Baud1200);
            }
            return Some(SerialBaud::Baud1200);
        }
        if str_eq(value, "BAUD_2400") {
            proof {
                Self::lemma_named(value@, SerialBaud::Baud2400);
            }
            return Some(SerialBaud::Baud2400);
        }
        if str_eq(value, "BAUD_4800") {
            proof {
                Self::lemma_named(value@, SerialBaud::Baud4800);
            }
            return Some(SerialBaud::Baud4800);
        }
        if str_eq(value, "BAUD_9600") {
            proof {
                Self::lemma_named(value@, SerialBaud::Baud9600);
            }
            return Some(SerialBaud::Baud9600);
        }
        if str_eq(value, "BAUD_19200") {
            proof {
                Self::lemma_named(value@, SerialBaud::Baud19200);
            }
            return Some(SerialBaud::Baud19200);
        }
        if str_eq(value, "BAUD_38400") {
            proof {
                Self::lemma_named(value@, SerialBaud::Baud38400);
            }
            return Some(SerialBaud::Baud38400);
        }
        if str_eq(value, "BAUD_57600") {
            proof {
                Self::lemma_named(value@, SerialBaud::Baud57600);
            }
            return Some(SerialBaud::Baud57600);
        }
        if str_eq(value, "BAUD_115200") {
            proof {
                Self::lemma_named(value@, SerialBaud::Baud115200);
            }
            return Some(SerialBaud::Baud115200);
        }
        if str_eq(value, "BAUD_230400") {
            proof {
                Self::lemma_named(value@, SerialBaud::Baud230400);
            }
            return Some(SerialBaud::Baud230400);
        }
        if str_eq(value, "BAUD_460800") {
            proof {
                Self::lemma_named(value@, SerialBaud::Baud460800);
            }
            return Some(SerialBaud::Baud460800);
        }
        if str_eq(value, "BAUD_576000") {
            proof {
                Self::lemma_named(value@, SerialBaud::Baud576000);
            }
            return Some(SerialBaud::Baud576000);
        }
        if str_eq(value, "BAUD_921600") {
            proof {
                Self::lemma_named(value@, SerialBaud::Baud921600);
            }
            return Some(SerialBaud::Baud921600);
        }
        None
    }

    /// Returns `true` if `value` is a variant of `SerialBaud`.
    pub fn is_valid(value: i32) -> (r: bool)
        ensures
            r == (Self::with_value(value) is Some),
    {
        Self::from_i32(value).is_some()
    }

    /// Converts an `i32` to a `SerialBaud`, or `None` if `value` is not a valid variant.
    pub fn from_i32(value: i32) -> (r: Option<Self>)
        ensures
            r == Self::with_value(value),
    {
        if value == 0 {
            proof {
                Self::lemma_with_value(value, SerialBaud::BaudDefault);
            }
            return Some(SerialBaud::BaudDefault);
        }
        if value == 1 {
            proof {
                Self::lemma_with_value(value, SerialBaud::Baud110);
            }
            return Some(SerialBaud::Baud110);
        }
        if value == 2 {
            proof {
                Self::lemma_with_value(value, SerialBaud::Baud300);
            }
            return Some(SerialBaud::Baud300);
        }
        if value == 3 {
            proof {
                Self::lemma_with_value(value, SerialBaud::Baud600);
            }
            return Some(SerialBaud::Baud600);
        }
        if value == 4 {
            proof {
                Self::lemma_with_value(value, SerialBaud::Baud1200);
            }
            return Some(SerialBaud::Baud1200);
        }
        if value == 5 {
            proof {
                Self::lemma_with_value(value, SerialBaud::Baud2400);
            }
            return Some(SerialBaud::Baud2400);
        }
        if value == 6 {
            proof {
                Self::lemma_with_value(value, SerialBaud::Baud4800);
            }
            return Some(SerialBaud::Baud4800);
        }
        if value == 7 {
            proof {
                Self::lemma_with_value(value, SerialBaud::Baud9600);
            }
            return Some(SerialBaud::Baud9600);
        }
        if value == 8 {
            proof {
                Self::lemma_with_value(value, SerialBaud::Baud19200);
            }
            return Some(SerialBaud::Baud19200);
        }
        if value == 9 {
            proof {
                Self::lemma_with_value(value, SerialBaud::Baud38400);
            }
            return Some(SerialBaud::Baud38400);
        }
        if value == 10 {
            proof {
                Self::lemma_with_value(value, SerialBaud::Baud57600);
            }
            return Some(SerialBaud::Baud57600);
        }
        if value == 11 {
            proof {
                Self::lemma_with_value(value, SerialBaud::Baud115200);
            }
            return Some(SerialBaud::Baud115200);
        }
        if value == 12 {
            proof {
                Self::lemma_with_value(value, SerialBaud::Baud230400);
            }
            return Some(SerialBaud::Baud230400);
        }
        if value == 13 {
            proof {
                Self::lemma_with_value(value, SerialBaud::Baud460800);
            }
            return Some(SerialBaud::Baud460800);
        }
        if value == 14 {
            proof {
                Self::lemma_with_value(value, SerialBaud::Baud576000);
            }
            return Some(SerialBaud::Baud576000);
        }
        if value == 15 {
            proof {
                Self::lemma_with_value(value, SerialBaud::Baud921600);
            }
            return Some(SerialBaud::Baud921600);
        }
        None
    }
}

impl Default for SerialBaud {
    /// The variant numbered 0, the default value of the field in ProtoBuf.
    fn default() -> (r: Self)
        ensures
            r == Self::default_variant(),
            r.value() == 0,
    {
        SerialBaud::BaudDefault
    }
}

impl From<SerialBaud> for i32 {
    fn from(value: SerialBaud) -> (r: i32) {
        match value {
            SerialBaud::BaudDefault => 0,
            SerialBaud::Baud110 => 1,
            SerialBaud::Baud300 => 2,
            SerialBaud::Baud600 => 3,
            SerialBaud::Baud1200 => 4,
            SerialBaud::Baud2400 => 5,
            SerialBaud::Baud4800 => 6,
            SerialBaud::Baud9600 => 7,
            SerialBaud::Baud19200 => 8,
            SerialBaud::Baud38400 => 9,
            SerialBaud::Baud57600 => 10,
            SerialBaud::Baud115200 => 11,
            SerialBaud::Baud230400 => 12,
            SerialBaud::Baud460800 => 13,
            SerialBaud::Baud576000 => 14,
            SerialBaud::Baud921600 => 15,
        }
    }
}

impl TryFrom<i32> for SerialBaud {
    type Error = prost::UnknownEnumValue;

    fn try_from(value: i32) -> (r: Result<SerialBaud, prost::UnknownEnumValue>)
        ensures
            r matches Ok(e) ==> e.value() == value,
            (exists|e: SerialBaud| #[trigger] e.value() == value) ==> r is Ok,
            r is Err ==> r == Err::<SerialBaud, prost::UnknownEnumValue>(crate::enum_error::unknown_enum_value(value)),
    {
        proof {
            if exists|e: SerialBaud| #[trigger] e.value() == value {
                let e = choose|e: SerialBaud| #[trigger] e.value() == value;
                SerialBaud::lemma_with_value(value, e);
            }
        }
        match SerialBaud::from_i32(value) {
            Some(e) => Ok(e),
            None => Err(make_unknown_enum_value(value)),
        }
    }
}

impl vstd::std_specs::convert::TryFromSpecImpl<i32> for SerialBaud {
    open spec fn obeys_try_from_spec() -> bool {
        true
    }

    open spec fn try_from_spec(value: i32) -> Result<SerialBaud, prost::UnknownEnumValue> {
        match SerialBaud::with_value(value) {
            Some(e) => Ok(e),
            None => Err(crate::enum_error::unknown_enum_value(value)),
        }
    }
}

impl vstd::std_specs::convert::FromSpecImpl<SerialBaud> for i32 {
    open spec fn obeys_from_spec() -> bool {
        true
    }

    open spec fn from_spec(value: SerialBaud) -> i32 {
        value.value()
    }
}

#[derive(Clone, Copy, Debug, PartialEq, Eq, Hash, PartialOrd, Ord)]
pub enum SerialMode {
    Default,
    Simple,
    Proto,
    Textmsg,
    Nmea,
    /// NMEA messages specifically tailored for CalTopo
    Caltopo,
    /// Ecowitt WS85 weather station
    Ws85,
}

impl SerialMode {
    /// The name of this variant in the ProtoBuf definition.
    pub open spec fn str_name(self) -> Seq<char> {
        match self {
            SerialMode::Default => "DEFAULT"@,
            SerialMode::Simple => "SIMPLE"@,
            SerialMode::Proto => "PROTO"@,
            SerialMode::Textmsg => "TEXTMSG"@,
            SerialMode::Nmea => "NMEA"@,
            SerialMode::Caltopo => "CALTOPO"@,
            SerialMode::Ws85 => "WS85"@,
        }
    }

    /// The number of this variant in the ProtoBuf definition.
    pub open spec fn value(self) -> i32 {
        match self {
            SerialMode::Default => 0,
            SerialMode::Simple => 1,
            SerialMode::Proto => 2,
            SerialMode::Textmsg => 3,
            SerialMode::Nmea => 4,
            SerialMode::Caltopo => 5,
            SerialMode::Ws85 => 6,
        }
    }

    /// The variant numbered 0, which a field holds when it is not set.
    pub open spec fn default_variant() -> Self {
        SerialMode::Default
    }

    /// The variant numbered `value`, or the default variant when no variant has that number:
    /// what a message field holding `value` reads as.
    pub open spec fn from_number_or_default(value: i32) -> Self {
        match Self::with_value(value) {
            Some(e) => e,
            None => Self::default_variant(),
        }
    }

    /// The variant whose ProtoBuf name is `name`, if there is one.
    pub open spec fn named(name: Seq<char>) -> Option<Self> {
        if exists|e: Self| #[trigger] e.str_name() == name {
            Some(choose|e: Self| #[trigger] e.str_name() == name)
        } else {
            None
        }
    }

    /// The variant whose ProtoBuf number is `value`, if there is one.
    pub open spec fn with_value(value: i32) -> Option<Self> {
        if exists|e: Self| #[trigger] e.value() == value {
            Some(choose|e: Self| #[trigger] e.value() == value)
        } else {
            None
        }
    }

    spec fn name_lookup(name: Seq<char>) -> Option<Self> {
        if name == "DEFAULT"@ {
            Some(SerialMode::Default)
        } else if name == "SIMPLE"@ {
            Some(SerialMode::Simple)
        } else if name == "PROTO"@ {
            Some(SerialMode::Proto)
        } else if name == "TEXTMSG"@ {
            Some(SerialMode::Textmsg)
        } else if name == "NMEA"@ {
            Some(SerialMode::Nmea)
        } else if name == "CALTOPO"@ {
            Some(SerialMode::Caltopo)
        } else if name == "WS85"@ {
            Some(SerialMode::Ws85)
        } else {
            None
        }
    }

    spec fn value_lookup(value: i32) -> Option<Self> {
        if value == 0 {
            Some(SerialMode::Default)
        } else if value == 1 {
            Some(SerialMode::Simple)
        } else if value == 2 {
            Some(SerialMode::Proto)
        } else if value == 3 {
            Some(SerialMode::Textmsg)
        } else if value == 4 {
            Some(SerialMode::Nmea)
        } else if value == 5 {
            Some(SerialMode::Caltopo)
        } else if value == 6 {
            Some(SerialMode::Ws85)
        } else {
            None
        }
    }

    proof fn lemma_lookups()
        ensures
            forall|e: Self| #[trigger] Self::name_lookup(e.str_name()) == Some(e),
            forall|e: Self| #[trigger] Self::value_lookup(e.value()) == Some(e),
    {
        reveal_strlit("DEFAULT");
        assert("DEFAULT"@.len() == 7);
        assert("DEFAULT"@[0] == 'D');
        reveal_strlit("SIMPLE");
        assert("SIMPLE"@.len() == 6);
        reveal_strlit("PROTO");
        assert("PROTO"@.len() == 5);
        reveal_strlit("TEXTMSG");
        assert("TEXTMSG"@.len() == 7);
        assert("TEXTMSG"@[0] == 'T');
        reveal_strlit("NMEA");
        assert("NMEA"@.len() == 4);
        assert("NMEA"@[0] == 'N');
        reveal_strlit("CALTOPO");
        assert("CALTOPO"@.len() == 7);
        assert("CALTOPO"@[0] == 'C');
        reveal_strlit("WS85");
        assert("WS85"@.len() == 4);
        assert("WS85"@[0] == 'W');
    }

    /// Distinct variants have distinct ProtoBuf names and distinct ProtoBuf numbers.
    pub proof fn lemma_injective(a: Self, b: Self)
        ensures
            a.str_name() == b.str_name() ==> a == b,
            a.value() == b.value() ==> a == b,
    {
        Self::lemma_lookups();
        assert(Self::name_lookup(a.str_name()) == Some(a));
        assert(Self::name_lookup(b.str_name()) == Some(b));
        assert(Self::value_lookup(a.value()) == Some(a));
        assert(Self::value_lookup(b.value()) == Some(b));
    }

    /// A name denotes a variant exactly when it is that variant's ProtoBuf name:
    /// `from_str_name` undoes `as_str_name`, and accepts nothing else.
    pub proof fn lemma_named(name: Seq<char>, e: Self)
        ensures
            Self::named(name) == Some(e) <==> e.str_name() == name,
    {
        if e.str_name() == name {
            let x = choose|x: Self| #[trigger] x.str_name() == name;
            Self::lemma_injective(x, e);
        }
    }

    /// A number denotes a variant exactly when it is that variant's ProtoBuf number:
    /// `from_i32` undoes the conversion to `i32`, and accepts nothing else.
    pub proof fn lemma_with_value(value: i32, e: Self)
        ensures
            Self::with_value(value) == Some(e) <==> e.value() == value,
    {
        if e.value() == value {
            let x = choose|x: Self| #[trigger] x.value() == value;
            Self::lemma_injective(x, e);
        }
    }

    /// What a field holding `value` reads as: the variant numbered `value` when some variant
    /// has that number, and otherwise the variant numbered 0.
    pub proof fn lemma_number_or_default(value: i32)
        ensures
            (exists|e: Self| #[trigger] e.value() == value) ==> Self::from_number_or_default(value).value() == value,
            (forall|e: Self| #[trigger] e.value() != value) ==> Self::from_number_or_default(value).value() == 0,
            (forall|e: Self| #[trigger] e.value() != value) ==> Self::from_number_or_default(value) == Self::default_variant(),
            Self::default_variant().value() == 0,
    {
        if exists|e: Self| #[trigger] e.value() == value {
            let e = choose|e: Self| #[trigger] e.value() == value;
            Self::lemma_with_value(value, e);
        }
    }

    /// `try_from` accepts exactly the numbers that variants have and gives back the variant with
    /// that number; every other number it rejects with the error that records that number.
    pub proof fn lemma_try_from(value: i32, e: Self)
        ensures
            (<Self as vstd::std_specs::convert::TryFromSpec<i32>>::try_from_spec(value) == Ok::<Self, prost::UnknownEnumValue>(e)) <==> e.value() == value,
            (forall|x: Self| #[trigger] x.value() != value) ==> <Self as vstd::std_specs::convert::TryFromSpec<i32>>::try_from_spec(value) == Err::<Self, prost::UnknownEnumValue>(crate::enum_error::unknown_enum_value(value)),
            (exists|x: Self| #[trigger] x.value() == value) ==> <Self as vstd::std_specs::convert::TryFromSpec<i32>>::try_from_spec(value) is Ok,
    {
        Self::lemma_with_value(value, e);
        if exists|x: Self| #[trigger] x.value() == value {
            let x = choose|x: Self| #[trigger] x.value() == value;
            Self::lemma_with_value(value, x);
        }
    }

    /// Reading back the number of a variant gives that variant: a field set to `e` reads as `e`.
    pub proof fn lemma_read_after_write(e: Self)
        ensures
            Self::from_number_or_default(e.value()) == e,
    {
        Self::lemma_with_value(e.value(), e);
    }

    /// String value of the enum field names used in the ProtoBuf definition.
    ///
    /// The values are not transformed in any way and thus are considered stable
    /// (if the ProtoBuf definition does not change) and safe for programmatic use.
    pub fn as_str_name(&self) -> (name: &'static str)
        ensures
            name@ == self.str_name(),
    {
        match self {
            SerialMode::Default => "DEFAULT",
            SerialMode::Simple => "SIMPLE",
            SerialMode::Proto => "PROTO",
            SerialMode::Textmsg => "TEXTMSG",
            SerialMode::Nmea => "NMEA",
            SerialMode::Caltopo => "CALTOPO",
            SerialMode::Ws85 => "WS85",
        }
    }

    /// Creates an enum from field names used in the ProtoBuf definition.
    pub fn from_str_name(value: &str) -> (r: Option<Self>)
        ensures
            r == Self::named(value@),
    {
        if str_eq(value, "DEFAULT") {
            proof {
                Self::lemma_named(value@, SerialMode::Default);
            }
            return Some(SerialMode::Default);
        }
        if str_eq(value, "SIMPLE") {
            proof {
                Self::lemma_named(value@, SerialMode::Simple);
            }
            return Some(SerialMode::Simple);
        }
        if str_eq(value, "PROTO") {
            proof {
                Self::lemma_named(value@, SerialMode::Proto);
            }
            return Some(SerialMode::Proto);
        }
        if str_eq(value, "TEXTMSG") {
            proof {
                Self::lemma_named(value@, SerialMode::Textmsg);
            }
            return Some(SerialMode::Textmsg);
        }
        if str_eq(value, "NMEA") {
            proof {
                Self::lemma_named(value@, SerialMode::Nmea);
            }
            return Some(SerialMode::Nmea);
        }
        if str_eq(value, "CALTOPO") {
            proof {
                Self::lemma_named(value@, SerialMode::Caltopo);
            }
            return Some(SerialMode::Caltopo);
        }
        if str_eq(value, "WS85") {
            proof {
                Self::lemma_named(value@, SerialMode::Ws85);
            }
            return Some(SerialMode::Ws85);
        }
        None
    }

    /// Returns `true` if `value` is a variant of `SerialMode`.
    pub fn is_valid(value: i32) -> (r: bool)
        ensures
            r == (Self::with_value(value) is Some),
    {
        Self::from_i32(value).is_some()
    }

    /// Converts an `i32` to a `SerialMode`, or `None` if `value` is not a valid variant.
    pub fn from_i32(value: i32) -> (r: Option<Self>)
        ensures
            r == Self::with_value(value),
    {
        if value == 0 {
            proof {
                Self::lemma_with_value(value, SerialMode::Default);
            }
            return Some(SerialMode::Default);
        }
        if value == 1 {
            proof {
                Self::lemma_with_value(value, SerialMode::Simple);
            }
            return Some(SerialMode::Simple);
        }
        if value == 2 {
            proof {
                Self::lemma_with_value(value, SerialMode::Proto);
            }
            return Some(SerialMode::Proto);
        }
        if value == 3 {
            proof {
                Self::lemma_with_value(value, SerialMode::Textmsg);
            }
            return Some(SerialMode::Textmsg);
        }
        if value == 4 {
            proof {
                Self::lemma_with_value(value, SerialMode::Nmea);
            }
            return Some(SerialMode::Nmea);
        }
        if value == 5 {
            proof {
                Self::lemma_with_value(value, SerialMode::Caltopo);
            }
            return Some(SerialMode::Caltopo);
        }
        if value == 6 {
            proof {
                Self::lemma_with_value(value, SerialMode::Ws85);
            }
            return Some(SerialMode::Ws85);
        }
        None
    }
}

impl Default for SerialMode {
    /// The variant numbered 0, the default value of the field in ProtoBuf.
    fn default() -> (r: Self)
        ensures
            r == Self::default_variant(),
            r.value() == 0,
    {
        SerialMode::Default
    }
}

impl From<SerialMode> for i32 {
    fn from(value: SerialMode) -> (r: i32) {
        match value {
            SerialMode::Default => 0,
            SerialMode::Simple => 1,
            SerialMode::Proto => 2,
            SerialMode::Textmsg => 3,
            SerialMode::Nmea => 4,
            SerialMode::Caltopo => 5,
            SerialMode::Ws85 => 6,
        }
    }
}

impl TryFrom<i32> for SerialMode {
    type Error = prost::UnknownEnumValue;

    fn try_from(value: i32) -> (r: Result<SerialMode, prost::UnknownEnumValue>)
        ensures
            r matches Ok(e) ==> e.value() == value,
            (exists|e: SerialMode| #[trigger] e.value() == value) ==> r is Ok,
            r is Err ==> r == Err::<SerialMode, prost::UnknownEnumValue>(crate::enum_error::unknown_enum_value(value)),
    {
        proof {
            if exists|e: SerialMode| #[trigger] e.value() == value {
                let e = choose|e: SerialMode| #[trigger] e.value() == value;
                SerialMode::lemma_with_value(value, e);
            }
        }
        match SerialMode::from_i32(value) {
            Some(e) => Ok(e),
            None => Err(make_unknown_enum_value(value)),
        }
    }
}

impl vstd::std_specs::convert::TryFromSpecImpl<i32> for SerialMode {
    open spec fn obeys_try_from_spec() -> bool {
        true
    }

    open spec fn try_from_spec(value: i32) -> Result<SerialMode, prost::UnknownEnumValue> {
        match SerialMode::with_value(value) {
            Some(e) => Ok(e),
            None => Err(crate::enum_error::unknown_enum_value(value)),
        }
    }
}

impl vstd::std_specs::convert::FromSpecImpl<SerialMode> for i32 {
    open spec fn obeys_from_spec() -> bool {
        true
    }

    open spec fn from_spec(value: SerialMode) -> i32 {
        value.value()
    }
}

} // verus!
