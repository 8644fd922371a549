//! Nested message and enum types in `LogRecord`.

use vstd::prelude::*;
use crate::enum_error::make_unknown_enum_value;
use crate::text::str_eq;

verus! {

/// Log levels, chosen to match python logging conventions.
#[derive(Clone, Copy, Debug, PartialEq, Eq, Hash, PartialOrd, Ord)]
pub enum Level {
    /// Log levels, chosen to match python logging conventions.
    Unset,
    /// Log levels, chosen to match python logging conventions.
    Trace,
    /// Log levels, chosen to match python logging conventions.
    Debug,
    /// Log levels, chosen to match python logging conventions.
    Info,
    /// Log levels, chosen to match python logging conventions.
    Warning,
    /// Log levels, chosen to match python logging conventions.
    Error,
    /// Log levels, chosen to match python logging conventions.
    Critical,
}

impl Level {
    /// The name of this variant in the ProtoBuf definition.
    pub open spec fn str_name(self) -> Seq<char> {
        match self {
            Level::Unset => "UNSET"@,
            Level::Trace => "TRACE"@,
            Level::Debug => "DEBUG"@,
            Level::Info => "INFO"@,
            Level::Warning => "WARNING"@,
            Level::Error => "ERROR"@,
            Level::Critical => "CRITICAL"@,
        }
    }

    /// The number of this variant in the ProtoBuf definition.
    pub open spec fn value(self) -> i32 {
        match self {
            Level::Unset => 0,
            Level::Trace => 5,
            Level::Debug => 10,
            Level::Info => 20,
            Level::Warning => 30,
            Level::Error => 40,
            Level::Critical => 50,
        }
    }

    /// The variant numbered 0, which a field holds when it is not set.
    pub open spec fn default_variant() -> Self {
        Level::Unset
    }

    /// The variant numbered `value`, or the default variant when no variant has that number:
    /// what a message field holding `value` reads as.
    pub open spec fn from_number_or_default(value: i32) -> Self {
        match Self::with_value(value) {
            Some(e) => e,
            None => Self::default_variant(),
        }
    }

    /// The variant whose ProtoBuf name is `name`, if there is one.
    pub open spec fn named(name: Seq<char>) -> Option<Self> {
        if exists|e: Self| #[trigger] e.str_name() == name {
            Some(choose|e: Self| #[trigger] e.str_name() == name)
        } else {
            None
        }
    }

    /// The variant whose ProtoBuf number is `value`, if there is one.
    pub open spec fn with_value(value: i32) -> Option<Self> {
        if exists|e: Self| #[trigger] e.value() == value {
            Some(choose|e: Self| #[trigger] e.value() == value)
        } else {
            None
        }
    }

    spec fn name_lookup(name: Seq<char>) -> Option<Self> {
        if name == "UNSET"@ {
            Some(Level::Unset)
        } else if name == "TRACE"@ {
            Some(Level::Trace)
        } else if name == "DEBUG"@ {
            Some(Level::Debug)
        } else if name == "INFO"@ {
            Some(Level::Info)
        } else if name == "WARNING"@ {
            Some(Level::Warning)
        } else if name == "ERROR"@ {
            Some(Level::Error)
        } else if name == "CRITICAL"@ {
            Some(Level::Critical)
        } else {
            None
        }
    }

    spec fn value_lookup(value: i32) -> Option<Self> {
        if value == 0 {
            Some(Level::Unset)
        } else if value == 5 {
            Some(Level::Trace)
        } else if value == 10 {
            Some(Level::Debug)
        } else if value == 20 {
            Some(Level::Info)
        } else if value == 30 {
            Some(Level::Warning)
        } else if value == 40 {
            Some(Level::Error)
        } else if value == 50 {
            Some(Level::Critical)
        } else {
            None
        }
    }

    proof fn lemma_lookups()
        ensures
            forall|e: Self| #[trigger] Self::name_lookup(e.str_name()) == Some(e),
            forall|e: Self| #[trigger] Self::value_lookup(e.value()) == Some(e),
    {
        reveal_strlit("UNSET");
        assert("UNSET"@.len() == 5);
        assert("UNSET"@[0] == 'U');
        reveal_strlit("TRACE");
        assert("TRACE"@.len() == 5);
        assert("TRACE"@[0] == 'T');
        reveal_strlit("DEBUG");
        assert("DEBUG"@.len() == 5);
        assert("DEBUG"@[0] == 'D');
        reveal_strlit("INFO");
        assert("INFO"@.len() == 4);
        reveal_strlit("WARNING");
        assert("WARNING"@.len() == 7);
        reveal_strlit("ERROR");
        assert("ERROR"@.len() == 5);
        assert("ERROR"@[0] == 'E');
        reveal_strlit("CRITICAL");
        assert("CRITICAL"@.len() == 8);
    }

    /// Distinct variants have distinct ProtoBuf names and distinct ProtoBuf numbers.
    pub proof fn lemma_injective(a: Self, b: Self)
        ensures
            a.str_name() == b.str_name() ==> a == b,
            a.value() == b.value() ==> a == b,
    {
        Self::lemma_lookups();
        assert(Self::name_lookup(a.str_name()) == Some(a));
        assert(Self::name_lookup(b.str_name()) == Some(b));
        assert(Self::value_lookup(a.value()) == Some(a));
        assert(Self::value_lookup(b.value()) == Some(b));
    }

    /// A name denotes a variant exactly when it is that variant's ProtoBuf name:
    /// `from_str_name` undoes `as_str_name`, and accepts nothing else.
    pub proof fn lemma_named(name: Seq<char>, e: Self)
        ensures
            Self::named(name) == Some(e) <==> e.str_name() == name,
    {
        if e.str_name() == name {
            let x = choose|x: Self| #[trigger] x.str_name() == name;
            Self::lemma_injective(x, e);
        }
    }

    /// A number denotes a variant exactly when it is that variant's ProtoBuf number:
    /// `from_i32` undoes the conversion to `i32`, and accepts nothing else.
    pub proof fn lemma_with_value(value: i32, e: Self)
        ensures
            Self::with_value(value) == Some(e) <==> e.value() == value,
    {
        if e.value() == value {
            let x = choose|x: Self| #[trigger] x.value() == value;
            Self::lemma_injective(x, e);
        }
    }

    /// What a field holding `value` reads as: the variant numbered `value` when some variant
    /// has that number, and otherwise the variant numbered 0.
    pub proof fn lemma_number_or_default(value: i32)
        ensures
            (exists|e: Self| #[trigger] e.value() == value) ==> Self::from_number_or_default(value).value() == value,
            (forall|e: Self| #[trigger] e.value() != value) ==> Self::from_number_or_default(value).value() == 0,
            (forall|e: Self| #[trigger] e.value() != value) ==> Self::from_number_or_default(value) == Self::default_variant(),
            Self::default_variant().value() == 0,
    {
        if exists|e: Self| #[trigger] e.value() == value {
            let e = choose|e: Self| #[trigger] e.value() == value;
            Self::lemma_with_value(value, e);
        }
    }

    /// `try_from` accepts exactly the numbers that variants have and gives back the variant with
    /// that number; every other number it rejects with the error that records that number.
    pub proof fn lemma_try_from(value: i32, e: Self)
        ensures
            (<Self as vstd::std_specs::convert::TryFromSpec<i32>>::try_from_spec(value) == Ok::<Self, prost::UnknownEnumValue>(e)) <==> e.value() == value,
            (forall|x: Self| #[trigger] x.value() != value) ==> <Self as vstd::std_specs::convert::TryFromSpec<i32>>::try_from_spec(value) == Err::<Self, prost::UnknownEnumValue>(crate::enum_error::unknown_enum_value(value)),
            (exists|x: Self| #[trigger] x.value() == value) ==> <Self as vstd::std_specs::convert::TryFromSpec<i32>>::try_from_spec(value) is Ok,
    {
        Self::lemma_with_value(value, e);
        if exists|x: Self| #[trigger] x.value() == value {
            let x = choose|x: Self| #[trigger] x.value() == value;
            Self::lemma_with_value(value, x);
        }
    }

    /// Reading back the number of a variant gives that variant: a field set to `e` reads as `e`.
    pub proof fn lemma_read_after_write(e: Self)
        ensures
            Self::from_number_or_default(e.value()) == e,
    {
        Self::lemma_with_value(e.value(), e);
    }

    /// String value of the enum field names used in the ProtoBuf definition.
    ///
    /// The values are not transformed in any way and thus are considered stable
    /// (if the ProtoBuf definition does not change) and safe for programmatic use.
    pub fn as_str_name(&self) -> (name: &'static str)
        ensures
            name@ == self.str_name(),
    {
        match self {
            Level::Unset => "UNSET",
            Level::Trace => "TRACE",
            Level::Debug => "DEBUG",
            Level::Info => "INFO",
            Level::Warning => "WARNING",
            Level::Error => "ERROR",
            Level::Critical => "CRITICAL",
        }
    }

    /// Creates an enum from field names used in the ProtoBuf definition.
    pub fn from_str_name(value: &str) -> (r: Option<Self>)
        ensures
            r == Self::named(value@),
    {
        if str_eq(value, "UNSET") {
            proof {
                Self::lemma_named(value@, Level::Unset);
            }
            return Some(Level::Unset);
        }
        if str_eq(value, "TRACE") {
            proof {
                Self::lemma_named(value@, Level::Trace);
            }
            return Some(Level::Trace);
        }
        if str_eq(value, "DEBUG") {
            proof {
                Self::lemma_named(value@, Level::Debug);
            }
            return Some(Level::Debug);
        }
        if str_eq(value, "INFO") {
            proof {
                Self::lemma_named(value@, Level::Info);
            }
            return Some(Level::Info);
        }
        if str_eq(value, "WARNING") {
            proof {
                Self::lemma_named(value@, Level::Warning);
            }
            return Some(Level::Warning);
        }
        if str_eq(value, "ERROR") {
            proof {
                Self::lemma_named(value@, Level::Error);
            }
            return Some(Level::Error);
        }
        if str_eq(value, "CRITICAL") {
            proof {
                Self::lemma_named(value@, Level::Critical);
            }
            return Some(Level::Critical);
        }
        None
    }

    /// Returns `true` if `value` is a variant of `Level`.
    pub fn is_valid(value: i32) -> (r: bool)
        ensures
            r == (Self::with_value(value) is Some),
    {
        Self::from_i32(value).is_some()
    }

    /// Converts an `i32` to a `Level`, or `None` if `value` is not a valid variant.
    pub fn from_i32(value: i32) -> (r: Option<Self>)
        ensures
            r == Self::with_value(value),
    {
        if value == 0 {
            proof {
                Self::lemma_with_value(value, Level::Unset);
            }
            return Some(Level::Unset);
        }
        if value == 5 {
            proof {
                Self::lemma_with_value(value, Level::Trace);
            }
            return Some(Level::Trace);
        }
        if value == 10 {
            proof {
                Self::lemma_with_value(value, Level::Debug);
            }
            return Some(Level::Debug);
        }
        if value == 20 {
            proof {
                Self::lemma_with_value(value, Level::Info);
            }
            return Some(Level::Info);
        }
        if value == 30 {
            proof {
                Self::lemma_with_value(value, Level::Warning);
            }
            return Some(Level::Warning);
        }
        if value == 40 {
            proof {
                Self::lemma_with_value(value, Level::Error);
            }
            return Some(Level::Error);
        }
        if value == 50 {
            proof {
                Self::lemma_with_value(value, Level::Critical);
            }
            return Some(Level::Critical);
        }
        None
    }
}

impl Default for Level {
    /// The variant numbered 0, the default value of the field in ProtoBuf.
    fn default() -> (r: Self)
        ensures
            r == Self::default_variant(),
            r.value() == 0,
    {
        Level::Unset
    }
}

impl From<Level> for i32 {
    fn from(value: Level) -> (r: i32) {
        match value {
            Level::Unset => 0,
            Level::Trace => 5,
            Level::Debug => 10,
            Level::Info => 20,
            Level::Warning => 30,
            Level::Error => 40,
            Level::Critical => 50,
        }
    }
}

impl TryFrom<i32> for Level {
    type Error = prost::UnknownEnumValue;

    fn try_from(value: i32) -> (r: Result<Level, prost::UnknownEnumValue>)
        ensures
            r matches Ok(e) ==> e.value() == value,
            (exists|e: Level| #[trigger] e.value() == value) ==> r is Ok,
            r is Err ==> r == Err::<Level, prost::UnknownEnumValue>(crate::enum_error::unknown_enum_value(value)),
    {
        proof {
            if exists|e: Level| #[trigger] e.value() == value {
                let e = choose|e: Level| #[trigger] e.value() == value;
                Level::lemma_with_value(value, e);
            }
        }
        match Level::from_i32(value) {
            Some(e) => Ok(e),
            None => Err(make_unknown_enum_value(value)),
        }
    }
}

impl vstd::std_specs::convert::TryFromSpecImpl<i32> for Level {
    open spec fn obeys_try_from_spec() -> bool {
        true
    }

    open spec fn try_from_spec(value: i32) -> Result<Level, prost::UnknownEnumValue> {
        match Level::with_value(value) {
            Some(e) => Ok(e),
            None => Err(crate::enum_error::unknown_enum_value(value)),
        }
    }
}

impl vstd::std_specs::convert::FromSpecImpl<Level> for i32 {
    open spec fn obeys_from_spec() -> bool {
        true
    }

    open spec fn from_spec(value: Level) -> i32 {
        value.value()
    }
}

} // verus!
