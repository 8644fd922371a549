//! Nested message and enum types in `MeshPacket`.

use vstd::prelude::*;
use crate::enum_error::make_unknown_enum_value;
use crate::text::str_eq;

verus! {

/// The priority of this message for sending.
/// Higher priorities are sent first (when managing the transmit queue).
/// This field is never sent over the air, it is only used internally inside of a local device node.
/// API clients (either on the local node or connected directly to the node)
/// can set this parameter if necessary.
/// (values must be <= 127 to keep protobuf field to one byte in size.
/// Detailed background on this field:
/// I noticed a funny side effect of lora being so slow: Usually when making
/// a protocol there isn’t much need to use message priority to change the order
/// of transmission (because interfaces are fairly fast).
/// But for lora where packets can take a few seconds each, it is very important
/// to make sure that critical packets are sent ASAP.
/// In the case of meshtastic that means we want to send protocol acks as soon as possible
/// (to prevent unneeded retransmissions), we want routing messages to be sent next,
/// then messages marked as reliable and finally 'background' packets like periodic position updates.
/// So I bit the bullet and implemented a new (internal - not sent over the air)
/// field in MeshPacket called 'priority'.
/// And the transmission queue in the router object is now a priority queue.
#[derive(Clone, Copy, Debug, PartialEq, Eq, Hash, PartialOrd, Ord)]
pub enum Priority {
    /// Treated as Priority.DEFAULT
    Unset,
    Min,
    /// Background position updates are sent with very low priority -
    /// if the link is super congested they might not go out at all
    Background,
    /// This priority is used for most messages that don't have a priority set
    Default,
    /// If priority is unset but the message is marked as want_ack,
    /// assume it is important and use a slightly higher priority
    Reliable,
    /// If priority is unset but the packet is a response to a request, we want it to get there relatively quickly.
    /// Furthermore, responses stop relaying packets directed to a node early.
    Response,
    /// Higher priority for specific message types (portnums) to distinguish between other reliable packets.
    High,
    /// Higher priority alert message used for critical alerts which take priority over other reliable packets.
    Alert,
    /// Ack/naks are sent with very high priority to ensure that retransmission
    /// stops as soon as possible
    Ack,
    Max,
}

impl Priority {
    /// The name of this variant in the ProtoBuf definition.
    pub open spec fn str_name(self) -> Seq<char> {
        match self {
            Priority::Unset => "UNSET"@,
            Priority::Min => "MIN"@,
            Priority::Background => "BACKGROUND"@,
            Priority::Default => "DEFAULT"@,
            Priority::Reliable => "RELIABLE"@,
            Priority::Response => "RESPONSE"@,
            Priority::High => "HIGH"@,
            Priority::Alert => "ALERT"@,
            Priority::Ack => "ACK"@,
            Priority::Max => "MAX"@,
        }
    }

    /// The number of this variant in the ProtoBuf definition.
    pub open spec fn value(self) -> i32 {
        match self {
            Priority::Unset => 0,
            Priority::Min => 1,
            Priority::Background => 10,
            Priority::Default => 64,
            Priority::Reliable => 70,
            Priority::Response => 80,
            Priority::High => 100,
            Priority::Alert => 110,
            Priority::Ack => 120,
            Priority::Max => 127,
        }
    }

    /// The variant numbered 0, which a field holds when it is not set.
    pub open spec fn default_variant() -> Self {
        Priority::Unset
    }

    /// The variant numbered `value`, or the default variant when no variant has that number:
    /// what a message field holding `value` reads as.
    pub open spec fn from_number_or_default(value: i32) -> Self {
        match Self::with_value(value) {
            Some(e) => e,
            None => Self::default_variant(),
        }
    }

    /// The variant whose ProtoBuf name is `name`, if there is one.
    pub open spec fn named(name: Seq<char>) -> Option<Self> {
        if exists|e: Self| #[trigger] e.str_name() == name {
            Some(choose|e: Self| #[trigger] e.str_name() == name)
        } else {
            None
        }
    }

    /// The variant whose ProtoBuf number is `value`, if there is one.
    pub open spec fn with_value(value: i32) -> Option<Self> {
        if exists|e: Self| #[trigger] e.value() == value {
            Some(choose|e: Self| #[trigger] e.value() == value)
        } else {
            None
        }
    }

    spec fn name_lookup(name: Seq<char>) -> Option<Self> {
        if name == "UNSET"@ {
            Some(Priority::Unset)
        } else if name == "MIN"@ {
            Some(Priority::Min)
        } else if name == "BACKGROUND"@ {
            Some(Priority::Background)
        } else if name == "DEFAULT"@ {
            Some(Priority::Default)
        } else if name == "RELIABLE"@ {
            Some(Priority::Reliable)
        } else if name == "RESPONSE"@ {
            Some(Priority::Response)
        } else if name == "HIGH"@ {
            Some(Priority::High)
        } else if name == "ALERT"@ {
            Some(Priority::Alert)
        } else if name == "ACK"@ {
            Some(Priority::Ack)
        } else if name == "MAX"@ {
            Some(Priority::Max)
        } else {
            None
        }
    }

    spec fn value_lookup(value: i32) -> Option<Self> {
        if value == 0 {
            Some(Priority::Unset)
        } else if value == 1 {
            Some(Priority::Min)
        } else if value == 10 {
            Some(Priority::Background)
        } else if value == 64 {
            Some(Priority::Default)
        } else if value == 70 {
            Some(Priority::Reliable)
        } else if value == 80 {
            Some(Priority::Response)
        } else if value == 100 {
            Some(Priority::High)
        } else if value == 110 {
            Some(Priority::Alert)
        } else if value == 120 {
            Some(Priority::Ack)
        } else if value == 127 {
            Some(Priority::Max)
        } else {
            None
        }
    }

    proof fn lemma_lookups()
        ensures
            forall|e: Self| #[trigger] Self::name_lookup(e.str_name()) == Some(e),
            forall|e: Self| #[trigger] Self::value_lookup(e.value()) == Some(e),
    {
        reveal_strlit("UNSET");
        assert("UNSET"@.len() == 5);
        assert("UNSET"@[0] == 'U');
        reveal_strlit("MIN");
        assert("MIN"@.len() == 3);
        assert("MIN"@[0] == 'M');
        assert("MIN"@[1] == 'I');
        reveal_strlit("BACKGROUND");
        assert("BACKGROUND"@.len() == 10);
        reveal_strlit("DEFAULT");
        assert("DEFAULT"@.len() == 7);
        reveal_strlit("RELIABLE");
        assert("RELIABLE"@.len() == 8);
        assert("RELIABLE"@[2] == 'L');
        reveal_strlit("RESPONSE");
        assert("RESPONSE"@.len() == 8);
        assert("RESPONSE"@[2] == 'S');
        reveal_strlit("HIGH");
        assert("HIGH"@.len() == 4);
        reveal_strlit("ALERT");
        assert("ALERT"@.len() == 5);
        assert("ALERT"@[0] == 'A');
        reveal_strlit("ACK");
        assert("ACK"@.len() == 3);
        assert("ACK"@[0] == 'A');
        reveal_strlit("MAX");
        assert("MAX"@.len() == 3);
        assert("MAX"@[0] == 'M');
        assert("MAX"@[1] == 'A');
    }

    /// Distinct variants have distinct ProtoBuf names and distinct ProtoBuf numbers.
    pub proof fn lemma_injective(a: Self, b: Self)
        ensures
            a.str_name() == b.str_name() ==> a == b,
            a.value() == b.value() ==> a == b,
    {
        Self::lemma_lookups();
        assert(Self::name_lookup(a.str_name()) == Some(a));
        assert(Self::name_lookup(b.str_name()) == Some(b));
        assert(Self::value_lookup(a.value()) == Some(a));
        assert(Self::value_lookup(b.value()) == Some(b));
    }

    /// A name denotes a variant exactly when it is that variant's ProtoBuf name:
    /// `from_str_name` undoes `as_str_name`, and accepts nothing else.
    pub proof fn lemma_named(name: Seq<char>, e: Self)
        ensures
            Self::named(name) == Some(e) <==> e.str_name() == name,
    {
        if e.str_name() == name {
            let x = choose|x: Self| #[trigger] x.str_name() == name;
            Self::lemma_injective(x, e);
        }
    }

    /// A number denotes a variant exactly when it is that variant's ProtoBuf number:
    /// `from_i32` undoes the conversion to `i32`, and accepts nothing else.
    pub proof fn lemma_with_value(value: i32, e: Self)
        ensures
            Self::with_value(value) == Some(e) <==> e.value() == value,
    {
        if e.value() == value {
            let x = choose|x: Self| #[trigger] x.value() == value;
            Self::lemma_injective(x, e);
        }
    }

    /// What a field holding `value` reads as: the variant numbered `value` when some variant
    /// has that number, and otherwise the variant numbered 0.
    pub proof fn lemma_number_or_default(value: i32)
        ensures
            (exists|e: Self| #[trigger] e.value() == value) ==> Self::from_number_or_default(value).value() == value,
            (forall|e: Self| #[trigger] e.value() != value) ==> Self::from_number_or_default(value).value() == 0,
            (forall|e: Self| #[trigger] e.value() != value) ==> Self::from_number_or_default(value) == Self::default_variant(),
            Self::default_variant().value() == 0,
    {
        if exists|e: Self| #[trigger] e.value() == value {
            let e = choose|e: Self| #[trigger] e.value() == value;
            Self::lemma_with_value(value, e);
        }
    }

    /// `try_from` accepts exactly the numbers that variants have and gives back the variant with
    /// that number; every other number it rejects with the error that records that number.
    pub proof fn lemma_try_from(value: i32, e: Self)
        ensures
            (<Self as vstd::std_specs::convert::TryFromSpec<i32>>::try_from_spec(value) == Ok::<Self, prost::UnknownEnumValue>(e)) <==> e.value() == value,
            (forall|x: Self| #[trigger] x.value() != value) ==> <Self as vstd::std_specs::convert::TryFromSpec<i32>>::try_from_spec(value) == Err::<Self, prost::UnknownEnumValue>(crate::enum_error::unknown_enum_value(value)),
            (exists|x: Self| #[trigger] x.value() == value) ==> <Self as vstd::std_specs::convert::TryFromSpec<i32>>::try_from_spec(value) is Ok,
    {
        Self::lemma_with_value(value, e);
        if exists|x: Self| #[trigger] x.value() == value {
            let x = choose|x: Self| #[trigger] x.value() == value;
            Self::lemma_with_value(value, x);
        }
    }

    /// Reading back the number of a variant gives that variant: a field set to `e` reads as `e`.
    pub proof fn lemma_read_after_write(e: Self)
        ensures
            Self::from_number_or_default(e.value()) == e,
    {
        Self::lemma_with_value(e.value(), e);
    }

    /// String value of the enum field names used in the ProtoBuf definition.
    ///
    /// The values are not transformed in any way and thus are considered stable
    /// (if the ProtoBuf definition does not change) and safe for programmatic use.
    pub fn as_str_name(&self) -> (name: &'static str)
        ensures
            name@ == self.str_name(),
    {
        match self {
            Priority::Unset => "UNSET",
            Priority::Min => "MIN",
            Priority::Background => "BACKGROUND",
            Priority::Default => "DEFAULT",
            Priority::Reliable => "RELIABLE",
            Priority::Response => "RESPONSE",
            Priority::High => "HIGH",
            Priority::Alert => "ALERT",
            Priority::Ack => "ACK",
            Priority::Max => "MAX",
        }
    }

    /// Creates an enum from field names used in the ProtoBuf definition.
    pub fn from_str_name(value: &str) -> (r: Option<Self>)
        ensures
            r == Self::named(value@),
    {
        if str_eq(value, "UNSET") {
            proof {
                Self::lemma_named(value@, Priority::Unset);
            }
            return Some(Priority::Unset);
        }
        if str_eq(value, "MIN") {
            proof {
                Self::lemma_named(value@, Priority::Min);
            }
            return Some(Priority::Min);
        }
        if str_eq(value, "BACKGROUND") {
            proof {
                Self::lemma_named(value@, Priority::Background);
            }
            return Some(Priority::Background);
        }
        if str_eq(value, "DEFAULT") {
            proof {
                Self::lemma_named(value@, Priority::Default);
            }
            return Some(Priority::Default);
        }
        if str_eq(value, "RELIABLE") {
            proof {
                Self::lemma_named(value@, Priority::Reliable);
            }
            return Some(Priority::Reliable);
        }
        if str_eq(value, "RESPONSE") {
            proof {
                Self::lemma_named(value@, Priority::Response);
            }
            return Some(Priority::Response);
        }
        if str_eq(value, "HIGH") {
            proof {
                Self::lemma_named(value@, Priority::High);
            }
            return Some(Priority::High);
        }
        if str_eq(value, "ALERT") {
            proof {
                Self::lemma_named(value@, Priority::Alert);
            }
            return Some(Priority::Alert);
        }
        if str_eq(value, "ACK") {
            proof {
                Self::lemma_named(value@, Priority::Ack);
            }
            return Some(Priority::Ack);
        }
        if str_eq(value, "MAX") {
            proof {
                Self::lemma_named(value@, Priority::Max);
            }
            return Some(Priority::Max);
        }
        None
    }

    /// Returns `true` if `value` is a variant of `Priority`.
    pub fn is_valid(value: i32) -> (r: bool)
        ensures
            r == (Self::with_value(value) is Some),
    {
        Self::from_i32(value).is_some()
    }

    /// Converts an `i32` to a `Priority`, or `None` if `value` is not a valid variant.
    pub fn from_i32(value: i32) -> (r: Option<Self>)
        ensures
            r == Self::with_value(value),
    {
        if value == 0 {
            proof {
                Self::lemma_with_value(value, Priority::Unset);
            }
            return Some(Priority::Unset);
        }
        if value == 1 {
            proof {
                Self::lemma_with_value(value, Priority::Min);
            }
            return Some(Priority::Min);
        }
        if value == 10 {
            proof {
                Self::lemma_with_value(value, Priority::Background);
            }
            return Some(Priority::Background);
        }
        if value == 64 {
            proof {
                Self::lemma_with_value(value, Priority::Default);
            }
            return Some(Priority::Default);
        }
        if value == 70 {
            proof {
                Self::lemma_with_value(value, Priority::Reliable);
            }
            return Some(Priority::Reliable);
        }
        if value == 80 {
            proof {
                Self::lemma_with_value(value, Priority::Response);
            }
            return Some(Priority::Response);
        }
        if value == 100 {
            proof {
                Self::lemma_with_value(value, Priority::High);
            }
            return Some(Priority::High);
        }
        if value == 110 {
            proof {
                Self::lemma_with_value(value, Priority::Alert);
            }
            return Some(Priority::Alert);
        }
        if value == 120 {
            proof {
                Self::lemma_with_value(value, Priority::Ack);
            }
            return Some(Priority::Ack);
        }
        if value == 127 {
            proof {
                Self::lemma_with_value(value, Priority::Max);
            }
            return Some(Priority::Max);
        }
        None
    }
}

impl Default for Priority {
    /// The variant numbered 0, the default value of the field in ProtoBuf.
    fn default() -> (r: Self)
        ensures
            r == Self::default_variant(),
            r.value() == 0,
    {
        Priority::Unset
    }
}

impl From<Priority> for i32 {
    fn from(value: Priority) -> (r: i32) {
        match value {
            Priority::Unset => 0,
            Priority::Min => 1,
            Priority::Background => 10,
            Priority::Default => 64,
            Priority::Reliable => 70,
            Priority::Response => 80,
            Priority::High => 100,
            Priority::Alert => 110,
            Priority::Ack => 120,
            Priority::Max => 127,
        }
    }
}

impl TryFrom<i32> for Priority {
    type Error = prost::UnknownEnumValue;

    fn try_from(value: i32) -> (r: Result<Priority, prost::UnknownEnumValue>)
        ensures
            r matches Ok(e) ==> e.value() == value,
            (exists|e: Priority| #[trigger] e.value() == value) ==> r is Ok,
            r is Err ==> r == Err::<Priority, prost::UnknownEnumValue>(crate::enum_error::unknown_enum_value(value)),
    {
        proof {
            if exists|e: Priority| #[trigger] e.value() == value {
                let e = choose|e: Priority| #[trigger] e.value() == value;
                Priority::lemma_with_value(value, e);
            }
        }
        match Priority::from_i32(value) {
            Some(e) => Ok(e),
            None => Err(make_unknown_enum_value(value)),
        }
    }
}

impl vstd::std_specs::convert::TryFromSpecImpl<i32> for Priority {
    open spec fn obeys_try_from_spec() -> bool {
        true
    }

    open spec fn try_from_spec(value: i32) -> Result<Priority, prost::UnknownEnumValue> {
        match Priority::with_value(value) {
            Some(e) => Ok(e),
            None => Err(crate::enum_error::unknown_enum_value(value)),
        }
    }
}

impl vstd::std_specs::convert::FromSpecImpl<Priority> for i32 {
    open spec fn obeys_from_spec() -> bool {
        true
    }

    open spec fn from_spec(value: Priority) -> i32 {
        value.value()
    }
}

/// Identify if this is a delayed packet
#[derive(Clone, Copy, Debug, PartialEq, Eq, Hash, PartialOrd, Ord)]
pub enum Delayed {
    /// If unset, the message is being sent in real time.
    NoDelay,
    /// The message is delayed and was originally a broadcast
    Broadcast,
    /// The message is delayed and was originally a direct message
    Direct,
}

impl Delayed {
    /// The name of this variant in the ProtoBuf definition.
    pub open spec fn str_name(self) -> Seq<char> {
        match self {
            Delayed::NoDelay => "NO_DELAY"@,
            Delayed::Broadcast => "DELAYED_BROADCAST"@,
            Delayed::Direct => "DELAYED_DIRECT"@,
        }
    }

    /// The number of this variant in the ProtoBuf definition.
    pub open spec fn value(self) -> i32 {
        match self {
            Delayed::NoDelay => 0,
            Delayed::Broadcast => 1,
            Delayed::Direct => 2,
        }
    }

    /// The variant numbered 0, which a field holds when it is not set.
    pub open spec fn default_variant() -> Self {
        Delayed::NoDelay
    }

    /// The variant numbered `value`, or the default variant when no variant has that number:
    /// what a message field holding `value` reads as.
    pub open spec fn from_number_or_default(value: i32) -> Self {
        match Self::with_value(value) {
            Some(e) => e,
            None => Self::default_variant(),
        }
    }

    /// The variant whose ProtoBuf name is `name`, if there is one.
    pub open spec fn named(name: Seq<char>) -> Option<Self> {
        if exists|e: Self| #[trigger] e.str_name() == name {
            Some(choose|e: Self| #[trigger] e.str_name() == name)
        } else {
            None
        }
    }

    /// The variant whose ProtoBuf number is `value`, if there is one.
    pub open spec fn with_value(value: i32) -> Option<Self> {
        if exists|e: Self| #[trigger] e.value() == value {
            Some(choose|e: Self| #[trigger] e.value() == value)
        } else {
            None
        }
    }

    spec fn name_lookup(name: Seq<char>) -> Option<Self> {
        if name == "NO_DELAY"@ {
            Some(Delayed::NoDelay)
        } else if name == "DELAYED_BROADCAST"@ {
            Some(Delayed::Broadcast)
        } else if name == "DELAYED_DIRECT"@ {
            Some(Delayed::Direct)
        } else {
            None
        }
    }

    spec fn value_lookup(value: i32) -> Option<Self> {
        if value == 0 {
            Some(Delayed::NoDelay)
        } else if value == 1 {
            Some(Delayed::Broadcast)
        } else if value == 2 {
            Some(Delayed::Direct)
        } else {
            None
        }
    }

    proof fn lemma_lookups()
        ensures
            forall|e: Self| #[trigger] Self::name_lookup(e.str_name()) == Some(e),
            forall|e: Self| #[trigger] Self::value_lookup(e.value()) == Some(e),
    {
        reveal_strlit("NO_DELAY");
        assert("NO_DELAY"@.len() == 8);
        reveal_strlit("DELAYED_BROADCAST");
        assert("DELAYED_BROADCAST"@.len() == 17);
        reveal_strlit("DELAYED_DIRECT");
        assert("DELAYED_DIRECT"@.len() == 14);
    }

    /// Distinct variants have distinct ProtoBuf names and distinct ProtoBuf numbers.
    pub proof fn lemma_injective(a: Self, b: Self)
        ensures
            a.str_name() == b.str_name() ==> a == b,
            a.value() == b.value() ==> a == b,
    {
        Self::lemma_lookups();
        assert(Self::name_lookup(a.str_name()) == Some(a));
        assert(Self::name_lookup(b.str_name()) == Some(b));
        assert(Self::value_lookup(a.value()) == Some(a));
        assert(Self::value_lookup(b.value()) == Some(b));
    }

    /// A name denotes a variant exactly when it is that variant's ProtoBuf name:
    /// `from_str_name` undoes `as_str_name`, and accepts nothing else.
    pub proof fn lemma_named(name: Seq<char>, e: Self)
        ensures
            Self::named(name) == Some(e) <==> e.str_name() == name,
    {
        if e.str_name() == name {
            let x = choose|x: Self| #[trigger] x.str_name() == name;
            Self::lemma_injective(x, e);
        }
    }

    /// A number denotes a variant exactly when it is that variant's ProtoBuf number:
    /// `from_i32` undoes the conversion to `i32`, and accepts nothing else.
    pub proof fn lemma_with_value(value: i32, e: Self)
        ensures
            Self::with_value(value) == Some(e) <==> e.value() == value,
    {
        if e.value() == value {
            let x = choose|x: Self| #[trigger] x.value() == value;
            Self::lemma_injective(x, e);
        }
    }

    /// What a field holding `value` reads as: the variant numbered `value` when some variant
    /// has that number, and otherwise the variant numbered 0.
    pub proof fn lemma_number_or_default(value: i32)
        ensures
            (exists|e: Self| #[trigger] e.value() == value) ==> Self::from_number_or_default(value).value() == value,
            (forall|e: Self| #[trigger] e.value() != value) ==> Self::from_number_or_default(value).value() == 0,
            (forall|e: Self| #[trigger] e.value() != value) ==> Self::from_number_or_default(value) == Self::default_variant(),
            Self::default_variant().value() == 0,
    {
        if exists|e: Self| #[trigger] e.value() == value {
            let e = choose|e: Self| #[trigger] e.value() == value;
            Self::lemma_with_value(value, e);
        }
    }

    /// `try_from` accepts exactly the numbers that variants have and gives back the variant with
    /// that number; every other number it rejects with the error that records that number.
    pub proof fn lemma_try_from(value: i32, e: Self)
        ensures
            (<Self as vstd::std_specs::convert::TryFromSpec<i32>>::try_from_spec(value) == Ok::<Self, prost::UnknownEnumValue>(e)) <==> e.value() == value,
            (forall|x: Self| #[trigger] x.value() != value) ==> <Self as vstd::std_specs::convert::TryFromSpec<i32>>::try_from_spec(value) == Err::<Self, prost::UnknownEnumValue>(crate::enum_error::unknown_enum_value(value)),
            (exists|x: Self| #[trigger] x.value() == value) ==> <Self as vstd::std_specs::convert::TryFromSpec<i32>>::try_from_spec(value) is Ok,
    {
        Self::lemma_with_value(value, e);
        if exists|x: Self| #[trigger] x.value() == value {
            let x = choose|x: Self| #[trigger] x.value() == value;
            Self::lemma_with_value(value, x);
        }
    }

    /// Reading back the number of a variant gives that variant: a field set to `e` reads as `e`.
    pub proof fn lemma_read_after_write(e: Self)
        ensures
            Self::from_number_or_default(e.value()) == e,
    {
        Self::lemma_with_value(e.value(), e);
    }

    /// String value of the enum field names used in the ProtoBuf definition.
    ///
    /// The values are not transformed in any way and thus are considered stable
    /// (if the ProtoBuf definition does not change) and safe for programmatic use.
    pub fn as_str_name(&self) -> (name: &'static str)
        ensures
            name@ == self.str_name(),
    {
        match self {
            Delayed::NoDelay => "NO_DELAY",
            Delayed::Broadcast => "DELAYED_BROADCAST",
            Delayed::Direct => "DELAYED_DIRECT",
        }
    }

    /// Creates an enum from field names used in the ProtoBuf definition.
    pub fn from_str_name(value: &str) -> (r: Option<Self>)
        ensures
            r == Self::named(value@),
    {
        if str_eq(value, "NO_DELAY") {
            proof {
                Self::lemma_named(value@, Delayed::NoDelay);
            }
            return Some(Delayed::NoDelay);
        }
        if str_eq(value, "DELAYED_BROADCAST") {
            proof {
                Self::lemma_named(value@, Delayed::Broadcast);
            }
            return Some(Delayed::Broadcast);
        }
        if str_eq(value, "DELAYED_DIRECT") {
            proof {
                Self::lemma_named(value@, Delayed::Direct);
            }
            return Some(Delayed::Direct);
        }
        None
    }

    /// Returns `true` if `value` is a variant of `Delayed`.
    pub fn is_valid(value: i32) -> (r: bool)
        ensures
            r == (Self::with_value(value) is Some),
    {
        Self::from_i32(value).is_some()
    }

    /// Converts an `i32` to a `Delayed`, or `None` if `value` is not a valid variant.
    pub fn from_i32(value: i32) -> (r: Option<Self>)
        ensures
            r == Self::with_value(value),
    {
        if value == 0 {
            proof {
                Self::lemma_with_value(value, Delayed::NoDelay);
            }
            return Some(Delayed::NoDelay);
        }
        if value == 1 {
            proof {
                Self::lemma_with_value(value, Delayed::Broadcast);
            }
            return Some(Delayed::Broadcast);
        }
        if value == 2 {
            proof {
                Self::lemma_with_value(value, Delayed::Direct);
            }
            return Some(Delayed::Direct);
        }
        None
    }
}

impl Default for Delayed {
    /// The variant numbered 0, the default value of the field in ProtoBuf.
    fn default() -> (r: Self)
        ensures
            r == Self::default_variant(),
            r.value() == 0,
    {
        Delayed::NoDelay
    }
}

impl From<Delayed> for i32 {
    fn from(value: Delayed) -> (r: i32) {
        match value {
            Delayed::NoDelay => 0,
            Delayed::Broadcast => 1,
            Delayed::Direct => 2,
        }
    }
}

impl TryFrom<i32> for Delayed {
    type Error = prost::UnknownEnumValue;

    fn try_from(value: i32) -> (r: Result<Delayed, prost::UnknownEnumValue>)
        ensures
            r matches Ok(e) ==> e.value() == value,
            (exists|e: Delayed| #[trigger] e.value() == value) ==> r is Ok,
            r is Err ==> r == Err::<Delayed, prost::UnknownEnumValue>(crate::enum_error::unknown_enum_value(value)),
    {
        proof {
            if exists|e: Delayed| #[trigger] e.value() == value {
                let e = choose|e: Delayed| #[trigger] e.value() == value;
                Delayed::lemma_with_value(value, e);
            }
        }
        match Delayed::from_i32(value) {
            Some(e) => Ok(e),
            None => Err(make_unknown_enum_value(value)),
        }
    }
}

impl vstd::std_specs::convert::TryFromSpecImpl<i32> for Delayed {
    open spec fn obeys_try_from_spec() -> bool {
        true
    }

    open spec fn try_from_spec(value: i32) -> Result<Delayed, prost::UnknownEnumValue> {
        match Delayed::with_value(value) {
            Some(e) => Ok(e),
            None => Err(crate::enum_error::unknown_enum_value(value)),
        }
    }
}

impl vstd::std_specs::convert::FromSpecImpl<Delayed> for i32 {
    open spec fn obeys_from_spec() -> bool {
        true
    }

    open spec fn from_spec(value: Delayed) -> i32 {
        value.value()
    }
}

#[derive(Clone, Debug, PartialEq)]
pub enum PayloadVariant {
    Decoded(crate::Data),
    Encrypted(Vec<u8>),
}

} // verus!
