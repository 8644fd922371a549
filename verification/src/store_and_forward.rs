//! Nested message and enum types in `StoreAndForward`.

use vstd::prelude::*;
use crate::enum_error::make_unknown_enum_value;
use crate::text::str_eq;

verus! {

#[derive(Clone, Debug, PartialEq)]
pub struct Statistics {
    /// Number of messages we have ever seen
    pub messages_total: u32,
    /// Number of messages we have currently saved our history.
    pub messages_saved: u32,
    /// Maximum number of messages we will save
    pub messages_max: u32,
    /// Router uptime in seconds
    pub up_time: u32,
    /// Number of times any client sent a request to the S&F.
    pub requests: u32,
    /// Number of times the history was requested.
    pub requests_history: u32,
    /// Is the heartbeat enabled on the server?
    pub heartbeat: bool,
    /// Maximum number of messages the server will return.
    pub return_max: u32,
    /// Maximum history window in minutes the server will return messages from.
    pub return_window: u32,
}

impl Default for Statistics {
    /// The message with every field unset: numbers 0, flags false, strings, bytes and lists
    /// empty, and no nested message.
    fn default() -> (r: Self)
        ensures
            r.messages_total == 0,
            r.messages_saved == 0,
            r.messages_max == 0,
            r.up_time == 0,
            r.requests == 0,
            r.requests_history == 0,
            r.heartbeat == false,
            r.return_max == 0,
            r.return_window == 0,
    {
        Statistics {
            messages_total: 0,
            messages_saved: 0,
            messages_max: 0,
            up_time: 0,
            requests: 0,
            requests_history: 0,
            heartbeat: false,
            return_max: 0,
            return_window: 0,
        }
    }
}

#[derive(Clone, Debug, PartialEq)]
pub struct History {
    /// Number of that will be sent to the client
    pub history_messages: u32,
    /// The window of messages that was used to filter the history client requested
    pub window: u32,
    /// Index in the packet history of the last message sent in a previous request to the server.
    /// Will be sent to the client before sending the history and can be set in a subsequent request to avoid getting packets the server already sent to the client.
    pub last_request: u32,
}

impl Default for History {
    /// The message with every field unset: numbers 0, flags false, strings, bytes and lists
    /// empty, and no nested message.
    fn default() -> (r: Self)
        ensures
            r.history_messages == 0,
            r.window == 0,
            r.last_request == 0,
    {
        History {
            history_messages: 0,
            window: 0,
            last_request: 0,
        }
    }
}

#[derive(Clone, Debug, PartialEq)]
pub struct Heartbeat {
    /// Period in seconds that the heartbeat is sent out that will be sent to the client
    pub period: u32,
    /// If set, this is not the primary Store & Forward router on the mesh
    pub secondary: u32,
}

impl Default for Heartbeat {
    /// The message with every field unset: numbers 0, flags false, strings, bytes and lists
    /// empty, and no nested message.
    fn default() -> (r: Self)
        ensures
            r.period == 0,
            r.secondary == 0,
    {
        Heartbeat {
            period: 0,
            secondary: 0,
        }
    }
}

/// 001 - 063 = From Router
/// 064 - 127 = From Client
#[derive(Clone, Copy, Debug, PartialEq, Eq, Hash, PartialOrd, Ord)]
pub enum RequestResponse {
    /// Unset/unused
    Unset,
    /// Router is an in error state.
    RouterError,
    /// Router heartbeat
    RouterHeartbeat,
    /// Router has requested the client respond. This can work as a
    /// "are you there" message.
    RouterPing,
    /// The response to a "Ping"
    RouterPong,
    /// Router is currently busy. Please try again later.
    RouterBusy,
    /// Router is responding to a request for history.
    RouterHistory,
    /// Router is responding to a request for stats.
    RouterStats,
    /// Router sends a text message from its history that was a direct message.
    RouterTextDirect,
    /// Router sends a text message from its history that was a broadcast.
    RouterTextBroadcast,
    /// Client is an in error state.
    ClientError,
    /// Client has requested a replay from the router.
    ClientHistory,
    /// Client has requested stats from the router.
    ClientStats,
    /// Client has requested the router respond. This can work as a
    /// "are you there" message.
    ClientPing,
    /// The response to a "Ping"
    ClientPong,
    /// Client has requested that the router abort processing the client's request
    ClientAbort,
}

impl RequestResponse {
    /// The name of this variant in the ProtoBuf definition.
    pub open spec fn str_name(self) -> Seq<char> {
        match self {
            RequestResponse::Unset => "UNSET"@,
            RequestResponse::RouterError => "ROUTER_ERROR"@,
            RequestResponse::RouterHeartbeat => "ROUTER_HEARTBEAT"@,
            RequestResponse::RouterPing => "ROUTER_PING"@,
            RequestResponse::RouterPong => "ROUTER_PONG"@,
            RequestResponse::RouterBusy => "ROUTER_BUSY"@,
            RequestResponse::RouterHistory => "ROUTER_HISTORY"@,
            RequestResponse::RouterStats => "ROUTER_STATS"@,
            RequestResponse::RouterTextDirect => "ROUTER_TEXT_DIRECT"@,
            RequestResponse::RouterTextBroadcast => "ROUTER_TEXT_BROADCAST"@,
            RequestResponse::ClientError => "CLIENT_ERROR"@,
            RequestResponse::ClientHistory => "CLIENT_HISTORY"@,
            RequestResponse::ClientStats => "CLIENT_STATS"@,
            RequestResponse::ClientPing => "CLIENT_PING"@,
            RequestResponse::ClientPong => "CLIENT_PONG"@,
            RequestResponse::ClientAbort => "CLIENT_ABORT"@,
        }
    }

    /// The number of this variant in the ProtoBuf definition.
    pub open spec fn value(self) -> i32 {
        match self {
            RequestResponse::Unset => 0,
            RequestResponse::RouterError => 1,
            RequestResponse::RouterHeartbeat => 2,
            RequestResponse::RouterPing => 3,
            RequestResponse::RouterPong => 4,
            RequestResponse::RouterBusy => 5,
            RequestResponse::RouterHistory => 6,
            RequestResponse::RouterStats => 7,
            RequestResponse::RouterTextDirect => 8,
            RequestResponse::RouterTextBroadcast => 9,
            RequestResponse::ClientError => 64,
            RequestResponse::ClientHistory => 65,
            RequestResponse::ClientStats => 66,
            RequestResponse::ClientPing => 67,
            RequestResponse::ClientPong => 68,
            RequestResponse::ClientAbort => 106,
        }
    }

    /// The variant numbered 0, which a field holds when it is not set.
    pub open spec fn default_variant() -> Self {
        RequestResponse::Unset
    }

    /// The variant numbered `value`, or the default variant when no variant has that number:
    /// what a message field holding `value` reads as.
    pub open spec fn from_number_or_default(value: i32) -> Self {
        match Self::with_value(value) {
            Some(e) => e,
            None => Self::default_variant(),
        }
    }

    /// The variant whose ProtoBuf name is `name`, if there is one.
    pub open spec fn named(name: Seq<char>) -> Option<Self> {
        if exists|e: Self| #[trigger] e.str_name() == name {
            Some(choose|e: Self| #[trigger] e.str_name() == name)
        } else {
            None
        }
    }

    /// The variant whose ProtoBuf number is `value`, if there is one.
    pub open spec fn with_value(value: i32) -> Option<Self> {
        if exists|e: Self| #[trigger] e.value() == value {
            Some(choose|e: Self| #[trigger] e.value() == value)
        } else {
            None
        }
    }

    spec fn name_lookup(name: Seq<char>) -> Option<Self> {
        if name == "UNSET"@ {
            Some(RequestResponse::Unset)
        } else if name == "ROUTER_ERROR"@ {
            Some(RequestResponse::RouterError)
        } else if name == "ROUTER_HEARTBEAT"@ {
            Some(RequestResponse::RouterHeartbeat)
        } else if name == "ROUTER_PING"@ {
            Some(RequestResponse::RouterPing)
        } else if name == "ROUTER_PONG"@ {
            Some(RequestResponse::RouterPong)
        } else if name == "ROUTER_BUSY"@ {
            Some(RequestResponse::RouterBusy)
        } else if name == "ROUTER_HISTORY"@ {
            Some(RequestResponse::RouterHistory)
        } else if name == "ROUTER_STATS"@ {
            Some(RequestResponse::RouterStats)
        } else if name == "ROUTER_TEXT_DIRECT"@ {
            Some(RequestResponse::RouterTextDirect)
        } else if name == "ROUTER_TEXT_BROADCAST"@ {
            Some(RequestResponse::RouterTextBroadcast)
        } else if name == "CLIENT_ERROR"@ {
            Some(RequestResponse::ClientError)
        } else if name == "CLIENT_HISTORY"@ {
            Some(RequestResponse::ClientHistory)
        } else if name == "CLIENT_STATS"@ {
            Some(RequestResponse::ClientStats)
        } else if name == "CLIENT_PING"@ {
            Some(RequestResponse::ClientPing)
        } else if name == "CLIENT_PONG"@ {
            Some(RequestResponse::ClientPong)
        } else if name == "CLIENT_ABORT"@ {
            Some(RequestResponse::ClientAbort)
        } else {
            None
        }
    }

    spec fn value_lookup(value: i32) -> Option<Self> {
        if value == 0 {
            Some(RequestResponse::Unset)
        } else if value == 1 {
            Some(RequestResponse::RouterError)
        } else if value == 2 {
            Some(RequestResponse::RouterHeartbeat)
        } else if value == 3 {
            Some(RequestResponse::RouterPing)
        } else if value == 4 {
            Some(RequestResponse::RouterPong)
        } else if value == 5 {
            Some(RequestResponse::RouterBusy)
        } else if value == 6 {
            Some(RequestResponse::RouterHistory)
        } else if value == 7 {
            Some(RequestResponse::RouterStats)
        } else if value == 8 {
            Some(RequestResponse::RouterTextDirect)
        } else if value == 9 {
            Some(RequestResponse::RouterTextBroadcast)
        } else if value == 64 {
            Some(RequestResponse::ClientError)
        } else if value == 65 {
            Some(RequestResponse::ClientHistory)
        } else if value == 66 {
            Some(RequestResponse::ClientStats)
        } else if value == 67 {
            Some(RequestResponse::ClientPing)
        } else if value == 68 {
            Some(RequestResponse::ClientPong)
        } else if value == 106 {
            Some(RequestResponse::ClientAbort)
        } else {
            None
        }
    }

    proof fn lemma_lookups()
        ensures
            forall|e: Self| #[trigger] Self::name_lookup(e.str_name()) == Some(e),
            forall|e: Self| #[trigger] Self::value_lookup(e.value()) == Some(e),
    {
        reveal_strlit("UNSET");
        assert("UNSET"@.len() == 5);
        reveal_strlit("ROUTER_ERROR");
        assert("ROUTER_ERROR"@.len() == 12);
        assert("ROUTER_ERROR"@[0] == 'R');
        assert("ROUTER_ERROR"@[7] == 'E');
        reveal_strlit("ROUTER_HEARTBEAT");
        assert("ROUTER_HEARTBEAT"@.len() == 16);
        reveal_strlit("ROUTER_PING");
        assert("ROUTER_PING"@.len() == 11);
        assert("ROUTER_PING"@[0] == 'R');
        assert("ROUTER_PING"@[7] == 'P');
        assert("ROUTER_PING"@[8] == 'I');
        reveal_strlit("ROUTER_PONG");
        assert("ROUTER_PONG"@.len() == 11);
        assert("ROUTER_PONG"@[0] == 'R');
        assert("ROUTER_PONG"@[7] == 'P');
        assert("ROUTER_PONG"@[8] == 'O');
        reveal_strlit("ROUTER_BUSY");
        assert("ROUTER_BUSY"@.len() == 11);
        assert("ROUTER_BUSY"@[0] == 'R');
        assert("ROUTER_BUSY"@[7] == 'B');
        reveal_strlit("ROUTER_HISTORY");
        assert("ROUTER_HISTORY"@.len() == 14);
        assert("ROUTER_HISTORY"@[0] == 'R');
        reveal_strlit("ROUTER_STATS");
        assert("ROUTER_STATS"@.len() == 12);
        assert("ROUTER_STATS"@[0] == 'R');
        assert("ROUTER_STATS"@[7] == 'S');
        reveal_strlit("ROUTER_TEXT_DIRECT");
        assert("ROUTER_TEXT_DIRECT"@.len() == 18);
        reveal_strlit("ROUTER_TEXT_BROADCAST");
        assert("ROUTER_TEXT_BROADCAST"@.len() == 21);
        reveal_strlit("CLIENT_ERROR");
        assert("CLIENT_ERROR"@.len() == 12);
        assert("CLIENT_ERROR"@[0] == 'C');
        assert("CLIENT_ERROR"@[7] == 'E');
        reveal_strlit("CLIENT_HISTORY");
        assert("CLIENT_HISTORY"@.len() == 14);
        assert("CLIENT_HISTORY"@[0] == 'C');
        reveal_strlit("CLIENT_STATS");
        assert("CLIENT_STATS"@.len() == 12);
        assert("CLIENT_STATS"@[0] == 'C');
        assert("CLIENT_STATS"@[7] == 'S');
        reveal_strlit("CLIENT_PING");
        assert("CLIENT_PING"@.len() == 11);
        assert("CLIENT_PING"@[0] == 'C');
        assert("CLIENT_PING"@[8] == 'I');
        reveal_strlit("CLIENT_PONG");
        assert("CLIENT_PONG"@.len() == 11);
        assert("CLIENT_PONG"@[0] == 'C');
        assert("CLIENT_PONG"@[8] == 'O');
        reveal_strlit("CLIENT_ABORT");
        assert("CLIENT_ABORT"@.len() == 12);
        assert("CLIENT_ABORT"@[0] == 'C');
        assert("CLIENT_ABORT"@[7] == 'A');
    }

    /// Distinct variants have distinct ProtoBuf names and distinct ProtoBuf numbers.
    pub proof fn lemma_injective(a: Self, b: Self)
        ensures
            a.str_name() == b.str_name() ==> a == b,
            a.value() == b.value() ==> a == b,
    {
        Self::lemma_lookups();
        assert(Self::name_lookup(a.str_name()) == Some(a));
        assert(Self::name_lookup(b.str_name()) == Some(b));
        assert(Self::value_lookup(a.value()) == Some(a));
        assert(Self::value_lookup(b.value()) == Some(b));
    }

    /// A name denotes a variant exactly when it is that variant's ProtoBuf name:
    /// `from_str_name` undoes `as_str_name`, and accepts nothing else.
    pub proof fn lemma_named(name: Seq<char>, e: Self)
        ensures
            Self::named(name) == Some(e) <==> e.str_name() == name,
    {
        if e.str_name() == name {
            let x = choose|x: Self| #[trigger] x.str_name() == name;
            Self::lemma_injective(x, e);
        }
    }

    /// A number denotes a variant exactly when it is that variant's ProtoBuf number:
    /// `from_i32` undoes the conversion to `i32`, and accepts nothing else.
    pub proof fn lemma_with_value(value: i32, e: Self)
        ensures
            Self::with_value(value) == Some(e) <==> e.value() == value,
    {
        if e.value() == value {
            let x = choose|x: Self| #[trigger] x.value() == value;
            Self::lemma_injective(x, e);
        }
    }

    /// What a field holding `value` reads as: the variant numbered `value` when some variant
    /// has that number, and otherwise the variant numbered 0.
    pub proof fn lemma_number_or_default(value: i32)
        ensures
            (exists|e: Self| #[trigger] e.value() == value) ==> Self::from_number_or_default(value).value() == value,
            (forall|e: Self| #[trigger] e.value() != value) ==> Self::from_number_or_default(value).value() == 0,
            (forall|e: Self| #[trigger] e.value() != value) ==> Self::from_number_or_default(value) == Self::default_variant(),
            Self::default_variant().value() == 0,
    {
        if exists|e: Self| #[trigger] e.value() == value {
            let e = choose|e: Self| #[trigger] e.value() == value;
            Self::lemma_with_value(value, e);
        }
    }

    /// `try_from` accepts exactly the numbers that variants have and gives back the variant with
    /// that number; every other number it rejects with the error that records that number.
    pub proof fn lemma_try_from(value: i32, e: Self)
        ensures
            (<Self as vstd::std_specs::convert::TryFromSpec<i32>>::try_from_spec(value) == Ok::<Self, prost::UnknownEnumValue>(e)) <==> e.value() == value,
            (forall|x: Self| #[trigger] x.value() != value) ==> <Self as vstd::std_specs::convert::TryFromSpec<i32>>::try_from_spec(value) == Err::<Self, prost::UnknownEnumValue>(crate::enum_error::unknown_enum_value(value)),
            (exists|x: Self| #[trigger] x.value() == value) ==> <Self as vstd::std_specs::convert::TryFromSpec<i32>>::try_from_spec(value) is Ok,
    {
        Self::lemma_with_value(value, e);
        if exists|x: Self| #[trigger] x.value() == value {
            let x = choose|x: Self| #[trigger] x.value() == value;
            Self::lemma_with_value(value, x);
        }
    }

    /// Reading back the number of a variant gives that variant: a field set to `e` reads as `e`.
    pub proof fn lemma_read_after_write(e: Self)
        ensures
            Self::from_number_or_default(e.value()) == e,
    {
        Self::lemma_with_value(e.value(), e);
    }

    /// String value of the enum field names used in the ProtoBuf definition.
    ///
    /// The values are not transformed in any way and thus are considered stable
    /// (if the ProtoBuf definition does not change) and safe for programmatic use.
    pub fn as_str_name(&self) -> (name: &'static str)
        ensures
            name@ == self.str_name(),
    {
        match self {
            RequestResponse::Unset => "UNSET",
            RequestResponse::RouterError => "ROUTER_ERROR",
            RequestResponse::RouterHeartbeat => "ROUTER_HEARTBEAT",
            RequestResponse::RouterPing => "ROUTER_PING",
            RequestResponse::RouterPong => "ROUTER_PONG",
            RequestResponse::RouterBusy => "ROUTER_BUSY",
            RequestResponse::RouterHistory => "ROUTER_HISTORY",
            RequestResponse::RouterStats => "ROUTER_STATS",
            RequestResponse::RouterTextDirect => "ROUTER_TEXT_DIRECT",
            RequestResponse::RouterTextBroadcast => "ROUTER_TEXT_BROADCAST",
            RequestResponse::ClientError => "CLIENT_ERROR",
            RequestResponse::ClientHistory => "CLIENT_HISTORY",
            RequestResponse::ClientStats => "CLIENT_STATS",
            RequestResponse::ClientPing => "CLIENT_PING",
            RequestResponse::ClientPong => "CLIENT_PONG",
            RequestResponse::ClientAbort => "CLIENT_ABORT",
        }
    }

    /// Creates an enum from field names used in the ProtoBuf definition.
    pub fn from_str_name(value: &str) -> (r: Option<Self>)
        ensures
            r == Self::named(value@),
    {
        if str_eq(value, "UNSET") {
            proof {
                Self::lemma_named(value@, RequestResponse::Unset);
            }
            return Some(RequestResponse::Unset);
        }
        if str_eq(value, "ROUTER_ERROR") {
            proof {
                Self::lemma_named(value@, RequestResponse::RouterError);
            }
            return Some(RequestResponse::RouterError);
        }
        if str_eq(value, "ROUTER_HEARTBEAT") {
            proof {
                Self::lemma_named(value@, RequestResponse::RouterHeartbeat);
            }
            return Some(RequestResponse::RouterHeartbeat);
        }
        if str_eq(value, "ROUTER_PING") {
            proof {
                Self::lemma_named(value@, RequestResponse::RouterPing);
            }
            return Some(RequestResponse::RouterPing);
        }
        if str_eq(value, "ROUTER_PONG") {
            proof {
                Self::lemma_named(value@, RequestResponse::RouterPong);
            }
            return Some(RequestResponse::RouterPong);
        }
        if str_eq(value, "ROUTER_BUSY") {
            proof {
                Self::lemma_named(value@, RequestResponse::RouterBusy);
            }
            return Some(RequestResponse::RouterBusy);
        }
        if str_eq(value, "ROUTER_HISTORY") {
            proof {
                Self::lemma_named(value@, RequestResponse::RouterHistory);
            }
            return Some(RequestResponse::RouterHistory);
        }
        if str_eq(value, "ROUTER_STATS") {
            proof {
                Self::lemma_named(value@, RequestResponse::RouterStats);
            }
            return Some(RequestResponse::RouterStats);
        }
        if str_eq(value, "ROUTER_TEXT_DIRECT") {
            proof {
                Self::lemma_named(value@, RequestResponse::RouterTextDirect);
            }
            return Some(RequestResponse::RouterTextDirect);
        }
        if str_eq(value, "ROUTER_TEXT_BROADCAST") {
            proof {
                Self::lemma_named(value@, RequestResponse::RouterTextBroadcast);
            }
            return Some(RequestResponse::RouterTextBroadcast);
        }
        if str_eq(value, "CLIENT_ERROR") {
            proof {
                Self::lemma_named(value@, RequestResponse::ClientError);
            }
            return Some(RequestResponse::ClientError);
        }
        if str_eq(value, "CLIENT_HISTORY") {
            proof {
                Self::lemma_named(value@, RequestResponse::ClientHistory);
            }
            return Some(RequestResponse::ClientHistory);
        }
        if str_eq(value, "CLIENT_STATS") {
            proof {
                Self::lemma_named(value@, RequestResponse::ClientStats);
            }
            return Some(RequestResponse::ClientStats);
        }
        if str_eq(value, "CLIENT_PING") {
            proof {
                Self::lemma_named(value@, RequestResponse::ClientPing);
            }
            return Some(RequestResponse::ClientPing);
        }
        if str_eq(value, "CLIENT_PONG") {
            proof {
                Self::lemma_named(value@, RequestResponse::ClientPong);
            }
            return Some(RequestResponse::ClientPong);
        }
        if str_eq(value, "CLIENT_ABORT") {
            proof {
                Self::lemma_named(value@, RequestResponse::ClientAbort);
            }
            return Some(RequestResponse::ClientAbort);
        }
        None
    }

    /// Returns `true` if `value` is a variant of `RequestResponse`.
    pub fn is_valid(value: i32) -> (r: bool)
        ensures
            r == (Self::with_value(value) is Some),
    {
        Self::from_i32(value).is_some()
    }

    /// Converts an `i32` to a `RequestResponse`, or `None` if `value` is not a valid variant.
    pub fn from_i32(value: i32) -> (r: Option<Self>)
        ensures
            r == Self::with_value(value),
    {
        if value == 0 {
            proof {
                Self::lemma_with_value(value, RequestResponse::Unset);
            }
            return Some(RequestResponse::Unset);
        }
        if value == 1 {
            proof {
                Self::lemma_with_value(value, RequestResponse::RouterError);
            }
            return Some(RequestResponse::RouterError);
        }
        if value == 2 {
            proof {
                Self::lemma_with_value(value, RequestResponse::RouterHeartbeat);
            }
            return Some(RequestResponse::RouterHeartbeat);
        }
        if value == 3 {
            proof {
                Self::lemma_with_value(value, RequestResponse::RouterPing);
            }
            return Some(RequestResponse::RouterPing);
        }
        if value == 4 {
            proof {
                Self::lemma_with_value(value, RequestResponse::RouterPong);
            }
            return Some(RequestResponse::RouterPong);
        }
        if value == 5 {
            proof {
                Self::lemma_with_value(value, RequestResponse::RouterBusy);
            }
            return Some(RequestResponse::RouterBusy);
        }
        if value == 6 {
            proof {
                Self::lemma_with_value(value, RequestResponse::RouterHistory);
            }
            return Some(RequestResponse::RouterHistory);
        }
        if value == 7 {
            proof {
                Self::lemma_with_value(value, RequestResponse::RouterStats);
            }
            return Some(RequestResponse::RouterStats);
        }
        if value == 8 {
            proof {
                Self::lemma_with_value(value, RequestResponse::RouterTextDirect);
            }
            return Some(RequestResponse::RouterTextDirect);
        }
        if value == 9 {
            proof {
                Self::lemma_with_value(value, RequestResponse::RouterTextBroadcast);
            }
            return Some(RequestResponse::RouterTextBroadcast);
        }
        if value == 64 {
            proof {
                Self::lemma_with_value(value, RequestResponse::ClientError);
            }
            return Some(RequestResponse::ClientError);
        }
        if value == 65 {
            proof {
                Self::lemma_with_value(value, RequestResponse::ClientHistory);
            }
            return Some(RequestResponse::ClientHistory);
        }
        if value == 66 {
            proof {
                Self::lemma_with_value(value, RequestResponse::ClientStats);
            }
            return Some(RequestResponse::ClientStats);
        }
        if value == 67 {
            proof {
                Self::lemma_with_value(value, RequestResponse::ClientPing);
            }
            return Some(RequestResponse::ClientPing);
        }
        if value == 68 {
            proof {
                Self::lemma_with_value(value, RequestResponse::ClientPong);
            }
            return Some(RequestResponse::ClientPong);
        }
        if value == 106 {
            proof {
                Self::lemma_with_value(value, RequestResponse::ClientAbort);
            }
            return Some(RequestResponse::ClientAbort);
        }
        None
    }
}

impl Default for RequestResponse {
    /// The variant numbered 0, the default value of the field in ProtoBuf.
    fn default() -> (r: Self)
        ensures
            r == Self::default_variant(),
            r.value() == 0,
    {
        RequestResponse::Unset
    }
}

impl From<RequestResponse> for i32 {
    fn from(value: RequestResponse) -> (r: i32) {
        match value {
            RequestResponse::Unset => 0,
            RequestResponse::RouterError => 1,
            RequestResponse::RouterHeartbeat => 2,
            RequestResponse::RouterPing => 3,
            RequestResponse::RouterPong => 4,
            RequestResponse::RouterBusy => 5,
            RequestResponse::RouterHistory => 6,
            RequestResponse::RouterStats => 7,
            RequestResponse::RouterTextDirect => 8,
            RequestResponse::RouterTextBroadcast => 9,
            RequestResponse::ClientError => 64,
            RequestResponse::ClientHistory => 65,
            RequestResponse::ClientStats => 66,
            RequestResponse::ClientPing => 67,
            RequestResponse::ClientPong => 68,
            RequestResponse::ClientAbort => 106,
        }
    }
}

impl TryFrom<i32> for RequestResponse {
    type Error = prost::UnknownEnumValue;

    fn try_from(value: i32) -> (r: Result<RequestResponse, prost::UnknownEnumValue>)
        ensures
            r matches Ok(e) ==> e.value() == value,
            (exists|e: RequestResponse| #[trigger] e.value() == value) ==> r is Ok,
            r is Err ==> r == Err::<RequestResponse, prost::UnknownEnumValue>(crate::enum_error::unknown_enum_value(value)),
    {
        proof {
            if exists|e: RequestResponse| #[trigger] e.value() == value {
                let e = choose|e: RequestResponse| #[trigger] e.value() == value;
                RequestResponse::lemma_with_value(value, e);
            }
        }
        match RequestResponse::from_i32(value) {
            Some(e) => Ok(e),
            None => Err(make_unknown_enum_value(value)),
        }
    }
}

impl vstd::std_specs::convert::TryFromSpecImpl<i32> for RequestResponse {
    open spec fn obeys_try_from_spec() -> bool {
        true
    }

    open spec fn try_from_spec(value: i32) -> Result<RequestResponse, prost::UnknownEnumValue> {
        match RequestResponse::with_value(value) {
            Some(e) => Ok(e),
            None => Err(crate::enum_error::unknown_enum_value(value)),
        }
    }
}

impl vstd::std_specs::convert::FromSpecImpl<RequestResponse> for i32 {
    open spec fn obeys_from_spec() -> bool {
        true
    }

    open spec fn from_spec(value: RequestResponse) -> i32 {
        value.value()
    }
}

#[derive(Clone, Debug, PartialEq)]
pub enum Variant {
    Stats(crate::store_and_forward::Statistics),
    History(crate::store_and_forward::History),
    Heartbeat(crate::store_and_forward::Heartbeat),
    /// Text from history message.
    Text(Vec<u8>),
}

} // verus!
