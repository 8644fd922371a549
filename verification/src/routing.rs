//! Nested message and enum types in `Routing`.

use vstd::prelude::*;
use crate::enum_error::make_unknown_enum_value;
use crate::text::str_eq;

verus! {

/// A failure in delivering a message (usually used for routing control messages, but might be provided in addition to ack.fail_id to provide
/// details on the type of failure).
#[derive(Clone, Copy, Debug, PartialEq, Eq, Hash, PartialOrd, Ord)]
pub enum Error {
    /// This message is not a failure
    NoneValue,
    /// Our node doesn't have a route to the requested destination anymore.
    NoRoute,
    /// We received a nak while trying to forward on your behalf
    GotNak,
    Timeout,
    /// No suitable interface could be found for delivering this packet
    NoInterface,
    /// We reached the max retransmission count (typically for naive flood routing)
    MaxRetransmit,
    /// No suitable channel was found for sending this packet (i.e. was requested channel index disabled?)
    NoChannel,
    /// The packet was too big for sending (exceeds interface MTU after encoding)
    TooLarge,
    /// The request had want_response set, the request reached the destination node, but no service on that node wants to send a response
    /// (possibly due to bad channel permissions)
    NoResponse,
    /// Cannot send currently because duty cycle regulations will be violated.
    DutyCycleLimit,
    /// The application layer service on the remote node received your request, but considered your request somehow invalid
    BadRequest,
    /// The application layer service on the remote node received your request, but considered your request not authorized
    /// (i.e you did not send the request on the required bound channel)
    NotAuthorized,
    /// The client specified a PKI transport, but the node was unable to send the packet using PKI (and did not send the message at all)
    PkiFailed,
    /// The receiving node does not have a Public Key to decode with
    PkiUnknownPubkey,
    /// Admin packet otherwise checks out, but uses a bogus or expired session key
    AdminBadSessionKey,
    /// Admin packet sent using PKC, but not from a public key on the admin key list
    AdminPublicKeyUnauthorized,
}

impl Error {
    /// The name of this variant in the ProtoBuf definition.
    pub open spec fn str_name(self) -> Seq<char> {
        match self {
            Error::NoneValue => "NONE"@,
            Error::NoRoute => "NO_ROUTE"@,
            Error::GotNak => "GOT_NAK"@,
            Error::Timeout => "TIMEOUT"@,
            Error::NoInterface => "NO_INTERFACE"@,
            Error::MaxRetransmit => "MAX_RETRANSMIT"@,
            Error::NoChannel => "NO_CHANNEL"@,
            Error::TooLarge => "TOO_LARGE"@,
            Error::NoResponse => "NO_RESPONSE"@,
            Error::DutyCycleLimit => "DUTY_CYCLE_LIMIT"@,
            Error::BadRequest => "BAD_REQUEST"@,
            Error::NotAuthorized => "NOT_AUTHORIZED"@,
            Error::PkiFailed => "PKI_FAILED"@,
            Error::PkiUnknownPubkey => "PKI_UNKNOWN_PUBKEY"@,
            Error::AdminBadSessionKey => "ADMIN_BAD_SESSION_KEY"@,
            Error::AdminPublicKeyUnauthorized => "ADMIN_PUBLIC_KEY_UNAUTHORIZED"@,
        }
    }

    /// The number of this variant in the ProtoBuf definition.
    pub open spec fn value(self) -> i32 {
        match self {
            Error::NoneValue => 0,
            Error::NoRoute => 1,
            Error::GotNak => 2,
            Error::Timeout => 3,
            Error::NoInterface => 4,
            Error::MaxRetransmit => 5,
            Error::NoChannel => 6,
            Error::TooLarge => 7,
            Error::NoResponse => 8,
            Error::DutyCycleLimit => 9,
            Error::BadRequest => 32,
            Error::NotAuthorized => 33,
            Error::PkiFailed => 34,
            Error::PkiUnknownPubkey => 35,
            Error::AdminBadSessionKey => 36,
            Error::AdminPublicKeyUnauthorized => 37,
        }
    }

    /// The variant numbered 0, which a field holds when it is not set.
    pub open spec fn default_variant() -> Self {
        Error::NoneValue
    }

    /// The variant numbered `value`, or the default variant when no variant has that number:
    /// what a message field holding `value` reads as.
    pub open spec fn from_number_or_default(value: i32) -> Self {
        match Self::with_value(value) {
            Some(e) => e,
            None => Self::default_variant(),
        }
    }

    /// The variant whose ProtoBuf name is `name`, if there is one.
    pub open spec fn named(name: Seq<char>) -> Option<Self> {
        if exists|e: Self| #[trigger] e.str_name() == name {
            Some(choose|e: Self| #[trigger] e.str_name() == name)
        } else {
            None
        }
    }

    /// The variant whose ProtoBuf number is `value`, if there is one.
    pub open spec fn with_value(value: i32) -> Option<Self> {
        if exists|e: Self| #[trigger] e.value() == value {
            Some(choose|e: Self| #[trigger] e.value() == value)
        } else {
            None
        }
    }

    spec fn name_lookup(name: Seq<char>) -> Option<Self> {
        if name == "NONE"@ {
            Some(Error::NoneValue)
        } else if name == "NO_ROUTE"@ {
            Some(Error::NoRoute)
        } else if name == "GOT_NAK"@ {
            Some(Error::GotNak)
        } else if name == "TIMEOUT"@ {
            Some(Error::Timeout)
        } else if name == "NO_INTERFACE"@ {
            Some(Error::NoInterface)
        } else if name == "MAX_RETRANSMIT"@ {
            Some(Error::MaxRetransmit)
        } else if name == "NO_CHANNEL"@ {
            Some(Error::NoChannel)
        } else if name == "TOO_LARGE"@ {
            Some(Error::TooLarge)
        } else if name == "NO_RESPONSE"@ {
            Some(Error::NoResponse)
        } else if name == "DUTY_CYCLE_LIMIT"@ {
            Some(Error::DutyCycleLimit)
        } else if name == "BAD_REQUEST"@ {
            Some(Error::BadRequest)
        } else if name == "NOT_AUTHORIZED"@ {
            Some(Error::NotAuthorized)
        } else if name == "PKI_FAILED"@ {
            Some(Error::PkiFailed)
        } else if name == "PKI_UNKNOWN_PUBKEY"@ {
            Some(Error::PkiUnknownPubkey)
        } else if name == "ADMIN_BAD_SESSION_KEY"@ {
            Some(Error::AdminBadSessionKey)
        } else if name == "ADMIN_PUBLIC_KEY_UNAUTHORIZED"@ {
            Some(Error::AdminPublicKeyUnauthorized)
        } else {
            None
        }
    }

    spec fn value_lookup(value: i32) -> Option<Self> {
        if value == 0 {
            Some(Error::NoneValue)
        } else if value == 1 {
            Some(Error::NoRoute)
        } else if value == 2 {
            Some(Error::GotNak)
        } else if value == 3 {
            Some(Error::Timeout)
        } else if value == 4 {
            Some(Error::NoInterface)
        } else if value == 5 {
            Some(Error::MaxRetransmit)
        } else if value == 6 {
            Some(Error::NoChannel)
        } else if value == 7 {
            Some(Error::TooLarge)
        } else if value == 8 {
            Some(Error::NoResponse)
        } else if value == 9 {
            Some(Error::DutyCycleLimit)
        } else if value == 32 {
            Some(Error::BadRequest)
        } else if value == 33 {
            Some(Error::NotAuthorized)
        } else if value == 34 {
            Some(Error::PkiFailed)
        } else if value == 35 {
            Some(Error::PkiUnknownPubkey)
        } else if value == 36 {
            Some(Error::AdminBadSessionKey)
        } else if value == 37 {
            Some(Error::AdminPublicKeyUnauthorized)
        } else {
            None
        }
    }

    proof fn lemma_lookups()
        ensures
            forall|e: Self| #[trigger] Self::name_lookup(e.str_name()) == Some(e),
            forall|e: Self| #[trigger] Self::value_lookup(e.value()) == Some(e),
    {
        reveal_strlit("NONE");
        assert("NONE"@.len() == 4);
        reveal_strlit("NO_ROUTE");
        assert("NO_ROUTE"@.len() == 8);
        reveal_strlit("GOT_NAK");
        assert("GOT_NAK"@.len() == 7);
        assert("GOT_NAK"@[0] == 'G');
        reveal_strlit("TIMEOUT");
        assert("TIMEOUT"@.len() == 7);
        assert("TIMEOUT"@[0] == 'T');
        reveal_strlit("NO_INTERFACE");
        assert("NO_INTERFACE"@.len() == 12);
        reveal_strlit("MAX_RETRANSMIT");
        assert("MAX_RETRANSMIT"@.len() == 14);
        assert("MAX_RETRANSMIT"@[0] == 'M');
        reveal_strlit("NO_CHANNEL");
        assert("NO_CHANNEL"@.len() == 10);
        assert("NO_CHANNEL"@[0] == 'N');
        reveal_strlit("TOO_LARGE");
        assert("TOO_LARGE"@.len() == 9);
        reveal_strlit("NO_RESPONSE");
        assert("NO_RESPONSE"@.len() == 11);
        assert("NO_RESPONSE"@[0] == 'N');
        reveal_strlit("DUTY_CYCLE_LIMIT");
        assert("DUTY_CYCLE_LIMIT"@.len() == 16);
        reveal_strlit("BAD_REQUEST");
        assert("BAD_REQUEST"@.len() == 11);
        assert("BAD_REQUEST"@[0] == 'B');
        reveal_strlit("NOT_AUTHORIZED");
        assert("NOT_AUTHORIZED"@.len() == 14);
        assert("NOT_AUTHORIZED"@[0] == 'N');
        reveal_strlit("PKI_FAILED");
        assert("PKI_FAILED"@.len() == 10);
        assert("PKI_FAILED"@[0] == 'P');
        reveal_strlit("PKI_UNKNOWN_PUBKEY");
        assert("PKI_UNKNOWN_PUBKEY"@.len() == 18);
        reveal_strlit("ADMIN_BAD_SESSION_KEY");
        assert("ADMIN_BAD_SESSION_KEY"@.len() == 21);
        reveal_strlit("ADMIN_PUBLIC_KEY_UNAUTHORIZED");
        assert("ADMIN_PUBLIC_KEY_UNAUTHORIZED"@.len() == 29);
    }

    /// Distinct variants have distinct ProtoBuf names and distinct ProtoBuf numbers.
    pub proof fn lemma_injective(a: Self, b: Self)
        ensures
            a.str_name() == b.str_name() ==> a == b,
            a.value() == b.value() ==> a == b,
    {
        Self::lemma_lookups();
        assert(Self::name_lookup(a.str_name()) == Some(a));
        assert(Self::name_lookup(b.str_name()) == Some(b));
        assert(Self::value_lookup(a.value()) == Some(a));
        assert(Self::value_lookup(b.value()) == Some(b));
    }

    /// A name denotes a variant exactly when it is that variant's ProtoBuf name:
    /// `from_str_name` undoes `as_str_name`, and accepts nothing else.
    pub proof fn lemma_named(name: Seq<char>, e: Self)
        ensures
            Self::named(name) == Some(e) <==> e.str_name() == name,
    {
        if e.str_name() == name {
            let x = choose|x: Self| #[trigger] x.str_name() == name;
            Self::lemma_injective(x, e);
        }
    }

    /// A number denotes a variant exactly when it is that variant's ProtoBuf number:
    /// `from_i32` undoes the conversion to `i32`, and accepts nothing else.
    pub proof fn lemma_with_value(value: i32, e: Self)
        ensures
            Self::with_value(value) == Some(e) <==> e.value() == value,
    {
        if e.value() == value {
            let x = choose|x: Self| #[trigger] x.value() == value;
            Self::lemma_injective(x, e);
        }
    }

    /// What a field holding `value` reads as: the variant numbered `value` when some variant
    /// has that number, and otherwise the variant numbered 0.
    pub proof fn lemma_number_or_default(value: i32)
        ensures
            (exists|e: Self| #[trigger] e.value() == value) ==> Self::from_number_or_default(value).value() == value,
            (forall|e: Self| #[trigger] e.value() != value) ==> Self::from_number_or_default(value).value() == 0,
            (forall|e: Self| #[trigger] e.value() != value) ==> Self::from_number_or_default(value) == Self::default_variant(),
            Self::default_variant().value() == 0,
    {
        if exists|e: Self| #[trigger] e.value() == value {
            let e = choose|e: Self| #[trigger] e.value() == value;
            Self::lemma_with_value(value, e);
        }
    }

    /// `try_from` accepts exactly the numbers that variants have and gives back the variant with
    /// that number; every other number it rejects with the error that records that number.
    pub proof fn lemma_try_from(value: i32, e: Self)
        ensures
            (<Self as vstd::std_specs::convert::TryFromSpec<i32>>::try_from_spec(value) == Ok::<Self, prost::UnknownEnumValue>(e)) <==> e.value() == value,
            (forall|x: Self| #[trigger] x.value() != value) ==> <Self as vstd::std_specs::convert::TryFromSpec<i32>>::try_from_spec(value) == Err::<Self, prost::UnknownEnumValue>(crate::enum_error::unknown_enum_value(value)),
            (exists|x: Self| #[trigger] x.value() == value) ==> <Self as vstd::std_specs::convert::TryFromSpec<i32>>::try_from_spec(value) is Ok,
    {
        Self::lemma_with_value(value, e);
        if exists|x: Self| #[trigger] x.value() == value {
            let x = choose|x: Self| #[trigger] x.value() == value;
            Self::lemma_with_value(value, x);
        }
    }

    /// Reading back the number of a variant gives that variant: a field set to `e` reads as `e`.
    pub proof fn lemma_read_after_write(e: Self)
        ensures
            Self::from_number_or_default(e.value()) == e,
    {
        Self::lemma_with_value(e.value(), e);
    }

    /// String value of the enum field names used in the ProtoBuf definition.
    ///
    /// The values are not transformed in any way and thus are considered stable
    /// (if the ProtoBuf definition does not change) and safe for programmatic use.
    pub fn as_str_name(&self) -> (name: &'static str)
        ensures
            name@ == self.str_name(),
    {
        match self {
            Error::NoneValue => "NONE",
            Error::NoRoute => "NO_ROUTE",
            Error::GotNak => "GOT_NAK",
            Error::Timeout => "TIMEOUT",
            Error::NoInterface => "NO_INTERFACE",
            Error::MaxRetransmit => "MAX_RETRANSMIT",
            Error::NoChannel => "NO_CHANNEL",
            Error::TooLarge => "TOO_LARGE",
            Error::NoResponse => "NO_RESPONSE",
            Error::DutyCycleLimit => "DUTY_CYCLE_LIMIT",
            Error::BadRequest => "BAD_REQUEST",
            Error::NotAuthorized => "NOT_AUTHORIZED",
            Error::PkiFailed => "PKI_FAILED",
            Error::PkiUnknownPubkey => "PKI_UNKNOWN_PUBKEY",
            Error::AdminBadSessionKey => "ADMIN_BAD_SESSION_KEY",
            Error::AdminPublicKeyUnauthorized => "ADMIN_PUBLIC_KEY_UNAUTHORIZED",
        }
    }

    /// Creates an enum from field names used in the ProtoBuf definition.
    pub fn from_str_name(value: &str) -> (r: Option<Self>)
        ensures
            r == Self::named(value@),
    {
        if str_eq(value, "NONE") {
            proof {
                Self::lemma_named(value@, Error::NoneValue);
            }
            return Some(Error::NoneValue);
        }
        if str_eq(value, "NO_ROUTE") {
            proof {
                Self::lemma_named(value@, Error::NoRoute);
            }
            return Some(Error::NoRoute);
        }
        if str_eq(value, "GOT_NAK") {
            proof {
                Self::lemma_named(value@, Error::GotNak);
            }
            return Some(Error::GotNak);
        }
        if str_eq(value, "TIMEOUT") {
            proof {
                Self::lemma_named(value@, Error::Timeout);
            }
            return Some(Error::Timeout);
        }
        if str_eq(value, "NO_INTERFACE") {
            proof {
                Self::lemma_named(value@, Error::NoInterface);
            }
            return Some(Error::NoInterface);
        }
        if str_eq(value, "MAX_RETRANSMIT") {
            proof {
                Self::lemma_named(value@, Error::MaxRetransmit);
            }
            return Some(Error::MaxRetransmit);
        }
        if str_eq(value, "NO_CHANNEL") {
            proof {
                Self::lemma_named(value@, Error::NoChannel);
            }
            return Some(Error::NoChannel);
        }
        if str_eq(value, "TOO_LARGE") {
            proof {
                Self::lemma_named(value@, Error::TooLarge);
            }
            return Some(Error::TooLarge);
        }
        if str_eq(value, "NO_RESPONSE") {
            proof {
                Self::lemma_named(value@, Error::NoResponse);
            }
            return Some(Error::NoResponse);
        }
        if str_eq(value, "DUTY_CYCLE_LIMIT") {
            proof {
                Self::lemma_named(value@, Error::DutyCycleLimit);
            }
            return Some(Error::DutyCycleLimit);
        }
        if str_eq(value, "BAD_REQUEST") {
            proof {
                Self::lemma_named(value@, Error::BadRequest);
            }
            return Some(Error::BadRequest);
        }
        if str_eq(value, "NOT_AUTHORIZED") {
            proof {
                Self::lemma_named(value@, Error::NotAuthorized);
            }
            return Some(Error::NotAuthorized);
        }
        if str_eq(value, "PKI_FAILED") {
            proof {
                Self::lemma_named(value@, Error::PkiFailed);
            }
            return Some(Error::PkiFailed);
        }
        if str_eq(value, "PKI_UNKNOWN_PUBKEY") {
            proof {
                Self::lemma_named(value@, Error::PkiUnknownPubkey);
            }
            return Some(Error::PkiUnknownPubkey);
        }
        if str_eq(value, "ADMIN_BAD_SESSION_KEY") {
            proof {
                Self::lemma_named(value@, Error::AdminBadSessionKey);
            }
            return Some(Error::AdminBadSessionKey);
        }
        if str_eq(value, "ADMIN_PUBLIC_KEY_UNAUTHORIZED") {
            proof {
                Self::lemma_named(value@, Error::AdminPublicKeyUnauthorized);
            }
            return Some(Error::AdminPublicKeyUnauthorized);
        }
        None
    }

    /// Returns `true` if `value` is a variant of `Error`.
    pub fn is_valid(value: i32) -> (r: bool)
        ensures
            r == (Self::with_value(value) is Some),
    {
        Self::from_i32(value).is_some()
    }

    /// Converts an `i32` to a `Error`, or `None` if `value` is not a valid variant.
    pub fn from_i32(value: i32) -> (r: Option<Self>)
        ensures
            r == Self::with_value(value),
    {
        if value == 0 {
            proof {
                Self::lemma_with_value(value, Error::NoneValue);
            }
            return Some(Error::NoneValue);
        }
        if value == 1 {
            proof {
                Self::lemma_with_value(value, Error::NoRoute);
            }
            return Some(Error::NoRoute);
        }
        if value == 2 {
            proof {
                Self::lemma_with_value(value, Error::GotNak);
            }
            return Some(Error::GotNak);
        }
        if value == 3 {
            proof {
                Self::lemma_with_value(value, Error::Timeout);
            }
            return Some(Error::Timeout);
        }
        if value == 4 {
            proof {
                Self::lemma_with_value(value, Error::NoInterface);
            }
            return Some(Error::NoInterface);
        }
        if value == 5 {
            proof {
                Self::lemma_with_value(value, Error::MaxRetransmit);
            }
            return Some(Error::MaxRetransmit);
        }
        if value == 6 {
            proof {
                Self::lemma_with_value(value, Error::NoChannel);
            }
            return Some(Error::NoChannel);
        }
        if value == 7 {
            proof {
                Self::lemma_with_value(value, Error::TooLarge);
            }
            return Some(Error::TooLarge);
        }
        if value == 8 {
            proof {
                Self::lemma_with_value(value, Error::NoResponse);
            }
            return Some(Error::NoResponse);
        }
        if value == 9 {
            proof {
                Self::lemma_with_value(value, Error::DutyCycleLimit);
            }
            return Some(Error::DutyCycleLimit);
        }
        if value == 32 {
            proof {
                Self::lemma_with_value(value, Error::BadRequest);
            }
            return Some(Error::BadRequest);
        }
        if value == 33 {
            proof {
                Self::lemma_with_value(value, Error::NotAuthorized);
            }
            return Some(Error::NotAuthorized);
        }
        if value == 34 {
            proof {
                Self::lemma_with_value(value, Error::PkiFailed);
            }
            return Some(Error::PkiFailed);
        }
        if value == 35 {
            proof {
                Self::lemma_with_value(value, Error::PkiUnknownPubkey);
            }
            return Some(Error::PkiUnknownPubkey);
        }
        if value == 36 {
            proof {
                Self::lemma_with_value(value, Error::AdminBadSessionKey);
            }
            return Some(Error::AdminBadSessionKey);
        }
        if value == 37 {
            proof {
                Self::lemma_with_value(value, Error::AdminPublicKeyUnauthorized);
            }
            return Some(Error::AdminPublicKeyUnauthorized);
        }
        None
    }
}

impl Default for Error {
    /// The variant numbered 0, the default value of the field in ProtoBuf.
    fn default() -> (r: Self)
        ensures
            r == Self::default_variant(),
            r.value() == 0,
    {
        Error::NoneValue
    }
}

impl From<Error> for i32 {
    fn from(value: Error) -> (r: i32) {
        match value {
            Error::NoneValue => 0,
            Error::NoRoute => 1,
            Error::GotNak => 2,
            Error::Timeout => 3,
            Error::NoInterface => 4,
            Error::MaxRetransmit => 5,
            Error::NoChannel => 6,
            Error::TooLarge => 7,
            Error::NoResponse => 8,
            Error::DutyCycleLimit => 9,
            Error::BadRequest => 32,
            Error::NotAuthorized => 33,
            Error::PkiFailed => 34,
            Error::PkiUnknownPubkey => 35,
            Error::AdminBadSessionKey => 36,
            Error::AdminPublicKeyUnauthorized => 37,
        }
    }
}

impl TryFrom<i32> for Error {
    type Error = prost::UnknownEnumValue;

    fn try_from(value: i32) -> (r: Result<Error, prost::UnknownEnumValue>)
        ensures
            r matches Ok(e) ==> e.value() == value,
            (exists|e: Error| #[trigger] e.value() == value) ==> r is Ok,
            r is Err ==> r == Err::<Error, prost::UnknownEnumValue>(crate::enum_error::unknown_enum_value(value)),
    {
        proof {
            if exists|e: Error| #[trigger] e.value() == value {
                let e = choose|e: Error| #[trigger] e.value() == value;
                Error::lemma_with_value(value, e);
            }
        }
        match Error::from_i32(value) {
            Some(e) => Ok(e),
            None => Err(make_unknown_enum_value(value)),
        }
    }
}

impl vstd::std_specs::convert::TryFromSpecImpl<i32> for Error {
    open spec fn obeys_try_from_spec() -> bool {
        true
    }

    open spec fn try_from_spec(value: i32) -> Result<Error, prost::UnknownEnumValue> {
        match Error::with_value(value) {
            Some(e) => Ok(e),
            None => Err(crate::enum_error::unknown_enum_value(value)),
        }
    }
}

impl vstd::std_specs::convert::FromSpecImpl<Error> for i32 {
    open spec fn obeys_from_spec() -> bool {
        true
    }

    open spec fn from_spec(value: Error) -> i32 {
        value.value()
    }
}

#[derive(Clone, Debug, PartialEq)]
pub enum Variant {
    /// A route request going from the requester
    RouteRequest(crate::RouteDiscovery),
    /// A route reply
    RouteReply(crate::RouteDiscovery),
    /// A failure in delivering a message (usually used for routing control messages, but might be provided
    /// in addition to ack.fail_id to provide details on the type of failure).
    ErrorReason(i32),
}

} // verus!
