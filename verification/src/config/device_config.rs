//! Nested message and enum types in `DeviceConfig`.

use vstd::prelude::*;
use crate::enum_error::make_unknown_enum_value;
use crate::text::str_eq;

verus! {

/// Defines the device's role on the Mesh network
#[derive(Clone, Copy, Debug, PartialEq, Eq, Hash, PartialOrd, Ord)]
pub enum Role {
    /// Description: App connected or stand alone messaging device.
    /// Technical Details: Default Role
    Client,
    /// Description: Device that does not forward packets from other devices.
    ClientMute,
    /// Description: Infrastructure node for extending network coverage by relaying messages. Visible in Nodes list.
    /// Technical Details: Mesh packets will prefer to be routed over this node. This node will not be used by client apps.
    /// The wifi radio and the oled screen will be put to sleep.
    /// This mode may still potentially have higher power usage due to it's preference in message rebroadcasting on the mesh.
    Router,
    RouterClient,
    /// Description: Infrastructure node for extending network coverage by relaying messages with minimal overhead. Not visible in Nodes list.
    /// Technical Details: Mesh packets will simply be rebroadcasted over this node. Nodes configured with this role will not originate NodeInfo, Position, Telemetry
    /// or any other packet type. They will simply rebroadcast any mesh packets on the same frequency, channel num, spread factor, and coding rate.
    Repeater,
    /// Description: Broadcasts GPS position packets as priority.
    /// Technical Details: Position Mesh packets will be prioritized higher and sent more frequently by default.
    /// When used in conjunction with power.is_power_saving = true, nodes will wake up,
    /// send position, and then sleep for position.position_broadcast_secs seconds.
    Tracker,
    /// Description: Broadcasts telemetry packets as priority.
    /// Technical Details: Telemetry Mesh packets will be prioritized higher and sent more frequently by default.
    /// When used in conjunction with power.is_power_saving = true, nodes will wake up,
    /// send environment telemetry, and then sleep for telemetry.environment_update_interval seconds.
    Sensor,
    /// Description: Optimized for ATAK system communication and reduces routine broadcasts.
    /// Technical Details: Used for nodes dedicated for connection to an ATAK EUD.
    /// Turns off many of the routine broadcasts to favor CoT packet stream
    /// from the Meshtastic ATAK plugin -> IMeshService -> Node
    Tak,
    /// Description: Device that only broadcasts as needed for stealth or power savings.
    /// Technical Details: Used for nodes that "only speak when spoken to"
    /// Turns all of the routine broadcasts but allows for ad-hoc communication
    /// Still rebroadcasts, but with local only rebroadcast mode (known meshes only)
    /// Can be used for clandestine operation or to dramatically reduce airtime / power consumption
    ClientHidden,
    /// Description: Broadcasts location as message to default channel regularly for to assist with device recovery.
    /// Technical Details: Used to automatically send a text message to the mesh
    /// with the current position of the device on a frequent interval:
    /// "I'm lost! Position: lat / long"
    LostAndFound,
    /// Description: Enables automatic TAK PLI broadcasts and reduces routine broadcasts.
    /// Technical Details: Turns off many of the routine broadcasts to favor ATAK CoT packet stream
    /// and automatic TAK PLI (position location information) broadcasts.
    /// Uses position module configuration to determine TAK PLI broadcast interval.
    TakTracker,
    /// Description: Will always rebroadcast packets, but will do so after all other modes.
    /// Technical Details: Used for router nodes that are intended to provide additional coverage
    /// in areas not already covered by other routers, or to bridge around problematic terrain,
    /// but should not be given priority over other routers in order to avoid unnecessaraily
    /// consuming hops.
    RouterLate,
}

impl Role {
    /// The name of this variant in the ProtoBuf definition.
    pub open spec fn str_name(self) -> Seq<char> {
        match self {
            Role::Client => "CLIENT"@,
            Role::ClientMute => "CLIENT_MUTE"@,
            Role::Router => "ROUTER"@,
            Role::RouterClient => "ROUTER_CLIENT"@,
            Role::Repeater => "REPEATER"@,
            Role::Tracker => "TRACKER"@,
            Role::Sensor => "SENSOR"@,
            Role::Tak => "TAK"@,
            Role::ClientHidden => "CLIENT_HIDDEN"@,
            Role::LostAndFound => "LOST_AND_FOUND"@,
            Role::TakTracker => "TAK_TRACKER"@,
            Role::RouterLate => "ROUTER_LATE"@,
        }
    }

    /// The number of this variant in the ProtoBuf definition.
    pub open spec fn value(self) -> i32 {
        match self {
            Role::Client => 0,
            Role::ClientMute => 1,
            Role::Router => 2,
            Role::RouterClient => 3,
            Role::Repeater => 4,
            Role::Tracker => 5,
            Role::Sensor => 6,
            Role::Tak => 7,
            Role::ClientHidden => 8,
            Role::LostAndFound => 9,
            Role::TakTracker => 10,
            Role::RouterLate => 11,
        }
    }

    /// The variant numbered 0, which a field holds when it is not set.
    pub open spec fn default_variant() -> Self {
        Role::Client
    }

    /// The variant numbered `value`, or the default variant when no variant has that number:
    /// what a message field holding `value` reads as.
    pub open spec fn from_number_or_default(value: i32) -> Self {
        match Self::with_value(value) {
            Some(e) => e,
            None => Self::default_variant(),
        }
    }

    /// The variant whose ProtoBuf name is `name`, if there is one.
    pub open spec fn named(name: Seq<char>) -> Option<Self> {
        if exists|e: Self| #[trigger] e.str_name() == name {
            Some(choose|e: Self| #[trigger] e.str_name() == name)
        } else {
            None
        }
    }

    /// The variant whose ProtoBuf number is `value`, if there is one.
    pub open spec fn with_value(value: i32) -> Option<Self> {
        if exists|e: Self| #[trigger] e.value() == value {
            Some(choose|e: Self| #[trigger] e.value() == value)
        } else {
            None
        }
    }

    spec fn name_lookup(name: Seq<char>) -> Option<Self> {
        if name == "CLIENT"@ {
            Some(Role::Client)
        } else if name == "CLIENT_MUTE"@ {
            Some(Role::ClientMute)
        } else if name == "ROUTER"@ {
            Some(Role::Router)
        } else if name == "ROUTER_CLIENT"@ {
            Some(Role::RouterClient)
        } else if name == "REPEATER"@ {
            Some(Role::Repeater)
        } else if name == "TRACKER"@ {
            Some(Role::Tracker)
        } else if name == "SENSOR"@ {
            Some(Role::Sensor)
        } else if name == "TAK"@ {
            Some(Role::Tak)
        } else if name == "CLIENT_HIDDEN"@ {
            Some(Role::ClientHidden)
        } else if name == "LOST_AND_FOUND"@ {
            Some(Role::LostAndFound)
        } else if name == "TAK_TRACKER"@ {
            Some(Role::TakTracker)
        } else if name == "ROUTER_LATE"@ {
            Some(Role::RouterLate)
        } else {
            None
        }
    }

    spec fn value_lookup(value: i32) -> Option<Self> {
        if value == 0 {
            Some(Role::Client)
        } else if value == 1 {
            Some(Role::ClientMute)
        } else if value == 2 {
            Some(Role::Router)
        } else if value == 3 {
            Some(Role::RouterClient)
        } else if value == 4 {
            Some(Role::Repeater)
        } else if value == 5 {
            Some(Role::Tracker)
        } else if value == 6 {
            Some(Role::Sensor)
        } else if value == 7 {
            Some(Role::Tak)
        } else if value == 8 {
            Some(Role::ClientHidden)
        } else if value == 9 {
            Some(Role::LostAndFound)
        } else if value == 10 {
            Some(Role::TakTracker)
        } else if value == 11 {
            Some(Role::RouterLate)
        } else {
            None
        }
    }

    proof fn lemma_lookups()
        ensures
            forall|e: Self| #[trigger] Self::name_lookup(e.str_name()) == Some(e),
            forall|e: Self| #[trigger] Self::value_lookup(e.value()) == Some(e),
    {
        reveal_strlit("CLIENT");
        assert("CLIENT"@.len() == 6);
        assert("CLIENT"@[0] == 'C');
        reveal_strlit("CLIENT_MUTE");
        assert("CLIENT_MUTE"@.len() == 11);
        assert("CLIENT_MUTE"@[0] == 'C');
        reveal_strlit("ROUTER");
        assert("ROUTER"@.len() == 6);
        assert("ROUTER"@[0] == 'R');
        reveal_strlit("ROUTER_CLIENT");
        assert("ROUTER_CLIENT"@.len() == 13);
        assert("ROUTER_CLIENT"@[0] == 'R');
        reveal_strlit("REPEATER");
        assert("REPEATER"@.len() == 8);
        reveal_strlit("TRACKER");
        assert("TRACKER"@.len() == 7);
        reveal_strlit("SENSOR");
        assert("SENSOR"@.len() == 6);
        assert("SENSOR"@[0] == 'S');
        reveal_strlit("TAK");
        assert("TAK"@.len() == 3);
        reveal_strlit("CLIENT_HIDDEN");
        assert("CLIENT_HIDDEN"@.len() == 13);
        assert("CLIENT_HIDDEN"@[0] == 'C');
        reveal_strlit("LOST_AND_FOUND");
        assert("LOST_AND_FOUND"@.len() == 14);
        reveal_strlit("TAK_TRACKER");
        assert("TAK_TRACKER"@.len() == 11);
        assert("TAK_TRACKER"@[0] == 'T');
        reveal_strlit("ROUTER_LATE");
        assert("ROUTER_LATE"@.len() == 11);
        assert("ROUTER_LATE"@[0] == 'R');
    }

    /// Distinct variants have distinct ProtoBuf names and distinct ProtoBuf numbers.
    pub proof fn lemma_injective(a: Self, b: Self)
        ensures
            a.str_name() == b.str_name() ==> a == b,
            a.value() == b.value() ==> a == b,
    {
        Self::lemma_lookups();
        assert(Self::name_lookup(a.str_name()) == Some(a));
        assert(Self::name_lookup(b.str_name()) == Some(b));
        assert(Self::value_lookup(a.value()) == Some(a));
        assert(Self::value_lookup(b.value()) == Some(b));
    }

    /// A name denotes a variant exactly when it is that variant's ProtoBuf name:
    /// `from_str_name` undoes `as_str_name`, and accepts nothing else.
    pub proof fn lemma_named(name: Seq<char>, e: Self)
        ensures
            Self::named(name) == Some(e) <==> e.str_name() == name,
    {
        if e.str_name() == name {
            let x = choose|x: Self| #[trigger] x.str_name() == name;
            Self::lemma_injective(x, e);
        }
    }

    /// A number denotes a variant exactly when it is that variant's ProtoBuf number:
    /// `from_i32` undoes the conversion to `i32`, and accepts nothing else.
    pub proof fn lemma_with_value(value: i32, e: Self)
        ensures
            Self::with_value(value) == Some(e) <==> e.value() == value,
    {
        if e.value() == value {
            let x = choose|x: Self| #[trigger] x.value() == value;
            Self::lemma_injective(x, e);
        }
    }

    /// What a field holding `value` reads as: the variant numbered `value` when some variant
    /// has that number, and otherwise the variant numbered 0.
    pub proof fn lemma_number_or_default(value: i32)
        ensures
            (exists|e: Self| #[trigger] e.value() == value) ==> Self::from_number_or_default(value).value() == value,
            (forall|e: Self| #[trigger] e.value() != value) ==> Self::from_number_or_default(value).value() == 0,
            (forall|e: Self| #[trigger] e.value() != value) ==> Self::from_number_or_default(value) == Self::default_variant(),
            Self::default_variant().value() == 0,
    {
        if exists|e: Self| #[trigger] e.value() == value {
            let e = choose|e: Self| #[trigger] e.value() == value;
            Self::lemma_with_value(value, e);
        }
    }

    /// `try_from` accepts exactly the numbers that variants have and gives back the variant with
    /// that number; every other number it rejects with the error that records that number.
    pub proof fn lemma_try_from(value: i32, e: Self)
        ensures
            (<Self as vstd::std_specs::convert::TryFromSpec<i32>>::try_from_spec(value) == Ok::<Self, prost::UnknownEnumValue>(e)) <==> e.value() == value,
            (forall|x: Self| #[trigger] x.value() != value) ==> <Self as vstd::std_specs::convert::TryFromSpec<i32>>::try_from_spec(value) == Err::<Self, prost::UnknownEnumValue>(crate::enum_error::unknown_enum_value(value)),
            (exists|x: Self| #[trigger] x.value() == value) ==> <Self as vstd::std_specs::convert::TryFromSpec<i32>>::try_from_spec(value) is Ok,
    {
        Self::lemma_with_value(value, e);
        if exists|x: Self| #[trigger] x.value() == value {
            let x = choose|x: Self| #[trigger] x.value() == value;
            Self::lemma_with_value(value, x);
        }
    }

    /// Reading back the number of a variant gives that variant: a field set to `e` reads as `e`.
    pub proof fn lemma_read_after_write(e: Self)
        ensures
            Self::from_number_or_default(e.value()) == e,
    {
        Self::lemma_with_value(e.value(), e);
    }

    /// String value of the enum field names used in the ProtoBuf definition.
    ///
    /// The values are not transformed in any way and thus are considered stable
    /// (if the ProtoBuf definition does not change) and safe for programmatic use.
    pub fn as_str_name(&self) -> (name: &'static str)
        ensures
            name@ == self.str_name(),
    {
        match self {
            Role::Client => "CLIENT",
            Role::ClientMute => "CLIENT_MUTE",
            Role::Router => "ROUTER",
            Role::RouterClient => "ROUTER_CLIENT",
            Role::Repeater => "REPEATER",
            Role::Tracker => "TRACKER",
            Role::Sensor => "SENSOR",
            Role::Tak => "TAK",
            Role::ClientHidden => "CLIENT_HIDDEN",
            Role::LostAndFound => "LOST_AND_FOUND",
            Role::TakTracker => "TAK_TRACKER",
            Role::RouterLate => "ROUTER_LATE",
        }
    }

    /// Creates an enum from field names used in the ProtoBuf definition.
    pub fn from_str_name(value: &str) -> (r: Option<Self>)
        ensures
            r == Self::named(value@),
    {
        if str_eq(value, "CLIENT") {
            proof {
                Self::lemma_named(value@, Role::Client);
            }
            return Some(Role::Client);
        }
        if str_eq(value, "CLIENT_MUTE") {
            proof {
                Self::lemma_named(value@, Role::ClientMute);
            }
            return Some(Role::ClientMute);
        }
        if str_eq(value, "ROUTER") {
            proof {
                Self::lemma_named(value@, Role::Router);
            }
            return Some(Role::Router);
        }
        if str_eq(value, "ROUTER_CLIENT") {
            proof {
                Self::lemma_named(value@, Role::RouterClient);
            }
            return Some(Role::RouterClient);
        }
        if str_eq(value, "REPEATER") {
            proof {
                Self::lemma_named(value@, Role::Repeater);
            }
            return Some(Role::Repeater);
        }
        if str_eq(value, "TRACKER") {
            proof {
                Self::lemma_named(value@, Role::Tracker);
            }
            return Some(Role::Tracker);
        }
        if str_eq(value, "SENSOR") {
            proof {
                Self::lemma_named(value@, Role::Sensor);
            }
            return Some(Role::Sensor);
        }
        if str_eq(value, "TAK") {
            proof {
                Self::lemma_named(value@, Role::Tak);
            }
            return Some(Role::Tak);
        }
        if str_eq(value, "CLIENT_HIDDEN") {
            proof {
                Self::lemma_named(value@, Role::ClientHidden);
            }
            return Some(Role::ClientHidden);
        }
        if str_eq(value, "LOST_AND_FOUND") {
            proof {
                Self::lemma_named(value@, Role::LostAndFound);
            }
            return Some(Role::LostAndFound);
        }
        if str_eq(value, "TAK_TRACKER") {
            proof {
                Self::lemma_named(value@, Role::TakTracker);
            }
            return Some(Role::TakTracker);
        }
        if str_eq(value, "ROUTER_LATE") {
            proof {
                Self::lemma_named(value@, Role::RouterLate);
            }
            return Some(Role::RouterLate);
        }
        None
    }

    /// Returns `true` if `value` is a variant of `Role`.
    pub fn is_valid(value: i32) -> (r: bool)
        ensures
            r == (Self::with_value(value) is Some),
    {
        Self::from_i32(value).is_some()
    }

    /// Converts an `i32` to a `Role`, or `None` if `value` is not a valid variant.
    pub fn from_i32(value: i32) -> (r: Option<Self>)
        ensures
            r == Self::with_value(value),
    {
        if value == 0 {
            proof {
                Self::lemma_with_value(value, Role::Client);
            }
            return Some(Role::Client);
        }
        if value == 1 {
            proof {
                Self::lemma_with_value(value, Role::ClientMute);
            }
            return Some(Role::ClientMute);
        }
        if value == 2 {
            proof {
                Self::lemma_with_value(value, Role::Router);
            }
            return Some(Role::Router);
        }
        if value == 3 {
            proof {
                Self::lemma_with_value(value, Role::RouterClient);
            }
            return Some(Role::RouterClient);
        }
        if value == 4 {
            proof {
                Self::lemma_with_value(value, Role::Repeater);
            }
            return Some(Role::Repeater);
        }
        if value == 5 {
            proof {
                Self::lemma_with_value(value, Role::Tracker);
            }
            return Some(Role::Tracker);
        }
        if value == 6 {
            proof {
                Self::lemma_with_value(value, Role::Sensor);
            }
            return Some(Role::Sensor);
        }
        if value == 7 {
            proof {
                Self::lemma_with_value(value, Role::Tak);
            }
            return Some(Role::Tak);
        }
        if value == 8 {
            proof {
                Self::lemma_with_value(value, Role::ClientHidden);
            }
            return Some(Role::ClientHidden);
        }
        if value == 9 {
            proof {
                Self::lemma_with_value(value, Role::LostAndFound);
            }
            return Some(Role::LostAndFound);
        }
        if value == 10 {
            proof {
                Self::lemma_with_value(value, Role::TakTracker);
            }
            return Some(Role::TakTracker);
        }
        if value == 11 {
            proof {
                Self::lemma_with_value(value, Role::RouterLate);
            }
            return Some(Role::RouterLate);
        }
        None
    }
}

impl Default for Role {
    /// The variant numbered 0, the default value of the field in ProtoBuf.
    fn default() -> (r: Self)
        ensures
            r == Self::default_variant(),
            r.value() == 0,
    {
        Role::Client
    }
}

impl From<Role> for i32 {
    fn from(value: Role) -> (r: i32) {
        match value {
            Role::Client => 0,
            Role::ClientMute => 1,
            Role::Router => 2,
            Role::RouterClient => 3,
            Role::Repeater => 4,
            Role::Tracker => 5,
            Role::Sensor => 6,
            Role::Tak => 7,
            Role::ClientHidden => 8,
            Role::LostAndFound => 9,
            Role::TakTracker => 10,
            Role::RouterLate => 11,
        }
    }
}

impl TryFrom<i32> for Role {
    type Error = prost::UnknownEnumValue;

    fn try_from(value: i32) -> (r: Result<Role, prost::UnknownEnumValue>)
        ensures
            r matches Ok(e) ==> e.value() == value,
            (exists|e: Role| #[trigger] e.value() == value) ==> r is Ok,
            r is Err ==> r == Err::<Role, prost::UnknownEnumValue>(crate::enum_error::unknown_enum_value(value)),
    {
        proof {
            if exists|e: Role| #[trigger] e.value() == value {
                let e = choose|e: Role| #[trigger] e.value() == value;
                Role::lemma_with_value(value, e);
            }
        }
        match Role::from_i32(value) {
            Some(e) => Ok(e),
            None => Err(make_unknown_enum_value(value)),
        }
    }
}

impl vstd::std_specs::convert::TryFromSpecImpl<i32> for Role {
    open spec fn obeys_try_from_spec() -> bool {
        true
    }

    open spec fn try_from_spec(value: i32) -> Result<Role, prost::UnknownEnumValue> {
        match Role::with_value(value) {
            Some(e) => Ok(e),
            None => Err(crate::enum_error::unknown_enum_value(value)),
        }
    }
}

impl vstd::std_specs::convert::FromSpecImpl<Role> for i32 {
    open spec fn obeys_from_spec() -> bool {
        true
    }

    open spec fn from_spec(value: Role) -> i32 {
        value.value()
    }
}

/// Defines the device's behavior for how messages are rebroadcast
#[derive(Clone, Copy, Debug, PartialEq, Eq, Hash, PartialOrd, Ord)]
pub enum RebroadcastMode {
    /// Default behavior.
    /// Rebroadcast any observed message, if it was on our private channel or from another mesh with the same lora params.
    All,
    /// Same as behavior as ALL but skips packet decoding and simply rebroadcasts them.
    /// Only available in Repeater role. Setting this on any other roles will result in ALL behavior.
    AllSkipDecoding,
    /// Ignores observed messages from foreign meshes that are open or those which it cannot decrypt.
    /// Only rebroadcasts message on the nodes local primary / secondary channels.
    LocalOnly,
    /// Ignores observed messages from foreign meshes like LOCAL_ONLY,
    /// but takes it step further by also ignoring messages from nodenums not in the node's known list (NodeDB)
    KnownOnly,
    /// Only permitted for SENSOR, TRACKER and TAK_TRACKER roles, this will inhibit all rebroadcasts, not unlike CLIENT_MUTE role.
    NoneValue,
    /// Ignores packets from non-standard portnums such as: TAK, RangeTest, PaxCounter, etc.
    /// Only rebroadcasts packets with standard portnums: NodeInfo, Text, Position, Telemetry, and Routing.
    CorePortnumsOnly,
}

impl RebroadcastMode {
    /// The name of this variant in the ProtoBuf definition.
    pub open spec fn str_name(self) -> Seq<char> {
        match self {
            RebroadcastMode::All => "ALL"@,
            RebroadcastMode::AllSkipDecoding => "ALL_SKIP_DECODING"@,
            RebroadcastMode::LocalOnly => "LOCAL_ONLY"@,
            RebroadcastMode::KnownOnly => "KNOWN_ONLY"@,
            RebroadcastMode::NoneValue => "NONE"@,
            RebroadcastMode::CorePortnumsOnly => "CORE_PORTNUMS_ONLY"@,
        }
    }

    /// The number of this variant in the ProtoBuf definition.
    pub open spec fn value(self) -> i32 {
        match self {
            RebroadcastMode::All => 0,
            RebroadcastMode::AllSkipDecoding => 1,
            RebroadcastMode::LocalOnly => 2,
            RebroadcastMode::KnownOnly => 3,
            RebroadcastMode::NoneValue => 4,
            RebroadcastMode::CorePortnumsOnly => 5,
        }
    }

    /// The variant numbered 0, which a field holds when it is not set.
    pub open spec fn default_variant() -> Self {
        RebroadcastMode::All
    }

    /// The variant numbered `value`, or the default variant when no variant has that number:
    /// what a message field holding `value` reads as.
    pub open spec fn from_number_or_default(value: i32) -> Self {
        match Self::with_value(value) {
            Some(e) => e,
            None => Self::default_variant(),
        }
    }

    /// The variant whose ProtoBuf name is `name`, if there is one.
    pub open spec fn named(name: Seq<char>) -> Option<Self> {
        if exists|e: Self| #[trigger] e.str_name() == name {
            Some(choose|e: Self| #[trigger] e.str_name() == name)
        } else {
            None
        }
    }

    /// The variant whose ProtoBuf number is `value`, if there is one.
    pub open spec fn with_value(value: i32) -> Option<Self> {
        if exists|e: Self| #[trigger] e.value() == value {
            Some(choose|e: Self| #[trigger] e.value() == value)
        } else {
            None
        }
    }

    spec fn name_lookup(name: Seq<char>) -> Option<Self> {
        if name == "ALL"@ {
            Some(RebroadcastMode::All)
        } else if name == "ALL_SKIP_DECODING"@ {
            Some(RebroadcastMode::AllSkipDecoding)
        } else if name == "LOCAL_ONLY"@ {
            Some(RebroadcastMode::LocalOnly)
        } else if name == "KNOWN_ONLY"@ {
            Some(RebroadcastMode::KnownOnly)
        } else if name == "NONE"@ {
            Some(RebroadcastMode::NoneValue)
        } else if name == "CORE_PORTNUMS_ONLY"@ {
            Some(RebroadcastMode::CorePortnumsOnly)
        } else {
            None
        }
    }

    spec fn value_lookup(value: i32) -> Option<Self> {
        if value == 0 {
            Some(RebroadcastMode::All)
        } else if value == 1 {
            Some(RebroadcastMode::AllSkipDecoding)
        } else if value == 2 {
            Some(RebroadcastMode::LocalOnly)
        } else if value == 3 {
            Some(RebroadcastMode::KnownOnly)
        } else if value == 4 {
            Some(RebroadcastMode::NoneValue)
        } else if value == 5 {
            Some(RebroadcastMode::CorePortnumsOnly)
        } else {
            None
        }
    }

    proof fn lemma_lookups()
        ensures
            forall|e: Self| #[trigger] Self::name_lookup(e.str_name()) == Some(e),
            forall|e: Self| #[trigger] Self::value_lookup(e.value()) == Some(e),
    {
        reveal_strlit("ALL");
        assert("ALL"@.len() == 3);
        reveal_strlit("ALL_SKIP_DECODING");
        assert("ALL_SKIP_DECODING"@.len() == 17);
        reveal_strlit("LOCAL_ONLY");
        assert("LOCAL_ONLY"@.len() == 10);
        assert("LOCAL_ONLY"@[0] == 'L');
        reveal_strlit("KNOWN_ONLY");
        assert("KNOWN_ONLY"@.len() == 10);
        assert("KNOWN_ONLY"@[0] == 'K');
        reveal_strlit("NONE");
        assert("NONE"@.len() == 4);
        reveal_strlit("CORE_PORTNUMS_ONLY");
        assert("CORE_PORTNUMS_ONLY"@.len() == 18);
    }

    /// Distinct variants have distinct ProtoBuf names and distinct ProtoBuf numbers.
    pub proof fn lemma_injective(a: Self, b: Self)
        ensures
            a.str_name() == b.str_name() ==> a == b,
            a.value() == b.value() ==> a == b,
    {
        Self::lemma_lookups();
        assert(Self::name_lookup(a.str_name()) == Some(a));
        assert(Self::name_lookup(b.str_name()) == Some(b));
        assert(Self::value_lookup(a.value()) == Some(a));
        assert(Self::value_lookup(b.value()) == Some(b));
    }

    /// A name denotes a variant exactly when it is that variant's ProtoBuf name:
    /// `from_str_name` undoes `as_str_name`, and accepts nothing else.
    pub proof fn lemma_named(name: Seq<char>, e: Self)
        ensures
            Self::named(name) == Some(e) <==> e.str_name() == name,
    {
        if e.str_name() == name {
            let x = choose|x: Self| #[trigger] x.str_name() == name;
            Self::lemma_injective(x, e);
        }
    }

    /// A number denotes a variant exactly when it is that variant's ProtoBuf number:
    /// `from_i32` undoes the conversion to `i32`, and accepts nothing else.
    pub proof fn lemma_with_value(value: i32, e: Self)
        ensures
            Self::with_value(value) == Some(e) <==> e.value() == value,
    {
        if e.value() == value {
            let x = choose|x: Self| #[trigger] x.value() == value;
            Self::lemma_injective(x, e);
        }
    }

    /// What a field holding `value` reads as: the variant numbered `value` when some variant
    /// has that number, and otherwise the variant numbered 0.
    pub proof fn lemma_number_or_default(value: i32)
        ensures
            (exists|e: Self| #[trigger] e.value() == value) ==> Self::from_number_or_default(value).value() == value,
            (forall|e: Self| #[trigger] e.value() != value) ==> Self::from_number_or_default(value).value() == 0,
            (forall|e: Self| #[trigger] e.value() != value) ==> Self::from_number_or_default(value) == Self::default_variant(),
            Self::default_variant().value() == 0,
    {
        if exists|e: Self| #[trigger] e.value() == value {
            let e = choose|e: Self| #[trigger] e.value() == value;
            Self::lemma_with_value(value, e);
        }
    }

    /// `try_from` accepts exactly the numbers that variants have and gives back the variant with
    /// that number; every other number it rejects with the error that records that number.
    pub proof fn lemma_try_from(value: i32, e: Self)
        ensures
            (<Self as vstd::std_specs::convert::TryFromSpec<i32>>::try_from_spec(value) == Ok::<Self, prost::UnknownEnumValue>(e)) <==> e.value() == value,
            (forall|x: Self| #[trigger] x.value() != value) ==> <Self as vstd::std_specs::convert::TryFromSpec<i32>>::try_from_spec(value) == Err::<Self, prost::UnknownEnumValue>(crate::enum_error::unknown_enum_value(value)),
            (exists|x: Self| #[trigger] x.value() == value) ==> <Self as vstd::std_specs::convert::TryFromSpec<i32>>::try_from_spec(value) is Ok,
    {
        Self::lemma_with_value(value, e);
        if exists|x: Self| #[trigger] x.value() == value {
            let x = choose|x: Self| #[trigger] x.value() == value;
            Self::lemma_with_value(value, x);
        }
    }

    /// Reading back the number of a variant gives that variant: a field set to `e` reads as `e`.
    pub proof fn lemma_read_after_write(e: Self)
        ensures
            Self::from_number_or_default(e.value()) == e,
    {
        Self::lemma_with_value(e.value(), e);
    }

    /// String value of the enum field names used in the ProtoBuf definition.
    ///
    /// The values are not transformed in any way and thus are considered stable
    /// (if the ProtoBuf definition does not change) and safe for programmatic use.
    pub fn as_str_name(&self) -> (name: &'static str)
        ensures
            name@ == self.str_name(),
    {
        match self {
            RebroadcastMode::All => "ALL",
            RebroadcastMode::AllSkipDecoding => "ALL_SKIP_DECODING",
            RebroadcastMode::LocalOnly => "LOCAL_ONLY",
            RebroadcastMode::KnownOnly => "KNOWN_ONLY",
            RebroadcastMode::NoneValue => "NONE",
            RebroadcastMode::CorePortnumsOnly => "CORE_PORTNUMS_ONLY",
        }
    }

    /// Creates an enum from field names used in the ProtoBuf definition.
    pub fn from_str_name(value: &str) -> (r: Option<Self>)
        ensures
            r == Self::named(value@),
    {
        if str_eq(value, "ALL") {
            proof {
                Self::lemma_named(value@, RebroadcastMode::All);
            }
            return Some(RebroadcastMode::All);
        }
        if str_eq(value, "ALL_SKIP_DECODING") {
            proof {
                Self::lemma_named(value@, RebroadcastMode::AllSkipDecoding);
            }
            return Some(RebroadcastMode::AllSkipDecoding);
        }
        if str_eq(value, "LOCAL_ONLY") {
            proof {
                Self::lemma_named(value@, RebroadcastMode::LocalOnly);
            }
            return Some(RebroadcastMode::LocalOnly);
        }
        if str_eq(value, "KNOWN_ONLY") {
            proof {
                Self::lemma_named(value@, RebroadcastMode::KnownOnly);
            }
            return Some(RebroadcastMode::KnownOnly);
        }
        if str_eq(value, "NONE") {
            proof {
                Self::lemma_named(value@, RebroadcastMode::NoneValue);
            }
            return Some(RebroadcastMode::NoneValue);
        }
        if str_eq(value, "CORE_PORTNUMS_ONLY") {
            proof {
                Self::lemma_named(value@, RebroadcastMode::CorePortnumsOnly);
            }
            return Some(RebroadcastMode::CorePortnumsOnly);
        }
        None
    }

    /// Returns `true` if `value` is a variant of `RebroadcastMode`.
    pub fn is_valid(value: i32) -> (r: bool)
        ensures
            r == (Self::with_value(value) is Some),
    {
        Self::from_i32(value).is_some()
    }

    /// Converts an `i32` to a `RebroadcastMode`, or `None` if `value` is not a valid variant.
    pub fn from_i32(value: i32) -> (r: Option<Self>)
        ensures
            r == Self::with_value(value),
    {
        if value == 0 {
            proof {
                Self::lemma_with_value(value, RebroadcastMode::All);
            }
            return Some(RebroadcastMode::All);
        }
        if value == 1 {
            proof {
                Self::lemma_with_value(value, RebroadcastMode::AllSkipDecoding);
            }
            return Some(RebroadcastMode::AllSkipDecoding);
        }
        if value == 2 {
            proof {
                Self::lemma_with_value(value, RebroadcastMode::LocalOnly);
            }
            return Some(RebroadcastMode::LocalOnly);
        }
        if value == 3 {
            proof {
                Self::lemma_with_value(value, RebroadcastMode::KnownOnly);
            }
            return Some(RebroadcastMode::KnownOnly);
        }
        if value == 4 {
            proof {
                Self::lemma_with_value(value, RebroadcastMode::NoneValue);
            }
            return Some(RebroadcastMode::NoneValue);
        }
        if value == 5 {
            proof {
                Self::lemma_with_value(value, RebroadcastMode::CorePortnumsOnly);
            }
            return Some(RebroadcastMode::CorePortnumsOnly);
        }
        None
    }
}

impl Default for RebroadcastMode {
    /// The variant numbered 0, the default value of the field in ProtoBuf.
    fn default() -> (r: Self)
        ensures
            r == Self::default_variant(),
            r.value() == 0,
    {
        RebroadcastMode::All
    }
}

impl From<RebroadcastMode> for i32 {
    fn from(value: RebroadcastMode) -> (r: i32) {
        match value {
            RebroadcastMode::All => 0,
            RebroadcastMode::AllSkipDecoding => 1,
            RebroadcastMode::LocalOnly => 2,
            RebroadcastMode::KnownOnly => 3,
            RebroadcastMode::NoneValue => 4,
            RebroadcastMode::CorePortnumsOnly => 5,
        }
    }
}

impl TryFrom<i32> for RebroadcastMode {
    type Error = prost::UnknownEnumValue;

    fn try_from(value: i32) -> (r: Result<RebroadcastMode, prost::UnknownEnumValue>)
        ensures
            r matches Ok(e) ==> e.value() == value,
            (exists|e: RebroadcastMode| #[trigger] e.value() == value) ==> r is Ok,
            r is Err ==> r == Err::<RebroadcastMode, prost::UnknownEnumValue>(crate::enum_error::unknown_enum_value(value)),
    {
        proof {
            if exists|e: RebroadcastMode| #[trigger] e.value() == value {
                let e = choose|e: RebroadcastMode| #[trigger] e.value() == value;
                RebroadcastMode::lemma_with_value(value, e);
            }
        }
        match RebroadcastMode::from_i32(value) {
            Some(e) => Ok(e),
            None => Err(make_unknown_enum_value(value)),
        }
    }
}

impl vstd::std_specs::convert::TryFromSpecImpl<i32> for RebroadcastMode {
    open spec fn obeys_try_from_spec() -> bool {
        true
    }

    open spec fn try_from_spec(value: i32) -> Result<RebroadcastMode, prost::UnknownEnumValue> {
        match RebroadcastMode::with_value(value) {
            Some(e) => Ok(e),
            None => Err(crate::enum_error::unknown_enum_value(value)),
        }
    }
}

impl vstd::std_specs::convert::FromSpecImpl<RebroadcastMode> for i32 {
    open spec fn obeys_from_spec() -> bool {
        true
    }

    open spec fn from_spec(value: RebroadcastMode) -> i32 {
        value.value()
    }
}

} // verus!
