//! Message and enumeration types of the port number definitions.

use vstd::prelude::*;
use crate::enum_error::make_unknown_enum_value;
use crate::text::str_eq;

verus! {

/// For any new 'apps' that run on the device or via sister apps on phones/PCs they should pick and use a
/// unique 'portnum' for their application.
/// If you are making a new app using meshtastic, please send in a pull request to add your 'portnum' to this
/// master table.
/// PortNums should be assigned in the following range:
/// 0-63   Core Meshtastic use, do not use for third party apps
/// 64-127 Registered 3rd party apps, send in a pull request that adds a new entry to portnums.proto to  register your application
/// 256-511 Use one of these portnums for your private applications that you don't want to register publically
/// All other values are reserved.
/// Note: This was formerly a Type enum named 'typ' with the same id #
/// We have change to this 'portnum' based scheme for specifying app handlers for particular payloads.
/// This change is backwards compatible by treating the legacy OPAQUE/CLEAR_TEXT values identically.
#[derive(Clone, Copy, Debug, PartialEq, Eq, Hash, PartialOrd, Ord)]
pub enum PortNum {
    /// Deprecated: do not use in new code (formerly called OPAQUE)
    /// A message sent from a device outside of the mesh, in a form the mesh does not understand
    /// NOTE: This must be 0, because it is documented in IMeshService.aidl to be so
    /// ENCODING: binary undefined
    UnknownApp,
    /// A simple UTF-8 text message, which even the little micros in the mesh
    /// can understand and show on their screen eventually in some circumstances
    /// even signal might send messages in this form (see below)
    /// ENCODING: UTF-8 Plaintext (?)
    TextMessageApp,
    /// Reserved for built-in GPIO/example app.
    /// See remote_hardware.proto/HardwareMessage for details on the message sent/received to this port number
    /// ENCODING: Protobuf
    RemoteHardwareApp,
    /// The built-in position messaging app.
    /// Payload is a Position message.
    /// ENCODING: Protobuf
    PositionApp,
    /// The built-in user info app.
    /// Payload is a User message.
    /// ENCODING: Protobuf
    NodeinfoApp,
    /// Protocol control packets for mesh protocol use.
    /// Payload is a Routing message.
    /// ENCODING: Protobuf
    RoutingApp,
    /// Admin control packets.
    /// Payload is a AdminMessage message.
    /// ENCODING: Protobuf
    AdminApp,
    /// Compressed TEXT_MESSAGE payloads.
    /// ENCODING: UTF-8 Plaintext (?) with Unishox2 Compression
    /// NOTE: The Device Firmware converts a TEXT_MESSAGE_APP to TEXT_MESSAGE_COMPRESSED_APP if the compressed
    /// payload is shorter. There's no need for app developers to do this themselves. Also the firmware will decompress
    /// any incoming TEXT_MESSAGE_COMPRESSED_APP payload and convert to TEXT_MESSAGE_APP.
    TextMessageCompressedApp,
    /// Waypoint payloads.
    /// Payload is a Waypoint message.
    /// ENCODING: Protobuf
    WaypointApp,
    /// Audio Payloads.
    /// Encapsulated codec2 packets. On 2.4 GHZ Bandwidths only for now
    /// ENCODING: codec2 audio frames
    /// NOTE: audio frames contain a 3 byte header (0xc0 0xde 0xc2) and a one byte marker for the decompressed bitrate.
    /// This marker comes from the 'moduleConfig.audio.bitrate' enum minus one.
    AudioApp,
    /// Same as Text Message but originating from Detection Sensor Module.
    /// NOTE: This portnum traffic is not sent to the public MQTT starting at firmware version 2.2.9
    DetectionSensorApp,
    /// Same as Text Message but used for critical alerts.
    AlertApp,
    /// Provides a 'ping' service that replies to any packet it receives.
    /// Also serves as a small example module.
    /// ENCODING: ASCII Plaintext
    ReplyApp,
    /// Used for the python IP tunnel feature
    /// ENCODING: IP Packet. Handled by the python API, firmware ignores this one and pases on.
    IpTunnelApp,
    /// Paxcounter lib included in the firmware
    /// ENCODING: protobuf
    PaxcounterApp,
    /// Provides a hardware serial interface to send and receive from the Meshtastic network.
    /// Connect to the RX/TX pins of a device with 38400 8N1. Packets received from the Meshtastic
    /// network is forwarded to the RX pin while sending a packet to TX will go out to the Mesh network.
    /// Maximum packet size of 240 bytes.
    /// Module is disabled by default can be turned on by setting SERIAL_MODULE_ENABLED = 1 in SerialPlugh.cpp.
    /// ENCODING: binary undefined
    SerialApp,
    /// STORE_FORWARD_APP (Work in Progress)
    /// Maintained by Jm Casler (MC Hamster) : jm@casler.org
    /// ENCODING: Protobuf
    StoreForwardApp,
    /// Optional port for messages for the range test module.
    /// ENCODING: ASCII Plaintext
    /// NOTE: This portnum traffic is not sent to the public MQTT starting at firmware version 2.2.9
    RangeTestApp,
    /// Provides a format to send and receive telemetry data from the Meshtastic network.
    /// Maintained by Charles Crossan (crossan007) : crossan007@gmail.com
    /// ENCODING: Protobuf
    TelemetryApp,
    /// Experimental tools for estimating node position without a GPS
    /// Maintained by Github user a-f-G-U-C (a Meshtastic contributor)
    /// Project files at <https://github.com/a-f-G-U-C/Meshtastic-ZPS>
    /// ENCODING: arrays of int64 fields
    ZpsApp,
    /// Used to let multiple instances of Linux native applications communicate
    /// as if they did using their LoRa chip.
    /// Maintained by GitHub user GUVWAF.
    /// Project files at <https://github.com/GUVWAF/Meshtasticator>
    /// ENCODING: Protobuf (?)
    SimulatorApp,
    /// Provides a traceroute functionality to show the route a packet towards
    /// a certain destination would take on the mesh. Contains a RouteDiscovery message as payload.
    /// ENCODING: Protobuf
    TracerouteApp,
    /// Aggregates edge info for the network by sending out a list of each node's neighbors
    /// ENCODING: Protobuf
    NeighborinfoApp,
    /// ATAK Plugin
    /// Portnum for payloads from the official Meshtastic ATAK plugin
    AtakPlugin,
    /// Provides unencrypted information about a node for consumption by a map via MQTT
    MapReportApp,
    /// PowerStress based monitoring support (for automated power consumption testing)
    PowerstressApp,
    /// Private applications should use portnums >= 256.
    /// To simplify initial development and testing you can use "PRIVATE_APP"
    /// in your code without needing to rebuild protobuf files (via \[regen-protos.sh\](<https://github.com/meshtastic/firmware/blob/master/bin/regen-protos.sh>))
    PrivateApp,
    /// ATAK Forwarder Module <https://github.com/paulmandal/atak-forwarder>
    /// ENCODING: libcotshrink
    AtakForwarder,
    /// Currently we limit port nums to no higher than this value
    Max,
}

impl PortNum {
    /// The name of this variant in the ProtoBuf definition.
    pub open spec fn str_name(self) -> Seq<char> {
        match self {
            PortNum::UnknownApp => "UNKNOWN_APP"@,
            PortNum::TextMessageApp => "TEXT_MESSAGE_APP"@,
            PortNum::RemoteHardwareApp => "REMOTE_HARDWARE_APP"@,
            PortNum::PositionApp => "POSITION_APP"@,
            PortNum::NodeinfoApp => "NODEINFO_APP"@,
            PortNum::RoutingApp => "ROUTING_APP"@,
            PortNum::AdminApp => "ADMIN_APP"@,
            PortNum::TextMessageCompressedApp => "TEXT_MESSAGE_COMPRESSED_APP"@,
            PortNum::WaypointApp => "WAYPOINT_APP"@,
            PortNum::AudioApp => "AUDIO_APP"@,
            PortNum::DetectionSensorApp => "DETECTION_SENSOR_APP"@,
            PortNum::AlertApp => "ALERT_APP"@,
            PortNum::ReplyApp => "REPLY_APP"@,
            PortNum::IpTunnelApp => "IP_TUNNEL_APP"@,
            PortNum::PaxcounterApp => "PAXCOUNTER_APP"@,
            PortNum::SerialApp => "SERIAL_APP"@,
            PortNum::StoreForwardApp => "STORE_FORWARD_APP"@,
            PortNum::RangeTestApp => "RANGE_TEST_APP"@,
            PortNum::TelemetryApp => "TELEMETRY_APP"@,
            PortNum::ZpsApp => "ZPS_APP"@,
            PortNum::SimulatorApp => "SIMULATOR_APP"@,
            PortNum::TracerouteApp => "TRACEROUTE_APP"@,
            PortNum::NeighborinfoApp => "NEIGHBORINFO_APP"@,
            PortNum::AtakPlugin => "ATAK_PLUGIN"@,
            PortNum::MapReportApp => "MAP_REPORT_APP"@,
            PortNum::PowerstressApp => "POWERSTRESS_APP"@,
            PortNum::PrivateApp => "PRIVATE_APP"@,
            PortNum::AtakForwarder => "ATAK_FORWARDER"@,
            PortNum::Max => "MAX"@,
        }
    }

    /// The number of this variant in the ProtoBuf definition.
    pub open spec fn value(self) -> i32 {
        match self {
            PortNum::UnknownApp => 0,
            PortNum::TextMessageApp => 1,
            PortNum::RemoteHardwareApp => 2,
            PortNum::PositionApp => 3,
            PortNum::NodeinfoApp => 4,
            PortNum::RoutingApp => 5,
            PortNum::AdminApp => 6,
            PortNum::TextMessageCompressedApp => 7,
            PortNum::WaypointApp => 8,
            PortNum::AudioApp => 9,
            PortNum::DetectionSensorApp => 10,
            PortNum::AlertApp => 11,
            PortNum::ReplyApp => 32,
            PortNum::IpTunnelApp => 33,
            PortNum::PaxcounterApp => 34,
            PortNum::SerialApp => 64,
            PortNum::StoreForwardApp => 65,
            PortNum::RangeTestApp => 66,
            PortNum::TelemetryApp => 67,
            PortNum::ZpsApp => 68,
            PortNum::SimulatorApp => 69,
            PortNum::TracerouteApp => 70,
            PortNum::NeighborinfoApp => 71,
            PortNum::AtakPlugin => 72,
            PortNum::MapReportApp => 73,
            PortNum::PowerstressApp => 74,
            PortNum::PrivateApp => 256,
            PortNum::AtakForwarder => 257,
            PortNum::Max => 511,
        }
    }

    /// The variant numbered 0, which a field holds when it is not set.
    pub open spec fn default_variant() -> Self {
        PortNum::UnknownApp
    }

    /// The variant numbered `value`, or the default variant when no variant has that number:
    /// what a message field holding `value` reads as.
    pub open spec fn from_number_or_default(value: i32) -> Self {
        match Self::with_value(value) {
            Some(e) => e,
            None => Self::default_variant(),
        }
    }

    /// The variant whose ProtoBuf name is `name`, if there is one.
    pub open spec fn named(name: Seq<char>) -> Option<Self> {
        if exists|e: Self| #[trigger] e.str_name() == name {
            Some(choose|e: Self| #[trigger] e.str_name() == name)
        } else {
            None
        }
    }

    /// The variant whose ProtoBuf number is `value`, if there is one.
    pub open spec fn with_value(value: i32) -> Option<Self> {
        if exists|e: Self| #[trigger] e.value() == value {
            Some(choose|e: Self| #[trigger] e.value() == value)
        } else {
            None
        }
    }

    spec fn name_lookup(name: Seq<char>) -> Option<Self> {
        if name == "UNKNOWN_APP"@ {
            Some(PortNum::UnknownApp)
        } else if name == "TEXT_MESSAGE_APP"@ {
            Some(PortNum::TextMessageApp)
        } else if name == "REMOTE_HARDWARE_APP"@ {
            Some(PortNum::RemoteHardwareApp)
        } else if name == "POSITION_APP"@ {
            Some(PortNum::PositionApp)
        } else if name == "NODEINFO_APP"@ {
            Some(PortNum::NodeinfoApp)
        } else if name == "ROUTING_APP"@ {
            Some(PortNum::RoutingApp)
        } else if name == "ADMIN_APP"@ {
            Some(PortNum::AdminApp)
        } else if name == "TEXT_MESSAGE_COMPRESSED_APP"@ {
            Some(PortNum::TextMessageCompressedApp)
        } else if name == "WAYPOINT_APP"@ {
            Some(PortNum::WaypointApp)
        } else if name == "AUDIO_APP"@ {
            Some(PortNum::AudioApp)
        } else if name == "DETECTION_SENSOR_APP"@ {
            Some(PortNum::DetectionSensorApp)
        } else if name == "ALERT_APP"@ {
            Some(PortNum::AlertApp)
        } else if name == "REPLY_APP"@ {
            Some(PortNum::ReplyApp)
        } else if name == "IP_TUNNEL_APP"@ {
            Some(PortNum::IpTunnelApp)
        } else if name == "PAXCOUNTER_APP"@ {
            Some(PortNum::PaxcounterApp)
        } else if name == "SERIAL_APP"@ {
            Some(PortNum::SerialApp)
        } else if name == "STORE_FORWARD_APP"@ {
            Some(PortNum::StoreForwardApp)
        } else if name == "RANGE_TEST_APP"@ {
            Some(PortNum::RangeTestApp)
        } else if name == "TELEMETRY_APP"@ {
            Some(PortNum::TelemetryApp)
        } else if name == "ZPS_APP"@ {
            Some(PortNum::ZpsApp)
        } else if name == "SIMULATOR_APP"@ {
            Some(PortNum::SimulatorApp)
        } else if name == "TRACEROUTE_APP"@ {
            Some(PortNum::TracerouteApp)
        } else if name == "NEIGHBORINFO_APP"@ {
            Some(PortNum::NeighborinfoApp)
        } else if name == "ATAK_PLUGIN"@ {
            Some(PortNum::AtakPlugin)
        } else if name == "MAP_REPORT_APP"@ {
            Some(PortNum::MapReportApp)
        } else if name == "POWERSTRESS_APP"@ {
            Some(PortNum::PowerstressApp)
        } else if name == "PRIVATE_APP"@ {
            Some(PortNum::PrivateApp)
        } else if name == "ATAK_FORWARDER"@ {
            Some(PortNum::AtakForwarder)
        } else if name == "MAX"@ {
            Some(PortNum::Max)
        } else {
            None
        }
    }

    spec fn value_lookup(value: i32) -> Option<Self> {
        if value == 0 {
            Some(PortNum::UnknownApp)
        } else if value == 1 {
            Some(PortNum::TextMessageApp)
        } else if value == 2 {
            Some(PortNum::RemoteHardwareApp)
        } else if value == 3 {
            Some(PortNum::PositionApp)
        } else if value == 4 {
            Some(PortNum::NodeinfoApp)
        } else if value == 5 {
            Some(PortNum::RoutingApp)
        } else if value == 6 {
            Some(PortNum::AdminApp)
        } else if value == 7 {
            Some(PortNum::TextMessageCompressedApp)
        } else if value == 8 {
            Some(PortNum::WaypointApp)
        } else if value == 9 {
            Some(PortNum::AudioApp)
        } else if value == 10 {
            Some(PortNum::DetectionSensorApp)
        } else if value == 11 {
            Some(PortNum::AlertApp)
        } else if value == 32 {
            Some(PortNum::ReplyApp)
        } else if value == 33 {
            Some(PortNum::IpTunnelApp)
        } else if value == 34 {
            Some(PortNum::PaxcounterApp)
        } else if value == 64 {
            Some(PortNum::SerialApp)
        } else if value == 65 {
            Some(PortNum::StoreForwardApp)
        } else if value == 66 {
            Some(PortNum::RangeTestApp)
        } else if value == 67 {
            Some(PortNum::TelemetryApp)
        } else if value == 68 {
            Some(PortNum::ZpsApp)
        } else if value == 69 {
            Some(PortNum::SimulatorApp)
        } else if value == 70 {
            Some(PortNum::TracerouteApp)
        } else if value == 71 {
            Some(PortNum::NeighborinfoApp)
        } else if value == 72 {
            Some(PortNum::AtakPlugin)
        } else if value == 73 {
            Some(PortNum::MapReportApp)
        } else if value == 74 {
            Some(PortNum::PowerstressApp)
        } else if value == 256 {
            Some(PortNum::PrivateApp)
        } else if value == 257 {
            Some(PortNum::AtakForwarder)
        } else if value == 511 {
            Some(PortNum::Max)
        } else {
            None
        }
    }

    proof fn lemma_lookups()
        ensures
            forall|e: Self| #[trigger] Self::name_lookup(e.str_name()) == Some(e),
            forall|e: Self| #[trigger] Self::value_lookup(e.value()) == Some(e),
    {
        reveal_strlit("UNKNOWN_APP");
        assert("UNKNOWN_APP"@.len() == 11);
        assert("UNKNOWN_APP"@[0] == 'U');
        reveal_strlit("TEXT_MESSAGE_APP");
        assert("TEXT_MESSAGE_APP"@.len() == 16);
        assert("TEXT_MESSAGE_APP"@[0] == 'T');
        reveal_strlit("REMOTE_HARDWARE_APP");
        assert("REMOTE_HARDWARE_APP"@.len() == 19);
        reveal_strlit("POSITION_APP");
        assert("POSITION_APP"@.len() == 12);
        assert("POSITION_APP"@[0] == 'P');
        reveal_strlit("NODEINFO_APP");
        assert("NODEINFO_APP"@.len() == 12);
        assert("NODEINFO_APP"@[0] == 'N');
        reveal_strlit("ROUTING_APP");
        assert("ROUTING_APP"@.len() == 11);
        assert("ROUTING_APP"@[0] == 'R');
        reveal_strlit("ADMIN_APP");
        assert("ADMIN_APP"@.len() == 9);
        assert("ADMIN_APP"@[0] == 'A');
        assert("ADMIN_APP"@[1] == 'D');
        reveal_strlit("TEXT_MESSAGE_COMPRESSED_APP");
        assert("TEXT_MESSAGE_COMPRESSED_APP"@.len() == 27);
        reveal_strlit("WAYPOINT_APP");
        assert("WAYPOINT_APP"@.len() == 12);
        assert("WAYPOINT_APP"@[0] == 'W');
        reveal_strlit("AUDIO_APP");
        assert("AUDIO_APP"@.len() == 9);
        assert("AUDIO_APP"@[0] == 'A');
        assert("AUDIO_APP"@[1] == 'U');
        reveal_strlit("DETECTION_SENSOR_APP");
        assert("DETECTION_SENSOR_APP"@.len() == 20);
        reveal_strlit("ALERT_APP");
        assert("ALERT_APP"@.len() == 9);
        assert("ALERT_APP"@[0] == 'A');
        assert("ALERT_APP"@[1] == 'L');
        reveal_strlit("REPLY_APP");
        assert("REPLY_APP"@.len() == 9);
        assert("REPLY_APP"@[0] == 'R');
        reveal_strlit("IP_TUNNEL_APP");
        assert("IP_TUNNEL_APP"@.len() == 13);
        assert("IP_TUNNEL_APP"@[0] == 'I');
        reveal_strlit("PAXCOUNTER_APP");
        assert("PAXCOUNTER_APP"@.len() == 14);
        assert("PAXCOUNTER_APP"@[0] == 'P');
        reveal_strlit("SERIAL_APP");
        assert("SERIAL_APP"@.len() == 10);
        reveal_strlit("STORE_FORWARD_APP");
        assert("STORE_FORWARD_APP"@.len() == 17);
        reveal_strlit("RANGE_TEST_APP");
        assert("RANGE_TEST_APP"@.len() == 14);
        assert("RANGE_TEST_APP"@[0] == 'R');
        reveal_strlit("TELEMETRY_APP");
        assert("TELEMETRY_APP"@.len() == 13);
        assert("TELEMETRY_APP"@[0] == 'T');
        reveal_strlit("ZPS_APP");
        assert("ZPS_APP"@.len() == 7);
        reveal_strlit("SIMULATOR_APP");
        assert("SIMULATOR_APP"@.len() == 13);
        assert("SIMULATOR_APP"@[0] == 'S');
        reveal_strlit("TRACEROUTE_APP");
        assert("TRACEROUTE_APP"@.len() == 14);
        assert("TRACEROUTE_APP"@[0] == 'T');
        reveal_strlit("NEIGHBORINFO_APP");
        assert("NEIGHBORINFO_APP"@.len() == 16);
        assert("NEIGHBORINFO_APP"@[0] == 'N');
        reveal_strlit("ATAK_PLUGIN");
        assert("ATAK_PLUGIN"@.len() == 11);
        assert("ATAK_PLUGIN"@[0] == 'A');
        reveal_strlit("MAP_REPORT_APP");
        assert("MAP_REPORT_APP"@.len() == 14);
        assert("MAP_REPORT_APP"@[0] == 'M');
        reveal_strlit("POWERSTRESS_APP");
        assert("POWERSTRESS_APP"@.len() == 15);
        reveal_strlit("PRIVATE_APP");
        assert("PRIVATE_APP"@.len() == 11);
        assert("PRIVATE_APP"@[0] == 'P');
        reveal_strlit("ATAK_FORWARDER");
        assert("ATAK_FORWARDER"@.len() == 14);
        assert("ATAK_FORWARDER"@[0] == 'A');
        reveal_strlit("MAX");
        assert("MAX"@.len() == 3);
    }

    /// Distinct variants have distinct ProtoBuf names and distinct ProtoBuf numbers.
    pub proof fn lemma_injective(a: Self, b: Self)
        ensures
            a.str_name() == b.str_name() ==> a == b,
            a.value() == b.value() ==> a == b,
    {
        Self::lemma_lookups();
        assert(Self::name_lookup(a.str_name()) == Some(a));
        assert(Self::name_lookup(b.str_name()) == Some(b));
        assert(Self::value_lookup(a.value()) == Some(a));
        assert(Self::value_lookup(b.value()) == Some(b));
    }

    /// A name denotes a variant exactly when it is that variant's ProtoBuf name:
    /// `from_str_name` undoes `as_str_name`, and accepts nothing else.
    pub proof fn lemma_named(name: Seq<char>, e: Self)
        ensures
            Self::named(name) == Some(e) <==> e.str_name() == name,
    {
        if e.str_name() == name {
            let x = choose|x: Self| #[trigger] x.str_name() == name;
            Self::lemma_injective(x, e);
        }
    }

    /// A number denotes a variant exactly when it is that variant's ProtoBuf number:
    /// `from_i32` undoes the conversion to `i32`, and accepts nothing else.
    pub proof fn lemma_with_value(value: i32, e: Self)
        ensures
            Self::with_value(value) == Some(e) <==> e.value() == value,
    {
        if e.value() == value {
            let x = choose|x: Self| #[trigger] x.value() == value;
            Self::lemma_injective(x, e);
        }
    }

    /// What a field holding `value` reads as: the variant numbered `value` when some variant
    /// has that number, and otherwise the variant numbered 0.
    pub proof fn lemma_number_or_default(value: i32)
        ensures
            (exists|e: Self| #[trigger] e.value() == value) ==> Self::from_number_or_default(value).value() == value,
            (forall|e: Self| #[trigger] e.value() != value) ==> Self::from_number_or_default(value).value() == 0,
            (forall|e: Self| #[trigger] e.value() != value) ==> Self::from_number_or_default(value) == Self::default_variant(),
            Self::default_variant().value() == 0,
    {
        if exists|e: Self| #[trigger] e.value() == value {
            let e = choose|e: Self| #[trigger] e.value() == value;
            Self::lemma_with_value(value, e);
        }
    }

    /// `try_from` accepts exactly the numbers that variants have and gives back the variant with
    /// that number; every other number it rejects with the error that records that number.
    pub proof fn lemma_try_from(value: i32, e: Self)
        ensures
            (<Self as vstd::std_specs::convert::TryFromSpec<i32>>::try_from_spec(value) == Ok::<Self, prost::UnknownEnumValue>(e)) <==> e.value() == value,
            (forall|x: Self| #[trigger] x.value() != value) ==> <Self as vstd::std_specs::convert::TryFromSpec<i32>>::try_from_spec(value) == Err::<Self, prost::UnknownEnumValue>(crate::enum_error::unknown_enum_value(value)),
            (exists|x: Self| #[trigger] x.value() == value) ==> <Self as vstd::std_specs::convert::TryFromSpec<i32>>::try_from_spec(value) is Ok,
    {
        Self::lemma_with_value(value, e);
        if exists|x: Self| #[trigger] x.value() == value {
            let x = choose|x: Self| #[trigger] x.value() == value;
            Self::lemma_with_value(value, x);
        }
    }

    /// Reading back the number of a variant gives that variant: a field set to `e` reads as `e`.
    pub proof fn lemma_read_after_write(e: Self)
        ensures
            Self::from_number_or_default(e.value()) == e,
    {
        Self::lemma_with_value(e.value(), e);
    }

    /// String value of the enum field names used in the ProtoBuf definition.
    ///
    /// The values are not transformed in any way and thus are considered stable
    /// (if the ProtoBuf definition does not change) and safe for programmatic use.
    pub fn as_str_name(&self) -> (name: &'static str)
        ensures
            name@ == self.str_name(),
    {
        match self {
            PortNum::UnknownApp => "UNKNOWN_APP",
            PortNum::TextMessageApp => "TEXT_MESSAGE_APP",
            PortNum::RemoteHardwareApp => "REMOTE_HARDWARE_APP",
            PortNum::PositionApp => "POSITION_APP",
            PortNum::NodeinfoApp => "NODEINFO_APP",
            PortNum::RoutingApp => "ROUTING_APP",
            PortNum::AdminApp => "ADMIN_APP",
            PortNum::TextMessageCompressedApp => "TEXT_MESSAGE_COMPRESSED_APP",
            PortNum::WaypointApp => "WAYPOINT_APP",
            PortNum::AudioApp => "AUDIO_APP",
            PortNum::DetectionSensorApp => "DETECTION_SENSOR_APP",
            PortNum::AlertApp => "ALERT_APP",
            PortNum::ReplyApp => "REPLY_APP",
            PortNum::IpTunnelApp => "IP_TUNNEL_APP",
            PortNum::PaxcounterApp => "PAXCOUNTER_APP",
            PortNum::SerialApp => "SERIAL_APP",
            PortNum::StoreForwardApp => "STORE_FORWARD_APP",
            PortNum::RangeTestApp => "RANGE_TEST_APP",
            PortNum::TelemetryApp => "TELEMETRY_APP",
            PortNum::ZpsApp => "ZPS_APP",
            PortNum::SimulatorApp => "SIMULATOR_APP",
            PortNum::TracerouteApp => "TRACEROUTE_APP",
            PortNum::NeighborinfoApp => "NEIGHBORINFO_APP",
            PortNum::AtakPlugin => "ATAK_PLUGIN",
            PortNum::MapReportApp => "MAP_REPORT_APP",
            PortNum::PowerstressApp => "POWERSTRESS_APP",
            PortNum::PrivateApp => "PRIVATE_APP",
            PortNum::AtakForwarder => "ATAK_FORWARDER",
            PortNum::Max => "MAX",
        }
    }

    /// Creates an enum from field names used in the ProtoBuf definition.
    pub fn from_str_name(value: &str) -> (r: Option<Self>)
        ensures
            r == Self::named(value@),
    {
        if str_eq(value, "UNKNOWN_APP") {
            proof {
                Self::lemma_named(value@, PortNum::UnknownApp);
            }
            return Some(PortNum::UnknownApp);
        }
        if str_eq(value, "TEXT_MESSAGE_APP") {
            proof {
                Self::lemma_named(value@, PortNum::TextMessageApp);
            }
            return Some(PortNum::TextMessageApp);
        }
        if str_eq(value, "REMOTE_HARDWARE_APP") {
            proof {
                Self::lemma_named(value@, PortNum::RemoteHardwareApp);
            }
            return Some(PortNum::RemoteHardwareApp);
        }
        if str_eq(value, "POSITION_APP") {
            proof {
                Self::lemma_named(value@, PortNum::PositionApp);
            }
            return Some(PortNum::PositionApp);
        }
        if str_eq(value, "NODEINFO_APP") {
            proof {
                Self::lemma_named(value@, PortNum::NodeinfoApp);
            }
            return Some(PortNum::NodeinfoApp);
        }
        if str_eq(value, "ROUTING_APP") {
            proof {
                Self::lemma_named(value@, PortNum::RoutingApp);
            }
            return Some(PortNum::RoutingApp);
        }
        if str_eq(value, "ADMIN_APP") {
            proof {
                Self::lemma_named(value@, PortNum::AdminApp);
            }
            return Some(PortNum::AdminApp);
        }
        if str_eq(value, "TEXT_MESSAGE_COMPRESSED_APP") {
            proof {
                Self::lemma_named(value@, PortNum::TextMessageCompressedApp);
            }
            return Some(PortNum::TextMessageCompressedApp);
        }
        if str_eq(value, "WAYPOINT_APP") {
            proof {
                Self::lemma_named(value@, PortNum::WaypointApp);
            }
            return Some(PortNum::WaypointApp);
        }
        if str_eq(value, "AUDIO_APP") {
            proof {
                Self::lemma_named(value@, PortNum::AudioApp);
            }
            return Some(PortNum::AudioApp);
        }
        if str_eq(value, "DETECTION_SENSOR_APP") {
            proof {
                Self::lemma_named(value@, PortNum::DetectionSensorApp);
            }
            return Some(PortNum::DetectionSensorApp);
        }
        if str_eq(value, "ALERT_APP") {
            proof {
                Self::lemma_named(value@, PortNum::AlertApp);
            }
            return Some(PortNum::AlertApp);
        }
        if str_eq(value, "REPLY_APP") {
            proof {
                Self::lemma_named(value@, PortNum::ReplyApp);
            }
            return Some(PortNum::ReplyApp);
        }
        if str_eq(value, "IP_TUNNEL_APP") {
            proof {
                Self::lemma_named(value@, PortNum::IpTunnelApp);
            }
            return Some(PortNum::IpTunnelApp);
        }
        if str_eq(value, "PAXCOUNTER_APP") {
            proof {
                Self::lemma_named(value@, PortNum::PaxcounterApp);
            }
            return Some(PortNum::PaxcounterApp);
        }
        if str_eq(value, "SERIAL_APP") {
            proof {
                Self::lemma_named(value@, PortNum::SerialApp);
            }
            return Some(PortNum::SerialApp);
        }
        if str_eq(value, "STORE_FORWARD_APP") {
            proof {
                Self::lemma_named(value@, PortNum::StoreForwardApp);
            }
            return Some(PortNum::StoreForwardApp);
        }
        if str_eq(value, "RANGE_TEST_APP") {
            proof {
                Self::lemma_named(value@, PortNum::RangeTestApp);
            }
            return Some(PortNum::RangeTestApp);
        }
        if str_eq(value, "TELEMETRY_APP") {
            proof {
                Self::lemma_named(value@, PortNum::TelemetryApp);
            }
            return Some(PortNum::TelemetryApp);
        }
        if str_eq(value, "ZPS_APP") {
            proof {
                Self::lemma_named(value@, PortNum::ZpsApp);
            }
            return Some(PortNum::ZpsApp);
        }
        if str_eq(value, "SIMULATOR_APP") {
            proof {
                Self::lemma_named(value@, PortNum::SimulatorApp);
            }
            return Some(PortNum::SimulatorApp);
        }
        if str_eq(value, "TRACEROUTE_APP") {
            proof {
                Self::lemma_named(value@, PortNum::TracerouteApp);
            }
            return Some(PortNum::TracerouteApp);
        }
        if str_eq(value, "NEIGHBORINFO_APP") {
            proof {
                Self::lemma_named(value@, PortNum::NeighborinfoApp);
            }
            return Some(PortNum::NeighborinfoApp);
        }
        if str_eq(value, "ATAK_PLUGIN") {
            proof {
                Self::lemma_named(value@, PortNum::AtakPlugin);
            }
            return Some(PortNum::AtakPlugin);
        }
        if str_eq(value, "MAP_REPORT_APP") {
            proof {
                Self::lemma_named(value@, PortNum::MapReportApp);
            }
            return Some(PortNum::MapReportApp);
        }
        if str_eq(value, "POWERSTRESS_APP") {
            proof {
                Self::lemma_named(value@, PortNum::PowerstressApp);
            }
            return Some(PortNum::PowerstressApp);
        }
        if str_eq(value, "PRIVATE_APP") {
            proof {
                Self::lemma_named(value@, PortNum::PrivateApp);
            }
            return Some(PortNum::PrivateApp);
        }
        if str_eq(value, "ATAK_FORWARDER") {
            proof {
                Self::lemma_named(value@, PortNum::AtakForwarder);
            }
            return Some(PortNum::AtakForwarder);
        }
        if str_eq(value, "MAX") {
            proof {
                Self::lemma_named(value@, PortNum::Max);
            }
            return Some(PortNum::Max);
        }
        None
    }

    /// Returns `true` if `value` is a variant of `PortNum`.
    pub fn is_valid(value: i32) -> (r: bool)
        ensures
            r == (Self::with_value(value) is Some),
    {
        Self::from_i32(value).is_some()
    }

    /// Converts an `i32` to a `PortNum`, or `None` if `value` is not a valid variant.
    pub fn from_i32(value: i32) -> (r: Option<Self>)
        ensures
            r == Self::with_value(value),
    {
        if value == 0 {
            proof {
                Self::lemma_with_value(value, PortNum::UnknownApp);
            }
            return Some(PortNum::UnknownApp);
        }
        if value == 1 {
            proof {
                Self::lemma_with_value(value, PortNum::TextMessageApp);
            }
            return Some(PortNum::TextMessageApp);
        }
        if value == 2 {
            proof {
                Self::lemma_with_value(value, PortNum::RemoteHardwareApp);
            }
            return Some(PortNum::RemoteHardwareApp);
        }
        if value == 3 {
            proof {
                Self::lemma_with_value(value, PortNum::PositionApp);
            }
            return Some(PortNum::PositionApp);
        }
        if value == 4 {
            proof {
                Self::lemma_with_value(value, PortNum::NodeinfoApp);
            }
            return Some(PortNum::NodeinfoApp);
        }
        if value == 5 {
            proof {
                Self::lemma_with_value(value, PortNum::RoutingApp);
            }
            return Some(PortNum::RoutingApp);
        }
        if value == 6 {
            proof {
                Self::lemma_with_value(value, PortNum::AdminApp);
            }
            return Some(PortNum::AdminApp);
        }
        if value == 7 {
            proof {
                Self::lemma_with_value(value, PortNum::TextMessageCompressedApp);
            }
            return Some(PortNum::TextMessageCompressedApp);
        }
        if value == 8 {
            proof {
                Self::lemma_with_value(value, PortNum::WaypointApp);
            }
            return Some(PortNum::WaypointApp);
        }
        if value == 9 {
            proof {
                Self::lemma_with_value(value, PortNum::AudioApp);
            }
            return Some(PortNum::AudioApp);
        }
        if value == 10 {
            proof {
                Self::lemma_with_value(value, PortNum::DetectionSensorApp);
            }
            return Some(PortNum::DetectionSensorApp);
        }
        if value == 11 {
            proof {
                Self::lemma_with_value(value, PortNum::AlertApp);
            }
            return Some(PortNum::AlertApp);
        }
        if value == 32 {
            proof {
                Self::lemma_with_value(value, PortNum::ReplyApp);
            }
            return Some(PortNum::ReplyApp);
        }
        if value == 33 {
            proof {
                Self::lemma_with_value(value, PortNum::IpTunnelApp);
            }
            return Some(PortNum::IpTunnelApp);
        }
        if value == 34 {
            proof {
                Self::lemma_with_value(value, PortNum::PaxcounterApp);
            }
            return Some(PortNum::PaxcounterApp);
        }
        if value == 64 {
            proof {
                Self::lemma_with_value(value, PortNum::SerialApp);
            }
            return Some(PortNum::SerialApp);
        }
        if value == 65 {
            proof {
                Self::lemma_with_value(value, PortNum::StoreForwardApp);
            }
            return Some(PortNum::StoreForwardApp);
        }
        if value == 66 {
            proof {
                Self::lemma_with_value(value, PortNum::RangeTestApp);
            }
            return Some(PortNum::RangeTestApp);
        }
        if value == 67 {
            proof {
                Self::lemma_with_value(value, PortNum::TelemetryApp);
            }
            return Some(PortNum::TelemetryApp);
        }
        if value == 68 {
            proof {
                Self::lemma_with_value(value, PortNum::ZpsApp);
            }
            return Some(PortNum::ZpsApp);
        }
        if value == 69 {
            proof {
                Self::lemma_with_value(value, PortNum::SimulatorApp);
            }
            return Some(PortNum::SimulatorApp);
        }
        if value == 70 {
            proof {
                Self::lemma_with_value(value, PortNum::TracerouteApp);
            }
            return Some(PortNum::TracerouteApp);
        }
        if value == 71 {
            proof {
                Self::lemma_with_value(value, PortNum::NeighborinfoApp);
            }
            return Some(PortNum::NeighborinfoApp);
        }
        if value == 72 {
            proof {
                Self::lemma_with_value(value, PortNum::AtakPlugin);
            }
            return Some(PortNum::AtakPlugin);
        }
        if value == 73 {
            proof {
                Self::lemma_with_value(value, PortNum::MapReportApp);
            }
            return Some(PortNum::MapReportApp);
        }
        if value == 74 {
            proof {
                Self::lemma_with_value(value, PortNum::PowerstressApp);
            }
            return Some(PortNum::PowerstressApp);
        }
        if value == 256 {
            proof {
                Self::lemma_with_value(value, PortNum::PrivateApp);
            }
            return Some(PortNum::PrivateApp);
        }
        if value == 257 {
            proof {
                Self::lemma_with_value(value, PortNum::AtakForwarder);
            }
            return Some(PortNum::AtakForwarder);
        }
        if value == 511 {
            proof {
                Self::lemma_with_value(value, PortNum::Max);
            }
            return Some(PortNum::Max);
        }
        None
    }
}

impl Default for PortNum {
    /// The variant numbered 0, the default value of the field in ProtoBuf.
    fn default() -> (r: Self)
        ensures
            r == Self::default_variant(),
            r.value() == 0,
    {
        PortNum::UnknownApp
    }
}

impl From<PortNum> for i32 {
    fn from(value: PortNum) -> (r: i32) {
        match value {
            PortNum::UnknownApp => 0,
            PortNum::TextMessageApp => 1,
            PortNum::RemoteHardwareApp => 2,
            PortNum::PositionApp => 3,
            PortNum::NodeinfoApp => 4,
            PortNum::RoutingApp => 5,
            PortNum::AdminApp => 6,
            PortNum::TextMessageCompressedApp => 7,
            PortNum::WaypointApp => 8,
            PortNum::AudioApp => 9,
            PortNum::DetectionSensorApp => 10,
            PortNum::AlertApp => 11,
            PortNum::ReplyApp => 32,
            PortNum::IpTunnelApp => 33,
            PortNum::PaxcounterApp => 34,
            PortNum::SerialApp => 64,
            PortNum::StoreForwardApp => 65,
            PortNum::RangeTestApp => 66,
            PortNum::TelemetryApp => 67,
            PortNum::ZpsApp => 68,
            PortNum::SimulatorApp => 69,
            PortNum::TracerouteApp => 70,
            PortNum::NeighborinfoApp => 71,
            PortNum::AtakPlugin => 72,
            PortNum::MapReportApp => 73,
            PortNum::PowerstressApp => 74,
            PortNum::PrivateApp => 256,
            PortNum::AtakForwarder => 257,
            PortNum::Max => 511,
        }
    }
}

impl TryFrom<i32> for PortNum {
    type Error = prost::UnknownEnumValue;

    fn try_from(value: i32) -> (r: Result<PortNum, prost::UnknownEnumValue>)
        ensures
            r matches Ok(e) ==> e.value() == value,
            (exists|e: PortNum| #[trigger] e.value() == value) ==> r is Ok,
            r is Err ==> r == Err::<PortNum, prost::UnknownEnumValue>(crate::enum_error::unknown_enum_value(value)),
    {
        proof {
            if exists|e: PortNum| #[trigger] e.value() == value {
                let e = choose|e: PortNum| #[trigger] e.value() == value;
                PortNum::lemma_with_value(value, e);
            }
        }
        match PortNum::from_i32(value) {
            Some(e) => Ok(e),
            None => Err(make_unknown_enum_value(value)),
        }
    }
}

impl vstd::std_specs::convert::TryFromSpecImpl<i32> for PortNum {
    open spec fn obeys_try_from_spec() -> bool {
        true
    }

    open spec fn try_from_spec(value: i32) -> Result<PortNum, prost::UnknownEnumValue> {
        match PortNum::with_value(value) {
            Some(e) => Ok(e),
            None => Err(crate::enum_error::unknown_enum_value(value)),
        }
    }
}

impl vstd::std_specs::convert::FromSpecImpl<PortNum> for i32 {
    open spec fn obeys_from_spec() -> bool {
        true
    }

    open spec fn from_spec(value: PortNum) -> i32 {
        value.value()
    }
}

} // verus!
