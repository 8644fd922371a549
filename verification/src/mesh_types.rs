//! Message and enumeration types of the mesh definitions.

use vstd::prelude::*;
use crate::enum_error::make_unknown_enum_value;
use crate::text::str_eq;

verus! {

/// A GPS Position
#[derive(Clone, Debug, PartialEq)]
pub struct Position {
    /// The new preferred location encoding, multiply by 1e-7 to get degrees
    /// in floating point
    pub latitude_i: Option<i32>,
    pub longitude_i: Option<i32>,
    /// In meters above MSL (but see issue #359)
    pub altitude: Option<i32>,
    /// This is usually not sent over the mesh (to save space), but it is sent
    /// from the phone so that the local device can set its time if it is sent over
    /// the mesh (because there are devices on the mesh without GPS or RTC).
    /// seconds since 1970
    pub time: u32,
    pub location_source: i32,
    pub altitude_source: i32,
    /// Positional timestamp (actual timestamp of GPS solution) in integer epoch seconds
    pub timestamp: u32,
    /// Pos. timestamp milliseconds adjustment (rarely available or required)
    pub timestamp_millis_adjust: i32,
    /// HAE altitude in meters - can be used instead of MSL altitude
    pub altitude_hae: Option<i32>,
    /// Geoidal separation in meters
    pub altitude_geoidal_separation: Option<i32>,
    /// Horizontal, Vertical and Position Dilution of Precision, in 1/100 units
    /// - PDOP is sufficient for most cases
    /// - for higher precision scenarios, HDOP and VDOP can be used instead,
    /// in which case PDOP becomes redundant (PDOP=sqrt(HDOP^2 + VDOP^2))
    pub pdop: u32,
    pub hdop: u32,
    pub vdop: u32,
    /// GPS accuracy (a hardware specific constant) in mm
    /// multiplied with DOP to calculate positional accuracy
    /// Default: "'bout three meters-ish" :)
    pub gps_accuracy: u32,
    /// Ground speed in m/s and True North TRACK in 1/100 degrees
    /// Clarification of terms:
    /// - "track" is the direction of motion (measured in horizontal plane)
    /// - "heading" is where the fuselage points (measured in horizontal plane)
    /// - "yaw" indicates a relative rotation about the vertical axis
    pub ground_speed: Option<u32>,
    pub ground_track: Option<u32>,
    /// GPS fix quality (from NMEA GxGGA statement or similar)
    pub fix_quality: u32,
    /// GPS fix type 2D/3D (from NMEA GxGSA statement)
    pub fix_type: u32,
    /// GPS "Satellites in View" number
    pub sats_in_view: u32,
    /// Sensor ID - in case multiple positioning sensors are being used
    pub sensor_id: u32,
    /// Estimated/expected time (in seconds) until next update:
    /// - if we update at fixed intervals of X seconds, use X
    /// - if we update at dynamic intervals (based on relative movement etc),
    /// but "AT LEAST every Y seconds", use Y
    pub next_update: u32,
    /// A sequence number, incremented with each Position message to help
    /// detect lost updates if needed
    pub seq_number: u32,
    /// Indicates the bits of precision set by the sending node
    pub precision_bits: u32,
}

impl Position {
    /// Returns the value of `latitude_i`, or the default value if `latitude_i` is unset.
    pub fn latitude_i(&self) -> (r: i32)
        ensures
            r == (match self.latitude_i {
                Some(v) => v,
                None => 0,
            }),
    {
        match self.latitude_i {
            Some(v) => v,
            None => 0,
        }
    }

    /// Returns the value of `longitude_i`, or the default value if `longitude_i` is unset.
    pub fn longitude_i(&self) -> (r: i32)
        ensures
            r == (match self.longitude_i {
                Some(v) => v,
                None => 0,
            }),
    {
        match self.longitude_i {
            Some(v) => v,
            None => 0,
        }
    }

    /// Returns the value of `altitude`, or the default value if `altitude` is unset.
    pub fn altitude(&self) -> (r: i32)
        ensures
            r == (match self.altitude {
                Some(v) => v,
                None => 0,
            }),
    {
        match self.altitude {
            Some(v) => v,
            None => 0,
        }
    }

    /// Returns the enum value of `location_source`, or the default if the field is set to an invalid enum value.
    pub fn location_source(&self) -> (r: crate::position::LocSource)
        ensures
            r == crate::position::LocSource::from_number_or_default(self.location_source),
            (exists|e: crate::position::LocSource| #[trigger] e.value() == self.location_source) ==> r.value() == self.location_source,
            (forall|e: crate::position::LocSource| #[trigger] e.value() != self.location_source) ==> r.value() == 0,
    {
        proof {
            crate::position::LocSource::lemma_number_or_default(self.location_source);
        }
        match crate::position::LocSource::from_i32(self.location_source) {
            Some(e) => e,
            None => <crate::position::LocSource as Default>::default(),
        }
    }

    /// Sets `location_source` to the provided enum value.
    pub fn set_location_source(&mut self, value: crate::position::LocSource)
        ensures
            *final(self) == (Self { location_source: value.value(), ..*old(self) }),
    {
        self.location_source = i32::from(value);
    }

    /// Returns the enum value of `altitude_source`, or the default if the field is set to an invalid enum value.
    pub fn altitude_source(&self) -> (r: crate::position::AltSource)
        ensures
            r == crate::position::AltSource::from_number_or_default(self.altitude_source),
            (exists|e: crate::position::AltSource| #[trigger] e.value() == self.altitude_source) ==> r.value() == self.altitude_source,
            (forall|e: crate::position::AltSource| #[trigger] e.value() != self.altitude_source) ==> r.value() == 0,
    {
        proof {
            crate::position::AltSource::lemma_number_or_default(self.altitude_source);
        }
        match crate::position::AltSource::from_i32(self.altitude_source) {
            Some(e) => e,
            None => <crate::position::AltSource as Default>::default(),
        }
    }

    /// Sets `altitude_source` to the provided enum value.
    pub fn set_altitude_source(&mut self, value: crate::position::AltSource)
        ensures
            *final(self) == (Self { altitude_source: value.value(), ..*old(self) }),
    {
        self.altitude_source = i32::from(value);
    }

    /// Returns the value of `altitude_hae`, or the default value if `altitude_hae` is unset.
    pub fn altitude_hae(&self) -> (r: i32)
        ensures
            r == (match self.altitude_hae {
                Some(v) => v,
                None => 0,
            }),
    {
        match self.altitude_hae {
            Some(v) => v,
            None => 0,
        }
    }

    /// Returns the value of `altitude_geoidal_separation`, or the default value if `altitude_geoidal_separation` is unset.
    pub fn altitude_geoidal_separation(&self) -> (r: i32)
        ensures
            r == (match self.altitude_geoidal_separation {
                Some(v) => v,
                None => 0,
            }),
    {
        match self.altitude_geoidal_separation {
            Some(v) => v,
            None => 0,
        }
    }

    /// Returns the value of `ground_speed`, or the default value if `ground_speed` is unset.
    pub fn ground_speed(&self) -> (r: u32)
        ensures
            r == (match self.ground_speed {
                Some(v) => v,
                None => 0,
            }),
    {
        match self.ground_speed {
            Some(v) => v,
            None => 0,
        }
    }

    /// Returns the value of `ground_track`, or the default value if `ground_track` is unset.
    pub fn ground_track(&self) -> (r: u32)
        ensures
            r == (match self.ground_track {
                Some(v) => v,
                None => 0,
            }),
    {
        match self.ground_track {
            Some(v) => v,
            None => 0,
        }
    }
}

impl Default for Position {
    /// The message with every field unset: numbers 0, flags false, strings, bytes and lists
    /// empty, and no nested message.
    fn default() -> (r: Self)
        ensures
            r.latitude_i is None,
            r.longitude_i is None,
            r.altitude is None,
            r.time == 0,
            r.location_source == 0,
            r.altitude_source == 0,
            r.timestamp == 0,
            r.timestamp_millis_adjust == 0,
            r.altitude_hae is None,
            r.altitude_geoidal_separation is None,
            r.pdop == 0,
            r.hdop == 0,
            r.vdop == 0,
            r.gps_accuracy == 0,
            r.ground_speed is None,
            r.ground_track is None,
            r.fix_quality == 0,
            r.fix_type == 0,
            r.sats_in_view == 0,
            r.sensor_id == 0,
            r.next_update == 0,
            r.seq_number == 0,
            r.precision_bits == 0,
    {
        Position {
            latitude_i: None,
            longitude_i: None,
            altitude: None,
            time: 0,
            location_source: 0,
            altitude_source: 0,
            timestamp: 0,
            timestamp_millis_adjust: 0,
            altitude_hae: None,
            altitude_geoidal_separation: None,
            pdop: 0,
            hdop: 0,
            vdop: 0,
            gps_accuracy: 0,
            ground_speed: None,
            ground_track: None,
            fix_quality: 0,
            fix_type: 0,
            sats_in_view: 0,
            sensor_id: 0,
            next_update: 0,
            seq_number: 0,
            precision_bits: 0,
        }
    }
}

/// Broadcast when a newly powered mesh node wants to find a node num it can use
/// Sent from the phone over bluetooth to set the user id for the owner of this node.
/// Also sent from nodes to each other when a new node signs on (so all clients can have this info)
/// The algorithm is as follows:
/// when a node starts up, it broadcasts their user and the normal flow is for all
/// other nodes to reply with their User as well (so the new node can build its nodedb)
/// If a node ever receives a User (not just the first broadcast) message where
/// the sender node number equals our node number, that indicates a collision has
/// occurred and the following steps should happen:
/// If the receiving node (that was already in the mesh)'s macaddr is LOWER than the
/// new User who just tried to sign in: it gets to keep its nodenum.
/// We send a broadcast message of OUR User (we use a broadcast so that the other node can
/// receive our message, considering we have the same id - it also serves to let
/// observers correct their nodedb) - this case is rare so it should be okay.
/// If any node receives a User where the macaddr is GTE than their local macaddr,
/// they have been vetoed and should pick a new random nodenum (filtering against
/// whatever it knows about the nodedb) and rebroadcast their User.
/// A few nodenums are reserved and will never be requested:
/// 0xff - broadcast
/// 0 through 3 - for future use
#[derive(Clone, Debug, PartialEq)]
pub struct User {
    /// A globally unique ID string for this user.
    /// In the case of Signal that would mean +16504442323, for the default macaddr derived id it would be !<8 hexidecimal bytes>.
    /// Note: app developers are encouraged to also use the following standard
    /// node IDs "^all" (for broadcast), "^local" (for the locally connected node)
    pub id: String,
    /// A full name for this user, i.e. "Kevin Hester"
    pub long_name: String,
    /// A VERY short name, ideally two characters.
    /// Suitable for a tiny OLED screen
    pub short_name: String,
    /// Deprecated in Meshtastic 2.1.x
    /// This is the addr of the radio.
    /// Not populated by the phone, but added by the esp32 when broadcasting
    pub macaddr: Vec<u8>,
    /// TBEAM, HELTEC, etc...
    /// Starting in 1.2.11 moved to hw_model enum in the NodeInfo object.
    /// Apps will still need the string here for older builds
    /// (so OTA update can find the right image), but if the enum is available it will be used instead.
    pub hw_model: i32,
    /// In some regions Ham radio operators have different bandwidth limitations than others.
    /// If this user is a licensed operator, set this flag.
    /// Also, "long_name" should be their licence number.
    pub is_licensed: bool,
    /// Indicates that the user's role in the mesh
    pub role: i32,
    /// The public key of the user's device.
    /// This is sent out to other nodes on the mesh to allow them to compute a shared secret key.
    pub public_key: Vec<u8>,
}

impl User {
    /// Returns the enum value of `hw_model`, or the default if the field is set to an invalid enum value.
    pub fn hw_model(&self) -> (r: crate::HardwareModel)
        ensures
            r == crate::HardwareModel::from_number_or_default(self.hw_model),
            (exists|e: crate::HardwareModel| #[trigger] e.value() == self.hw_model) ==> r.value() == self.hw_model,
            (forall|e: crate::HardwareModel| #[trigger] e.value() != self.hw_model) ==> r.value() == 0,
    {
        proof {
            crate::HardwareModel::lemma_number_or_default(self.hw_model);
        }
        match crate::HardwareModel::from_i32(self.hw_model) {
            Some(e) => e,
            None => <crate::HardwareModel as Default>::default(),
        }
    }

    /// Sets `hw_model` to the provided enum value.
    pub fn set_hw_model(&mut self, value: crate::HardwareModel)
        ensures
            *final(self) == (Self { hw_model: value.value(), ..*old(self) }),
    {
        self.hw_model = i32::from(value);
    }

    /// Returns the enum value of `role`, or the default if the field is set to an invalid enum value.
    pub fn role(&self) -> (r: crate::config::device_config::Role)
        ensures
            r == crate::config::device_config::Role::from_number_or_default(self.role),
            (exists|e: crate::config::device_config::Role| #[trigger] e.value() == self.role) ==> r.value() == self.role,
            (forall|e: crate::config::device_config::Role| #[trigger] e.value() != self.role) ==> r.value() == 0,
    {
        proof {
            crate::config::device_config::Role::lemma_number_or_default(self.role);
        }
        match crate::config::device_config::Role::from_i32(self.role) {
            Some(e) => e,
            None => <crate::config::device_config::Role as Default>::default(),
        }
    }

    /// Sets `role` to the provided enum value.
    pub fn set_role(&mut self, value: crate::config::device_config::Role)
        ensures
            *final(self) == (Self { role: value.value(), ..*old(self) }),
    {
        self.role = i32::from(value);
    }
}

impl Default for User {
    /// The message with every field unset: numbers 0, flags false, strings, bytes and lists
    /// empty, and no nested message.
    fn default() -> (r: Self)
        ensures
            r.id@ == Seq::<char>::empty(),
            r.long_name@ == Seq::<char>::empty(),
            r.short_name@ == Seq::<char>::empty(),
            r.macaddr@.len() == 0,
            r.hw_model == 0,
            r.is_licensed == false,
            r.role == 0,
            r.public_key@.len() == 0,
    {
        User {
            id: String::new(),
            long_name: String::new(),
            short_name: String::new(),
            macaddr: Vec::new(),
            hw_model: 0,
            is_licensed: false,
            role: 0,
            public_key: Vec::new(),
        }
    }
}

/// A message used in a traceroute
#[derive(Clone, Debug, PartialEq)]
pub struct RouteDiscovery {
    /// The list of nodenums this packet has visited so far to the destination.
    pub route: Vec<u32>,
    /// The list of SNRs (in dB, scaled by 4) in the route towards the destination.
    pub snr_towards: Vec<i32>,
    /// The list of nodenums the packet has visited on the way back from the destination.
    pub route_back: Vec<u32>,
    /// The list of SNRs (in dB, scaled by 4) in the route back from the destination.
    pub snr_back: Vec<i32>,
}

impl Default for RouteDiscovery {
    /// The message with every field unset: numbers 0, flags false, strings, bytes and lists
    /// empty, and no nested message.
    fn default() -> (r: Self)
        ensures
            r.route@.len() == 0,
            r.snr_towards@.len() == 0,
            r.route_back@.len() == 0,
            r.snr_back@.len() == 0,
    {
        RouteDiscovery {
            route: Vec::new(),
            snr_towards: Vec::new(),
            route_back: Vec::new(),
            snr_back: Vec::new(),
        }
    }
}

/// A Routing control Data packet handled by the routing module
#[derive(Clone, Debug, PartialEq)]
pub struct Routing {
    pub variant: Option<crate::routing::Variant>,
}

impl Default for Routing {
    /// The message with every field unset: numbers 0, flags false, strings, bytes and lists
    /// empty, and no nested message.
    fn default() -> (r: Self)
        ensures
            r.variant is None,
    {
        Routing {
            variant: None,
        }
    }
}

/// (Formerly called SubPacket)
/// The payload portion fo a packet, this is the actual bytes that are sent
/// inside a radio packet (because from/to are broken out by the comms library)
#[derive(Clone, Debug, PartialEq)]
pub struct Data {
    /// Formerly named typ and of type Type
    pub portnum: i32,
    pub payload: Vec<u8>,
    /// Not normally used, but for testing a sender can request that recipient
    /// responds in kind (i.e. if it received a position, it should unicast back it's position).
    /// Note: that if you set this on a broadcast you will receive many replies.
    pub want_response: bool,
    /// The address of the destination node.
    /// This field is is filled in by the mesh radio device software, application
    /// layer software should never need it.
    /// RouteDiscovery messages _must_ populate this.
    /// Other message types might need to if they are doing multihop routing.
    pub dest: u32,
    /// The address of the original sender for this message.
    /// This field should _only_ be populated for reliable multihop packets (to keep
    /// packets small).
    pub source: u32,
    /// Only used in routing or response messages.
    /// Indicates the original message ID that this message is reporting failure on. (formerly called original_id)
    pub request_id: u32,
    /// If set, this message is intened to be a reply to a previously sent message with the defined id.
    pub reply_id: u32,
    /// Defaults to false. If true, then what is in the payload should be treated as an emoji like giving
    /// a message a heart or poop emoji.
    pub emoji: u32,
    /// Bitfield for extra flags. First use is to indicate that user approves the packet being uploaded to MQTT.
    pub bitfield: Option<u32>,
}

impl Data {
    /// Returns the enum value of `portnum`, or the default if the field is set to an invalid enum value.
    pub fn portnum(&self) -> (r: crate::PortNum)
        ensures
            r == crate::PortNum::from_number_or_default(self.portnum),
            (exists|e: crate::PortNum| #[trigger] e.value() == self.portnum) ==> r.value() == self.portnum,
            (forall|e: crate::PortNum| #[trigger] e.value() != self.portnum) ==> r.value() == 0,
    {
        proof {
            crate::PortNum::lemma_number_or_default(self.portnum);
        }
        match crate::PortNum::from_i32(self.portnum) {
            Some(e) => e,
            None => <crate::PortNum as Default>::default(),
        }
    }

    /// Sets `portnum` to the provided enum value.
    pub fn set_portnum(&mut self, value: crate::PortNum)
        ensures
            *final(self) == (Self { portnum: value.value(), ..*old(self) }),
    {
        self.portnum = i32::from(value);
    }

    /// Returns the value of `bitfield`, or the default value if `bitfield` is unset.
    pub fn bitfield(&self) -> (r: u32)
        ensures
            r == (match self.bitfield {
                Some(v) => v,
                None => 0,
            }),
    {
        match self.bitfield {
            Some(v) => v,
            None => 0,
        }
    }
}

impl Default for Data {
    /// The message with every field unset: numbers 0, flags false, strings, bytes and lists
    /// empty, and no nested message.
    fn default() -> (r: Self)
        ensures
            r.portnum == 0,
            r.payload@.len() == 0,
            r.want_response == false,
            r.dest == 0,
            r.source == 0,
            r.request_id == 0,
            r.reply_id == 0,
            r.emoji == 0,
            r.bitfield is None,
    {
        Data {
            portnum: 0,
            payload: Vec::new(),
            want_response: false,
            dest: 0,
            source: 0,
            request_id: 0,
            reply_id: 0,
            emoji: 0,
            bitfield: None,
        }
    }
}

/// Waypoint message, used to share arbitrary locations across the mesh
#[derive(Clone, Debug, PartialEq)]
pub struct Waypoint {
    /// Id of the waypoint
    pub id: u32,
    /// latitude_i
    pub latitude_i: Option<i32>,
    /// longitude_i
    pub longitude_i: Option<i32>,
    /// Time the waypoint is to expire (epoch)
    pub expire: u32,
    /// If greater than zero, treat the value as a nodenum only allowing them to update the waypoint.
    /// If zero, the waypoint is open to be edited by any member of the mesh.
    pub locked_to: u32,
    /// Name of the waypoint - max 30 chars
    pub name: String,
    /// Description of the waypoint - max 100 chars
    pub description: String,
    /// Designator icon for the waypoint in the form of a unicode emoji
    pub icon: u32,
}

impl Waypoint {
    /// Returns the value of `latitude_i`, or the default value if `latitude_i` is unset.
    pub fn latitude_i(&self) -> (r: i32)
        ensures
            r == (match self.latitude_i {
                Some(v) => v,
                None => 0,
            }),
    {
        match self.latitude_i {
            Some(v) => v,
            None => 0,
        }
    }

    /// Returns the value of `longitude_i`, or the default value if `longitude_i` is unset.
    pub fn longitude_i(&self) -> (r: i32)
        ensures
            r == (match self.longitude_i {
                Some(v) => v,
                None => 0,
            }),
    {
        match self.longitude_i {
            Some(v) => v,
            None => 0,
        }
    }
}

impl Default for Waypoint {
    /// The message with every field unset: numbers 0, flags false, strings, bytes and lists
    /// empty, and no nested message.
    fn default() -> (r: Self)
        ensures
            r.id == 0,
            r.latitude_i is None,
            r.longitude_i is None,
            r.expire == 0,
            r.locked_to == 0,
            r.name@ == Seq::<char>::empty(),
            r.description@ == Seq::<char>::empty(),
            r.icon == 0,
    {
        Waypoint {
            id: 0,
            latitude_i: None,
            longitude_i: None,
            expire: 0,
            locked_to: 0,
            name: String::new(),
            description: String::new(),
            icon: 0,
        }
    }
}

/// This message will be proxied over the PhoneAPI for the client to deliver to the MQTT server
#[derive(Clone, Debug, PartialEq)]
pub struct MqttClientProxyMessage {
    /// The MQTT topic this message will be sent /received on
    pub topic: String,
    /// Whether the message should be retained (or not)
    pub retained: bool,
    /// The actual service envelope payload or text for mqtt pub / sub
    pub payload_variant: Option< crate::mqtt_client_proxy_message::PayloadVariant, >,
}

impl Default for MqttClientProxyMessage {
    /// The message with every field unset: numbers 0, flags false, strings, bytes and lists
    /// empty, and no nested message.
    fn default() -> (r: Self)
        ensures
            r.topic@ == Seq::<char>::empty(),
            r.retained == false,
            r.payload_variant is None,
    {
        MqttClientProxyMessage {
            topic: String::new(),
            retained: false,
            payload_variant: None,
        }
    }
}

/// Unique local debugging info for this node
/// Note: we don't include position or the user info, because that will come in the
/// Sent to the phone in response to WantNodes.
#[derive(Clone, Debug, PartialEq)]
pub struct MyNodeInfo {
    /// Tells the phone what our node number is, default starting value is
    /// lowbyte of macaddr, but it will be fixed if that is already in use
    pub my_node_num: u32,
    /// The total number of reboots this node has ever encountered
    /// (well - since the last time we discarded preferences)
    pub reboot_count: u32,
    /// The minimum app version that can talk to this device.
    /// Phone/PC apps should compare this to their build number and if too low tell the user they must update their app
    pub min_app_version: u32,
    /// Unique hardware identifier for this device
    pub device_id: Vec<u8>,
    /// The PlatformIO environment used to build this firmware
    pub pio_env: String,
}

impl Default for MyNodeInfo {
    /// The message with every field unset: numbers 0, flags false, strings, bytes and lists
    /// empty, and no nested message.
    fn default() -> (r: Self)
        ensures
            r.my_node_num == 0,
            r.reboot_count == 0,
            r.min_app_version == 0,
            r.device_id@.len() == 0,
            r.pio_env@ == Seq::<char>::empty(),
    {
        MyNodeInfo {
            my_node_num: 0,
            reboot_count: 0,
            min_app_version: 0,
            device_id: Vec::new(),
            pio_env: String::new(),
        }
    }
}

/// Debug output from the device.
/// To minimize the size of records inside the device code, if a time/source/level is not set
/// on the message it is assumed to be a continuation of the previously sent message.
/// This allows the device code to use fixed maxlen 64 byte strings for messages,
/// and then extend as needed by emitting multiple records.
#[derive(Clone, Debug, PartialEq)]
pub struct LogRecord {
    /// Log levels, chosen to match python logging conventions.
    pub message: String,
    /// Seconds since 1970 - or 0 for unknown/unset
    pub time: u32,
    /// Usually based on thread name - if known
    pub source: String,
    /// Not yet set
    pub level: i32,
}

impl LogRecord {
    /// Returns the enum value of `level`, or the default if the field is set to an invalid enum value.
    pub fn level(&self) -> (r: crate::log_record::Level)
        ensures
            r == crate::log_record::Level::from_number_or_default(self.level),
            (exists|e: crate::log_record::Level| #[trigger] e.value() == self.level) ==> r.value() == self.level,
            (forall|e: crate::log_record::Level| #[trigger] e.value() != self.level) ==> r.value() == 0,
    {
        proof {
            crate::log_record::Level::lemma_number_or_default(self.level);
        }
        match crate::log_record::Level::from_i32(self.level) {
            Some(e) => e,
            None => <crate::log_record::Level as Default>::default(),
        }
    }

    /// Sets `level` to the provided enum value.
    pub fn set_level(&mut self, value: crate::log_record::Level)
        ensures
            *final(self) == (Self { level: value.value(), ..*old(self) }),
    {
        self.level = i32::from(value);
    }
}

impl Default for LogRecord {
    /// The message with every field unset: numbers 0, flags false, strings, bytes and lists
    /// empty, and no nested message.
    fn default() -> (r: Self)
        ensures
            r.message@ == Seq::<char>::empty(),
            r.time == 0,
            r.source@ == Seq::<char>::empty(),
            r.level == 0,
    {
        LogRecord {
            message: String::new(),
            time: 0,
            source: String::new(),
            level: 0,
        }
    }
}

#[derive(Clone, Debug, PartialEq)]
pub struct QueueStatus {
    /// Last attempt to queue status, ErrorCode
    pub res: i32,
    /// Free entries in the outgoing queue
    pub free: u32,
    /// Maximum entries in the outgoing queue
    pub maxlen: u32,
    /// What was mesh packet id that caused this response?
    pub mesh_packet_id: u32,
}

impl Default for QueueStatus {
    /// The message with every field unset: numbers 0, flags false, strings, bytes and lists
    /// empty, and no nested message.
    fn default() -> (r: Self)
        ensures
            r.res == 0,
            r.free == 0,
            r.maxlen == 0,
            r.mesh_packet_id == 0,
    {
        QueueStatus {
            res: 0,
            free: 0,
            maxlen: 0,
            mesh_packet_id: 0,
        }
    }
}

/// A notification message from the device to the client
/// To be used for important messages that should to be displayed to the user
/// in the form of push notifications or validation messages when saving
/// invalid configuration.
#[derive(Clone, Debug, PartialEq)]
pub struct ClientNotification {
    /// The id of the packet we're notifying in response to
    pub reply_id: Option<u32>,
    /// Seconds since 1970 - or 0 for unknown/unset
    pub time: u32,
    /// The level type of notification
    pub level: i32,
    /// The message body of the notification
    pub message: String,
}

impl ClientNotification {
    /// Returns the value of `reply_id`, or the default value if `reply_id` is unset.
    pub fn reply_id(&self) -> (r: u32)
        ensures
            r == (match self.reply_id {
                Some(v) => v,
                None => 0,
            }),
    {
        match self.reply_id {
            Some(v) => v,
            None => 0,
        }
    }

    /// Returns the enum value of `level`, or the default if the field is set to an invalid enum value.
    pub fn level(&self) -> (r: crate::log_record::Level)
        ensures
            r == crate::log_record::Level::from_number_or_default(self.level),
            (exists|e: crate::log_record::Level| #[trigger] e.value() == self.level) ==> r.value() == self.level,
            (forall|e: crate::log_record::Level| #[trigger] e.value() != self.level) ==> r.value() == 0,
    {
        proof {
            crate::log_record::Level::lemma_number_or_default(self.level);
        }
        match crate::log_record::Level::from_i32(self.level) {
            Some(e) => e,
            None => <crate::log_record::Level as Default>::default(),
        }
    }

    /// Sets `level` to the provided enum value.
    pub fn set_level(&mut self, value: crate::log_record::Level)
        ensures
            *final(self) == (Self { level: value.value(), ..*old(self) }),
    {
        self.level = i32::from(value);
    }
}

impl Default for ClientNotification {
    /// The message with every field unset: numbers 0, flags false, strings, bytes and lists
    /// empty, and no nested message.
    fn default() -> (r: Self)
        ensures
            r.reply_id is None,
            r.time == 0,
            r.level == 0,
            r.message@ == Seq::<char>::empty(),
    {
        ClientNotification {
            reply_id: None,
            time: 0,
            level: 0,
            message: String::new(),
        }
    }
}

/// Individual File info for the device
#[derive(Clone, Debug, PartialEq)]
pub struct FileInfo {
    /// The fully qualified path of the file
    pub file_name: String,
    /// The size of the file in bytes
    pub size_bytes: u32,
}

impl Default for FileInfo {
    /// The message with every field unset: numbers 0, flags false, strings, bytes and lists
    /// empty, and no nested message.
    fn default() -> (r: Self)
        ensures
            r.file_name@ == Seq::<char>::empty(),
            r.size_bytes == 0,
    {
        FileInfo {
            file_name: String::new(),
            size_bytes: 0,
        }
    }
}

/// Compressed message payload
#[derive(Clone, Debug, PartialEq)]
pub struct Compressed {
    /// PortNum to determine the how to handle the compressed payload.
    pub portnum: i32,
    /// Compressed data.
    pub data: Vec<u8>,
}

impl Compressed {
    /// Returns the enum value of `portnum`, or the default if the field is set to an invalid enum value.
    pub fn portnum(&self) -> (r: crate::PortNum)
        ensures
            r == crate::PortNum::from_number_or_default(self.portnum),
            (exists|e: crate::PortNum| #[trigger] e.value() == self.portnum) ==> r.value() == self.portnum,
            (forall|e: crate::PortNum| #[trigger] e.value() != self.portnum) ==> r.value() == 0,
    {
        proof {
            crate::PortNum::lemma_number_or_default(self.portnum);
        }
        match crate::PortNum::from_i32(self.portnum) {
            Some(e) => e,
            None => <crate::PortNum as Default>::default(),
        }
    }

    /// Sets `portnum` to the provided enum value.
    pub fn set_portnum(&mut self, value: crate::PortNum)
        ensures
            *final(self) == (Self { portnum: value.value(), ..*old(self) }),
    {
        self.portnum = i32::from(value);
    }
}

impl Default for Compressed {
    /// The message with every field unset: numbers 0, flags false, strings, bytes and lists
    /// empty, and no nested message.
    fn default() -> (r: Self)
        ensures
            r.portnum == 0,
            r.data@.len() == 0,
    {
        Compressed {
            portnum: 0,
            data: Vec::new(),
        }
    }
}

/// Device metadata response
#[derive(Clone, Debug, PartialEq)]
pub struct DeviceMetadata {
    /// Device firmware version string
    pub firmware_version: String,
    /// Device state version
    pub device_state_version: u32,
    /// Indicates whether the device can shutdown CPU natively or via power management chip
    pub can_shutdown: bool,
    /// Indicates that the device has native wifi capability
    pub has_wifi: bool,
    /// Indicates that the device has native bluetooth capability
    pub has_bluetooth: bool,
    /// Indicates that the device has an ethernet peripheral
    pub has_ethernet: bool,
    /// Indicates that the device's role in the mesh
    pub role: i32,
    /// Indicates the device's current enabled position flags
    pub position_flags: u32,
    /// Device hardware model
    pub hw_model: i32,
    /// Has Remote Hardware enabled
    pub has_remote_hardware: bool,
    /// Has PKC capabilities
    pub has_pkc: bool,
    /// Bit field of boolean for excluded modules
    /// (bitwise OR of ExcludedModules)
    pub excluded_modules: u32,
}

impl DeviceMetadata {
    /// Returns the enum value of `role`, or the default if the field is set to an invalid enum value.
    pub fn role(&self) -> (r: crate::config::device_config::Role)
        ensures
            r == crate::config::device_config::Role::from_number_or_default(self.role),
            (exists|e: crate::config::device_config::Role| #[trigger] e.value() == self.role) ==> r.value() == self.role,
            (forall|e: crate::config::device_config::Role| #[trigger] e.value() != self.role) ==> r.value() == 0,
    {
        proof {
            crate::config::device_config::Role::lemma_number_or_default(self.role);
        }
        match crate::config::device_config::Role::from_i32(self.role) {
            Some(e) => e,
            None => <crate::config::device_config::Role as Default>::default(),
        }
    }

    /// Sets `role` to the provided enum value.
    pub fn set_role(&mut self, value: crate::config::device_config::Role)
        ensures
            *final(self) == (Self { role: value.value(), ..*old(self) }),
    {
        self.role = i32::from(value);
    }

    /// Returns the enum value of `hw_model`, or the default if the field is set to an invalid enum value.
    pub fn hw_model(&self) -> (r: crate::HardwareModel)
        ensures
            r == crate::HardwareModel::from_number_or_default(self.hw_model),
            (exists|e: crate::HardwareModel| #[trigger] e.value() == self.hw_model) ==> r.value() == self.hw_model,
            (forall|e: crate::HardwareModel| #[trigger] e.value() != self.hw_model) ==> r.value() == 0,
    {
        proof {
            crate::HardwareModel::lemma_number_or_default(self.hw_model);
        }
        match crate::HardwareModel::from_i32(self.hw_model) {
            Some(e) => e,
            None => <crate::HardwareModel as Default>::default(),
        }
    }

    /// Sets `hw_model` to the provided enum value.
    pub fn set_hw_model(&mut self, value: crate::HardwareModel)
        ensures
            *final(self) == (Self { hw_model: value.value(), ..*old(self) }),
    {
        self.hw_model = i32::from(value);
    }
}

impl Default for DeviceMetadata {
    /// The message with every field unset: numbers 0, flags false, strings, bytes and lists
    /// empty, and no nested message.
    fn default() -> (r: Self)
        ensures
            r.firmware_version@ == Seq::<char>::empty(),
            r.device_state_version == 0,
            r.can_shutdown == false,
            r.has_wifi == false,
            r.has_bluetooth == false,
            r.has_ethernet == false,
            r.role == 0,
            r.position_flags == 0,
            r.hw_model == 0,
            r.has_remote_hardware == false,
            r.has_pkc == false,
            r.excluded_modules == 0,
    {
        DeviceMetadata {
            firmware_version: String::new(),
            device_state_version: 0,
            can_shutdown: false,
            has_wifi: false,
            has_bluetooth: false,
            has_ethernet: false,
            role: 0,
            position_flags: 0,
            hw_model: 0,
            has_remote_hardware: false,
            has_pkc: false,
            excluded_modules: 0,
        }
    }
}

/// A heartbeat message is sent to the node from the client to keep the connection alive.
/// This is currently only needed to keep serial connections alive, but can be used by any PhoneAPI.
#[derive(Clone, Debug, PartialEq)]
pub struct Heartbeat {}

impl Default for Heartbeat {
    /// The message with every field unset: numbers 0, flags false, strings, bytes and lists
    /// empty, and no nested message.
    fn default() -> (r: Self) {
        Heartbeat {}
    }
}

/// RemoteHardwarePins associated with a node
#[derive(Clone, Debug, PartialEq)]
pub struct NodeRemoteHardwarePin {
    /// The node_num exposing the available gpio pin
    pub node_num: u32,
    /// The the available gpio pin for usage with RemoteHardware module
    pub pin: Option<crate::RemoteHardwarePin>,
}

impl Default for NodeRemoteHardwarePin {
    /// The message with every field unset: numbers 0, flags false, strings, bytes and lists
    /// empty, and no nested message.
    fn default() -> (r: Self)
        ensures
            r.node_num == 0,
            r.pin is None,
    {
        NodeRemoteHardwarePin {
            node_num: 0,
            pin: None,
        }
    }
}

#[derive(Clone, Debug, PartialEq)]
pub struct ChunkedPayload {
    /// The ID of the entire payload
    pub payload_id: u32,
    /// The total number of chunks in the payload
    pub chunk_count: u32,
    /// The current chunk index in the total
    pub chunk_index: u32,
    /// The binary data of the current chunk
    pub payload_chunk: Vec<u8>,
}

impl Default for ChunkedPayload {
    /// The message with every field unset: numbers 0, flags false, strings, bytes and lists
    /// empty, and no nested message.
    fn default() -> (r: Self)
        ensures
            r.payload_id == 0,
            r.chunk_count == 0,
            r.chunk_index == 0,
            r.payload_chunk@.len() == 0,
    {
        ChunkedPayload {
            payload_id: 0,
            chunk_count: 0,
            chunk_index: 0,
            payload_chunk: Vec::new(),
        }
    }
}

/// Wrapper message for broken repeated oneof support
#[derive(Clone, Debug, PartialEq)]
pub struct ResendChunks {
    pub chunks: Vec<u32>,
}

impl Default for ResendChunks {
    /// The message with every field unset: numbers 0, flags false, strings, bytes and lists
    /// empty, and no nested message.
    fn default() -> (r: Self)
        ensures
            r.chunks@.len() == 0,
    {
        ResendChunks {
            chunks: Vec::new(),
        }
    }
}

/// Responses to a ChunkedPayload request
#[derive(Clone, Debug, PartialEq)]
pub struct ChunkedPayloadResponse {
    /// The ID of the entire payload
    pub payload_id: u32,
    pub payload_variant: Option< crate::chunked_payload_response::PayloadVariant, >,
}

impl Default for ChunkedPayloadResponse {
    /// The message with every field unset: numbers 0, flags false, strings, bytes and lists
    /// empty, and no nested message.
    fn default() -> (r: Self)
        ensures
            r.payload_id == 0,
            r.payload_variant is None,
    {
        ChunkedPayloadResponse {
            payload_id: 0,
            payload_variant: None,
        }
    }
}

/// Note: these enum names must EXACTLY match the string used in the device
/// bin/build-all.sh script.
/// Because they will be used to find firmware filenames in the android app for OTA updates.
/// To match the old style filenames, _ is converted to -, p is converted to .
#[derive(Clone, Copy, Debug, PartialEq, Eq, Hash, PartialOrd, Ord)]
pub enum HardwareModel {
    Unset,
    TloraV2,
    TloraV1,
    TloraV211p6,
    Tbeam,
    /// The original heltec WiFi_Lora_32_V2, which had battery voltage sensing hooked to GPIO 13
    /// (see HELTEC_V2 for the new version).
    HeltecV20,
    TbeamV0p7,
    TEcho,
    TloraV11p3,
    Rak4631,
    /// The new version of the heltec WiFi_Lora_32_V2 board that has battery sensing hooked to GPIO 37.
    /// Sadly they did not update anything on the silkscreen to identify this board
    HeltecV21,
    /// Ancient heltec WiFi_Lora_32 board
    HeltecV1,
    /// New T-BEAM with ESP32-S3 CPU
    LilygoTbeamS3Core,
    /// RAK WisBlock ESP32 core: <https://docs.rakwireless.com/Product-Categories/WisBlock/RAK11200/Overview/>
    Rak11200,
    /// B&Q Consulting Nano Edition G1: <https://uniteng.com/wiki/doku.php?id=meshtastic:nano>
    NanoG1,
    TloraV211p8,
    TloraT3S3,
    /// B&Q Consulting Nano G1 Explorer: <https://wiki.uniteng.com/en/meshtastic/nano-g1-explorer>
    NanoG1Explorer,
    /// B&Q Consulting Nano G2 Ultra: <https://wiki.uniteng.com/en/meshtastic/nano-g2-ultra>
    NanoG2Ultra,
    /// LoRAType device: <https://loratype.org/>
    LoraType,
    /// wiphone <https://www.wiphone.io/>
    Wiphone,
    /// WIO Tracker WM1110 family from Seeed Studio. Includes wio-1110-tracker and wio-1110-sdk
    WioWm1110,
    /// RAK2560 Solar base station based on RAK4630
    Rak2560,
    /// Heltec HRU-3601: <https://heltec.org/project/hru-3601/>
    HeltecHru3601,
    /// Heltec Wireless Bridge
    HeltecWirelessBridge,
    /// B&Q Consulting Station Edition G1: <https://uniteng.com/wiki/doku.php?id=meshtastic:station>
    StationG1,
    /// RAK11310 (RP2040 + SX1262)
    Rak11310,
    /// Makerfabs SenseLoRA Receiver (RP2040 + RFM96)
    SenseloraRp2040,
    /// Makerfabs SenseLoRA Industrial Monitor (ESP32-S3 + RFM96)
    SenseloraS3,
    /// Canary Radio Company - CanaryOne: <https://canaryradio.io/products/canaryone>
    Canaryone,
    /// Waveshare RP2040 LoRa - <https://www.waveshare.com/rp2040-lora.htm>
    Rp2040Lora,
    /// B&Q Consulting Station G2: <https://wiki.uniteng.com/en/meshtastic/station-g2>
    StationG2,
    /// ---------------------------------------------------------------------------
    /// Less common/prototype boards listed here (needs one more byte over the air)
    /// ---------------------------------------------------------------------------
    LoraRelayV1,
    Nrf52840dk,
    Ppr,
    Genieblocks,
    Nrf52Unknown,
    Portduino,
    /// The simulator built into the android app
    AndroidSim,
    /// Custom DIY device based on @NanoVHF schematics: <https://github.com/NanoVHF/Meshtastic-DIY/tree/main/Schematics>
    DiyV1,
    /// nRF52840 Dongle : <https://www.nordicsemi.com/Products/Development-hardware/nrf52840-dongle/>
    Nrf52840Pca10059,
    /// Custom Disaster Radio esp32 v3 device <https://github.com/sudomesh/disaster-radio/tree/master/hardware/board_esp32_v3>
    DrDev,
    /// M5 esp32 based MCU modules with enclosure, TFT and LORA Shields. All Variants (Basic, Core, Fire, Core2, CoreS3, Paper) <https://m5stack.com/>
    M5stack,
    /// New Heltec LoRA32 with ESP32-S3 CPU
    HeltecV3,
    /// New Heltec Wireless Stick Lite with ESP32-S3 CPU
    HeltecWslV3,
    /// New BETAFPV ELRS Micro TX Module 2.4G with ESP32 CPU
    Betafpv2400Tx,
    /// BetaFPV ExpressLRS "Nano" TX Module 900MHz with ESP32 CPU
    Betafpv900NanoTx,
    /// Raspberry Pi Pico (W) with Waveshare SX1262 LoRa Node Module
    RpiPico,
    /// Heltec Wireless Tracker with ESP32-S3 CPU, built-in GPS, and TFT
    /// Newer V1.1, version is written on the PCB near the display.
    HeltecWirelessTracker,
    /// Heltec Wireless Paper with ESP32-S3 CPU and E-Ink display
    HeltecWirelessPaper,
    /// LilyGo T-Deck with ESP32-S3 CPU, Keyboard and IPS display
    TDeck,
    /// LilyGo T-Watch S3 with ESP32-S3 CPU and IPS display
    TWatchS3,
    /// Bobricius Picomputer with ESP32-S3 CPU, Keyboard and IPS display
    PicomputerS3,
    /// Heltec HT-CT62 with ESP32-C3 CPU and SX1262 LoRa
    HeltecHt62,
    /// EBYTE SPI LoRa module and ESP32-S3
    EbyteEsp32S3,
    /// Waveshare ESP32-S3-PICO with PICO LoRa HAT and 2.9inch e-Ink
    Esp32S3Pico,
    /// CircuitMess Chatter 2 LLCC68 Lora Module and ESP32 Wroom
    /// Lora module can be swapped out for a Heltec RA-62 which is "almost" pin compatible
    /// with one cut and one jumper Meshtastic works
    Chatter2,
    /// Heltec Wireless Paper, With ESP32-S3 CPU and E-Ink display
    /// Older "V1.0" Variant, has no "version sticker"
    /// E-Ink model is DEPG0213BNS800
    /// Tab on the screen protector is RED
    /// Flex connector marking is FPC-7528B
    HeltecWirelessPaperV10,
    /// Heltec Wireless Tracker with ESP32-S3 CPU, built-in GPS, and TFT
    /// Older "V1.0" Variant
    HeltecWirelessTrackerV10,
    /// unPhone with ESP32-S3, TFT touchscreen,  LSM6DS3TR-C accelerometer and gyroscope
    Unphone,
    /// Teledatics TD-LORAC NRF52840 based M.2 LoRA module
    /// Compatible with the TD-WRLS development board
    TdLorac,
    /// CDEBYTE EoRa-S3 board using their own MM modules, clone of LILYGO T3S3
    CdebyteEoraS3,
    /// TWC_MESH_V4
    /// Adafruit NRF52840 feather express with SX1262, SSD1306 OLED and NEO6M GPS
    TwcMeshV4,
    /// NRF52_PROMICRO_DIY
    /// Promicro NRF52840 with SX1262/LLCC68, SSD1306 OLED and NEO6M GPS
    Nrf52PromicroDiy,
    /// RadioMaster 900 Bandit Nano, <https://www.radiomasterrc.com/products/bandit-nano-expresslrs-rf-module>
    /// ESP32-D0WDQ6 With SX1276/SKY66122, SSD1306 OLED and No GPS
    Radiomaster900BanditNano,
    /// Heltec Capsule Sensor V3 with ESP32-S3 CPU, Portable LoRa device that can replace GNSS modules or sensors
    HeltecCapsuleSensorV3,
    /// Heltec Vision Master T190 with ESP32-S3 CPU, and a 1.90 inch TFT display
    HeltecVisionMasterT190,
    /// Heltec Vision Master E213 with ESP32-S3 CPU, and a 2.13 inch E-Ink display
    HeltecVisionMasterE213,
    /// Heltec Vision Master E290 with ESP32-S3 CPU, and a 2.9 inch E-Ink display
    HeltecVisionMasterE290,
    /// Heltec Mesh Node T114 board with nRF52840 CPU, and a 1.14 inch TFT display, Ultimate low-power design,
    /// specifically adapted for the Meshtatic project
    HeltecMeshNodeT114,
    /// Sensecap Indicator from Seeed Studio. ESP32-S3 device with TFT and RP2040 coprocessor
    SensecapIndicator,
    /// Seeed studio T1000-E tracker card. NRF52840 w/ LR1110 radio, GPS, button, buzzer, and sensors.
    TrackerT1000E,
    /// RAK3172 STM32WLE5 Module (<https://store.rakwireless.com/products/wisduo-lpwan-module-rak3172>)
    Rak3172,
    /// Seeed Studio Wio-E5 (either mini or Dev kit) using STM32WL chip.
    WioE5,
    /// RadioMaster 900 Bandit, <https://www.radiomasterrc.com/products/bandit-expresslrs-rf-module>
    /// SSD1306 OLED and No GPS
    Radiomaster900Bandit,
    /// Minewsemi ME25LS01 (ME25LE01_V1.0). NRF52840 w/ LR1110 radio, buttons and leds and pins.
    Me25ls014y10td,
    /// RP2040_FEATHER_RFM95
    /// Adafruit Feather RP2040 with RFM95 LoRa Radio RFM95 with SX1272, SSD1306 OLED
    /// <https://www.adafruit.com/product/5714>
    /// <https://www.adafruit.com/product/326>
    /// <https://www.adafruit.com/product/938>
    /// ^^^ short A0 to switch to I2C address 0x3C
    Rp2040FeatherRfm95,
    /// M5 esp32 based MCU modules with enclosure, TFT and LORA Shields. All Variants (Basic, Core, Fire, Core2, CoreS3, Paper) <https://m5stack.com/>
    M5stackCorebasic,
    M5stackCore2,
    /// Pico2 with Waveshare Hat, same as Pico
    RpiPico2,
    /// M5 esp32 based MCU modules with enclosure, TFT and LORA Shields. All Variants (Basic, Core, Fire, Core2, CoreS3, Paper) <https://m5stack.com/>
    M5stackCores3,
    /// Seeed XIAO S3 DK
    SeeedXiaoS3,
    /// Nordic nRF52840+Semtech SX1262 LoRa BLE Combo Module. nRF52840+SX1262 MS24SF1
    Ms24sf1,
    /// Lilygo TLora-C6 with the new ESP32-C6 MCU
    TloraC6,
    /// WisMesh Tap
    /// RAK-4631 w/ TFT in injection modled case
    WismeshTap,
    /// Similar to PORTDUINO but used by Routastic devices, this is not any
    /// particular device and does not run Meshtastic's code but supports
    /// the same frame format.
    /// Runs on linux, see <https://github.com/Jorropo/routastic>
    Routastic,
    /// Mesh-Tab, esp32 based
    /// <https://github.com/valzzu/Mesh-Tab>
    MeshTab,
    /// MeshLink board developed by LoraItalia. NRF52840, eByte E22900M22S (Will also come with other frequencies), 25w MPPT solar charger (5v,12v,18v selectable), support for gps, buzzer, oled or e-ink display, 10 gpios, hardware watchdog
    /// <https://www.loraitalia.it>
    Meshlink,
    /// ------------------------------------------------------------------------------------------------------------------------------------------
    /// Reserved ID For developing private Ports. These will show up in live traffic sparsely, so we can use a high number. Keep it within 8 bits.
    /// ------------------------------------------------------------------------------------------------------------------------------------------
    PrivateHw,
}

impl HardwareModel {
    /// The name of this variant in the ProtoBuf definition.
    pub open spec fn str_name(self) -> Seq<char> {
        match self {
            HardwareModel::Unset => "UNSET"@,
            HardwareModel::TloraV2 => "TLORA_V2"@,
            HardwareModel::TloraV1 => "TLORA_V1"@,
            HardwareModel::TloraV211p6 => "TLORA_V2_1_1P6"@,
            HardwareModel::Tbeam => "TBEAM"@,
            HardwareModel::HeltecV20 => "HELTEC_V2_0"@,
            HardwareModel::TbeamV0p7 => "TBEAM_V0P7"@,
            HardwareModel::TEcho => "T_ECHO"@,
            HardwareModel::TloraV11p3 => "TLORA_V1_1P3"@,
            HardwareModel::Rak4631 => "RAK4631"@,
            HardwareModel::HeltecV21 => "HELTEC_V2_1"@,
            HardwareModel::HeltecV1 => "HELTEC_V1"@,
            HardwareModel::LilygoTbeamS3Core => "LILYGO_TBEAM_S3_CORE"@,
            HardwareModel::Rak11200 => "RAK11200"@,
            HardwareModel::NanoG1 => "NANO_G1"@,
            HardwareModel::TloraV211p8 => "TLORA_V2_1_1P8"@,
            HardwareModel::TloraT3S3 => "TLORA_T3_S3"@,
            HardwareModel::NanoG1Explorer => "NANO_G1_EXPLORER"@,
            HardwareModel::NanoG2Ultra => "NANO_G2_ULTRA"@,
            HardwareModel::LoraType => "LORA_TYPE"@,
            HardwareModel::Wiphone => "WIPHONE"@,
            HardwareModel::WioWm1110 => "WIO_WM1110"@,
            HardwareModel::Rak2560 => "RAK2560"@,
            HardwareModel::HeltecHru3601 => "HELTEC_HRU_3601"@,
            HardwareModel::HeltecWirelessBridge => "HELTEC_WIRELESS_BRIDGE"@,
            HardwareModel::StationG1 => "STATION_G1"@,
            HardwareModel::Rak11310 => "RAK11310"@,
            HardwareModel::SenseloraRp2040 => "SENSELORA_RP2040"@,
            HardwareModel::SenseloraS3 => "SENSELORA_S3"@,
            HardwareModel::Canaryone => "CANARYONE"@,
            HardwareModel::Rp2040Lora => "RP2040_LORA"@,
            HardwareModel::StationG2 => "STATION_G2"@,
            HardwareModel::LoraRelayV1 => "LORA_RELAY_V1"@,
            HardwareModel::Nrf52840dk => "NRF52840DK"@,
            HardwareModel::Ppr => "PPR"@,
            HardwareModel::Genieblocks => "GENIEBLOCKS"@,
            HardwareModel::Nrf52Unknown => "NRF52_UNKNOWN"@,
            HardwareModel::Portduino => "PORTDUINO"@,
            HardwareModel::AndroidSim => "ANDROID_SIM"@,
            HardwareModel::DiyV1 => "DIY_V1"@,
            HardwareModel::Nrf52840Pca10059 => "NRF52840_PCA10059"@,
            HardwareModel::DrDev => "DR_DEV"@,
            HardwareModel::M5stack => "M5STACK"@,
            HardwareModel::HeltecV3 => "HELTEC_V3"@,
            HardwareModel::HeltecWslV3 => "HELTEC_WSL_V3"@,
            HardwareModel::Betafpv2400Tx => "BETAFPV_2400_TX"@,
            HardwareModel::Betafpv900NanoTx => "BETAFPV_900_NANO_TX"@,
            HardwareModel::RpiPico => "RPI_PICO"@,
            HardwareModel::HeltecWirelessTracker => "HELTEC_WIRELESS_TRACKER"@,
            HardwareModel::HeltecWirelessPaper => "HELTEC_WIRELESS_PAPER"@,
            HardwareModel::TDeck => "T_DECK"@,
            HardwareModel::TWatchS3 => "T_WATCH_S3"@,
            HardwareModel::PicomputerS3 => "PICOMPUTER_S3"@,
            HardwareModel::HeltecHt62 => "HELTEC_HT62"@,
            HardwareModel::EbyteEsp32S3 => "EBYTE_ESP32_S3"@,
            HardwareModel::Esp32S3Pico => "ESP32_S3_PICO"@,
            HardwareModel::Chatter2 => "CHATTER_2"@,
            HardwareModel::HeltecWirelessPaperV10 => "HELTEC_WIRELESS_PAPER_V1_0"@,
            HardwareModel::HeltecWirelessTrackerV10 => "HELTEC_WIRELESS_TRACKER_V1_0"@,
            HardwareModel::Unphone => "UNPHONE"@,
            HardwareModel::TdLorac => "TD_LORAC"@,
            HardwareModel::CdebyteEoraS3 => "CDEBYTE_EORA_S3"@,
            HardwareModel::TwcMeshV4 => "TWC_MESH_V4"@,
            HardwareModel::Nrf52PromicroDiy => "NRF52_PROMICRO_DIY"@,
            HardwareModel::Radiomaster900BanditNano => "RADIOMASTER_900_BANDIT_NANO"@,
            HardwareModel::HeltecCapsuleSensorV3 => "HELTEC_CAPSULE_SENSOR_V3"@,
            HardwareModel::HeltecVisionMasterT190 => "HELTEC_VISION_MASTER_T190"@,
            HardwareModel::HeltecVisionMasterE213 => "HELTEC_VISION_MASTER_E213"@,
            HardwareModel::HeltecVisionMasterE290 => "HELTEC_VISION_MASTER_E290"@,
            HardwareModel::HeltecMeshNodeT114 => "HELTEC_MESH_NODE_T114"@,
            HardwareModel::SensecapIndicator => "SENSECAP_INDICATOR"@,
            HardwareModel::TrackerT1000E => "TRACKER_T1000_E"@,
            HardwareModel::Rak3172 => "RAK3172"@,
            HardwareModel::WioE5 => "WIO_E5"@,
            HardwareModel::Radiomaster900Bandit => "RADIOMASTER_900_BANDIT"@,
            HardwareModel::Me25ls014y10td => "ME25LS01_4Y10TD"@,
            HardwareModel::Rp2040FeatherRfm95 => "RP2040_FEATHER_RFM95"@,
            HardwareModel::M5stackCorebasic => "M5STACK_COREBASIC"@,
            HardwareModel::M5stackCore2 => "M5STACK_CORE2"@,
            HardwareModel::RpiPico2 => "RPI_PICO2"@,
            HardwareModel::M5stackCores3 => "M5STACK_CORES3"@,
            HardwareModel::SeeedXiaoS3 => "SEEED_XIAO_S3"@,
            HardwareModel::Ms24sf1 => "MS24SF1"@,
            HardwareModel::TloraC6 => "TLORA_C6"@,
            HardwareModel::WismeshTap => "WISMESH_TAP"@,
            HardwareModel::Routastic => "ROUTASTIC"@,
            HardwareModel::MeshTab => "MESH_TAB"@,
            HardwareModel::Meshlink => "MESHLINK"@,
            HardwareModel::PrivateHw => "PRIVATE_HW"@,
        }
    }

    /// The number of this variant in the ProtoBuf definition.
    pub open spec fn value(self) -> i32 {
        match self {
            HardwareModel::Unset => 0,
            HardwareModel::TloraV2 => 1,
            HardwareModel::TloraV1 => 2,
            HardwareModel::TloraV211p6 => 3,
            HardwareModel::Tbeam => 4,
            HardwareModel::HeltecV20 => 5,
            HardwareModel::TbeamV0p7 => 6,
            HardwareModel::TEcho => 7,
            HardwareModel::TloraV11p3 => 8,
            HardwareModel::Rak4631 => 9,
            HardwareModel::HeltecV21 => 10,
            HardwareModel::HeltecV1 => 11,
            HardwareModel::LilygoTbeamS3Core => 12,
            HardwareModel::Rak11200 => 13,
            HardwareModel::NanoG1 => 14,
            HardwareModel::TloraV211p8 => 15,
            HardwareModel::TloraT3S3 => 16,
            HardwareModel::NanoG1Explorer => 17,
            HardwareModel::NanoG2Ultra => 18,
            HardwareModel::LoraType => 19,
            HardwareModel::Wiphone => 20,
            HardwareModel::WioWm1110 => 21,
            HardwareModel::Rak2560 => 22,
            HardwareModel::HeltecHru3601 => 23,
            HardwareModel::HeltecWirelessBridge => 24,
            HardwareModel::StationG1 => 25,
            HardwareModel::Rak11310 => 26,
            HardwareModel::SenseloraRp2040 => 27,
            HardwareModel::SenseloraS3 => 28,
            HardwareModel::Canaryone => 29,
            HardwareModel::Rp2040Lora => 30,
            HardwareModel::StationG2 => 31,
            HardwareModel::LoraRelayV1 => 32,
            HardwareModel::Nrf52840dk => 33,
            HardwareModel::Ppr => 34,
            HardwareModel::Genieblocks => 35,
            HardwareModel::Nrf52Unknown => 36,
            HardwareModel::Portduino => 37,
            HardwareModel::AndroidSim => 38,
            HardwareModel::DiyV1 => 39,
            HardwareModel::Nrf52840Pca10059 => 40,
            HardwareModel::DrDev => 41,
            HardwareModel::M5stack => 42,
            HardwareModel::HeltecV3 => 43,
            HardwareModel::HeltecWslV3 => 44,
            HardwareModel::Betafpv2400Tx => 45,
            HardwareModel::Betafpv900NanoTx => 46,
            HardwareModel::RpiPico => 47,
            HardwareModel::HeltecWirelessTracker => 48,
            HardwareModel::HeltecWirelessPaper => 49,
            HardwareModel::TDeck => 50,
            HardwareModel::TWatchS3 => 51,
            HardwareModel::PicomputerS3 => 52,
            HardwareModel::HeltecHt62 => 53,
            HardwareModel::EbyteEsp32S3 => 54,
            HardwareModel::Esp32S3Pico => 55,
            HardwareModel::Chatter2 => 56,
            HardwareModel::HeltecWirelessPaperV10 => 57,
            HardwareModel::HeltecWirelessTrackerV10 => 58,
            HardwareModel::Unphone => 59,
            HardwareModel::TdLorac => 60,
            HardwareModel::CdebyteEoraS3 => 61,
            HardwareModel::TwcMeshV4 => 62,
            HardwareModel::Nrf52PromicroDiy => 63,
            HardwareModel::Radiomaster900BanditNano => 64,
            HardwareModel::HeltecCapsuleSensorV3 => 65,
            HardwareModel::HeltecVisionMasterT190 => 66,
            HardwareModel::HeltecVisionMasterE213 => 67,
            HardwareModel::HeltecVisionMasterE290 => 68,
            HardwareModel::HeltecMeshNodeT114 => 69,
            HardwareModel::SensecapIndicator => 70,
            HardwareModel::TrackerT1000E => 71,
            HardwareModel::Rak3172 => 72,
            HardwareModel::WioE5 => 73,
            HardwareModel::Radiomaster900Bandit => 74,
            HardwareModel::Me25ls014y10td => 75,
            HardwareModel::Rp2040FeatherRfm95 => 76,
            HardwareModel::M5stackCorebasic => 77,
            HardwareModel::M5stackCore2 => 78,
            HardwareModel::RpiPico2 => 79,
            HardwareModel::M5stackCores3 => 80,
            HardwareModel::SeeedXiaoS3 => 81,
            HardwareModel::Ms24sf1 => 82,
            HardwareModel::TloraC6 => 83,
            HardwareModel::WismeshTap => 84,
            HardwareModel::Routastic => 85,
            HardwareModel::MeshTab => 86,
            HardwareModel::Meshlink => 87,
            HardwareModel::PrivateHw => 255,
        }
    }

    /// The variant numbered 0, which a field holds when it is not set.
    pub open spec fn default_variant() -> Self {
        HardwareModel::Unset
    }

    /// The variant numbered `value`, or the default variant when no variant has that number:
    /// what a message field holding `value` reads as.
    pub open spec fn from_number_or_default(value: i32) -> Self {
        match Self::with_value(value) {
            Some(e) => e,
            None => Self::default_variant(),
        }
    }

    /// The variant whose ProtoBuf name is `name`, if there is one.
    pub open spec fn named(name: Seq<char>) -> Option<Self> {
        if exists|e: Self| #[trigger] e.str_name() == name {
            Some(choose|e: Self| #[trigger] e.str_name() == name)
        } else {
            None
        }
    }

    /// The variant whose ProtoBuf number is `value`, if there is one.
    pub open spec fn with_value(value: i32) -> Option<Self> {
        if exists|e: Self| #[trigger] e.value() == value {
            Some(choose|e: Self| #[trigger] e.value() == value)
        } else {
            None
        }
    }

    spec fn name_lookup(name: Seq<char>) -> Option<Self> {
        if name == "UNSET"@ {
            Some(HardwareModel::Unset)
        } else if name == "TLORA_V2"@ {
            Some(HardwareModel::TloraV2)
        } else if name == "TLORA_V1"@ {
            Some(HardwareModel::TloraV1)
        } else if name == "TLORA_V2_1_1P6"@ {
            Some(HardwareModel::TloraV211p6)
        } else if name == "TBEAM"@ {
            Some(HardwareModel::Tbeam)
        } else if name == "HELTEC_V2_0"@ {
            Some(HardwareModel::HeltecV20)
        } else if name == "TBEAM_V0P7"@ {
            Some(HardwareModel::TbeamV0p7)
        } else if name == "T_ECHO"@ {
            Some(HardwareModel::TEcho)
        } else if name == "TLORA_V1_1P3"@ {
            Some(HardwareModel::TloraV11p3)
        } else if name == "RAK4631"@ {
            Some(HardwareModel::Rak4631)
        } else if name == "HELTEC_V2_1"@ {
            Some(HardwareModel::HeltecV21)
        } else if name == "HELTEC_V1"@ {
            Some(HardwareModel::HeltecV1)
        } else if name == "LILYGO_TBEAM_S3_CORE"@ {
            Some(HardwareModel::LilygoTbeamS3Core)
        } else if name == "RAK11200"@ {
            Some(HardwareModel::Rak11200)
        } else if name == "NANO_G1"@ {
            Some(HardwareModel::NanoG1)
        } else if name == "TLORA_V2_1_1P8"@ {
            Some(HardwareModel::TloraV211p8)
        } else if name == "TLORA_T3_S3"@ {
            Some(HardwareModel::TloraT3S3)
        } else if name == "NANO_G1_EXPLORER"@ {
            Some(HardwareModel::NanoG1Explorer)
        } else if name == "NANO_G2_ULTRA"@ {
            Some(HardwareModel::NanoG2Ultra)
        } else if name == "LORA_TYPE"@ {
            Some(HardwareModel::LoraType)
        } else if name == "WIPHONE"@ {
            Some(HardwareModel::Wiphone)
        } else if name == "WIO_WM1110"@ {
            Some(HardwareModel::WioWm1110)
        } else if name == "RAK2560"@ {
            Some(HardwareModel::Rak2560)
        } else if name == "HELTEC_HRU_3601"@ {
            Some(HardwareModel::HeltecHru3601)
        } else if name == "HELTEC_WIRELESS_BRIDGE"@ {
            Some(HardwareModel::HeltecWirelessBridge)
        } else if name == "STATION_G1"@ {
            Some(HardwareModel::StationG1)
        } else if name == "RAK11310"@ {
            Some(HardwareModel::Rak11310)
        } else if name == "SENSELORA_RP2040"@ {
            Some(HardwareModel::SenseloraRp2040)
        } else if name == "SENSELORA_S3"@ {
            Some(HardwareModel::SenseloraS3)
        } else if name == "CANARYONE"@ {
            Some(HardwareModel::Canaryone)
        } else if name == "RP2040_LORA"@ {
            Some(HardwareModel::Rp2040Lora)
        } else if name == "STATION_G2"@ {
            Some(HardwareModel::StationG2)
        } else if name == "LORA_RELAY_V1"@ {
            Some(HardwareModel::LoraRelayV1)
        } else if name == "NRF52840DK"@ {
            Some(HardwareModel::Nrf52840dk)
        } else if name == "PPR"@ {
            Some(HardwareModel::Ppr)
        } else if name == "GENIEBLOCKS"@ {
            Some(HardwareModel::Genieblocks)
        } else if name == "NRF52_UNKNOWN"@ {
            Some(HardwareModel::Nrf52Unknown)
        } else if name == "PORTDUINO"@ {
            Some(HardwareModel::Portduino)
        } else if name == "ANDROID_SIM"@ {
            Some(HardwareModel::AndroidSim)
        } else if name == "DIY_V1"@ {
            Some(HardwareModel::DiyV1)
        } else if name == "NRF52840_PCA10059"@ {
            Some(HardwareModel::Nrf52840Pca10059)
        } else if name == "DR_DEV"@ {
            Some(HardwareModel::DrDev)
        } else if name == "M5STACK"@ {
            Some(HardwareModel::M5stack)
        } else if name == "HELTEC_V3"@ {
            Some(HardwareModel::HeltecV3)
        } else if name == "HELTEC_WSL_V3"@ {
            Some(HardwareModel::HeltecWslV3)
        } else if name == "BETAFPV_2400_TX"@ {
            Some(HardwareModel::Betafpv2400Tx)
        } else if name == "BETAFPV_900_NANO_TX"@ {
            Some(HardwareModel::Betafpv900NanoTx)
        } else if name == "RPI_PICO"@ {
            Some(HardwareModel::RpiPico)
        } else if name == "HELTEC_WIRELESS_TRACKER"@ {
            Some(HardwareModel::HeltecWirelessTracker)
        } else if name == "HELTEC_WIRELESS_PAPER"@ {
            Some(HardwareModel::HeltecWirelessPaper)
        } else if name == "T_DECK"@ {
            Some(HardwareModel::TDeck)
        } else if name == "T_WATCH_S3"@ {
            Some(HardwareModel::TWatchS3)
        } else if name == "PICOMPUTER_S3"@ {
            Some(HardwareModel::PicomputerS3)
        } else if name == "HELTEC_HT62"@ {
            Some(HardwareModel::HeltecHt62)
        } else if name == "EBYTE_ESP32_S3"@ {
            Some(HardwareModel::EbyteEsp32S3)
        } else if name == "ESP32_S3_PICO"@ {
            Some(HardwareModel::Esp32S3Pico)
        } else if name == "CHATTER_2"@ {
            Some(HardwareModel::Chatter2)
        } else if name == "HELTEC_WIRELESS_PAPER_V1_0"@ {
            Some(HardwareModel::HeltecWirelessPaperV10)
        } else if name == "HELTEC_WIRELESS_TRACKER_V1_0"@ {
            Some(HardwareModel::HeltecWirelessTrackerV10)
        } else if name == "UNPHONE"@ {
            Some(HardwareModel::Unphone)
        } else if name == "TD_LORAC"@ {
            Some(HardwareModel::TdLorac)
        } else if name == "CDEBYTE_EORA_S3"@ {
            Some(HardwareModel::CdebyteEoraS3)
        } else if name == "TWC_MESH_V4"@ {
            Some(HardwareModel::TwcMeshV4)
        } else if name == "NRF52_PROMICRO_DIY"@ {
            Some(HardwareModel::Nrf52PromicroDiy)
        } else if name == "RADIOMASTER_900_BANDIT_NANO"@ {
            Some(HardwareModel::Radiomaster900BanditNano)
        } else if name == "HELTEC_CAPSULE_SENSOR_V3"@ {
            Some(HardwareModel::HeltecCapsuleSensorV3)
        } else if name == "HELTEC_VISION_MASTER_T190"@ {
            Some(HardwareModel::HeltecVisionMasterT190)
        } else if name == "HELTEC_VISION_MASTER_E213"@ {
            Some(HardwareModel::HeltecVisionMasterE213)
        } else if name == "HELTEC_VISION_MASTER_E290"@ {
            Some(HardwareModel::HeltecVisionMasterE290)
        } else if name == "HELTEC_MESH_NODE_T114"@ {
            Some(HardwareModel::HeltecMeshNodeT114)
        } else if name == "SENSECAP_INDICATOR"@ {
            Some(HardwareModel::SensecapIndicator)
        } else if name == "TRACKER_T1000_E"@ {
            Some(HardwareModel::TrackerT1000E)
        } else if name == "RAK3172"@ {
            Some(HardwareModel::Rak3172)
        } else if name == "WIO_E5"@ {
            Some(HardwareModel::WioE5)
        } else if name == "RADIOMASTER_900_BANDIT"@ {
            Some(HardwareModel::Radiomaster900Bandit)
        } else if name == "ME25LS01_4Y10TD"@ {
            Some(HardwareModel::Me25ls014y10td)
        } else if name == "RP2040_FEATHER_RFM95"@ {
            Some(HardwareModel::Rp2040FeatherRfm95)
        } else if name == "M5STACK_COREBASIC"@ {
            Some(HardwareModel::M5stackCorebasic)
        } else if name == "M5STACK_CORE2"@ {
            Some(HardwareModel::M5stackCore2)
        } else if name == "RPI_PICO2"@ {
            Some(HardwareModel::RpiPico2)
        } else if name == "M5STACK_CORES3"@ {
            Some(HardwareModel::M5stackCores3)
        } else if name == "SEEED_XIAO_S3"@ {
            Some(HardwareModel::SeeedXiaoS3)
        } else if name == "MS24SF1"@ {
            Some(HardwareModel::Ms24sf1)
        } else if name == "TLORA_C6"@ {
            Some(HardwareModel::TloraC6)
        } else if name == "WISMESH_TAP"@ {
            Some(HardwareModel::WismeshTap)
        } else if name == "ROUTASTIC"@ {
            Some(HardwareModel::Routastic)
        } else if name == "MESH_TAB"@ {
            Some(HardwareModel::MeshTab)
        } else if name == "MESHLINK"@ {
            Some(HardwareModel::Meshlink)
        } else if name == "PRIVATE_HW"@ {
            Some(HardwareModel::PrivateHw)
        } else {
            None
        }
    }

    spec fn value_lookup(value: i32) -> Option<Self> {
        if value == 0 {
            Some(HardwareModel::Unset)
        } else if value == 1 {
            Some(HardwareModel::TloraV2)
        } else if value == 2 {
            Some(HardwareModel::TloraV1)
        } else if value == 3 {
            Some(HardwareModel::TloraV211p6)
        } else if value == 4 {
            Some(HardwareModel::Tbeam)
        } else if value == 5 {
            Some(HardwareModel::HeltecV20)
        } else if value == 6 {
            Some(HardwareModel::TbeamV0p7)
        } else if value == 7 {
            Some(HardwareModel::TEcho)
        } else if value == 8 {
            Some(HardwareModel::TloraV11p3)
        } else if value == 9 {
            Some(HardwareModel::Rak4631)
        } else if value == 10 {
            Some(HardwareModel::HeltecV21)
        } else if value == 11 {
            Some(HardwareModel::HeltecV1)
        } else if value == 12 {
            Some(HardwareModel::LilygoTbeamS3Core)
        } else if value == 13 {
            Some(HardwareModel::Rak11200)
        } else if value == 14 {
            Some(HardwareModel::NanoG1)
        } else if value == 15 {
            Some(HardwareModel::TloraV211p8)
        } else if value == 16 {
            Some(HardwareModel::TloraT3S3)
        } else if value == 17 {
            Some(HardwareModel::NanoG1Explorer)
        } else if value == 18 {
            Some(HardwareModel::NanoG2Ultra)
        } else if value == 19 {
            Some(HardwareModel::LoraType)
        } else if value == 20 {
            Some(HardwareModel::Wiphone)
        } else if value == 21 {
            Some(HardwareModel::WioWm1110)
        } else if value == 22 {
            Some(HardwareModel::Rak2560)
        } else if value == 23 {
            Some(HardwareModel::HeltecHru3601)
        } else if value == 24 {
            Some(HardwareModel::HeltecWirelessBridge)
        } else if value == 25 {
            Some(HardwareModel::StationG1)
        } else if value == 26 {
            Some(HardwareModel::Rak11310)
        } else if value == 27 {
            Some(HardwareModel::SenseloraRp2040)
        } else if value == 28 {
            Some(HardwareModel::SenseloraS3)
        } else if value == 29 {
            Some(HardwareModel::Canaryone)
        } else if value == 30 {
            Some(HardwareModel::Rp2040Lora)
        } else if value == 31 {
            Some(HardwareModel::StationG2)
        } else if value == 32 {
            Some(HardwareModel::LoraRelayV1)
        } else if value == 33 {
            Some(HardwareModel::Nrf52840dk)
        } else if value == 34 {
            Some(HardwareModel::Ppr)
        } else if value == 35 {
            Some(HardwareModel::Genieblocks)
        } else if value == 36 {
            Some(HardwareModel::Nrf52Unknown)
        } else if value == 37 {
            Some(HardwareModel::Portduino)
        } else if value == 38 {
            Some(HardwareModel::AndroidSim)
        } else if value == 39 {
            Some(HardwareModel::DiyV1)
        } else if value == 40 {
            Some(HardwareModel::Nrf52840Pca10059)
        } else if value == 41 {
            Some(HardwareModel::DrDev)
        } else if value == 42 {
            Some(HardwareModel::M5stack)
        } else if value == 43 {
            Some(HardwareModel::HeltecV3)
        } else if value == 44 {
            Some(HardwareModel::HeltecWslV3)
        } else if value == 45 {
            Some(HardwareModel::Betafpv2400Tx)
        } else if value == 46 {
            Some(HardwareModel::Betafpv900NanoTx)
        } else if value == 47 {
            Some(HardwareModel::RpiPico)
        } else if value == 48 {
            Some(HardwareModel::HeltecWirelessTracker)
        } else if value == 49 {
            Some(HardwareModel::HeltecWirelessPaper)
        } else if value == 50 {
            Some(HardwareModel::TDeck)
        } else if value == 51 {
            Some(HardwareModel::TWatchS3)
        } else if value == 52 {
            Some(HardwareModel::PicomputerS3)
        } else if value == 53 {
            Some(HardwareModel::HeltecHt62)
        } else if value == 54 {
            Some(HardwareModel::EbyteEsp32S3)
        } else if value == 55 {
            Some(HardwareModel::Esp32S3Pico)
        } else if value == 56 {
            Some(HardwareModel::Chatter2)
        } else if value == 57 {
            Some(HardwareModel::HeltecWirelessPaperV10)
        } else if value == 58 {
            Some(HardwareModel::HeltecWirelessTrackerV10)
        } else if value == 59 {
            Some(HardwareModel::Unphone)
        } else if value == 60 {
            Some(HardwareModel::TdLorac)
        } else if value == 61 {
            Some(HardwareModel::CdebyteEoraS3)
        } else if value == 62 {
            Some(HardwareModel::TwcMeshV4)
        } else if value == 63 {
            Some(HardwareModel::Nrf52PromicroDiy)
        } else if value == 64 {
            Some(HardwareModel::Radiomaster900BanditNano)
        } else if value == 65 {
            Some(HardwareModel::HeltecCapsuleSensorV3)
        } else if value == 66 {
            Some(HardwareModel::HeltecVisionMasterT190)
        } else if value == 67 {
            Some(HardwareModel::HeltecVisionMasterE213)
        } else if value == 68 {
            Some(HardwareModel::HeltecVisionMasterE290)
        } else if value == 69 {
            Some(HardwareModel::HeltecMeshNodeT114)
        } else if value == 70 {
            Some(HardwareModel::SensecapIndicator)
        } else if value == 71 {
            Some(HardwareModel::TrackerT1000E)
        } else if value == 72 {
            Some(HardwareModel::Rak3172)
        } else if value == 73 {
            Some(HardwareModel::WioE5)
        } else if value == 74 {
            Some(HardwareModel::Radiomaster900Bandit)
        } else if value == 75 {
            Some(HardwareModel::Me25ls014y10td)
        } else if value == 76 {
            Some(HardwareModel::Rp2040FeatherRfm95)
        } else if value == 77 {
            Some(HardwareModel::M5stackCorebasic)
        } else if value == 78 {
            Some(HardwareModel::M5stackCore2)
        } else if value == 79 {
            Some(HardwareModel::RpiPico2)
        } else if value == 80 {
            Some(HardwareModel::M5stackCores3)
        } else if value == 81 {
            Some(HardwareModel::SeeedXiaoS3)
        } else if value == 82 {
            Some(HardwareModel::Ms24sf1)
        } else if value == 83 {
            Some(HardwareModel::TloraC6)
        } else if value == 84 {
            Some(HardwareModel::WismeshTap)
        } else if value == 85 {
            Some(HardwareModel::Routastic)
        } else if value == 86 {
            Some(HardwareModel::MeshTab)
        } else if value == 87 {
            Some(HardwareModel::Meshlink)
        } else if value == 255 {
            Some(HardwareModel::PrivateHw)
        } else {
            None
        }
    }

    proof fn lemma_lookups()
        ensures
            forall|e: Self| #[trigger] Self::name_lookup(e.str_name()) == Some(e),
            forall|e: Self| #[trigger] Self::value_lookup(e.value()) == Some(e),
    {
        reveal_strlit("UNSET");
        assert("UNSET"@.len() == 5);
        assert("UNSET"@[0] == 'U');
        reveal_strlit("TLORA_V2");
        assert("TLORA_V2"@.len() == 8);
        assert("TLORA_V2"@[0] == 'T');
        assert("TLORA_V2"@[1] == 'L');
        assert("TLORA_V2"@[6] == 'V');
        assert("TLORA_V2"@[7] == '2');
        reveal_strlit("TLORA_V1");
        assert("TLORA_V1"@.len() == 8);
        assert("TLORA_V1"@[0] == 'T');
        assert("TLORA_V1"@[1] == 'L');
        assert("TLORA_V1"@[6] == 'V');
        assert("TLORA_V1"@[7] == '1');
        reveal_strlit("TLORA_V2_1_1P6");
        assert("TLORA_V2_1_1P6"@.len() == 14);
        assert("TLORA_V2_1_1P6"@[0] == 'T');
        assert("TLORA_V2_1_1P6"@[13] == '6');
        reveal_strlit("TBEAM");
        assert("TBEAM"@.len() == 5);
        assert("TBEAM"@[0] == 'T');
        reveal_strlit("HELTEC_V2_0");
        assert("HELTEC_V2_0"@.len() == 11);
        assert("HELTEC_V2_0"@[0] == 'H');
        assert("HELTEC_V2_0"@[7] == 'V');
        assert("HELTEC_V2_0"@[10] == '0');
        reveal_strlit("TBEAM_V0P7");
        assert("TBEAM_V0P7"@.len() == 10);
        assert("TBEAM_V0P7"@[0] == 'T');
        assert("TBEAM_V0P7"@[1] == 'B');
        reveal_strlit("T_ECHO");
        assert("T_ECHO"@.len() == 6);
        assert("T_ECHO"@[0] == 'T');
        assert("T_ECHO"@[2] == 'E');
        reveal_strlit("TLORA_V1_1P3");
        assert("TLORA_V1_1P3"@.len() == 12);
        assert("TLORA_V1_1P3"@[0] == 'T');
        reveal_strlit("RAK4631");
        assert("RAK4631"@.len() == 7);
        assert("RAK4631"@[0] == 'R');
        assert("RAK4631"@[3] == '4');
        reveal_strlit("HELTEC_V2_1");
        assert("HELTEC_V2_1"@.len() == 11);
        assert("HELTEC_V2_1"@[0] == 'H');
        assert("HELTEC_V2_1"@[7] == 'V');
        assert("HELTEC_V2_1"@[10] == '1');
        reveal_strlit("HELTEC_V1");
        assert("HELTEC_V1"@.len() == 9);
        assert("HELTEC_V1"@[0] == 'H');
        assert("HELTEC_V1"@[8] == '1');
        reveal_strlit("LILYGO_TBEAM_S3_CORE");
        assert("LILYGO_TBEAM_S3_CORE"@.len() == 20);
        assert("LILYGO_TBEAM_S3_CORE"@[0] == 'L');
        reveal_strlit("RAK11200");
        assert("RAK11200"@.len() == 8);
        assert("RAK11200"@[0] == 'R');
        assert("RAK11200"@[1] == 'A');
        assert("RAK11200"@[5] == '2');
        reveal_strlit("NANO_G1");
        assert("NANO_G1"@.len() == 7);
        assert("NANO_G1"@[0] == 'N');
        reveal_strlit("TLORA_V2_1_1P8");
        assert("TLORA_V2_1_1P8"@.len() == 14);
        assert("TLORA_V2_1_1P8"@[0] == 'T');
        assert("TLORA_V2_1_1P8"@[13] == '8');
        reveal_strlit("TLORA_T3_S3");
        assert("TLORA_T3_S3"@.len() == 11);
        assert("TLORA_T3_S3"@[0] == 'T');
        assert("TLORA_T3_S3"@[1] == 'L');
        reveal_strlit("NANO_G1_EXPLORER");
        assert("NANO_G1_EXPLORER"@.len() == 16);
        assert("NANO_G1_EXPLORER"@[0] == 'N');
        reveal_strlit("NANO_G2_ULTRA");
        assert("NANO_G2_ULTRA"@.len() == 13);
        assert("NANO_G2_ULTRA"@[0] == 'N');
        assert("NANO_G2_ULTRA"@[1] == 'A');
        reveal_strlit("LORA_TYPE");
        assert("LORA_TYPE"@.len() == 9);
        assert("LORA_TYPE"@[0] == 'L');
        reveal_strlit("WIPHONE");
        assert("WIPHONE"@.len() == 7);
        assert("WIPHONE"@[0] == 'W');
        reveal_strlit("WIO_WM1110");
        assert("WIO_WM1110"@.len() == 10);
        assert("WIO_WM1110"@[0] == 'W');
        reveal_strlit("RAK2560");
        assert("RAK2560"@.len() == 7);
        assert("RAK2560"@[0] == 'R');
        assert("RAK2560"@[3] == '2');
        reveal_strlit("HELTEC_HRU_3601");
        assert("HELTEC_HRU_3601"@.len() == 15);
        assert("HELTEC_HRU_3601"@[0] == 'H');
        reveal_strlit("HELTEC_WIRELESS_BRIDGE");
        assert("HELTEC_WIRELESS_BRIDGE"@.len() == 22);
        assert("HELTEC_WIRELESS_BRIDGE"@[0] == 'H');
        reveal_strlit("STATION_G1");
        assert("STATION_G1"@.len() == 10);
        assert("STATION_G1"@[0] == 'S');
        assert("STATION_G1"@[9] == '1');
        reveal_strlit("RAK11310");
        assert("RAK11310"@.len() == 8);
        assert("RAK11310"@[0] == 'R');
        assert("RAK11310"@[1] == 'A');
        assert("RAK11310"@[5] == '3');
        reveal_strlit("SENSELORA_RP2040");
        assert("SENSELORA_RP2040"@.len() == 16);
        assert("SENSELORA_RP2040"@[0] == 'S');
        reveal_strlit("SENSELORA_S3");
        assert("SENSELORA_S3"@.len() == 12);
        assert("SENSELORA_S3"@[0] == 'S');
        reveal_strlit("CANARYONE");
        assert("CANARYONE"@.len() == 9);
        assert("CANARYONE"@[0] == 'C');
        assert("CANARYONE"@[1] == 'A');
        reveal_strlit("RP2040_LORA");
        assert("RP2040_LORA"@.len() == 11);
        assert("RP2040_LORA"@[0] == 'R');
        reveal_strlit("STATION_G2");
        assert("STATION_G2"@.len() == 10);
        assert("STATION_G2"@[0] == 'S');
        assert("STATION_G2"@[9] == '2');
        reveal_strlit("LORA_RELAY_V1");
        assert("LORA_RELAY_V1"@.len() == 13);
        assert("LORA_RELAY_V1"@[0] == 'L');
        reveal_strlit("NRF52840DK");
        assert("NRF52840DK"@.len() == 10);
        assert("NRF52840DK"@[0] == 'N');
        reveal_strlit("PPR");
        assert("PPR"@.len() == 3);
        reveal_strlit("GENIEBLOCKS");
        assert("GENIEBLOCKS"@.len() == 11);
        assert("GENIEBLOCKS"@[0] == 'G');
        reveal_strlit("NRF52_UNKNOWN");
        assert("NRF52_UNKNOWN"@.len() == 13);
        assert("NRF52_UNKNOWN"@[0] == 'N');
        assert("NRF52_UNKNOWN"@[1] == 'R');
        reveal_strlit("PORTDUINO");
        assert("PORTDUINO"@.len() == 9);
        assert("PORTDUINO"@[0] == 'P');
        reveal_strlit("ANDROID_SIM");
        assert("ANDROID_SIM"@.len() == 11);
        assert("ANDROID_SIM"@[0] == 'A');
        reveal_strlit("DIY_V1");
        assert("DIY_V1"@.len() == 6);
        assert("DIY_V1"@[0] == 'D');
        assert("DIY_V1"@[1] == 'I');
        reveal_strlit("NRF52840_PCA10059");
        assert("NRF52840_PCA10059"@.len() == 17);
        assert("NRF52840_PCA10059"@[0] == 'N');
        reveal_strlit("DR_DEV");
        assert("DR_DEV"@.len() == 6);
        assert("DR_DEV"@[0] == 'D');
        assert("DR_DEV"@[1] == 'R');
        reveal_strlit("M5STACK");
        assert("M5STACK"@.len() == 7);
        assert("M5STACK"@[0] == 'M');
        assert("M5STACK"@[1] == '5');
        reveal_strlit("HELTEC_V3");
        assert("HELTEC_V3"@.len() == 9);
        assert("HELTEC_V3"@[0] == 'H');
        assert("HELTEC_V3"@[8] == '3');
        reveal_strlit("HELTEC_WSL_V3");
        assert("HELTEC_WSL_V3"@.len() == 13);
        assert("HELTEC_WSL_V3"@[0] == 'H');
        reveal_strlit("BETAFPV_2400_TX");
        assert("BETAFPV_2400_TX"@.len() == 15);
        assert("BETAFPV_2400_TX"@[0] == 'B');
        reveal_strlit("BETAFPV_900_NANO_TX");
        assert("BETAFPV_900_NANO_TX"@.len() == 19);
        reveal_strlit("RPI_PICO");
        assert("RPI_PICO"@.len() == 8);
        assert("RPI_PICO"@[0] == 'R');
        assert("RPI_PICO"@[1] == 'P');
        reveal_strlit("HELTEC_WIRELESS_TRACKER");
        assert("HELTEC_WIRELESS_TRACKER"@.len() == 23);
        reveal_strlit("HELTEC_WIRELESS_PAPER");
        assert("HELTEC_WIRELESS_PAPER"@.len() == 21);
        assert("HELTEC_WIRELESS_PAPER"@[7] == 'W');
        reveal_strlit("T_DECK");
        assert("T_DECK"@.len() == 6);
        assert("T_DECK"@[0] == 'T');
        assert("T_DECK"@[2] == 'D');
        reveal_strlit("T_WATCH_S3");
        assert("T_WATCH_S3"@.len() == 10);
        assert("T_WATCH_S3"@[0] == 'T');
        assert("T_WATCH_S3"@[1] == '_');
        reveal_strlit("PICOMPUTER_S3");
        assert("PICOMPUTER_S3"@.len() == 13);
        assert("PICOMPUTER_S3"@[0] == 'P');
        reveal_strlit("HELTEC_HT62");
        assert("HELTEC_HT62"@.len() == 11);
        assert("HELTEC_HT62"@[0] == 'H');
        assert("HELTEC_HT62"@[7] == 'H');
        reveal_strlit("EBYTE_ESP32_S3");
        assert("EBYTE_ESP32_S3"@.len() == 14);
        assert("EBYTE_ESP32_S3"@[0] == 'E');
        reveal_strlit("ESP32_S3_PICO");
        assert("ESP32_S3_PICO"@.len() == 13);
        assert("ESP32_S3_PICO"@[0] == 'E');
        reveal_strlit("CHATTER_2");
        assert("CHATTER_2"@.len() == 9);
        assert("CHATTER_2"@[0] == 'C');
        assert("CHATTER_2"@[1] == 'H');
        reveal_strlit("HELTEC_WIRELESS_PAPER_V1_0");
        assert("HELTEC_WIRELESS_PAPER_V1_0"@.len() == 26);
        reveal_strlit("HELTEC_WIRELESS_TRACKER_V1_0");
        assert("HELTEC_WIRELESS_TRACKER_V1_0"@.len() == 28);
        reveal_strlit("UNPHONE");
        assert("UNPHONE"@.len() == 7);
        assert("UNPHONE"@[0] == 'U');
        reveal_strlit("TD_LORAC");
        assert("TD_LORAC"@.len() == 8);
        assert("TD_LORAC"@[0] == 'T');
        assert("TD_LORAC"@[1] == 'D');
        reveal_strlit("CDEBYTE_EORA_S3");
        assert("CDEBYTE_EORA_S3"@.len() == 15);
        assert("CDEBYTE_EORA_S3"@[0] == 'C');
        reveal_strlit("TWC_MESH_V4");
        assert("TWC_MESH_V4"@.len() == 11);
        assert("TWC_MESH_V4"@[0] == 'T');
        assert("TWC_MESH_V4"@[1] == 'W');
        reveal_strlit("NRF52_PROMICRO_DIY");
        assert("NRF52_PROMICRO_DIY"@.len() == 18);
        assert("NRF52_PROMICRO_DIY"@[0] == 'N');
        reveal_strlit("RADIOMASTER_900_BANDIT_NANO");
        assert("RADIOMASTER_900_BANDIT_NANO"@.len() == 27);
        reveal_strlit("HELTEC_CAPSULE_SENSOR_V3");
        assert("HELTEC_CAPSULE_SENSOR_V3"@.len() == 24);
        reveal_strlit("HELTEC_VISION_MASTER_T190");
        assert("HELTEC_VISION_MASTER_T190"@.len() == 25);
        assert("HELTEC_VISION_MASTER_T190"@[21] == 'T');
        reveal_strlit("HELTEC_VISION_MASTER_E213");
        assert("HELTEC_VISION_MASTER_E213"@.len() == 25);
        assert("HELTEC_VISION_MASTER_E213"@[21] == 'E');
        assert("HELTEC_VISION_MASTER_E213"@[23] == '1');
        reveal_strlit("HELTEC_VISION_MASTER_E290");
        assert("HELTEC_VISION_MASTER_E290"@.len() == 25);
        assert("HELTEC_VISION_MASTER_E290"@[21] == 'E');
        assert("HELTEC_VISION_MASTER_E290"@[23] == '9');
        reveal_strlit("HELTEC_MESH_NODE_T114");
        assert("HELTEC_MESH_NODE_T114"@.len() == 21);
        assert("HELTEC_MESH_NODE_T114"@[7] == 'M');
        reveal_strlit("SENSECAP_INDICATOR");
        assert("SENSECAP_INDICATOR"@.len() == 18);
        assert("SENSECAP_INDICATOR"@[0] == 'S');
        reveal_strlit("TRACKER_T1000_E");
        assert("TRACKER_T1000_E"@.len() == 15);
        assert("TRACKER_T1000_E"@[0] == 'T');
        reveal_strlit("RAK3172");
        assert("RAK3172"@.len() == 7);
        assert("RAK3172"@[0] == 'R');
        assert("RAK3172"@[3] == '3');
        reveal_strlit("WIO_E5");
        assert("WIO_E5"@.len() == 6);
        assert("WIO_E5"@[0] == 'W');
        reveal_strlit("RADIOMASTER_900_BANDIT");
        assert("RADIOMASTER_900_BANDIT"@.len() == 22);
        assert("RADIOMASTER_900_BANDIT"@[0] == 'R');
        reveal_strlit("ME25LS01_4Y10TD");
        assert("ME25LS01_4Y10TD"@.len() == 15);
        assert("ME25LS01_4Y10TD"@[0] == 'M');
        reveal_strlit("RP2040_FEATHER_RFM95");
        assert("RP2040_FEATHER_RFM95"@.len() == 20);
        assert("RP2040_FEATHER_RFM95"@[0] == 'R');
        reveal_strlit("M5STACK_COREBASIC");
        assert("M5STACK_COREBASIC"@.len() == 17);
        assert("M5STACK_COREBASIC"@[0] == 'M');
        reveal_strlit("M5STACK_CORE2");
        assert("M5STACK_CORE2"@.len() == 13);
        assert("M5STACK_CORE2"@[0] == 'M');
        reveal_strlit("RPI_PICO2");
        assert("RPI_PICO2"@.len() == 9);
        assert("RPI_PICO2"@[0] == 'R');
        assert("RPI_PICO2"@[1] == 'P');
        reveal_strlit("M5STACK_CORES3");
        assert("M5STACK_CORES3"@.len() == 14);
        assert("M5STACK_CORES3"@[0] == 'M');
        reveal_strlit("SEEED_XIAO_S3");
        assert("SEEED_XIAO_S3"@.len() == 13);
        assert("SEEED_XIAO_S3"@[0] == 'S');
        reveal_strlit("MS24SF1");
        assert("MS24SF1"@.len() == 7);
        assert("MS24SF1"@[0] == 'M');
        assert("MS24SF1"@[1] == 'S');
        reveal_strlit("TLORA_C6");
        assert("TLORA_C6"@.len() == 8);
        assert("TLORA_C6"@[0] == 'T');
        assert("TLORA_C6"@[1] == 'L');
        assert("TLORA_C6"@[6] == 'C');
        reveal_strlit("WISMESH_TAP");
        assert("WISMESH_TAP"@.len() == 11);
        assert("WISMESH_TAP"@[0] == 'W');
        reveal_strlit("ROUTASTIC");
        assert("ROUTASTIC"@.len() == 9);
        assert("ROUTASTIC"@[0] == 'R');
        assert("ROUTASTIC"@[1] == 'O');
        reveal_strlit("MESH_TAB");
        assert("MESH_TAB"@.len() == 8);
        assert("MESH_TAB"@[0] == 'M');
        assert("MESH_TAB"@[4] == '_');
        reveal_strlit("MESHLINK");
        assert("MESHLINK"@.len() == 8);
        assert("MESHLINK"@[0] == 'M');
        assert("MESHLINK"@[4] == 'L');
        reveal_strlit("PRIVATE_HW");
        assert("PRIVATE_HW"@.len() == 10);
        assert("PRIVATE_HW"@[0] == 'P');
    }

    /// Distinct variants have distinct ProtoBuf names and distinct ProtoBuf numbers.
    pub proof fn lemma_injective(a: Self, b: Self)
        ensures
            a.str_name() == b.str_name() ==> a == b,
            a.value() == b.value() ==> a == b,
    {
        Self::lemma_lookups();
        assert(Self::name_lookup(a.str_name()) == Some(a));
        assert(Self::name_lookup(b.str_name()) == Some(b));
        assert(Self::value_lookup(a.value()) == Some(a));
        assert(Self::value_lookup(b.value()) == Some(b));
    }

    /// A name denotes a variant exactly when it is that variant's ProtoBuf name:
    /// `from_str_name` undoes `as_str_name`, and accepts nothing else.
    pub proof fn lemma_named(name: Seq<char>, e: Self)
        ensures
            Self::named(name) == Some(e) <==> e.str_name() == name,
    {
        if e.str_name() == name {
            let x = choose|x: Self| #[trigger] x.str_name() == name;
            Self::lemma_injective(x, e);
        }
    }

    /// A number denotes a variant exactly when it is that variant's ProtoBuf number:
    /// `from_i32` undoes the conversion to `i32`, and accepts nothing else.
    pub proof fn lemma_with_value(value: i32, e: Self)
        ensures
            Self::with_value(value) == Some(e) <==> e.value() == value,
    {
        if e.value() == value {
            let x = choose|x: Self| #[trigger] x.value() == value;
            Self::lemma_injective(x, e);
        }
    }

    /// What a field holding `value` reads as: the variant numbered `value` when some variant
    /// has that number, and otherwise the variant numbered 0.
    pub proof fn lemma_number_or_default(value: i32)
        ensures
            (exists|e: Self| #[trigger] e.value() == value) ==> Self::from_number_or_default(value).value() == value,
            (forall|e: Self| #[trigger] e.value() != value) ==> Self::from_number_or_default(value).value() == 0,
            (forall|e: Self| #[trigger] e.value() != value) ==> Self::from_number_or_default(value) == Self::default_variant(),
            Self::default_variant().value() == 0,
    {
        if exists|e: Self| #[trigger] e.value() == value {
            let e = choose|e: Self| #[trigger] e.value() == value;
            Self::lemma_with_value(value, e);
        }
    }

    /// `try_from` accepts exactly the numbers that variants have and gives back the variant with
    /// that number; every other number it rejects with the error that records that number.
    pub proof fn lemma_try_from(value: i32, e: Self)
        ensures
            (<Self as vstd::std_specs::convert::TryFromSpec<i32>>::try_from_spec(value) == Ok::<Self, prost::UnknownEnumValue>(e)) <==> e.value() == value,
            (forall|x: Self| #[trigger] x.value() != value) ==> <Self as vstd::std_specs::convert::TryFromSpec<i32>>::try_from_spec(value) == Err::<Self, prost::UnknownEnumValue>(crate::enum_error::unknown_enum_value(value)),
            (exists|x: Self| #[trigger] x.value() == value) ==> <Self as vstd::std_specs::convert::TryFromSpec<i32>>::try_from_spec(value) is Ok,
    {
        Self::lemma_with_value(value, e);
        if exists|x: Self| #[trigger] x.value() == value {
            let x = choose|x: Self| #[trigger] x.value() == value;
            Self::lemma_with_value(value, x);
        }
    }

    /// Reading back the number of a variant gives that variant: a field set to `e` reads as `e`.
    pub proof fn lemma_read_after_write(e: Self)
        ensures
            Self::from_number_or_default(e.value()) == e,
    {
        Self::lemma_with_value(e.value(), e);
    }

    /// String value of the enum field names used in the ProtoBuf definition.
    ///
    /// The values are not transformed in any way and thus are considered stable
    /// (if the ProtoBuf definition does not change) and safe for programmatic use.
    pub fn as_str_name(&self) -> (name: &'static str)
        ensures
            name@ == self.str_name(),
    {
        match self {
            HardwareModel::Unset => "UNSET",
            HardwareModel::TloraV2 => "TLORA_V2",
            HardwareModel::TloraV1 => "TLORA_V1",
            HardwareModel::TloraV211p6 => "TLORA_V2_1_1P6",
            HardwareModel::Tbeam => "TBEAM",
            HardwareModel::HeltecV20 => "HELTEC_V2_0",
            HardwareModel::TbeamV0p7 => "TBEAM_V0P7",
            HardwareModel::TEcho => "T_ECHO",
            HardwareModel::TloraV11p3 => "TLORA_V1_1P3",
            HardwareModel::Rak4631 => "RAK4631",
            HardwareModel::HeltecV21 => "HELTEC_V2_1",
            HardwareModel::HeltecV1 => "HELTEC_V1",
            HardwareModel::LilygoTbeamS3Core => "LILYGO_TBEAM_S3_CORE",
            HardwareModel::Rak11200 => "RAK11200",
            HardwareModel::NanoG1 => "NANO_G1",
            HardwareModel::TloraV211p8 => "TLORA_V2_1_1P8",
            HardwareModel::TloraT3S3 => "TLORA_T3_S3",
            HardwareModel::NanoG1Explorer => "NANO_G1_EXPLORER",
            HardwareModel::NanoG2Ultra => "NANO_G2_ULTRA",
            HardwareModel::LoraType => "LORA_TYPE",
            HardwareModel::Wiphone => "WIPHONE",
            HardwareModel::WioWm1110 => "WIO_WM1110",
            HardwareModel::Rak2560 => "RAK2560",
            HardwareModel::HeltecHru3601 => "HELTEC_HRU_3601",
            HardwareModel::HeltecWirelessBridge => "HELTEC_WIRELESS_BRIDGE",
            HardwareModel::StationG1 => "STATION_G1",
            HardwareModel::Rak11310 => "RAK11310",
            HardwareModel::SenseloraRp2040 => "SENSELORA_RP2040",
            HardwareModel::SenseloraS3 => "SENSELORA_S3",
            HardwareModel::Canaryone => "CANARYONE",
            HardwareModel::Rp2040Lora => "RP2040_LORA",
            HardwareModel::StationG2 => "STATION_G2",
            HardwareModel::LoraRelayV1 => "LORA_RELAY_V1",
            HardwareModel::Nrf52840dk => "NRF52840DK",
            HardwareModel::Ppr => "PPR",
            HardwareModel::Genieblocks => "GENIEBLOCKS",
            HardwareModel::Nrf52Unknown => "NRF52_UNKNOWN",
            HardwareModel::Portduino => "PORTDUINO",
            HardwareModel::AndroidSim => "ANDROID_SIM",
            HardwareModel::DiyV1 => "DIY_V1",
            HardwareModel::Nrf52840Pca10059 => "NRF52840_PCA10059",
            HardwareModel::DrDev => "DR_DEV",
            HardwareModel::M5stack => "M5STACK",
            HardwareModel::HeltecV3 => "HELTEC_V3",
            HardwareModel::HeltecWslV3 => "HELTEC_WSL_V3",
            HardwareModel::Betafpv2400Tx => "BETAFPV_2400_TX",
            HardwareModel::Betafpv900NanoTx => "BETAFPV_900_NANO_TX",
            HardwareModel::RpiPico => "RPI_PICO",
            HardwareModel::HeltecWirelessTracker => "HELTEC_WIRELESS_TRACKER",
            HardwareModel::HeltecWirelessPaper => "HELTEC_WIRELESS_PAPER",
            HardwareModel::TDeck => "T_DECK",
            HardwareModel::TWatchS3 => "T_WATCH_S3",
            HardwareModel::PicomputerS3 => "PICOMPUTER_S3",
            HardwareModel::HeltecHt62 => "HELTEC_HT62",
            HardwareModel::EbyteEsp32S3 => "EBYTE_ESP32_S3",
            HardwareModel::Esp32S3Pico => "ESP32_S3_PICO",
            HardwareModel::Chatter2 => "CHATTER_2",
            HardwareModel::HeltecWirelessPaperV10 => "HELTEC_WIRELESS_PAPER_V1_0",
            HardwareModel::HeltecWirelessTrackerV10 => "HELTEC_WIRELESS_TRACKER_V1_0",
            HardwareModel::Unphone => "UNPHONE",
            HardwareModel::TdLorac => "TD_LORAC",
            HardwareModel::CdebyteEoraS3 => "CDEBYTE_EORA_S3",
            HardwareModel::TwcMeshV4 => "TWC_MESH_V4",
            HardwareModel::Nrf52PromicroDiy => "NRF52_PROMICRO_DIY",
            HardwareModel::Radiomaster900BanditNano => "RADIOMASTER_900_BANDIT_NANO",
            HardwareModel::HeltecCapsuleSensorV3 => "HELTEC_CAPSULE_SENSOR_V3",
            HardwareModel::HeltecVisionMasterT190 => "HELTEC_VISION_MASTER_T190",
            HardwareModel::HeltecVisionMasterE213 => "HELTEC_VISION_MASTER_E213",
            HardwareModel::HeltecVisionMasterE290 => "HELTEC_VISION_MASTER_E290",
            HardwareModel::HeltecMeshNodeT114 => "HELTEC_MESH_NODE_T114",
            HardwareModel::SensecapIndicator => "SENSECAP_INDICATOR",
            HardwareModel::TrackerT1000E => "TRACKER_T1000_E",
            HardwareModel::Rak3172 => "RAK3172",
            HardwareModel::WioE5 => "WIO_E5",
            HardwareModel::Radiomaster900Bandit => "RADIOMASTER_900_BANDIT",
            HardwareModel::Me25ls014y10td => "ME25LS01_4Y10TD",
            HardwareModel::Rp2040FeatherRfm95 => "RP2040_FEATHER_RFM95",
            HardwareModel::M5stackCorebasic => "M5STACK_COREBASIC",
            HardwareModel::M5stackCore2 => "M5STACK_CORE2",
            HardwareModel::RpiPico2 => "RPI_PICO2",
            HardwareModel::M5stackCores3 => "M5STACK_CORES3",
            HardwareModel::SeeedXiaoS3 => "SEEED_XIAO_S3",
            HardwareModel::Ms24sf1 => "MS24SF1",
            HardwareModel::TloraC6 => "TLORA_C6",
            HardwareModel::WismeshTap => "WISMESH_TAP",
            HardwareModel::Routastic => "ROUTASTIC",
            HardwareModel::MeshTab => "MESH_TAB",
            HardwareModel::Meshlink => "MESHLINK",
            HardwareModel::PrivateHw => "PRIVATE_HW",
        }
    }

    /// Creates an enum from field names used in the ProtoBuf definition.
    pub fn from_str_name(value: &str) -> (r: Option<Self>)
        ensures
            r == Self::named(value@),
    {
        if str_eq(value, "UNSET") {
            proof {
                Self::lemma_named(value@, HardwareModel::Unset);
            }
            return Some(HardwareModel::Unset);
        }
        if str_eq(value, "TLORA_V2") {
            proof {
                Self::lemma_named(value@, HardwareModel::TloraV2);
            }
            return Some(HardwareModel::TloraV2);
        }
        if str_eq(value, "TLORA_V1") {
            proof {
                Self::lemma_named(value@, HardwareModel::TloraV1);
            }
            return Some(HardwareModel::TloraV1);
        }
        if str_eq(value, "TLORA_V2_1_1P6") {
            proof {
                Self::lemma_named(value@, HardwareModel::TloraV211p6);
            }
            return Some(HardwareModel::TloraV211p6);
        }
        if str_eq(value, "TBEAM") {
            proof {
                Self::lemma_named(value@, HardwareModel::Tbeam);
            }
            return Some(HardwareModel::Tbeam);
        }
        if str_eq(value, "HELTEC_V2_0") {
            proof {
                Self::lemma_named(value@, HardwareModel::HeltecV20);
            }
            return Some(HardwareModel::HeltecV20);
        }
        if str_eq(value, "TBEAM_V0P7") {
            proof {
                Self::lemma_named(value@, HardwareModel::TbeamV0p7);
            }
            return Some(HardwareModel::TbeamV0p7);
        }
        if str_eq(value, "T_ECHO") {
            proof {
                Self::lemma_named(value@, HardwareModel::TEcho);
            }
            return Some(HardwareModel::TEcho);
        }
        if str_eq(value, "TLORA_V1_1P3") {
            proof {
                Self::lemma_named(value@, HardwareModel::TloraV11p3);
            }
            return Some(HardwareModel::TloraV11p3);
        }
        if str_eq(value, "RAK4631") {
            proof {
                Self::lemma_named(value@, HardwareModel::Rak4631);
            }
            return Some(HardwareModel::Rak4631);
        }
        if str_eq(value, "HELTEC_V2_1") {
            proof {
                Self::lemma_named(value@, HardwareModel::HeltecV21);
            }
            return Some(HardwareModel::HeltecV21);
        }
        if str_eq(value, "HELTEC_V1") {
            proof {
                Self::lemma_named(value@, HardwareModel::HeltecV1);
            }
            return Some(HardwareModel::HeltecV1);
        }
        if str_eq(value, "LILYGO_TBEAM_S3_CORE") {
            proof {
                Self::lemma_named(value@, HardwareModel::LilygoTbeamS3Core);
            }
            return Some(HardwareModel::LilygoTbeamS3Core);
        }
        if str_eq(value, "RAK11200") {
            proof {
                Self::lemma_named(value@, HardwareModel::Rak11200);
            }
            return Some(HardwareModel::Rak11200);
        }
        if str_eq(value, "NANO_G1") {
            proof {
                Self::lemma_named(value@, HardwareModel::NanoG1);
            }
            return Some(HardwareModel::NanoG1);
        }
        if str_eq(value, "TLORA_V2_1_1P8") {
            proof {
                Self::lemma_named(value@, HardwareModel::TloraV211p8);
            }
            return Some(HardwareModel::TloraV211p8);
        }
        if str_eq(value, "TLORA_T3_S3") {
            proof {
                Self::lemma_named(value@, HardwareModel::TloraT3S3);
            }
            return Some(HardwareModel::TloraT3S3);
        }
        if str_eq(value, "NANO_G1_EXPLORER") {
            proof {
                Self::lemma_named(value@, HardwareModel::NanoG1Explorer);
            }
            return Some(HardwareModel::NanoG1Explorer);
        }
        if str_eq(value, "NANO_G2_ULTRA") {
            proof {
                Self::lemma_named(value@, HardwareModel::NanoG2Ultra);
            }
            return Some(HardwareModel::NanoG2Ultra);
        }
        if str_eq(value, "LORA_TYPE") {
            proof {
                Self::lemma_named(value@, HardwareModel::LoraType);
            }
            return Some(HardwareModel::LoraType);
        }
        if str_eq(value, "WIPHONE") {
            proof {
                Self::lemma_named(value@, HardwareModel::Wiphone);
            }
            return Some(HardwareModel::Wiphone);
        }
        if str_eq(value, "WIO_WM1110") {
            proof {
                Self::lemma_named(value@, HardwareModel::WioWm1110);
            }
            return Some(HardwareModel::WioWm1110);
        }
        if str_eq(value, "RAK2560") {
            proof {
                Self::lemma_named(value@, HardwareModel::Rak2560);
            }
            return Some(HardwareModel::Rak2560);
        }
        if str_eq(value, "HELTEC_HRU_3601") {
            proof {
                Self::lemma_named(value@, HardwareModel::HeltecHru3601);
            }
            return Some(HardwareModel::HeltecHru3601);
        }
        if str_eq(value, "HELTEC_WIRELESS_BRIDGE") {
            proof {
                Self::lemma_named(value@, HardwareModel::HeltecWirelessBridge);
            }
            return Some(HardwareModel::HeltecWirelessBridge);
        }
        if str_eq(value, "STATION_G1") {
            proof {
                Self::lemma_named(value@, HardwareModel::StationG1);
            }
            return Some(HardwareModel::StationG1);
        }
        if str_eq(value, "RAK11310") {
            proof {
                Self::lemma_named(value@, HardwareModel::Rak11310);
            }
            return Some(HardwareModel::Rak11310);
        }
        if str_eq(value, "SENSELORA_RP2040") {
            proof {
                Self::lemma_named(value@, HardwareModel::SenseloraRp2040);
            }
            return Some(HardwareModel::SenseloraRp2040);
        }
        if str_eq(value, "SENSELORA_S3") {
            proof {
                Self::lemma_named(value@, HardwareModel::SenseloraS3);
            }
            return Some(HardwareModel::SenseloraS3);
        }
        if str_eq(value, "CANARYONE") {
            proof {
                Self::lemma_named(value@, HardwareModel::Canaryone);
            }
            return Some(HardwareModel::Canaryone);
        }
        if str_eq(value, "RP2040_LORA") {
            proof {
                Self::lemma_named(value@, HardwareModel::Rp2040Lora);
            }
            return Some(HardwareModel::Rp2040Lora);
        }
        if str_eq(value, "STATION_G2") {
            proof {
                Self::lemma_named(value@, HardwareModel::StationG2);
            }
            return Some(HardwareModel::StationG2);
        }
        if str_eq(value, "LORA_RELAY_V1") {
            proof {
                Self::lemma_named(value@, HardwareModel::LoraRelayV1);
            }
            return Some(HardwareModel::LoraRelayV1);
        }
        if str_eq(value, "NRF52840DK") {
            proof {
                Self::lemma_named(value@, HardwareModel::Nrf52840dk);
            }
            return Some(HardwareModel::Nrf52840dk);
        }
        if str_eq(value, "PPR") {
            proof {
                Self::lemma_named(value@, HardwareModel::Ppr);
            }
            return Some(HardwareModel::Ppr);
        }
        if str_eq(value, "GENIEBLOCKS") {
            proof {
                Self::lemma_named(value@, HardwareModel::Genieblocks);
            }
            return Some(HardwareModel::Genieblocks);
        }
        if str_eq(value, "NRF52_UNKNOWN") {
            proof {
                Self::lemma_named(value@, HardwareModel::Nrf52Unknown);
            }
            return Some(HardwareModel::Nrf52Unknown);
        }
        if str_eq(value, "PORTDUINO") {
            proof {
                Self::lemma_named(value@, HardwareModel::Portduino);
            }
            return Some(HardwareModel::Portduino);
        }
        if str_eq(value, "ANDROID_SIM") {
            proof {
                Self::lemma_named(value@, HardwareModel::AndroidSim);
            }
            return Some(HardwareModel::AndroidSim);
        }
        if str_eq(value, "DIY_V1") {
            proof {
                Self::lemma_named(value@, HardwareModel::DiyV1);
            }
            return Some(HardwareModel::DiyV1);
        }
        if str_eq(value, "NRF52840_PCA10059") {
            proof {
                Self::lemma_named(value@, HardwareModel::Nrf52840Pca10059);
            }
            return Some(HardwareModel::Nrf52840Pca10059);
        }
        if str_eq(value, "DR_DEV") {
            proof {
                Self::lemma_named(value@, HardwareModel::DrDev);
            }
            return Some(HardwareModel::DrDev);
        }
        if str_eq(value, "M5STACK") {
            proof {
                Self::lemma_named(value@, HardwareModel::M5stack);
            }
            return Some(HardwareModel::M5stack);
        }
        if str_eq(value, "HELTEC_V3") {
            proof {
                Self::lemma_named(value@, HardwareModel::HeltecV3);
            }
            return Some(HardwareModel::HeltecV3);
        }
        if str_eq(value, "HELTEC_WSL_V3") {
            proof {
                Self::lemma_named(value@, HardwareModel::HeltecWslV3);
            }
            return Some(HardwareModel::HeltecWslV3);
        }
        if str_eq(value, "BETAFPV_2400_TX") {
            proof {
                Self::lemma_named(value@, HardwareModel::Betafpv2400Tx);
            }
            return Some(HardwareModel::Betafpv2400Tx);
        }
        if str_eq(value, "BETAFPV_900_NANO_TX") {
            proof {
                Self::lemma_named(value@, HardwareModel::Betafpv900NanoTx);
            }
            return Some(HardwareModel::Betafpv900NanoTx);
        }
        if str_eq(value, "RPI_PICO") {
            proof {
                Self::lemma_named(value@, HardwareModel::RpiPico);
            }
            return Some(HardwareModel::RpiPico);
        }
        if str_eq(value, "HELTEC_WIRELESS_TRACKER") {
            proof {
                Self::lemma_named(value@, HardwareModel::HeltecWirelessTracker);
            }
            return Some(HardwareModel::HeltecWirelessTracker);
        }
        if str_eq(value, "HELTEC_WIRELESS_PAPER") {
            proof {
                Self::lemma_named(value@, HardwareModel::HeltecWirelessPaper);
            }
            return Some(HardwareModel::HeltecWirelessPaper);
        }
        if str_eq(value, "T_DECK") {
            proof {
                Self::lemma_named(value@, HardwareModel::TDeck);
            }
            return Some(HardwareModel::TDeck);
        }
        if str_eq(value, "T_WATCH_S3") {
            proof {
                Self::lemma_named(value@, HardwareModel::TWatchS3);
            }
            return Some(HardwareModel::TWatchS3);
        }
        if str_eq(value, "PICOMPUTER_S3") {
            proof {
                Self::lemma_named(value@, HardwareModel::PicomputerS3);
            }
            return Some(HardwareModel::PicomputerS3);
        }
        if str_eq(value, "HELTEC_HT62") {
            proof {
                Self::lemma_named(value@, HardwareModel::HeltecHt62);
            }
            return Some(HardwareModel::HeltecHt62);
        }
        if str_eq(value, "EBYTE_ESP32_S3") {
            proof {
                Self::lemma_named(value@, HardwareModel::EbyteEsp32S3);
            }
            return Some(HardwareModel::EbyteEsp32S3);
        }
        if str_eq(value, "ESP32_S3_PICO") {
            proof {
                Self::lemma_named(value@, HardwareModel::Esp32S3Pico);
            }
            return Some(HardwareModel::Esp32S3Pico);
        }
        if str_eq(value, "CHATTER_2") {
            proof {
                Self::lemma_named(value@, HardwareModel::Chatter2);
            }
            return Some(HardwareModel::Chatter2);
        }
        if str_eq(value, "HELTEC_WIRELESS_PAPER_V1_0") {
            proof {
                Self::lemma_named(value@, HardwareModel::HeltecWirelessPaperV10);
            }
            return Some(HardwareModel::HeltecWirelessPaperV10);
        }
        if str_eq(value, "HELTEC_WIRELESS_TRACKER_V1_0") {
            proof {
                Self::lemma_named(value@, HardwareModel::HeltecWirelessTrackerV10);
            }
            return Some(HardwareModel::HeltecWirelessTrackerV10);
        }
        if str_eq(value, "UNPHONE") {
            proof {
                Self::lemma_named(value@, HardwareModel::Unphone);
            }
            return Some(HardwareModel::Unphone);
        }
        if str_eq(value, "TD_LORAC") {
            proof {
                Self::lemma_named(value@, HardwareModel::TdLorac);
            }
            return Some(HardwareModel::TdLorac);
        }
        if str_eq(value, "CDEBYTE_EORA_S3") {
            proof {
                Self::lemma_named(value@, HardwareModel::CdebyteEoraS3);
            }
            return Some(HardwareModel::CdebyteEoraS3);
        }
        if str_eq(value, "TWC_MESH_V4") {
            proof {
                Self::lemma_named(value@, HardwareModel::TwcMeshV4);
            }
            return Some(HardwareModel::TwcMeshV4);
        }
        if str_eq(value, "NRF52_PROMICRO_DIY") {
            proof {
                Self::lemma_named(value@, HardwareModel::Nrf52PromicroDiy);
            }
            return Some(HardwareModel::Nrf52PromicroDiy);
        }
        if str_eq(value, "RADIOMASTER_900_BANDIT_NANO") {
            proof {
                Self::lemma_named(value@, HardwareModel::Radiomaster900BanditNano);
            }
            return Some(HardwareModel::Radiomaster900BanditNano);
        }
        if str_eq(value, "HELTEC_CAPSULE_SENSOR_V3") {
            proof {
                Self::lemma_named(value@, HardwareModel::HeltecCapsuleSensorV3);
            }
            return Some(HardwareModel::HeltecCapsuleSensorV3);
        }
        if str_eq(value, "HELTEC_VISION_MASTER_T190") {
            proof {
                Self::lemma_named(value@, HardwareModel::HeltecVisionMasterT190);
            }
            return Some(HardwareModel::HeltecVisionMasterT190);
        }
        if str_eq(value, "HELTEC_VISION_MASTER_E213") {
            proof {
                Self::lemma_named(value@, HardwareModel::HeltecVisionMasterE213);
            }
            return Some(HardwareModel::HeltecVisionMasterE213);
        }
        if str_eq(value, "HELTEC_VISION_MASTER_E290") {
            proof {
                Self::lemma_named(value@, HardwareModel::HeltecVisionMasterE290);
            }
            return Some(HardwareModel::HeltecVisionMasterE290);
        }
        if str_eq(value, "HELTEC_MESH_NODE_T114") {
            proof {
                Self::lemma_named(value@, HardwareModel::HeltecMeshNodeT114);
            }
            return Some(HardwareModel::HeltecMeshNodeT114);
        }
        if str_eq(value, "SENSECAP_INDICATOR") {
            proof {
                Self::lemma_named(value@, HardwareModel::SensecapIndicator);
            }
            return Some(HardwareModel::SensecapIndicator);
        }
        if str_eq(value, "TRACKER_T1000_E") {
            proof {
                Self::lemma_named(value@, HardwareModel::TrackerT1000E);
            }
            return Some(HardwareModel::TrackerT1000E);
        }
        if str_eq(value, "RAK3172") {
            proof {
                Self::lemma_named(value@, HardwareModel::Rak3172);
            }
            return Some(HardwareModel::Rak3172);
        }
        if str_eq(value, "WIO_E5") {
            proof {
                Self::lemma_named(value@, HardwareModel::WioE5);
            }
            return Some(HardwareModel::WioE5);
        }
        if str_eq(value, "RADIOMASTER_900_BANDIT") {
            proof {
                Self::lemma_named(value@, HardwareModel::Radiomaster900Bandit);
            }
            return Some(HardwareModel::Radiomaster900Bandit);
        }
        if str_eq(value, "ME25LS01_4Y10TD") {
            proof {
                Self::lemma_named(value@, HardwareModel::Me25ls014y10td);
            }
            return Some(HardwareModel::Me25ls014y10td);
        }
        if str_eq(value, "RP2040_FEATHER_RFM95") {
            proof {
                Self::lemma_named(value@, HardwareModel::Rp2040FeatherRfm95);
            }
            return Some(HardwareModel::Rp2040FeatherRfm95);
        }
        if str_eq(value, "M5STACK_COREBASIC") {
            proof {
                Self::lemma_named(value@, HardwareModel::M5stackCorebasic);
            }
            return Some(HardwareModel::M5stackCorebasic);
        }
        if str_eq(value, "M5STACK_CORE2") {
            proof {
                Self::lemma_named(value@, HardwareModel::M5stackCore2);
            }
            return Some(HardwareModel::M5stackCore2);
        }
        if str_eq(value, "RPI_PICO2") {
            proof {
                Self::lemma_named(value@, HardwareModel::RpiPico2);
            }
            return Some(HardwareModel::RpiPico2);
        }
        if str_eq(value, "M5STACK_CORES3") {
            proof {
                Self::lemma_named(value@, HardwareModel::M5stackCores3);
            }
            return Some(HardwareModel::M5stackCores3);
        }
        if str_eq(value, "SEEED_XIAO_S3") {
            proof {
                Self::lemma_named(value@, HardwareModel::SeeedXiaoS3);
            }
            return Some(HardwareModel::SeeedXiaoS3);
        }
        if str_eq(value, "MS24SF1") {
            proof {
                Self::lemma_named(value@, HardwareModel::Ms24sf1);
            }
            return Some(HardwareModel::Ms24sf1);
        }
        if str_eq(value, "TLORA_C6") {
            proof {
                Self::lemma_named(value@, HardwareModel::TloraC6);
            }
            return Some(HardwareModel::TloraC6);
        }
        if str_eq(value, "WISMESH_TAP") {
            proof {
                Self::lemma_named(value@, HardwareModel::WismeshTap);
            }
            return Some(HardwareModel::WismeshTap);
        }
        if str_eq(value, "ROUTASTIC") {
            proof {
                Self::lemma_named(value@, HardwareModel::Routastic);
            }
            return Some(HardwareModel::Routastic);
        }
        if str_eq(value, "MESH_TAB") {
            proof {
                Self::lemma_named(value@, HardwareModel::MeshTab);
            }
            return Some(HardwareModel::MeshTab);
        }
        if str_eq(value, "MESHLINK") {
            proof {
                Self::lemma_named(value@, HardwareModel::Meshlink);
            }
            return Some(HardwareModel::Meshlink);
        }
        if str_eq(value, "PRIVATE_HW") {
            proof {
                Self::lemma_named(value@, HardwareModel::PrivateHw);
            }
            return Some(HardwareModel::PrivateHw);
        }
        None
    }

    /// Returns `true` if `value` is a variant of `HardwareModel`.
    pub fn is_valid(value: i32) -> (r: bool)
        ensures
            r == (Self::with_value(value) is Some),
    {
        Self::from_i32(value).is_some()
    }

    /// Converts an `i32` to a `HardwareModel`, or `None` if `value` is not a valid variant.
    pub fn from_i32(value: i32) -> (r: Option<Self>)
        ensures
            r == Self::with_value(value),
    {
        if value == 0 {
            proof {
                Self::lemma_with_value(value, HardwareModel::Unset);
            }
            return Some(HardwareModel::Unset);
        }
        if value == 1 {
            proof {
                Self::lemma_with_value(value, HardwareModel::TloraV2);
            }
            return Some(HardwareModel::TloraV2);
        }
        if value == 2 {
            proof {
                Self::lemma_with_value(value, HardwareModel::TloraV1);
            }
            return Some(HardwareModel::TloraV1);
        }
        if value == 3 {
            proof {
                Self::lemma_with_value(value, HardwareModel::TloraV211p6);
            }
            return Some(HardwareModel::TloraV211p6);
        }
        if value == 4 {
            proof {
                Self::lemma_with_value(value, HardwareModel::Tbeam);
            }
            return Some(HardwareModel::Tbeam);
        }
        if value == 5 {
            proof {
                Self::lemma_with_value(value, HardwareModel::HeltecV20);
            }
            return Some(HardwareModel::HeltecV20);
        }
        if value == 6 {
            proof {
                Self::lemma_with_value(value, HardwareModel::TbeamV0p7);
            }
            return Some(HardwareModel::TbeamV0p7);
        }
        if value == 7 {
            proof {
                Self::lemma_with_value(value, HardwareModel::TEcho);
            }
            return Some(HardwareModel::TEcho);
        }
        if value == 8 {
            proof {
                Self::lemma_with_value(value, HardwareModel::TloraV11p3);
            }
            return Some(HardwareModel::TloraV11p3);
        }
        if value == 9 {
            proof {
                Self::lemma_with_value(value, HardwareModel::Rak4631);
            }
            return Some(HardwareModel::Rak4631);
        }
        if value == 10 {
            proof {
                Self::lemma_with_value(value, HardwareModel::HeltecV21);
            }
            return Some(HardwareModel::HeltecV21);
        }
        if value == 11 {
            proof {
                Self::lemma_with_value(value, HardwareModel::HeltecV1);
            }
            return Some(HardwareModel::HeltecV1);
        }
        if value == 12 {
            proof {
                Self::lemma_with_value(value, HardwareModel::LilygoTbeamS3Core);
            }
            return Some(HardwareModel::LilygoTbeamS3Core);
        }
        if value == 13 {
            proof {
                Self::lemma_with_value(value, HardwareModel::Rak11200);
            }
            return Some(HardwareModel::Rak11200);
        }
        if value == 14 {
            proof {
                Self::lemma_with_value(value, HardwareModel::NanoG1);
            }
            return Some(HardwareModel::NanoG1);
        }
        if value == 15 {
            proof {
                Self::lemma_with_value(value, HardwareModel::TloraV211p8);
            }
            return Some(HardwareModel::TloraV211p8);
        }
        if value == 16 {
            proof {
                Self::lemma_with_value(value, HardwareModel::TloraT3S3);
            }
            return Some(HardwareModel::TloraT3S3);
        }
        if value == 17 {
            proof {
                Self::lemma_with_value(value, HardwareModel::NanoG1Explorer);
            }
            return Some(HardwareModel::NanoG1Explorer);
        }
        if value == 18 {
            proof {
                Self::lemma_with_value(value, HardwareModel::NanoG2Ultra);
            }
            return Some(HardwareModel::NanoG2Ultra);
        }
        if value == 19 {
            proof {
                Self::lemma_with_value(value, HardwareModel::LoraType);
            }
            return Some(HardwareModel::LoraType);
        }
        if value == 20 {
            proof {
                Self::lemma_with_value(value, HardwareModel::Wiphone);
            }
            return Some(HardwareModel::Wiphone);
        }
        if value == 21 {
            proof {
                Self::lemma_with_value(value, HardwareModel::WioWm1110);
            }
            return Some(HardwareModel::WioWm1110);
        }
        if value == 22 {
            proof {
                Self::lemma_with_value(value, HardwareModel::Rak2560);
            }
            return Some(HardwareModel::Rak2560);
        }
        if value == 23 {
            proof {
                Self::lemma_with_value(value, HardwareModel::HeltecHru3601);
            }
            return Some(HardwareModel::HeltecHru3601);
        }
        if value == 24 {
            proof {
                Self::lemma_with_value(value, HardwareModel::HeltecWirelessBridge);
            }
            return Some(HardwareModel::HeltecWirelessBridge);
        }
        if value == 25 {
            proof {
                Self::lemma_with_value(value, HardwareModel::StationG1);
            }
            return Some(HardwareModel::StationG1);
        }
        if value == 26 {
            proof {
                Self::lemma_with_value(value, HardwareModel::Rak11310);
            }
            return Some(HardwareModel::Rak11310);
        }
        if value == 27 {
            proof {
                Self::lemma_with_value(value, HardwareModel::SenseloraRp2040);
            }
            return Some(HardwareModel::SenseloraRp2040);
        }
        if value == 28 {
            proof {
                Self::lemma_with_value(value, HardwareModel::SenseloraS3);
            }
            return Some(HardwareModel::SenseloraS3);
        }
        if value == 29 {
            proof {
                Self::lemma_with_value(value, HardwareModel::Canaryone);
            }
            return Some(HardwareModel::Canaryone);
        }
        if value == 30 {
            proof {
                Self::lemma_with_value(value, HardwareModel::Rp2040Lora);
            }
            return Some(HardwareModel::Rp2040Lora);
        }
        if value == 31 {
            proof {
                Self::lemma_with_value(value, HardwareModel::StationG2);
            }
            return Some(HardwareModel::StationG2);
        }
        if value == 32 {
            proof {
                Self::lemma_with_value(value, HardwareModel::LoraRelayV1);
            }
            return Some(HardwareModel::LoraRelayV1);
        }
        if value == 33 {
            proof {
                Self::lemma_with_value(value, HardwareModel::Nrf52840dk);
            }
            return Some(HardwareModel::Nrf52840dk);
        }
        if value == 34 {
            proof {
                Self::lemma_with_value(value, HardwareModel::Ppr);
            }
            return Some(HardwareModel::Ppr);
        }
        if value == 35 {
            proof {
                Self::lemma_with_value(value, HardwareModel::Genieblocks);
            }
            return Some(HardwareModel::Genieblocks);
        }
        if value == 36 {
            proof {
                Self::lemma_with_value(value, HardwareModel::Nrf52Unknown);
            }
            return Some(HardwareModel::Nrf52Unknown);
        }
        if value == 37 {
            proof {
                Self::lemma_with_value(value, HardwareModel::Portduino);
            }
            return Some(HardwareModel::Portduino);
        }
        if value == 38 {
            proof {
                Self::lemma_with_value(value, HardwareModel::AndroidSim);
            }
            return Some(HardwareModel::AndroidSim);
        }
        if value == 39 {
            proof {
                Self::lemma_with_value(value, HardwareModel::DiyV1);
            }
            return Some(HardwareModel::DiyV1);
        }
        if value == 40 {
            proof {
                Self::lemma_with_value(value, HardwareModel::Nrf52840Pca10059);
            }
            return Some(HardwareModel::Nrf52840Pca10059);
        }
        if value == 41 {
            proof {
                Self::lemma_with_value(value, HardwareModel::DrDev);
            }
            return Some(HardwareModel::DrDev);
        }
        if value == 42 {
            proof {
                Self::lemma_with_value(value, HardwareModel::M5stack);
            }
            return Some(HardwareModel::M5stack);
        }
        if value == 43 {
            proof {
                Self::lemma_with_value(value, HardwareModel::HeltecV3);
            }
            return Some(HardwareModel::HeltecV3);
        }
        if value == 44 {
            proof {
                Self::lemma_with_value(value, HardwareModel::HeltecWslV3);
            }
            return Some(HardwareModel::HeltecWslV3);
        }
        if value == 45 {
            proof {
                Self::lemma_with_value(value, HardwareModel::Betafpv2400Tx);
            }
            return Some(HardwareModel::Betafpv2400Tx);
        }
        if value == 46 {
            proof {
                Self::lemma_with_value(value, HardwareModel::Betafpv900NanoTx);
            }
            return Some(HardwareModel::Betafpv900NanoTx);
        }
        if value == 47 {
            proof {
                Self::lemma_with_value(value, HardwareModel::RpiPico);
            }
            return Some(HardwareModel::RpiPico);
        }
        if value == 48 {
            proof {
                Self::lemma_with_value(value, HardwareModel::HeltecWirelessTracker);
            }
            return Some(HardwareModel::HeltecWirelessTracker);
        }
        if value == 49 {
            proof {
                Self::lemma_with_value(value, HardwareModel::HeltecWirelessPaper);
            }
            return Some(HardwareModel::HeltecWirelessPaper);
        }
        if value == 50 {
            proof {
                Self::lemma_with_value(value, HardwareModel::TDeck);
            }
            return Some(HardwareModel::TDeck);
        }
        if value == 51 {
            proof {
                Self::lemma_with_value(value, HardwareModel::TWatchS3);
            }
            return Some(HardwareModel::TWatchS3);
        }
        if value == 52 {
            proof {
                Self::lemma_with_value(value, HardwareModel::PicomputerS3);
            }
            return Some(HardwareModel::PicomputerS3);
        }
        if value == 53 {
            proof {
                Self::lemma_with_value(value, HardwareModel::HeltecHt62);
            }
            return Some(HardwareModel::HeltecHt62);
        }
        if value == 54 {
            proof {
                Self::lemma_with_value(value, HardwareModel::EbyteEsp32S3);
            }
            return Some(HardwareModel::EbyteEsp32S3);
        }
        if value == 55 {
            proof {
                Self::lemma_with_value(value, HardwareModel::Esp32S3Pico);
            }
            return Some(HardwareModel::Esp32S3Pico);
        }
        if value == 56 {
            proof {
                Self::lemma_with_value(value, HardwareModel::Chatter2);
            }
            return Some(HardwareModel::Chatter2);
        }
        if value == 57 {
            proof {
                Self::lemma_with_value(value, HardwareModel::HeltecWirelessPaperV10);
            }
            return Some(HardwareModel::HeltecWirelessPaperV10);
        }
        if value == 58 {
            proof {
                Self::lemma_with_value(value, HardwareModel::HeltecWirelessTrackerV10);
            }
            return Some(HardwareModel::HeltecWirelessTrackerV10);
        }
        if value == 59 {
            proof {
                Self::lemma_with_value(value, HardwareModel::Unphone);
            }
            return Some(HardwareModel::Unphone);
        }
        if value == 60 {
            proof {
                Self::lemma_with_value(value, HardwareModel::TdLorac);
            }
            return Some(HardwareModel::TdLorac);
        }
        if value == 61 {
            proof {
                Self::lemma_with_value(value, HardwareModel::CdebyteEoraS3);
            }
            return Some(HardwareModel::CdebyteEoraS3);
        }
        if value == 62 {
            proof {
                Self::lemma_with_value(value, HardwareModel::TwcMeshV4);
            }
            return Some(HardwareModel::TwcMeshV4);
        }
        if value == 63 {
            proof {
                Self::lemma_with_value(value, HardwareModel::Nrf52PromicroDiy);
            }
            return Some(HardwareModel::Nrf52PromicroDiy);
        }
        if value == 64 {
            proof {
                Self::lemma_with_value(value, HardwareModel::Radiomaster900BanditNano);
            }
            return Some(HardwareModel::Radiomaster900BanditNano);
        }
        if value == 65 {
            proof {
                Self::lemma_with_value(value, HardwareModel::HeltecCapsuleSensorV3);
            }
            return Some(HardwareModel::HeltecCapsuleSensorV3);
        }
        if value == 66 {
            proof {
                Self::lemma_with_value(value, HardwareModel::HeltecVisionMasterT190);
            }
            return Some(HardwareModel::HeltecVisionMasterT190);
        }
        if value == 67 {
            proof {
                Self::lemma_with_value(value, HardwareModel::HeltecVisionMasterE213);
            }
            return Some(HardwareModel::HeltecVisionMasterE213);
        }
        if value == 68 {
            proof {
                Self::lemma_with_value(value, HardwareModel::HeltecVisionMasterE290);
            }
            return Some(HardwareModel::HeltecVisionMasterE290);
        }
        if value == 69 {
            proof {
                Self::lemma_with_value(value, HardwareModel::HeltecMeshNodeT114);
            }
            return Some(HardwareModel::HeltecMeshNodeT114);
        }
        if value == 70 {
            proof {
                Self::lemma_with_value(value, HardwareModel::SensecapIndicator);
            }
            return Some(HardwareModel::SensecapIndicator);
        }
        if value == 71 {
            proof {
                Self::lemma_with_value(value, HardwareModel::TrackerT1000E);
            }
            return Some(HardwareModel::TrackerT1000E);
        }
        if value == 72 {
            proof {
                Self::lemma_with_value(value, HardwareModel::Rak3172);
            }
            return Some(HardwareModel::Rak3172);
        }
        if value == 73 {
            proof {
                Self::lemma_with_value(value, HardwareModel::WioE5);
            }
            return Some(HardwareModel::WioE5);
        }
        if value == 74 {
            proof {
                Self::lemma_with_value(value, HardwareModel::Radiomaster900Bandit);
            }
            return Some(HardwareModel::Radiomaster900Bandit);
        }
        if value == 75 {
            proof {
                Self::lemma_with_value(value, HardwareModel::Me25ls014y10td);
            }
            return Some(HardwareModel::Me25ls014y10td);
        }
        if value == 76 {
            proof {
                Self::lemma_with_value(value, HardwareModel::Rp2040FeatherRfm95);
            }
            return Some(HardwareModel::Rp2040FeatherRfm95);
        }
        if value == 77 {
            proof {
                Self::lemma_with_value(value, HardwareModel::M5stackCorebasic);
            }
            return Some(HardwareModel::M5stackCorebasic);
        }
        if value == 78 {
            proof {
                Self::lemma_with_value(value, HardwareModel::M5stackCore2);
            }
            return Some(HardwareModel::M5stackCore2);
        }
        if value == 79 {
            proof {
                Self::lemma_with_value(value, HardwareModel::RpiPico2);
            }
            return Some(HardwareModel::RpiPico2);
        }
        if value == 80 {
            proof {
                Self::lemma_with_value(value, HardwareModel::M5stackCores3);
            }
            return Some(HardwareModel::M5stackCores3);
        }
        if value == 81 {
            proof {
                Self::lemma_with_value(value, HardwareModel::SeeedXiaoS3);
            }
            return Some(HardwareModel::SeeedXiaoS3);
        }
        if value == 82 {
            proof {
                Self::lemma_with_value(value, HardwareModel::Ms24sf1);
            }
            return Some(HardwareModel::Ms24sf1);
        }
        if value == 83 {
            proof {
                Self::lemma_with_value(value, HardwareModel::TloraC6);
            }
            return Some(HardwareModel::TloraC6);
        }
        if value == 84 {
            proof {
                Self::lemma_with_value(value, HardwareModel::WismeshTap);
            }
            return Some(HardwareModel::WismeshTap);
        }
        if value == 85 {
            proof {
                Self::lemma_with_value(value, HardwareModel::Routastic);
            }
            return Some(HardwareModel::Routastic);
        }
        if value == 86 {
            proof {
                Self::lemma_with_value(value, HardwareModel::MeshTab);
            }
            return Some(HardwareModel::MeshTab);
        }
        if value == 87 {
            proof {
                Self::lemma_with_value(value, HardwareModel::Meshlink);
            }
            return Some(HardwareModel::Meshlink);
        }
        if value == 255 {
            proof {
                Self::lemma_with_value(value, HardwareModel::PrivateHw);
            }
            return Some(HardwareModel::PrivateHw);
        }
        None
    }
}

impl Default for HardwareModel {
    /// The variant numbered 0, the default value of the field in ProtoBuf.
    fn default() -> (r: Self)
        ensures
            r == Self::default_variant(),
            r.value() == 0,
    {
        HardwareModel::Unset
    }
}

impl From<HardwareModel> for i32 {
    fn from(value: HardwareModel) -> (r: i32) {
        match value {
            HardwareModel::Unset => 0,
            HardwareModel::TloraV2 => 1,
            HardwareModel::TloraV1 => 2,
            HardwareModel::TloraV211p6 => 3,
            HardwareModel::Tbeam => 4,
            HardwareModel::HeltecV20 => 5,
            HardwareModel::TbeamV0p7 => 6,
            HardwareModel::TEcho => 7,
            HardwareModel::TloraV11p3 => 8,
            HardwareModel::Rak4631 => 9,
            HardwareModel::HeltecV21 => 10,
            HardwareModel::HeltecV1 => 11,
            HardwareModel::LilygoTbeamS3Core => 12,
            HardwareModel::Rak11200 => 13,
            HardwareModel::NanoG1 => 14,
            HardwareModel::TloraV211p8 => 15,
            HardwareModel::TloraT3S3 => 16,
            HardwareModel::NanoG1Explorer => 17,
            HardwareModel::NanoG2Ultra => 18,
            HardwareModel::LoraType => 19,
            HardwareModel::Wiphone => 20,
            HardwareModel::WioWm1110 => 21,
            HardwareModel::Rak2560 => 22,
            HardwareModel::HeltecHru3601 => 23,
            HardwareModel::HeltecWirelessBridge => 24,
            HardwareModel::StationG1 => 25,
            HardwareModel::Rak11310 => 26,
            HardwareModel::SenseloraRp2040 => 27,
            HardwareModel::SenseloraS3 => 28,
            HardwareModel::Canaryone => 29,
            HardwareModel::Rp2040Lora => 30,
            HardwareModel::StationG2 => 31,
            HardwareModel::LoraRelayV1 => 32,
            HardwareModel::Nrf52840dk => 33,
            HardwareModel::Ppr => 34,
            HardwareModel::Genieblocks => 35,
            HardwareModel::Nrf52Unknown => 36,
            HardwareModel::Portduino => 37,
            HardwareModel::AndroidSim => 38,
            HardwareModel::DiyV1 => 39,
            HardwareModel::Nrf52840Pca10059 => 40,
            HardwareModel::DrDev => 41,
            HardwareModel::M5stack => 42,
            HardwareModel::HeltecV3 => 43,
            HardwareModel::HeltecWslV3 => 44,
            HardwareModel::Betafpv2400Tx => 45,
            HardwareModel::Betafpv900NanoTx => 46,
            HardwareModel::RpiPico => 47,
            HardwareModel::HeltecWirelessTracker => 48,
            HardwareModel::HeltecWirelessPaper => 49,
            HardwareModel::TDeck => 50,
            HardwareModel::TWatchS3 => 51,
            HardwareModel::PicomputerS3 => 52,
            HardwareModel::HeltecHt62 => 53,
            HardwareModel::EbyteEsp32S3 => 54,
            HardwareModel::Esp32S3Pico => 55,
            HardwareModel::Chatter2 => 56,
            HardwareModel::HeltecWirelessPaperV10 => 57,
            HardwareModel::HeltecWirelessTrackerV10 => 58,
            HardwareModel::Unphone => 59,
            HardwareModel::TdLorac => 60,
            HardwareModel::CdebyteEoraS3 => 61,
            HardwareModel::TwcMeshV4 => 62,
            HardwareModel::Nrf52PromicroDiy => 63,
            HardwareModel::Radiomaster900BanditNano => 64,
            HardwareModel::HeltecCapsuleSensorV3 => 65,
            HardwareModel::HeltecVisionMasterT190 => 66,
            HardwareModel::HeltecVisionMasterE213 => 67,
            HardwareModel::HeltecVisionMasterE290 => 68,
            HardwareModel::HeltecMeshNodeT114 => 69,
            HardwareModel::SensecapIndicator => 70,
            HardwareModel::TrackerT1000E => 71,
            HardwareModel::Rak3172 => 72,
            HardwareModel::WioE5 => 73,
            HardwareModel::Radiomaster900Bandit => 74,
            HardwareModel::Me25ls014y10td => 75,
            HardwareModel::Rp2040FeatherRfm95 => 76,
            HardwareModel::M5stackCorebasic => 77,
            HardwareModel::M5stackCore2 => 78,
            HardwareModel::RpiPico2 => 79,
            HardwareModel::M5stackCores3 => 80,
            HardwareModel::SeeedXiaoS3 => 81,
            HardwareModel::Ms24sf1 => 82,
            HardwareModel::TloraC6 => 83,
            HardwareModel::WismeshTap => 84,
            HardwareModel::Routastic => 85,
            HardwareModel::MeshTab => 86,
            HardwareModel::Meshlink => 87,
            HardwareModel::PrivateHw => 255,
        }
    }
}

impl TryFrom<i32> for HardwareModel {
    type Error = prost::UnknownEnumValue;

    fn try_from(value: i32) -> (r: Result<HardwareModel, prost::UnknownEnumValue>)
        ensures
            r matches Ok(e) ==> e.value() == value,
            (exists|e: HardwareModel| #[trigger] e.value() == value) ==> r is Ok,
            r is Err ==> r == Err::<HardwareModel, prost::UnknownEnumValue>(crate::enum_error::unknown_enum_value(value)),
    {
        proof {
            if exists|e: HardwareModel| #[trigger] e.value() == value {
                let e = choose|e: HardwareModel| #[trigger] e.value() == value;
                HardwareModel::lemma_with_value(value, e);
            }
        }
        match HardwareModel::from_i32(value) {
            Some(e) => Ok(e),
            None => Err(make_unknown_enum_value(value)),
        }
    }
}

impl vstd::std_specs::convert::TryFromSpecImpl<i32> for HardwareModel {
    open spec fn obeys_try_from_spec() -> bool {
        true
    }

    open spec fn try_from_spec(value: i32) -> Result<HardwareModel, prost::UnknownEnumValue> {
        match HardwareModel::with_value(value) {
            Some(e) => Ok(e),
            None => Err(crate::enum_error::unknown_enum_value(value)),
        }
    }
}

impl vstd::std_specs::convert::FromSpecImpl<HardwareModel> for i32 {
    open spec fn obeys_from_spec() -> bool {
        true
    }

    open spec fn from_spec(value: HardwareModel) -> i32 {
        value.value()
    }
}

/// Shared constants between device and phone
#[derive(Clone, Copy, Debug, PartialEq, Eq, Hash, PartialOrd, Ord)]
pub enum Constants {
    /// First enum must be zero, and we are just using this enum to
    /// pass int constants between two very different environments
    Zero,
    /// From mesh.options
    /// note: this payload length is ONLY the bytes that are sent inside of the Data protobuf (excluding protobuf overhead). The 16 byte header is
    /// outside of this envelope
    DataPayloadLen,
}

impl Constants {
    /// The name of this variant in the ProtoBuf definition.
    pub open spec fn str_name(self) -> Seq<char> {
        match self {
            Constants::Zero => "ZERO"@,
            Constants::DataPayloadLen => "DATA_PAYLOAD_LEN"@,
        }
    }

    /// The number of this variant in the ProtoBuf definition.
    pub open spec fn value(self) -> i32 {
        match self {
            Constants::Zero => 0,
            Constants::DataPayloadLen => 233,
        }
    }

    /// The variant numbered 0, which a field holds when it is not set.
    pub open spec fn default_variant() -> Self {
        Constants::Zero
    }

    /// The variant numbered `value`, or the default variant when no variant has that number:
    /// what a message field holding `value` reads as.
    pub open spec fn from_number_or_default(value: i32) -> Self {
        match Self::with_value(value) {
            Some(e) => e,
            None => Self::default_variant(),
        }
    }

    /// The variant whose ProtoBuf name is `name`, if there is one.
    pub open spec fn named(name: Seq<char>) -> Option<Self> {
        if exists|e: Self| #[trigger] e.str_name() == name {
            Some(choose|e: Self| #[trigger] e.str_name() == name)
        } else {
            None
        }
    }

    /// The variant whose ProtoBuf number is `value`, if there is one.
    pub open spec fn with_value(value: i32) -> Option<Self> {
        if exists|e: Self| #[trigger] e.value() == value {
            Some(choose|e: Self| #[trigger] e.value() == value)
        } else {
            None
        }
    }

    spec fn name_lookup(name: Seq<char>) -> Option<Self> {
        if name == "ZERO"@ {
            Some(Constants::Zero)
        } else if name == "DATA_PAYLOAD_LEN"@ {
            Some(Constants::DataPayloadLen)
        } else {
            None
        }
    }

    spec fn value_lookup(value: i32) -> Option<Self> {
        if value == 0 {
            Some(Constants::Zero)
        } else if value == 233 {
            Some(Constants::DataPayloadLen)
        } else {
            None
        }
    }

    proof fn lemma_lookups()
        ensures
            forall|e: Self| #[trigger] Self::name_lookup(e.str_name()) == Some(e),
            forall|e: Self| #[trigger] Self::value_lookup(e.value()) == Some(e),
    {
        reveal_strlit("ZERO");
        assert("ZERO"@.len() == 4);
        reveal_strlit("DATA_PAYLOAD_LEN");
        assert("DATA_PAYLOAD_LEN"@.len() == 16);
    }

    /// Distinct variants have distinct ProtoBuf names and distinct ProtoBuf numbers.
    pub proof fn lemma_injective(a: Self, b: Self)
        ensures
            a.str_name() == b.str_name() ==> a == b,
            a.value() == b.value() ==> a == b,
    {
        Self::lemma_lookups();
        assert(Self::name_lookup(a.str_name()) == Some(a));
        assert(Self::name_lookup(b.str_name()) == Some(b));
        assert(Self::value_lookup(a.value()) == Some(a));
        assert(Self::value_lookup(b.value()) == Some(b));
    }

    /// A name denotes a variant exactly when it is that variant's ProtoBuf name:
    /// `from_str_name` undoes `as_str_name`, and accepts nothing else.
    pub proof fn lemma_named(name: Seq<char>, e: Self)
        ensures
            Self::named(name) == Some(e) <==> e.str_name() == name,
    {
        if e.str_name() == name {
            let x = choose|x: Self| #[trigger] x.str_name() == name;
            Self::lemma_injective(x, e);
        }
    }

    /// A number denotes a variant exactly when it is that variant's ProtoBuf number:
    /// `from_i32` undoes the conversion to `i32`, and accepts nothing else.
    pub proof fn lemma_with_value(value: i32, e: Self)
        ensures
            Self::with_value(value) == Some(e) <==> e.value() == value,
    {
        if e.value() == value {
            let x = choose|x: Self| #[trigger] x.value() == value;
            Self::lemma_injective(x, e);
        }
    }

    /// What a field holding `value` reads as: the variant numbered `value` when some variant
    /// has that number, and otherwise the variant numbered 0.
    pub proof fn lemma_number_or_default(value: i32)
        ensures
            (exists|e: Self| #[trigger] e.value() == value) ==> Self::from_number_or_default(value).value() == value,
            (forall|e: Self| #[trigger] e.value() != value) ==> Self::from_number_or_default(value).value() == 0,
            (forall|e: Self| #[trigger] e.value() != value) ==> Self::from_number_or_default(value) == Self::default_variant(),
            Self::default_variant().value() == 0,
    {
        if exists|e: Self| #[trigger] e.value() == value {
            let e = choose|e: Self| #[trigger] e.value() == value;
            Self::lemma_with_value(value, e);
        }
    }

    /// `try_from` accepts exactly the numbers that variants have and gives back the variant with
    /// that number; every other number it rejects with the error that records that number.
    pub proof fn lemma_try_from(value: i32, e: Self)
        ensures
            (<Self as vstd::std_specs::convert::TryFromSpec<i32>>::try_from_spec(value) == Ok::<Self, prost::UnknownEnumValue>(e)) <==> e.value() == value,
            (forall|x: Self| #[trigger] x.value() != value) ==> <Self as vstd::std_specs::convert::TryFromSpec<i32>>::try_from_spec(value) == Err::<Self, prost::UnknownEnumValue>(crate::enum_error::unknown_enum_value(value)),
            (exists|x: Self| #[trigger] x.value() == value) ==> <Self as vstd::std_specs::convert::TryFromSpec<i32>>::try_from_spec(value) is Ok,
    {
        Self::lemma_with_value(value, e);
        if exists|x: Self| #[trigger] x.value() == value {
            let x = choose|x: Self| #[trigger] x.value() == value;
            Self::lemma_with_value(value, x);
        }
    }

    /// Reading back the number of a variant gives that variant: a field set to `e` reads as `e`.
    pub proof fn lemma_read_after_write(e: Self)
        ensures
            Self::from_number_or_default(e.value()) == e,
    {
        Self::lemma_with_value(e.value(), e);
    }

    /// String value of the enum field names used in the ProtoBuf definition.
    ///
    /// The values are not transformed in any way and thus are considered stable
    /// (if the ProtoBuf definition does not change) and safe for programmatic use.
    pub fn as_str_name(&self) -> (name: &'static str)
        ensures
            name@ == self.str_name(),
    {
        match self {
            Constants::Zero => "ZERO",
            Constants::DataPayloadLen => "DATA_PAYLOAD_LEN",
        }
    }

    /// Creates an enum from field names used in the ProtoBuf definition.
    pub fn from_str_name(value: &str) -> (r: Option<Self>)
        ensures
            r == Self::named(value@),
    {
        if str_eq(value, "ZERO") {
            proof {
                Self::lemma_named(value@, Constants::Zero);
            }
            return Some(Constants::Zero);
        }
        if str_eq(value, "DATA_PAYLOAD_LEN") {
            proof {
                Self::lemma_named(value@, Constants::DataPayloadLen);
            }
            return Some(Constants::DataPayloadLen);
        }
        None
    }

    /// Returns `true` if `value` is a variant of `Constants`.
    pub fn is_valid(value: i32) -> (r: bool)
        ensures
            r == (Self::with_value(value) is Some),
    {
        Self::from_i32(value).is_some()
    }

    /// Converts an `i32` to a `Constants`, or `None` if `value` is not a valid variant.
    pub fn from_i32(value: i32) -> (r: Option<Self>)
        ensures
            r == Self::with_value(value),
    {
        if value == 0 {
            proof {
                Self::lemma_with_value(value, Constants::Zero);
            }
            return Some(Constants::Zero);
        }
        if value == 233 {
            proof {
                Self::lemma_with_value(value, Constants::DataPayloadLen);
            }
            return Some(Constants::DataPayloadLen);
        }
        None
    }
}

impl Default for Constants {
    /// The variant numbered 0, the default value of the field in ProtoBuf.
    fn default() -> (r: Self)
        ensures
            r == Self::default_variant(),
            r.value() == 0,
    {
        Constants::Zero
    }
}

impl From<Constants> for i32 {
    fn from(value: Constants) -> (r: i32) {
        match value {
            Constants::Zero => 0,
            Constants::DataPayloadLen => 233,
        }
    }
}

impl TryFrom<i32> for Constants {
    type Error = prost::UnknownEnumValue;

    fn try_from(value: i32) -> (r: Result<Constants, prost::UnknownEnumValue>)
        ensures
            r matches Ok(e) ==> e.value() == value,
            (exists|e: Constants| #[trigger] e.value() == value) ==> r is Ok,
            r is Err ==> r == Err::<Constants, prost::UnknownEnumValue>(crate::enum_error::unknown_enum_value(value)),
    {
        proof {
            if exists|e: Constants| #[trigger] e.value() == value {
                let e = choose|e: Constants| #[trigger] e.value() == value;
                Constants::lemma_with_value(value, e);
            }
        }
        match Constants::from_i32(value) {
            Some(e) => Ok(e),
            None => Err(make_unknown_enum_value(value)),
        }
    }
}

impl vstd::std_specs::convert::TryFromSpecImpl<i32> for Constants {
    open spec fn obeys_try_from_spec() -> bool {
        true
    }

    open spec fn try_from_spec(value: i32) -> Result<Constants, prost::UnknownEnumValue> {
        match Constants::with_value(value) {
            Some(e) => Ok(e),
            None => Err(crate::enum_error::unknown_enum_value(value)),
        }
    }
}

impl vstd::std_specs::convert::FromSpecImpl<Constants> for i32 {
    open spec fn obeys_from_spec() -> bool {
        true
    }

    open spec fn from_spec(value: Constants) -> i32 {
        value.value()
    }
}

/// Error codes for critical errors
/// The device might report these fault codes on the screen.
/// If you encounter a fault code, please post on the meshtastic.discourse.group
/// and we'll try to help.
#[derive(Clone, Copy, Debug, PartialEq, Eq, Hash, PartialOrd, Ord)]
pub enum CriticalErrorCode {
    NoneValue,
    /// A software bug was detected while trying to send lora
    TxWatchdog,
    /// A software bug was detected on entry to sleep
    SleepEnterWait,
    /// No Lora radio hardware could be found
    NoRadio,
    /// Not normally used
    Unspecified,
    /// We failed while configuring a UBlox GPS
    UbloxUnitFailed,
    /// This board was expected to have a power management chip and it is missing or broken
    NoAxp192,
    /// The channel tried to set a radio setting which is not supported by this chipset,
    /// radio comms settings are now undefined.
    InvalidRadioSetting,
    /// Radio transmit hardware failure. We sent data to the radio chip, but it didn't
    /// reply with an interrupt.
    TransmitFailed,
    /// We detected that the main CPU voltage dropped below the minimum acceptable value
    Brownout,
    /// Selftest of SX1262 radio chip failed
    Sx1262Failure,
    /// A (likely software but possibly hardware) failure was detected while trying to send packets.
    /// If this occurs on your board, please post in the forum so that we can ask you to collect some information to allow fixing this bug
    RadioSpiBug,
    /// Corruption was detected on the flash filesystem but we were able to repair things.
    /// If you see this failure in the field please post in the forum because we are interested in seeing if this is occurring in the field.
    FlashCorruptionRecoverable,
    /// Corruption was detected on the flash filesystem but we were unable to repair things.
    /// NOTE: Your node will probably need to be reconfigured the next time it reboots (it will lose the region code etc...)
    /// If you see this failure in the field please post in the forum because we are interested in seeing if this is occurring in the field.
    FlashCorruptionUnrecoverable,
}

impl CriticalErrorCode {
    /// The name of this variant in the ProtoBuf definition.
    pub open spec fn str_name(self) -> Seq<char> {
        match self {
            CriticalErrorCode::NoneValue => "NONE"@,
            CriticalErrorCode::TxWatchdog => "TX_WATCHDOG"@,
            CriticalErrorCode::SleepEnterWait => "SLEEP_ENTER_WAIT"@,
            CriticalErrorCode::NoRadio => "NO_RADIO"@,
            CriticalErrorCode::Unspecified => "UNSPECIFIED"@,
            CriticalErrorCode::UbloxUnitFailed => "UBLOX_UNIT_FAILED"@,
            CriticalErrorCode::NoAxp192 => "NO_AXP192"@,
            CriticalErrorCode::InvalidRadioSetting => "INVALID_RADIO_SETTING"@,
            CriticalErrorCode::TransmitFailed => "TRANSMIT_FAILED"@,
            CriticalErrorCode::Brownout => "BROWNOUT"@,
            CriticalErrorCode::Sx1262Failure => "SX1262_FAILURE"@,
            CriticalErrorCode::RadioSpiBug => "RADIO_SPI_BUG"@,
            CriticalErrorCode::FlashCorruptionRecoverable => "FLASH_CORRUPTION_RECOVERABLE"@,
            CriticalErrorCode::FlashCorruptionUnrecoverable => "FLASH_CORRUPTION_UNRECOVERABLE"@,
        }
    }

    /// The number of this variant in the ProtoBuf definition.
    pub open spec fn value(self) -> i32 {
        match self {
            CriticalErrorCode::NoneValue => 0,
            CriticalErrorCode::TxWatchdog => 1,
            CriticalErrorCode::SleepEnterWait => 2,
            CriticalErrorCode::NoRadio => 3,
            CriticalErrorCode::Unspecified => 4,
            CriticalErrorCode::UbloxUnitFailed => 5,
            CriticalErrorCode::NoAxp192 => 6,
            CriticalErrorCode::InvalidRadioSetting => 7,
            CriticalErrorCode::TransmitFailed => 8,
            CriticalErrorCode::Brownout => 9,
            CriticalErrorCode::Sx1262Failure => 10,
            CriticalErrorCode::RadioSpiBug => 11,
            CriticalErrorCode::FlashCorruptionRecoverable => 12,
            CriticalErrorCode::FlashCorruptionUnrecoverable => 13,
        }
    }

    /// The variant numbered 0, which a field holds when it is not set.
    pub open spec fn default_variant() -> Self {
        CriticalErrorCode::NoneValue
    }

    /// The variant numbered `value`, or the default variant when no variant has that number:
    /// what a message field holding `value` reads as.
    pub open spec fn from_number_or_default(value: i32) -> Self {
        match Self::with_value(value) {
            Some(e) => e,
            None => Self::default_variant(),
        }
    }

    /// The variant whose ProtoBuf name is `name`, if there is one.
    pub open spec fn named(name: Seq<char>) -> Option<Self> {
        if exists|e: Self| #[trigger] e.str_name() == name {
            Some(choose|e: Self| #[trigger] e.str_name() == name)
        } else {
            None
        }
    }

    /// The variant whose ProtoBuf number is `value`, if there is one.
    pub open spec fn with_value(value: i32) -> Option<Self> {
        if exists|e: Self| #[trigger] e.value() == value {
            Some(choose|e: Self| #[trigger] e.value() == value)
        } else {
            None
        }
    }

    spec fn name_lookup(name: Seq<char>) -> Option<Self> {
        if name == "NONE"@ {
            Some(CriticalErrorCode::NoneValue)
        } else if name == "TX_WATCHDOG"@ {
            Some(CriticalErrorCode::TxWatchdog)
        } else if name == "SLEEP_ENTER_WAIT"@ {
            Some(CriticalErrorCode::SleepEnterWait)
        } else if name == "NO_RADIO"@ {
            Some(CriticalErrorCode::NoRadio)
        } else if name == "UNSPECIFIED"@ {
            Some(CriticalErrorCode::Unspecified)
        } else if name == "UBLOX_UNIT_FAILED"@ {
            Some(CriticalErrorCode::UbloxUnitFailed)
        } else if name == "NO_AXP192"@ {
            Some(CriticalErrorCode::NoAxp192)
        } else if name == "INVALID_RADIO_SETTING"@ {
            Some(CriticalErrorCode::InvalidRadioSetting)
        } else if name == "TRANSMIT_FAILED"@ {
            Some(CriticalErrorCode::TransmitFailed)
        } else if name == "BROWNOUT"@ {
            Some(CriticalErrorCode::Brownout)
        } else if name == "SX1262_FAILURE"@ {
            Some(CriticalErrorCode::Sx1262Failure)
        } else if name == "RADIO_SPI_BUG"@ {
            Some(CriticalErrorCode::RadioSpiBug)
        } else if name == "FLASH_CORRUPTION_RECOVERABLE"@ {
            Some(CriticalErrorCode::FlashCorruptionRecoverable)
        } else if name == "FLASH_CORRUPTION_UNRECOVERABLE"@ {
            Some(CriticalErrorCode::FlashCorruptionUnrecoverable)
        } else {
            None
        }
    }

    spec fn value_lookup(value: i32) -> Option<Self> {
        if value == 0 {
            Some(CriticalErrorCode::NoneValue)
        } else if value == 1 {
            Some(CriticalErrorCode::TxWatchdog)
        } else if value == 2 {
            Some(CriticalErrorCode::SleepEnterWait)
        } else if value == 3 {
            Some(CriticalErrorCode::NoRadio)
        } else if value == 4 {
            Some(CriticalErrorCode::Unspecified)
        } else if value == 5 {
            Some(CriticalErrorCode::UbloxUnitFailed)
        } else if value == 6 {
            Some(CriticalErrorCode::NoAxp192)
        } else if value == 7 {
            Some(CriticalErrorCode::InvalidRadioSetting)
        } else if value == 8 {
            Some(CriticalErrorCode::TransmitFailed)
        } else if value == 9 {
            Some(CriticalErrorCode::Brownout)
        } else if value == 10 {
            Some(CriticalErrorCode::Sx1262Failure)
        } else if value == 11 {
            Some(CriticalErrorCode::RadioSpiBug)
        } else if value == 12 {
            Some(CriticalErrorCode::FlashCorruptionRecoverable)
        } else if value == 13 {
            Some(CriticalErrorCode::FlashCorruptionUnrecoverable)
        } else {
            None
        }
    }

    proof fn lemma_lookups()
        ensures
            forall|e: Self| #[trigger] Self::name_lookup(e.str_name()) == Some(e),
            forall|e: Self| #[trigger] Self::value_lookup(e.value()) == Some(e),
    {
        reveal_strlit("NONE");
        assert("NONE"@.len() == 4);
        reveal_strlit("TX_WATCHDOG");
        assert("TX_WATCHDOG"@.len() == 11);
        assert("TX_WATCHDOG"@[0] == 'T');
        reveal_strlit("SLEEP_ENTER_WAIT");
        assert("SLEEP_ENTER_WAIT"@.len() == 16);
        reveal_strlit("NO_RADIO");
        assert("NO_RADIO"@.len() == 8);
        assert("NO_RADIO"@[0] == 'N');
        reveal_strlit("UNSPECIFIED");
        assert("UNSPECIFIED"@.len() == 11);
        assert("UNSPECIFIED"@[0] == 'U');
        reveal_strlit("UBLOX_UNIT_FAILED");
        assert("UBLOX_UNIT_FAILED"@.len() == 17);
        reveal_strlit("NO_AXP192");
        assert("NO_AXP192"@.len() == 9);
        reveal_strlit("INVALID_RADIO_SETTING");
        assert("INVALID_RADIO_SETTING"@.len() == 21);
        reveal_strlit("TRANSMIT_FAILED");
        assert("TRANSMIT_FAILED"@.len() == 15);
        reveal_strlit("BROWNOUT");
        assert("BROWNOUT"@.len() == 8);
        assert("BROWNOUT"@[0] == 'B');
        reveal_strlit("SX1262_FAILURE");
        assert("SX1262_FAILURE"@.len() == 14);
        reveal_strlit("RADIO_SPI_BUG");
        assert("RADIO_SPI_BUG"@.len() == 13);
        reveal_strlit("FLASH_CORRUPTION_RECOVERABLE");
        assert("FLASH_CORRUPTION_RECOVERABLE"@.len() == 28);
        reveal_strlit("FLASH_CORRUPTION_UNRECOVERABLE");
        assert("FLASH_CORRUPTION_UNRECOVERABLE"@.len() == 30);
    }

    /// Distinct variants have distinct ProtoBuf names and distinct ProtoBuf numbers.
    pub proof fn lemma_injective(a: Self, b: Self)
        ensures
            a.str_name() == b.str_name() ==> a == b,
            a.value() == b.value() ==> a == b,
    {
        Self::lemma_lookups();
        assert(Self::name_lookup(a.str_name()) == Some(a));
        assert(Self::name_lookup(b.str_name()) == Some(b));
        assert(Self::value_lookup(a.value()) == Some(a));
        assert(Self::value_lookup(b.value()) == Some(b));
    }

    /// A name denotes a variant exactly when it is that variant's ProtoBuf name:
    /// `from_str_name` undoes `as_str_name`, and accepts nothing else.
    pub proof fn lemma_named(name: Seq<char>, e: Self)
        ensures
            Self::named(name) == Some(e) <==> e.str_name() == name,
    {
        if e.str_name() == name {
            let x = choose|x: Self| #[trigger] x.str_name() == name;
            Self::lemma_injective(x, e);
        }
    }

    /// A number denotes a variant exactly when it is that variant's ProtoBuf number:
    /// `from_i32` undoes the conversion to `i32`, and accepts nothing else.
    pub proof fn lemma_with_value(value: i32, e: Self)
        ensures
            Self::with_value(value) == Some(e) <==> e.value() == value,
    {
        if e.value() == value {
            let x = choose|x: Self| #[trigger] x.value() == value;
            Self::lemma_injective(x, e);
        }
    }

    /// What a field holding `value` reads as: the variant numbered `value` when some variant
    /// has that number, and otherwise the variant numbered 0.
    pub proof fn lemma_number_or_default(value: i32)
        ensures
            (exists|e: Self| #[trigger] e.value() == value) ==> Self::from_number_or_default(value).value() == value,
            (forall|e: Self| #[trigger] e.value() != value) ==> Self::from_number_or_default(value).value() == 0,
            (forall|e: Self| #[trigger] e.value() != value) ==> Self::from_number_or_default(value) == Self::default_variant(),
            Self::default_variant().value() == 0,
    {
        if exists|e: Self| #[trigger] e.value() == value {
            let e = choose|e: Self| #[trigger] e.value() == value;
            Self::lemma_with_value(value, e);
        }
    }

    /// `try_from` accepts exactly the numbers that variants have and gives back the variant with
    /// that number; every other number it rejects with the error that records that number.
    pub proof fn lemma_try_from(value: i32, e: Self)
        ensures
            (<Self as vstd::std_specs::convert::TryFromSpec<i32>>::try_from_spec(value) == Ok::<Self, prost::UnknownEnumValue>(e)) <==> e.value() == value,
            (forall|x: Self| #[trigger] x.value() != value) ==> <Self as vstd::std_specs::convert::TryFromSpec<i32>>::try_from_spec(value) == Err::<Self, prost::UnknownEnumValue>(crate::enum_error::unknown_enum_value(value)),
            (exists|x: Self| #[trigger] x.value() == value) ==> <Self as vstd::std_specs::convert::TryFromSpec<i32>>::try_from_spec(value) is Ok,
    {
        Self::lemma_with_value(value, e);
        if exists|x: Self| #[trigger] x.value() == value {
            let x = choose|x: Self| #[trigger] x.value() == value;
            Self::lemma_with_value(value, x);
        }
    }

    /// Reading back the number of a variant gives that variant: a field set to `e` reads as `e`.
    pub proof fn lemma_read_after_write(e: Self)
        ensures
            Self::from_number_or_default(e.value()) == e,
    {
        Self::lemma_with_value(e.value(), e);
    }

    /// String value of the enum field names used in the ProtoBuf definition.
    ///
    /// The values are not transformed in any way and thus are considered stable
    /// (if the ProtoBuf definition does not change) and safe for programmatic use.
    pub fn as_str_name(&self) -> (name: &'static str)
        ensures
            name@ == self.str_name(),
    {
        match self {
            CriticalErrorCode::NoneValue => "NONE",
            CriticalErrorCode::TxWatchdog => "TX_WATCHDOG",
            CriticalErrorCode::SleepEnterWait => "SLEEP_ENTER_WAIT",
            CriticalErrorCode::NoRadio => "NO_RADIO",
            CriticalErrorCode::Unspecified => "UNSPECIFIED",
            CriticalErrorCode::UbloxUnitFailed => "UBLOX_UNIT_FAILED",
            CriticalErrorCode::NoAxp192 => "NO_AXP192",
            CriticalErrorCode::InvalidRadioSetting => "INVALID_RADIO_SETTING",
            CriticalErrorCode::TransmitFailed => "TRANSMIT_FAILED",
            CriticalErrorCode::Brownout => "BROWNOUT",
            CriticalErrorCode::Sx1262Failure => "SX1262_FAILURE",
            CriticalErrorCode::RadioSpiBug => "RADIO_SPI_BUG",
            CriticalErrorCode::FlashCorruptionRecoverable => "FLASH_CORRUPTION_RECOVERABLE",
            CriticalErrorCode::FlashCorruptionUnrecoverable => "FLASH_CORRUPTION_UNRECOVERABLE",
        }
    }

    /// Creates an enum from field names used in the ProtoBuf definition.
    pub fn from_str_name(value: &str) -> (r: Option<Self>)
        ensures
            r == Self::named(value@),
    {
        if str_eq(value, "NONE") {
            proof {
                Self::lemma_named(value@, CriticalErrorCode::NoneValue);
            }
            return Some(CriticalErrorCode::NoneValue);
        }
        if str_eq(value, "TX_WATCHDOG") {
            proof {
                Self::lemma_named(value@, CriticalErrorCode::TxWatchdog);
            }
            return Some(CriticalErrorCode::TxWatchdog);
        }
        if str_eq(value, "SLEEP_ENTER_WAIT") {
            proof {
                Self::lemma_named(value@, CriticalErrorCode::SleepEnterWait);
            }
            return Some(CriticalErrorCode::SleepEnterWait);
        }
        if str_eq(value, "NO_RADIO") {
            proof {
                Self::lemma_named(value@, CriticalErrorCode::NoRadio);
            }
            return Some(CriticalErrorCode::NoRadio);
        }
        if str_eq(value, "UNSPECIFIED") {
            proof {
                Self::lemma_named(value@, CriticalErrorCode::Unspecified);
            }
            return Some(CriticalErrorCode::Unspecified);
        }
        if str_eq(value, "UBLOX_UNIT_FAILED") {
            proof {
                Self::lemma_named(value@, CriticalErrorCode::UbloxUnitFailed);
            }
            return Some(CriticalErrorCode::UbloxUnitFailed);
        }
        if str_eq(value, "NO_AXP192") {
            proof {
                Self::lemma_named(value@, CriticalErrorCode::NoAxp192);
            }
            return Some(CriticalErrorCode::NoAxp192);
        }
        if str_eq(value, "INVALID_RADIO_SETTING") {
            proof {
                Self::lemma_named(value@, CriticalErrorCode::InvalidRadioSetting);
            }
            return Some(CriticalErrorCode::InvalidRadioSetting);
        }
        if str_eq(value, "TRANSMIT_FAILED") {
            proof {
                Self::lemma_named(value@, CriticalErrorCode::TransmitFailed);
            }
            return Some(CriticalErrorCode::TransmitFailed);
        }
        if str_eq(value, "BROWNOUT") {
            proof {
                Self::lemma_named(value@, CriticalErrorCode::Brownout);
            }
            return Some(CriticalErrorCode::Brownout);
        }
        if str_eq(value, "SX1262_FAILURE") {
            proof {
                Self::lemma_named(value@, CriticalErrorCode::Sx1262Failure);
            }
            return Some(CriticalErrorCode::Sx1262Failure);
        }
        if str_eq(value, "RADIO_SPI_BUG") {
            proof {
                Self::lemma_named(value@, CriticalErrorCode::RadioSpiBug);
            }
            return Some(CriticalErrorCode::RadioSpiBug);
        }
        if str_eq(value, "FLASH_CORRUPTION_RECOVERABLE") {
            proof {
                Self::lemma_named(value@, CriticalErrorCode::FlashCorruptionRecoverable);
            }
            return Some(CriticalErrorCode::FlashCorruptionRecoverable);
        }
        if str_eq(value, "FLASH_CORRUPTION_UNRECOVERABLE") {
            proof {
                Self::lemma_named(value@, CriticalErrorCode::FlashCorruptionUnrecoverable);
            }
            return Some(CriticalErrorCode::FlashCorruptionUnrecoverable);
        }
        None
    }

    /// Returns `true` if `value` is a variant of `CriticalErrorCode`.
    pub fn is_valid(value: i32) -> (r: bool)
        ensures
            r == (Self::with_value(value) is Some),
    {
        Self::from_i32(value).is_some()
    }

    /// Converts an `i32` to a `CriticalErrorCode`, or `None` if `value` is not a valid variant.
    pub fn from_i32(value: i32) -> (r: Option<Self>)
        ensures
            r == Self::with_value(value),
    {
        if value == 0 {
            proof {
                Self::lemma_with_value(value, CriticalErrorCode::NoneValue);
            }
            return Some(CriticalErrorCode::NoneValue);
        }
        if value == 1 {
            proof {
                Self::lemma_with_value(value, CriticalErrorCode::TxWatchdog);
            }
            return Some(CriticalErrorCode::TxWatchdog);
        }
        if value == 2 {
            proof {
                Self::lemma_with_value(value, CriticalErrorCode::SleepEnterWait);
            }
            return Some(CriticalErrorCode::SleepEnterWait);
        }
        if value == 3 {
            proof {
                Self::lemma_with_value(value, CriticalErrorCode::NoRadio);
            }
            return Some(CriticalErrorCode::NoRadio);
        }
        if value == 4 {
            proof {
                Self::lemma_with_value(value, CriticalErrorCode::Unspecified);
            }
            return Some(CriticalErrorCode::Unspecified);
        }
        if value == 5 {
            proof {
                Self::lemma_with_value(value, CriticalErrorCode::UbloxUnitFailed);
            }
            return Some(CriticalErrorCode::UbloxUnitFailed);
        }
        if value == 6 {
            proof {
                Self::lemma_with_value(value, CriticalErrorCode::NoAxp192);
            }
            return Some(CriticalErrorCode::NoAxp192);
        }
        if value == 7 {
            proof {
                Self::lemma_with_value(value, CriticalErrorCode::InvalidRadioSetting);
            }
            return Some(CriticalErrorCode::InvalidRadioSetting);
        }
        if value == 8 {
            proof {
                Self::lemma_with_value(value, CriticalErrorCode::TransmitFailed);
            }
            return Some(CriticalErrorCode::TransmitFailed);
        }
        if value == 9 {
            proof {
                Self::lemma_with_value(value, CriticalErrorCode::Brownout);
            }
            return Some(CriticalErrorCode::Brownout);
        }
        if value == 10 {
            proof {
                Self::lemma_with_value(value, CriticalErrorCode::Sx1262Failure);
            }
            return Some(CriticalErrorCode::Sx1262Failure);
        }
        if value == 11 {
            proof {
                Self::lemma_with_value(value, CriticalErrorCode::RadioSpiBug);
            }
            return Some(CriticalErrorCode::RadioSpiBug);
        }
        if value == 12 {
            proof {
                Self::lemma_with_value(value, CriticalErrorCode::FlashCorruptionRecoverable);
            }
            return Some(CriticalErrorCode::FlashCorruptionRecoverable);
        }
        if value == 13 {
            proof {
                Self::lemma_with_value(value, CriticalErrorCode::FlashCorruptionUnrecoverable);
            }
            return Some(CriticalErrorCode::FlashCorruptionUnrecoverable);
        }
        None
    }
}

impl Default for CriticalErrorCode {
    /// The variant numbered 0, the default value of the field in ProtoBuf.
    fn default() -> (r: Self)
        ensures
            r == Self::default_variant(),
            r.value() == 0,
    {
        CriticalErrorCode::NoneValue
    }
}

impl From<CriticalErrorCode> for i32 {
    fn from(value: CriticalErrorCode) -> (r: i32) {
        match value {
            CriticalErrorCode::NoneValue => 0,
            CriticalErrorCode::TxWatchdog => 1,
            CriticalErrorCode::SleepEnterWait => 2,
            CriticalErrorCode::NoRadio => 3,
            CriticalErrorCode::Unspecified => 4,
            CriticalErrorCode::UbloxUnitFailed => 5,
            CriticalErrorCode::NoAxp192 => 6,
            CriticalErrorCode::InvalidRadioSetting => 7,
            CriticalErrorCode::TransmitFailed => 8,
            CriticalErrorCode::Brownout => 9,
            CriticalErrorCode::Sx1262Failure => 10,
            CriticalErrorCode::RadioSpiBug => 11,
            CriticalErrorCode::FlashCorruptionRecoverable => 12,
            CriticalErrorCode::FlashCorruptionUnrecoverable => 13,
        }
    }
}

impl TryFrom<i32> for CriticalErrorCode {
    type Error = prost::UnknownEnumValue;

    fn try_from(value: i32) -> (r: Result<CriticalErrorCode, prost::UnknownEnumValue>)
        ensures
            r matches Ok(e) ==> e.value() == value,
            (exists|e: CriticalErrorCode| #[trigger] e.value() == value) ==> r is Ok,
            r is Err ==> r == Err::<CriticalErrorCode, prost::UnknownEnumValue>(crate::enum_error::unknown_enum_value(value)),
    {
        proof {
            if exists|e: CriticalErrorCode| #[trigger] e.value() == value {
                let e = choose|e: CriticalErrorCode| #[trigger] e.value() == value;
                CriticalErrorCode::lemma_with_value(value, e);
            }
        }
        match CriticalErrorCode::from_i32(value) {
            Some(e) => Ok(e),
            None => Err(make_unknown_enum_value(value)),
        }
    }
}

impl vstd::std_specs::convert::TryFromSpecImpl<i32> for CriticalErrorCode {
    open spec fn obeys_try_from_spec() -> bool {
        true
    }

    open spec fn try_from_spec(value: i32) -> Result<CriticalErrorCode, prost::UnknownEnumValue> {
        match CriticalErrorCode::with_value(value) {
            Some(e) => Ok(e),
            None => Err(crate::enum_error::unknown_enum_value(value)),
        }
    }
}

impl vstd::std_specs::convert::FromSpecImpl<CriticalErrorCode> for i32 {
    open spec fn obeys_from_spec() -> bool {
        true
    }

    open spec fn from_spec(value: CriticalErrorCode) -> i32 {
        value.value()
    }
}

/// Enum for modules excluded from a device's configuration.
/// Each value represents a ModuleConfigType that can be toggled as excluded
/// by setting its corresponding bit in the `excluded_modules` bitmask field.
#[derive(Clone, Copy, Debug, PartialEq, Eq, Hash, PartialOrd, Ord)]
pub enum ExcludedModules {
    /// Default value of 0 indicates no modules are excluded.
    ExcludedNone,
    /// MQTT module
    MqttConfig,
    /// Serial module
    SerialConfig,
    /// External Notification module
    ExtnotifConfig,
    /// Store and Forward module
    StoreforwardConfig,
    /// Range Test module
    RangetestConfig,
    /// Telemetry module
    TelemetryConfig,
    /// Canned Message module
    CannedmsgConfig,
    /// Audio module
    AudioConfig,
    /// Remote Hardware module
    RemotehardwareConfig,
    /// Neighbor Info module
    NeighborinfoConfig,
    /// Ambient Lighting module
    AmbientlightingConfig,
    /// Detection Sensor module
    DetectionsensorConfig,
    /// Paxcounter module
    PaxcounterConfig,
}

impl ExcludedModules {
    /// The name of this variant in the ProtoBuf definition.
    pub open spec fn str_name(self) -> Seq<char> {
        match self {
            ExcludedModules::ExcludedNone => "EXCLUDED_NONE"@,
            ExcludedModules::MqttConfig => "MQTT_CONFIG"@,
            ExcludedModules::SerialConfig => "SERIAL_CONFIG"@,
            ExcludedModules::ExtnotifConfig => "EXTNOTIF_CONFIG"@,
            ExcludedModules::StoreforwardConfig => "STOREFORWARD_CONFIG"@,
            ExcludedModules::RangetestConfig => "RANGETEST_CONFIG"@,
            ExcludedModules::TelemetryConfig => "TELEMETRY_CONFIG"@,
            ExcludedModules::CannedmsgConfig => "CANNEDMSG_CONFIG"@,
            ExcludedModules::AudioConfig => "AUDIO_CONFIG"@,
            ExcludedModules::RemotehardwareConfig => "REMOTEHARDWARE_CONFIG"@,
            ExcludedModules::NeighborinfoConfig => "NEIGHBORINFO_CONFIG"@,
            ExcludedModules::AmbientlightingConfig => "AMBIENTLIGHTING_CONFIG"@,
            ExcludedModules::DetectionsensorConfig => "DETECTIONSENSOR_CONFIG"@,
            ExcludedModules::PaxcounterConfig => "PAXCOUNTER_CONFIG"@,
        }
    }

    /// The number of this variant in the ProtoBuf definition.
    pub open spec fn value(self) -> i32 {
        match self {
            ExcludedModules::ExcludedNone => 0,
            ExcludedModules::MqttConfig => 1,
            ExcludedModules::SerialConfig => 2,
            ExcludedModules::ExtnotifConfig => 4,
            ExcludedModules::StoreforwardConfig => 8,
            ExcludedModules::RangetestConfig => 16,
            ExcludedModules::TelemetryConfig => 32,
            ExcludedModules::CannedmsgConfig => 64,
            ExcludedModules::AudioConfig => 128,
            ExcludedModules::RemotehardwareConfig => 256,
            ExcludedModules::NeighborinfoConfig => 512,
            ExcludedModules::AmbientlightingConfig => 1024,
            ExcludedModules::DetectionsensorConfig => 2048,
            ExcludedModules::PaxcounterConfig => 4096,
        }
    }

    /// The variant numbered 0, which a field holds when it is not set.
    pub open spec fn default_variant() -> Self {
        ExcludedModules::ExcludedNone
    }

    /// The variant numbered `value`, or the default variant when no variant has that number:
    /// what a message field holding `value` reads as.
    pub open spec fn from_number_or_default(value: i32) -> Self {
        match Self::with_value(value) {
            Some(e) => e,
            None => Self::default_variant(),
        }
    }

    /// The variant whose ProtoBuf name is `name`, if there is one.
    pub open spec fn named(name: Seq<char>) -> Option<Self> {
        if exists|e: Self| #[trigger] e.str_name() == name {
            Some(choose|e: Self| #[trigger] e.str_name() == name)
        } else {
            None
        }
    }

    /// The variant whose ProtoBuf number is `value`, if there is one.
    pub open spec fn with_value(value: i32) -> Option<Self> {
        if exists|e: Self| #[trigger] e.value() == value {
            Some(choose|e: Self| #[trigger] e.value() == value)
        } else {
            None
        }
    }

    spec fn name_lookup(name: Seq<char>) -> Option<Self> {
        if name == "EXCLUDED_NONE"@ {
            Some(ExcludedModules::ExcludedNone)
        } else if name == "MQTT_CONFIG"@ {
            Some(ExcludedModules::MqttConfig)
        } else if name == "SERIAL_CONFIG"@ {
            Some(ExcludedModules::SerialConfig)
        } else if name == "EXTNOTIF_CONFIG"@ {
            Some(ExcludedModules::ExtnotifConfig)
        } else if name == "STOREFORWARD_CONFIG"@ {
            Some(ExcludedModules::StoreforwardConfig)
        } else if name == "RANGETEST_CONFIG"@ {
            Some(ExcludedModules::RangetestConfig)
        } else if name == "TELEMETRY_CONFIG"@ {
            Some(ExcludedModules::TelemetryConfig)
        } else if name == "CANNEDMSG_CONFIG"@ {
            Some(ExcludedModules::CannedmsgConfig)
        } else if name == "AUDIO_CONFIG"@ {
            Some(ExcludedModules::AudioConfig)
        } else if name == "REMOTEHARDWARE_CONFIG"@ {
            Some(ExcludedModules::RemotehardwareConfig)
        } else if name == "NEIGHBORINFO_CONFIG"@ {
            Some(ExcludedModules::NeighborinfoConfig)
        } else if name == "AMBIENTLIGHTING_CONFIG"@ {
            Some(ExcludedModules::AmbientlightingConfig)
        } else if name == "DETECTIONSENSOR_CONFIG"@ {
            Some(ExcludedModules::DetectionsensorConfig)
        } else if name == "PAXCOUNTER_CONFIG"@ {
            Some(ExcludedModules::PaxcounterConfig)
        } else {
            None
        }
    }

    spec fn value_lookup(value: i32) -> Option<Self> {
        if value == 0 {
            Some(ExcludedModules::ExcludedNone)
        } else if value == 1 {
            Some(ExcludedModules::MqttConfig)
        } else if value == 2 {
            Some(ExcludedModules::SerialConfig)
        } else if value == 4 {
            Some(ExcludedModules::ExtnotifConfig)
        } else if value == 8 {
            Some(ExcludedModules::StoreforwardConfig)
        } else if value == 16 {
            Some(ExcludedModules::RangetestConfig)
        } else if value == 32 {
            Some(ExcludedModules::TelemetryConfig)
        } else if value == 64 {
            Some(ExcludedModules::CannedmsgConfig)
        } else if value == 128 {
            Some(ExcludedModules::AudioConfig)
        } else if value == 256 {
            Some(ExcludedModules::RemotehardwareConfig)
        } else if value == 512 {
            Some(ExcludedModules::NeighborinfoConfig)
        } else if value == 1024 {
            Some(ExcludedModules::AmbientlightingConfig)
        } else if value == 2048 {
            Some(ExcludedModules::DetectionsensorConfig)
        } else if value == 4096 {
            Some(ExcludedModules::PaxcounterConfig)
        } else {
            None
        }
    }

    proof fn lemma_lookups()
        ensures
            forall|e: Self| #[trigger] Self::name_lookup(e.str_name()) == Some(e),
            forall|e: Self| #[trigger] Self::value_lookup(e.value()) == Some(e),
    {
        reveal_strlit("EXCLUDED_NONE");
        assert("EXCLUDED_NONE"@.len() == 13);
        assert("EXCLUDED_NONE"@[0] == 'E');
        reveal_strlit("MQTT_CONFIG");
        assert("MQTT_CONFIG"@.len() == 11);
        reveal_strlit("SERIAL_CONFIG");
        assert("SERIAL_CONFIG"@.len() == 13);
        assert("SERIAL_CONFIG"@[0] == 'S');
        reveal_strlit("EXTNOTIF_CONFIG");
        assert("EXTNOTIF_CONFIG"@.len() == 15);
        reveal_strlit("STOREFORWARD_CONFIG");
        assert("STOREFORWARD_CONFIG"@.len() == 19);
        assert("STOREFORWARD_CONFIG"@[0] == 'S');
        reveal_strlit("RANGETEST_CONFIG");
        assert("RANGETEST_CONFIG"@.len() == 16);
        assert("RANGETEST_CONFIG"@[0] == 'R');
        reveal_strlit("TELEMETRY_CONFIG");
        assert("TELEMETRY_CONFIG"@.len() == 16);
        assert("TELEMETRY_CONFIG"@[0] == 'T');
        reveal_strlit("CANNEDMSG_CONFIG");
        assert("CANNEDMSG_CONFIG"@.len() == 16);
        assert("CANNEDMSG_CONFIG"@[0] == 'C');
        reveal_strlit("AUDIO_CONFIG");
        assert("AUDIO_CONFIG"@.len() == 12);
        reveal_strlit("REMOTEHARDWARE_CONFIG");
        assert("REMOTEHARDWARE_CONFIG"@.len() == 21);
        reveal_strlit("NEIGHBORINFO_CONFIG");
        assert("NEIGHBORINFO_CONFIG"@.len() == 19);
        assert("NEIGHBORINFO_CONFIG"@[0] == 'N');
        reveal_strlit("AMBIENTLIGHTING_CONFIG");
        assert("AMBIENTLIGHTING_CONFIG"@.len() == 22);
        assert("AMBIENTLIGHTING_CONFIG"@[0] == 'A');
        reveal_strlit("DETECTIONSENSOR_CONFIG");
        assert("DETECTIONSENSOR_CONFIG"@.len() == 22);
        assert("DETECTIONSENSOR_CONFIG"@[0] == 'D');
        reveal_strlit("PAXCOUNTER_CONFIG");
        assert("PAXCOUNTER_CONFIG"@.len() == 17);
    }

    /// Distinct variants have distinct ProtoBuf names and distinct ProtoBuf numbers.
    pub proof fn lemma_injective(a: Self, b: Self)
        ensures
            a.str_name() == b.str_name() ==> a == b,
            a.value() == b.value() ==> a == b,
    {
        Self::lemma_lookups();
        assert(Self::name_lookup(a.str_name()) == Some(a));
        assert(Self::name_lookup(b.str_name()) == Some(b));
        assert(Self::value_lookup(a.value()) == Some(a));
        assert(Self::value_lookup(b.value()) == Some(b));
    }

    /// A name denotes a variant exactly when it is that variant's ProtoBuf name:
    /// `from_str_name` undoes `as_str_name`, and accepts nothing else.
    pub proof fn lemma_named(name: Seq<char>, e: Self)
        ensures
            Self::named(name) == Some(e) <==> e.str_name() == name,
    {
        if e.str_name() == name {
            let x = choose|x: Self| #[trigger] x.str_name() == name;
            Self::lemma_injective(x, e);
        }
    }

    /// A number denotes a variant exactly when it is that variant's ProtoBuf number:
    /// `from_i32` undoes the conversion to `i32`, and accepts nothing else.
    pub proof fn lemma_with_value(value: i32, e: Self)
        ensures
            Self::with_value(value) == Some(e) <==> e.value() == value,
    {
        if e.value() == value {
            let x = choose|x: Self| #[trigger] x.value() == value;
            Self::lemma_injective(x, e);
        }
    }

    /// What a field holding `value` reads as: the variant numbered `value` when some variant
    /// has that number, and otherwise the variant numbered 0.
    pub proof fn lemma_number_or_default(value: i32)
        ensures
            (exists|e: Self| #[trigger] e.value() == value) ==> Self::from_number_or_default(value).value() == value,
            (forall|e: Self| #[trigger] e.value() != value) ==> Self::from_number_or_default(value).value() == 0,
            (forall|e: Self| #[trigger] e.value() != value) ==> Self::from_number_or_default(value) == Self::default_variant(),
            Self::default_variant().value() == 0,
    {
        if exists|e: Self| #[trigger] e.value() == value {
            let e = choose|e: Self| #[trigger] e.value() == value;
            Self::lemma_with_value(value, e);
        }
    }

    /// `try_from` accepts exactly the numbers that variants have and gives back the variant with
    /// that number; every other number it rejects with the error that records that number.
    pub proof fn lemma_try_from(value: i32, e: Self)
        ensures
            (<Self as vstd::std_specs::convert::TryFromSpec<i32>>::try_from_spec(value) == Ok::<Self, prost::UnknownEnumValue>(e)) <==> e.value() == value,
            (forall|x: Self| #[trigger] x.value() != value) ==> <Self as vstd::std_specs::convert::TryFromSpec<i32>>::try_from_spec(value) == Err::<Self, prost::UnknownEnumValue>(crate::enum_error::unknown_enum_value(value)),
            (exists|x: Self| #[trigger] x.value() == value) ==> <Self as vstd::std_specs::convert::TryFromSpec<i32>>::try_from_spec(value) is Ok,
    {
        Self::lemma_with_value(value, e);
        if exists|x: Self| #[trigger] x.value() == value {
            let x = choose|x: Self| #[trigger] x.value() == value;
            Self::lemma_with_value(value, x);
        }
    }

    /// Reading back the number of a variant gives that variant: a field set to `e` reads as `e`.
    pub proof fn lemma_read_after_write(e: Self)
        ensures
            Self::from_number_or_default(e.value()) == e,
    {
        Self::lemma_with_value(e.value(), e);
    }

    /// String value of the enum field names used in the ProtoBuf definition.
    ///
    /// The values are not transformed in any way and thus are considered stable
    /// (if the ProtoBuf definition does not change) and safe for programmatic use.
    pub fn as_str_name(&self) -> (name: &'static str)
        ensures
            name@ == self.str_name(),
    {
        match self {
            ExcludedModules::ExcludedNone => "EXCLUDED_NONE",
            ExcludedModules::MqttConfig => "MQTT_CONFIG",
            ExcludedModules::SerialConfig => "SERIAL_CONFIG",
            ExcludedModules::ExtnotifConfig => "EXTNOTIF_CONFIG",
            ExcludedModules::StoreforwardConfig => "STOREFORWARD_CONFIG",
            ExcludedModules::RangetestConfig => "RANGETEST_CONFIG",
            ExcludedModules::TelemetryConfig => "TELEMETRY_CONFIG",
            ExcludedModules::CannedmsgConfig => "CANNEDMSG_CONFIG",
            ExcludedModules::AudioConfig => "AUDIO_CONFIG",
            ExcludedModules::RemotehardwareConfig => "REMOTEHARDWARE_CONFIG",
            ExcludedModules::NeighborinfoConfig => "NEIGHBORINFO_CONFIG",
            ExcludedModules::AmbientlightingConfig => "AMBIENTLIGHTING_CONFIG",
            ExcludedModules::DetectionsensorConfig => "DETECTIONSENSOR_CONFIG",
            ExcludedModules::PaxcounterConfig => "PAXCOUNTER_CONFIG",
        }
    }

    /// Creates an enum from field names used in the ProtoBuf definition.
    pub fn from_str_name(value: &str) -> (r: Option<Self>)
        ensures
            r == Self::named(value@),
    {
        if str_eq(value, "EXCLUDED_NONE") {
            proof {
                Self::lemma_named(value@, ExcludedModules::ExcludedNone);
            }
            return Some(ExcludedModules::ExcludedNone);
        }
        if str_eq(value, "MQTT_CONFIG") {
            proof {
                Self::lemma_named(value@, ExcludedModules::MqttConfig);
            }
            return Some(ExcludedModules::MqttConfig);
        }
        if str_eq(value, "SERIAL_CONFIG") {
            proof {
                Self::lemma_named(value@, ExcludedModules::SerialConfig);
            }
            return Some(ExcludedModules::SerialConfig);
        }
        if str_eq(value, "EXTNOTIF_CONFIG") {
            proof {
                Self::lemma_named(value@, ExcludedModules::ExtnotifConfig);
            }
            return Some(ExcludedModules::ExtnotifConfig);
        }
        if str_eq(value, "STOREFORWARD_CONFIG") {
            proof {
                Self::lemma_named(value@, ExcludedModules::StoreforwardConfig);
            }
            return Some(ExcludedModules::StoreforwardConfig);
        }
        if str_eq(value, "RANGETEST_CONFIG") {
            proof {
                Self::lemma_named(value@, ExcludedModules::RangetestConfig);
            }
            return Some(ExcludedModules::RangetestConfig);
        }
        if str_eq(value, "TELEMETRY_CONFIG") {
            proof {
                Self::lemma_named(value@, ExcludedModules::TelemetryConfig);
            }
            return Some(ExcludedModules::TelemetryConfig);
        }
        if str_eq(value, "CANNEDMSG_CONFIG") {
            proof {
                Self::lemma_named(value@, ExcludedModules::CannedmsgConfig);
            }
            return Some(ExcludedModules::CannedmsgConfig);
        }
        if str_eq(value, "AUDIO_CONFIG") {
            proof {
                Self::lemma_named(value@, ExcludedModules::AudioConfig);
            }
            return Some(ExcludedModules::AudioConfig);
        }
        if str_eq(value, "REMOTEHARDWARE_CONFIG") {
            proof {
                Self::lemma_named(value@, ExcludedModules::RemotehardwareConfig);
            }
            return Some(ExcludedModules::RemotehardwareConfig);
        }
        if str_eq(value, "NEIGHBORINFO_CONFIG") {
            proof {
                Self::lemma_named(value@, ExcludedModules::NeighborinfoConfig);
            }
            return Some(ExcludedModules::NeighborinfoConfig);
        }
        if str_eq(value, "AMBIENTLIGHTING_CONFIG") {
            proof {
                Self::lemma_named(value@, ExcludedModules::AmbientlightingConfig);
            }
            return Some(ExcludedModules::AmbientlightingConfig);
        }
        if str_eq(value, "DETECTIONSENSOR_CONFIG") {
            proof {
                Self::lemma_named(value@, ExcludedModules::DetectionsensorConfig);
            }
            return Some(ExcludedModules::DetectionsensorConfig);
        }
        if str_eq(value, "PAXCOUNTER_CONFIG") {
            proof {
                Self::lemma_named(value@, ExcludedModules::PaxcounterConfig);
            }
            return Some(ExcludedModules::PaxcounterConfig);
        }
        None
    }

    /// Returns `true` if `value` is a variant of `ExcludedModules`.
    pub fn is_valid(value: i32) -> (r: bool)
        ensures
            r == (Self::with_value(value) is Some),
    {
        Self::from_i32(value).is_some()
    }

    /// Converts an `i32` to a `ExcludedModules`, or `None` if `value` is not a valid variant.
    pub fn from_i32(value: i32) -> (r: Option<Self>)
        ensures
            r == Self::with_value(value),
    {
        if value == 0 {
            proof {
                Self::lemma_with_value(value, ExcludedModules::ExcludedNone);
            }
            return Some(ExcludedModules::ExcludedNone);
        }
        if value == 1 {
            proof {
                Self::lemma_with_value(value, ExcludedModules::MqttConfig);
            }
            return Some(ExcludedModules::MqttConfig);
        }
        if value == 2 {
            proof {
                Self::lemma_with_value(value, ExcludedModules::SerialConfig);
            }
            return Some(ExcludedModules::SerialConfig);
        }
        if value == 4 {
            proof {
                Self::lemma_with_value(value, ExcludedModules::ExtnotifConfig);
            }
            return Some(ExcludedModules::ExtnotifConfig);
        }
        if value == 8 {
            proof {
                Self::lemma_with_value(value, ExcludedModules::StoreforwardConfig);
            }
            return Some(ExcludedModules::StoreforwardConfig);
        }
        if value == 16 {
            proof {
                Self::lemma_with_value(value, ExcludedModules::RangetestConfig);
            }
            return Some(ExcludedModules::RangetestConfig);
        }
        if value == 32 {
            proof {
                Self::lemma_with_value(value, ExcludedModules::TelemetryConfig);
            }
            return Some(ExcludedModules::TelemetryConfig);
        }
        if value == 64 {
            proof {
                Self::lemma_with_value(value, ExcludedModules::CannedmsgConfig);
            }
            return Some(ExcludedModules::CannedmsgConfig);
        }
        if value == 128 {
            proof {
                Self::lemma_with_value(value, ExcludedModules::AudioConfig);
            }
            return Some(ExcludedModules::AudioConfig);
        }
        if value == 256 {
            proof {
                Self::lemma_with_value(value, ExcludedModules::RemotehardwareConfig);
            }
            return Some(ExcludedModules::RemotehardwareConfig);
        }
        if value == 512 {
            proof {
                Self::lemma_with_value(value, ExcludedModules::NeighborinfoConfig);
            }
            return Some(ExcludedModules::NeighborinfoConfig);
        }
        if value == 1024 {
            proof {
                Self::lemma_with_value(value, ExcludedModules::AmbientlightingConfig);
            }
            return Some(ExcludedModules::AmbientlightingConfig);
        }
        if value == 2048 {
            proof {
                Self::lemma_with_value(value, ExcludedModules::DetectionsensorConfig);
            }
            return Some(ExcludedModules::DetectionsensorConfig);
        }
        if value == 4096 {
            proof {
                Self::lemma_with_value(value, ExcludedModules::PaxcounterConfig);
            }
            return Some(ExcludedModules::PaxcounterConfig);
        }
        None
    }
}

impl Default for ExcludedModules {
    /// The variant numbered 0, the default value of the field in ProtoBuf.
    fn default() -> (r: Self)
        ensures
            r == Self::default_variant(),
            r.value() == 0,
    {
        ExcludedModules::ExcludedNone
    }
}

impl From<ExcludedModules> for i32 {
    fn from(value: ExcludedModules) -> (r: i32) {
        match value {
            ExcludedModules::ExcludedNone => 0,
            ExcludedModules::MqttConfig => 1,
            ExcludedModules::SerialConfig => 2,
            ExcludedModules::ExtnotifConfig => 4,
            ExcludedModules::StoreforwardConfig => 8,
            ExcludedModules::RangetestConfig => 16,
            ExcludedModules::TelemetryConfig => 32,
            ExcludedModules::CannedmsgConfig => 64,
            ExcludedModules::AudioConfig => 128,
            ExcludedModules::RemotehardwareConfig => 256,
            ExcludedModules::NeighborinfoConfig => 512,
            ExcludedModules::AmbientlightingConfig => 1024,
            ExcludedModules::DetectionsensorConfig => 2048,
            ExcludedModules::PaxcounterConfig => 4096,
        }
    }
}

impl TryFrom<i32> for ExcludedModules {
    type Error = prost::UnknownEnumValue;

    fn try_from(value: i32) -> (r: Result<ExcludedModules, prost::UnknownEnumValue>)
        ensures
            r matches Ok(e) ==> e.value() == value,
            (exists|e: ExcludedModules| #[trigger] e.value() == value) ==> r is Ok,
            r is Err ==> r == Err::<ExcludedModules, prost::UnknownEnumValue>(crate::enum_error::unknown_enum_value(value)),
    {
        proof {
            if exists|e: ExcludedModules| #[trigger] e.value() == value {
                let e = choose|e: ExcludedModules| #[trigger] e.value() == value;
                ExcludedModules::lemma_with_value(value, e);
            }
        }
        match ExcludedModules::from_i32(value) {
            Some(e) => Ok(e),
            None => Err(make_unknown_enum_value(value)),
        }
    }
}

impl vstd::std_specs::convert::TryFromSpecImpl<i32> for ExcludedModules {
    open spec fn obeys_try_from_spec() -> bool {
        true
    }

    open spec fn try_from_spec(value: i32) -> Result<ExcludedModules, prost::UnknownEnumValue> {
        match ExcludedModules::with_value(value) {
            Some(e) => Ok(e),
            None => Err(crate::enum_error::unknown_enum_value(value)),
        }
    }
}

impl vstd::std_specs::convert::FromSpecImpl<ExcludedModules> for i32 {
    open spec fn obeys_from_spec() -> bool {
        true
    }

    open spec fn from_spec(value: ExcludedModules) -> i32 {
        value.value()
    }
}

} // verus!
