//! Nested message and enum types in `Config`.

pub mod device_config;
pub mod position_config;
pub mod network_config;
pub mod display_config;
pub mod lo_ra_config;
pub mod bluetooth_config;

use vstd::prelude::*;

verus! {

/// Configuration
#[derive(Clone, Debug, PartialEq)]
pub struct DeviceConfig {
    /// Sets the role of node
    pub role: i32,
    /// Disabling this will disable the SerialConsole by not initilizing the StreamAPI
    /// Moved to SecurityConfig
    ///
    /// Deprecated.
    pub serial_enabled: bool,
    /// For boards without a hard wired button, this is the pin number that will be used
    /// Boards that have more than one button can swap the function with this one. defaults to BUTTON_PIN if defined.
    pub button_gpio: u32,
    /// For boards without a PWM buzzer, this is the pin number that will be used
    /// Defaults to PIN_BUZZER if defined.
    pub buzzer_gpio: u32,
    /// Sets the role of node
    pub rebroadcast_mode: i32,
    /// Send our nodeinfo this often
    /// Defaults to 900 Seconds (15 minutes)
    pub node_info_broadcast_secs: u32,
    /// Treat double tap interrupt on supported accelerometers as a button press if set to true
    pub double_tap_as_button_press: bool,
    /// If true, device is considered to be "managed" by a mesh administrator
    /// Clients should then limit available configuration and administrative options inside the user interface
    /// Moved to SecurityConfig
    ///
    /// Deprecated.
    pub is_managed: bool,
    /// Disables the triple-press of user button to enable or disable GPS
    pub disable_triple_click: bool,
    /// POSIX Timezone definition string from <https://github.com/nayarsystems/posix_tz_db/blob/master/zones.csv.>
    pub tzdef: String,
    /// If true, disable the default blinking LED (LED_PIN) behavior on the device
    pub led_heartbeat_disabled: bool,
}

impl DeviceConfig {
    /// Returns the enum value of `role`, or the default if the field is set to an invalid enum value.
    pub fn role(&self) -> (r: crate::config::device_config::Role)
        ensures
            r == crate::config::device_config::Role::from_number_or_default(self.role),
            (exists|e: crate::config::device_config::Role| #[trigger] e.value() == self.role) ==> r.value() == self.role,
            (forall|e: crate::config::device_config::Role| #[trigger] e.value() != self.role) ==> r.value() == 0,
    {
        proof {
            crate::config::device_config::Role::lemma_number_or_default(self.role);
        }
        match crate::config::device_config::Role::from_i32(self.role) {
            Some(e) => e,
            None => <crate::config::device_config::Role as Default>::default(),
        }
    }

    /// Sets `role` to the provided enum value.
    pub fn set_role(&mut self, value: crate::config::device_config::Role)
        ensures
            *final(self) == (Self { role: value.value(), ..*old(self) }),
    {
        self.role = i32::from(value);
    }

    /// Returns the enum value of `rebroadcast_mode`, or the default if the field is set to an invalid enum value.
    pub fn rebroadcast_mode(&self) -> (r: crate::config::device_config::RebroadcastMode)
        ensures
            r == crate::config::device_config::RebroadcastMode::from_number_or_default(self.rebroadcast_mode),
            (exists|e: crate::config::device_config::RebroadcastMode| #[trigger] e.value() == self.rebroadcast_mode) ==> r.value() == self.rebroadcast_mode,
            (forall|e: crate::config::device_config::RebroadcastMode| #[trigger] e.value() != self.rebroadcast_mode) ==> r.value() == 0,
    {
        proof {
            crate::config::device_config::RebroadcastMode::lemma_number_or_default(self.rebroadcast_mode);
        }
        match crate::config::device_config::RebroadcastMode::from_i32(self.rebroadcast_mode) {
            Some(e) => e,
            None => <crate::config::device_config::RebroadcastMode as Default>::default(),
        }
    }

    /// Sets `rebroadcast_mode` to the provided enum value.
    pub fn set_rebroadcast_mode(&mut self, value: crate::config::device_config::RebroadcastMode)
        ensures
            *final(self) == (Self { rebroadcast_mode: value.value(), ..*old(self) }),
    {
        self.rebroadcast_mode = i32::from(value);
    }
}

impl Default for DeviceConfig {
    /// The message with every field unset: numbers 0, flags false, strings, bytes and lists
    /// empty, and no nested message.
    fn default() -> (r: Self)
        ensures
            r.role == 0,
            r.serial_enabled == false,
            r.button_gpio == 0,
            r.buzzer_gpio == 0,
            r.rebroadcast_mode == 0,
            r.node_info_broadcast_secs == 0,
            r.double_tap_as_button_press == false,
            r.is_managed == false,
            r.disable_triple_click == false,
            r.tzdef@ == Seq::<char>::empty(),
            r.led_heartbeat_disabled == false,
    {
        DeviceConfig {
            role: 0,
            serial_enabled: false,
            button_gpio: 0,
            buzzer_gpio: 0,
            rebroadcast_mode: 0,
            node_info_broadcast_secs: 0,
            double_tap_as_button_press: false,
            is_managed: false,
            disable_triple_click: false,
            tzdef: String::new(),
            led_heartbeat_disabled: false,
        }
    }
}

/// Position Config
#[derive(Clone, Debug, PartialEq)]
pub struct PositionConfig {
    /// We should send our position this often (but only if it has changed significantly)
    /// Defaults to 15 minutes
    pub position_broadcast_secs: u32,
    /// Adaptive position braoadcast, which is now the default.
    pub position_broadcast_smart_enabled: bool,
    /// If set, this node is at a fixed position.
    /// We will generate GPS position updates at the regular interval, but use whatever the last lat/lon/alt we have for the node.
    /// The lat/lon/alt can be set by an internal GPS or with the help of the app.
    pub fixed_position: bool,
    /// Is GPS enabled for this node?
    ///
    /// Deprecated.
    pub gps_enabled: bool,
    /// How often should we try to get GPS position (in seconds)
    /// or zero for the default of once every 30 seconds
    /// or a very large value (maxint) to update only once at boot.
    pub gps_update_interval: u32,
    /// Deprecated in favor of using smart / regular broadcast intervals as implicit attempt time
    pub gps_attempt_time: u32,
    /// Bit field of boolean configuration options for POSITION messages
    /// (bitwise OR of PositionFlags)
    pub position_flags: u32,
    /// (Re)define GPS_RX_PIN for your board.
    pub rx_gpio: u32,
    /// (Re)define GPS_TX_PIN for your board.
    pub tx_gpio: u32,
    /// The minimum distance in meters traveled (since the last send) before we can send a position to the mesh if position_broadcast_smart_enabled
    pub broadcast_smart_minimum_distance: u32,
    /// The minimum number of seconds (since the last send) before we can send a position to the mesh if position_broadcast_smart_enabled
    pub broadcast_smart_minimum_interval_secs: u32,
    /// (Re)define PIN_GPS_EN for your board.
    pub gps_en_gpio: u32,
    /// Set where GPS is enabled, disabled, or not present
    pub gps_mode: i32,
}

impl PositionConfig {
    /// Returns the enum value of `gps_mode`, or the default if the field is set to an invalid enum value.
    pub fn gps_mode(&self) -> (r: crate::config::position_config::GpsMode)
        ensures
            r == crate::config::position_config::GpsMode::from_number_or_default(self.gps_mode),
            (exists|e: crate::config::position_config::GpsMode| #[trigger] e.value() == self.gps_mode) ==> r.value() == self.gps_mode,
            (forall|e: crate::config::position_config::GpsMode| #[trigger] e.value() != self.gps_mode) ==> r.value() == 0,
    {
        proof {
            crate::config::position_config::GpsMode::lemma_number_or_default(self.gps_mode);
        }
        match crate::config::position_config::GpsMode::from_i32(self.gps_mode) {
            Some(e) => e,
            None => <crate::config::position_config::GpsMode as Default>::default(),
        }
    }

    /// Sets `gps_mode` to the provided enum value.
    pub fn set_gps_mode(&mut self, value: crate::config::position_config::GpsMode)
        ensures
            *final(self) == (Self { gps_mode: value.value(), ..*old(self) }),
    {
        self.gps_mode = i32::from(value);
    }
}

impl Default for PositionConfig {
    /// The message with every field unset: numbers 0, flags false, strings, bytes and lists
    /// empty, and no nested message.
    fn default() -> (r: Self)
        ensures
            r.position_broadcast_secs == 0,
            r.position_broadcast_smart_enabled == false,
            r.fixed_position == false,
            r.gps_enabled == false,
            r.gps_update_interval == 0,
            r.gps_attempt_time == 0,
            r.position_flags == 0,
            r.rx_gpio == 0,
            r.tx_gpio == 0,
            r.broadcast_smart_minimum_distance == 0,
            r.broadcast_smart_minimum_interval_secs == 0,
            r.gps_en_gpio == 0,
            r.gps_mode == 0,
    {
        PositionConfig {
            position_broadcast_secs: 0,
            position_broadcast_smart_enabled: false,
            fixed_position: false,
            gps_enabled: false,
            gps_update_interval: 0,
            gps_attempt_time: 0,
            position_flags: 0,
            rx_gpio: 0,
            tx_gpio: 0,
            broadcast_smart_minimum_distance: 0,
            broadcast_smart_minimum_interval_secs: 0,
            gps_en_gpio: 0,
            gps_mode: 0,
        }
    }
}

/// Network Config
#[derive(Clone, Debug, PartialEq)]
pub struct NetworkConfig {
    /// Enable WiFi (disables Bluetooth)
    pub wifi_enabled: bool,
    /// If set, this node will try to join the specified wifi network and
    /// acquire an address via DHCP
    pub wifi_ssid: String,
    /// If set, will be use to authenticate to the named wifi
    pub wifi_psk: String,
    /// NTP server to use if WiFi is conneced, defaults to `0.pool.ntp.org`
    pub ntp_server: String,
    /// Enable Ethernet
    pub eth_enabled: bool,
    /// acquire an address via DHCP or assign static
    pub address_mode: i32,
    /// struct to keep static address
    pub ipv4_config: Option<crate::config::network_config::IpV4Config>,
    /// rsyslog Server and Port
    pub rsyslog_server: String,
    /// Flags for enabling/disabling network protocols
    pub enabled_protocols: u32,
}

impl NetworkConfig {
    /// Returns the enum value of `address_mode`, or the default if the field is set to an invalid enum value.
    pub fn address_mode(&self) -> (r: crate::config::network_config::AddressMode)
        ensures
            r == crate::config::network_config::AddressMode::from_number_or_default(self.address_mode),
            (exists|e: crate::config::network_config::AddressMode| #[trigger] e.value() == self.address_mode) ==> r.value() == self.address_mode,
            (forall|e: crate::config::network_config::AddressMode| #[trigger] e.value() != self.address_mode) ==> r.value() == 0,
    {
        proof {
            crate::config::network_config::AddressMode::lemma_number_or_default(self.address_mode);
        }
        match crate::config::network_config::AddressMode::from_i32(self.address_mode) {
            Some(e) => e,
            None => <crate::config::network_config::AddressMode as Default>::default(),
        }
    }

    /// Sets `address_mode` to the provided enum value.
    pub fn set_address_mode(&mut self, value: crate::config::network_config::AddressMode)
        ensures
            *final(self) == (Self { address_mode: value.value(), ..*old(self) }),
    {
        self.address_mode = i32::from(value);
    }
}

impl Default for NetworkConfig {
    /// The message with every field unset: numbers 0, flags false, strings, bytes and lists
    /// empty, and no nested message.
    fn default() -> (r: Self)
        ensures
            r.wifi_enabled == false,
            r.wifi_ssid@ == Seq::<char>::empty(),
            r.wifi_psk@ == Seq::<char>::empty(),
            r.ntp_server@ == Seq::<char>::empty(),
            r.eth_enabled == false,
            r.address_mode == 0,
            r.ipv4_config is None,
            r.rsyslog_server@ == Seq::<char>::empty(),
            r.enabled_protocols == 0,
    {
        NetworkConfig {
            wifi_enabled: false,
            wifi_ssid: String::new(),
            wifi_psk: String::new(),
            ntp_server: String::new(),
            eth_enabled: false,
            address_mode: 0,
            ipv4_config: None,
            rsyslog_server: String::new(),
            enabled_protocols: 0,
        }
    }
}

/// Display Config
#[derive(Clone, Debug, PartialEq)]
pub struct DisplayConfig {
    /// Number of seconds the screen stays on after pressing the user button or receiving a message
    /// 0 for default of one minute MAXUINT for always on
    pub screen_on_secs: u32,
    /// How the GPS coordinates are formatted on the OLED screen.
    pub gps_format: i32,
    /// Automatically toggles to the next page on the screen like a carousel, based the specified interval in seconds.
    /// Potentially useful for devices without user buttons.
    pub auto_screen_carousel_secs: u32,
    /// If this is set, the displayed compass will always point north. if unset, the old behaviour
    /// (top of display is heading direction) is used.
    pub compass_north_top: bool,
    /// Flip screen vertically, for cases that mount the screen upside down
    pub flip_screen: bool,
    /// Perferred display units
    pub units: i32,
    /// Override auto-detect in screen
    pub oled: i32,
    /// Display Mode
    pub displaymode: i32,
    /// Print first line in pseudo-bold? FALSE is original style, TRUE is bold
    pub heading_bold: bool,
    /// Should we wake the screen up on accelerometer detected motion or tap
    pub wake_on_tap_or_motion: bool,
    /// Indicates how to rotate or invert the compass output to accurate display on the display.
    pub compass_orientation: i32,
}

impl DisplayConfig {
    /// Returns the enum value of `gps_format`, or the default if the field is set to an invalid enum value.
    pub fn gps_format(&self) -> (r: crate::config::display_config::GpsCoordinateFormat)
        ensures
            r == crate::config::display_config::GpsCoordinateFormat::from_number_or_default(self.gps_format),
            (exists|e: crate::config::display_config::GpsCoordinateFormat| #[trigger] e.value() == self.gps_format) ==> r.value() == self.gps_format,
            (forall|e: crate::config::display_config::GpsCoordinateFormat| #[trigger] e.value() != self.gps_format) ==> r.value() == 0,
    {
        proof {
            crate::config::display_config::GpsCoordinateFormat::lemma_number_or_default(self.gps_format);
        }
        match crate::config::display_config::GpsCoordinateFormat::from_i32(self.gps_format) {
            Some(e) => e,
            None => <crate::config::display_config::GpsCoordinateFormat as Default>::default(),
        }
    }

    /// Sets `gps_format` to the provided enum value.
    pub fn set_gps_format(&mut self, value: crate::config::display_config::GpsCoordinateFormat)
        ensures
            *final(self) == (Self { gps_format: value.value(), ..*old(self) }),
    {
        self.gps_format = i32::from(value);
    }

    /// Returns the enum value of `units`, or the default if the field is set to an invalid enum value.
    pub fn units(&self) -> (r: crate::config::display_config::DisplayUnits)
        ensures
            r == crate::config::display_config::DisplayUnits::from_number_or_default(self.units),
            (exists|e: crate::config::display_config::DisplayUnits| #[trigger] e.value() == self.units) ==> r.value() == self.units,
            (forall|e: crate::config::display_config::DisplayUnits| #[trigger] e.value() != self.units) ==> r.value() == 0,
    {
        proof {
            crate::config::display_config::DisplayUnits::lemma_number_or_default(self.units);
        }
        match crate::config::display_config::DisplayUnits::from_i32(self.units) {
            Some(e) => e,
            None => <crate::config::display_config::DisplayUnits as Default>::default(),
        }
    }

    /// Sets `units` to the provided enum value.
    pub fn set_units(&mut self, value: crate::config::display_config::DisplayUnits)
        ensures
            *final(self) == (Self { units: value.value(), ..*old(self) }),
    {
        self.units = i32::from(value);
    }

    /// Returns the enum value of `oled`, or the default if the field is set to an invalid enum value.
    pub fn oled(&self) -> (r: crate::config::display_config::OledType)
        ensures
            r == crate::config::display_config::OledType::from_number_or_default(self.oled),
            (exists|e: crate::config::display_config::OledType| #[trigger] e.value() == self.oled) ==> r.value() == self.oled,
            (forall|e: crate::config::display_config::OledType| #[trigger] e.value() != self.oled) ==> r.value() == 0,
    {
        proof {
            crate::config::display_config::OledType::lemma_number_or_default(self.oled);
        }
        match crate::config::display_config::OledType::from_i32(self.oled) {
            Some(e) => e,
            None => <crate::config::display_config::OledType as Default>::default(),
        }
    }

    /// Sets `oled` to the provided enum value.
    pub fn set_oled(&mut self, value: crate::config::display_config::OledType)
        ensures
            *final(self) == (Self { oled: value.value(), ..*old(self) }),
    {
        self.oled = i32::from(value);
    }

    /// Returns the enum value of `displaymode`, or the default if the field is set to an invalid enum value.
    pub fn displaymode(&self) -> (r: crate::config::display_config::DisplayMode)
        ensures
            r == crate::config::display_config::DisplayMode::from_number_or_default(self.displaymode),
            (exists|e: crate::config::display_config::DisplayMode| #[trigger] e.value() == self.displaymode) ==> r.value() == self.displaymode,
            (forall|e: crate::config::display_config::DisplayMode| #[trigger] e.value() != self.displaymode) ==> r.value() == 0,
    {
        proof {
            crate::config::display_config::DisplayMode::lemma_number_or_default(self.displaymode);
        }
        match crate::config::display_config::DisplayMode::from_i32(self.displaymode) {
            Some(e) => e,
            None => <crate::config::display_config::DisplayMode as Default>::default(),
        }
    }

    /// Sets `displaymode` to the provided enum value.
    pub fn set_displaymode(&mut self, value: crate::config::display_config::DisplayMode)
        ensures
            *final(self) == (Self { displaymode: value.value(), ..*old(self) }),
    {
        self.displaymode = i32::from(value);
    }

    /// Returns the enum value of `compass_orientation`, or the default if the field is set to an invalid enum value.
    pub fn compass_orientation(&self) -> (r: crate::config::display_config::CompassOrientation)
        ensures
            r == crate::config::display_config::CompassOrientation::from_number_or_default(self.compass_orientation),
            (exists|e: crate::config::display_config::CompassOrientation| #[trigger] e.value() == self.compass_orientation) ==> r.value() == self.compass_orientation,
            (forall|e: crate::config::display_config::CompassOrientation| #[trigger] e.value() != self.compass_orientation) ==> r.value() == 0,
    {
        proof {
            crate::config::display_config::CompassOrientation::lemma_number_or_default(self.compass_orientation);
        }
        match crate::config::display_config::CompassOrientation::from_i32(self.compass_orientation) {
            Some(e) => e,
            None => <crate::config::display_config::CompassOrientation as Default>::default(),
        }
    }

    /// Sets `compass_orientation` to the provided enum value.
    pub fn set_compass_orientation(&mut self, value: crate::config::display_config::CompassOrientation)
        ensures
            *final(self) == (Self { compass_orientation: value.value(), ..*old(self) }),
    {
        self.compass_orientation = i32::from(value);
    }
}

impl Default for DisplayConfig {
    /// The message with every field unset: numbers 0, flags false, strings, bytes and lists
    /// empty, and no nested message.
    fn default() -> (r: Self)
        ensures
            r.screen_on_secs == 0,
            r.gps_format == 0,
            r.auto_screen_carousel_secs == 0,
            r.compass_north_top == false,
            r.flip_screen == false,
            r.units == 0,
            r.oled == 0,
            r.displaymode == 0,
            r.heading_bold == false,
            r.wake_on_tap_or_motion == false,
            r.compass_orientation == 0,
    {
        DisplayConfig {
            screen_on_secs: 0,
            gps_format: 0,
            auto_screen_carousel_secs: 0,
            compass_north_top: false,
            flip_screen: false,
            units: 0,
            oled: 0,
            displaymode: 0,
            heading_bold: false,
            wake_on_tap_or_motion: false,
            compass_orientation: 0,
        }
    }
}

#[derive(Clone, Debug, PartialEq)]
pub struct BluetoothConfig {
    /// Enable Bluetooth on the device
    pub enabled: bool,
    /// Determines the pairing strategy for the device
    pub mode: i32,
    /// Specified PIN for PairingMode.FixedPin
    pub fixed_pin: u32,
}

impl BluetoothConfig {
    /// Returns the enum value of `mode`, or the default if the field is set to an invalid enum value.
    pub fn mode(&self) -> (r: crate::config::bluetooth_config::PairingMode)
        ensures
            r == crate::config::bluetooth_config::PairingMode::from_number_or_default(self.mode),
            (exists|e: crate::config::bluetooth_config::PairingMode| #[trigger] e.value() == self.mode) ==> r.value() == self.mode,
            (forall|e: crate::config::bluetooth_config::PairingMode| #[trigger] e.value() != self.mode) ==> r.value() == 0,
    {
        proof {
            crate::config::bluetooth_config::PairingMode::lemma_number_or_default(self.mode);
        }
        match crate::config::bluetooth_config::PairingMode::from_i32(self.mode) {
            Some(e) => e,
            None => <crate::config::bluetooth_config::PairingMode as Default>::default(),
        }
    }

    /// Sets `mode` to the provided enum value.
    pub fn set_mode(&mut self, value: crate::config::bluetooth_config::PairingMode)
        ensures
            *final(self) == (Self { mode: value.value(), ..*old(self) }),
    {
        self.mode = i32::from(value);
    }
}

impl Default for BluetoothConfig {
    /// The message with every field unset: numbers 0, flags false, strings, bytes and lists
    /// empty, and no nested message.
    fn default() -> (r: Self)
        ensures
            r.enabled == false,
            r.mode == 0,
            r.fixed_pin == 0,
    {
        BluetoothConfig {
            enabled: false,
            mode: 0,
            fixed_pin: 0,
        }
    }
}

#[derive(Clone, Debug, PartialEq)]
pub struct SecurityConfig {
    /// The public key of the user's device.
    /// Sent out to other nodes on the mesh to allow them to compute a shared secret key.
    pub public_key: Vec<u8>,
    /// The private key of the device.
    /// Used to create a shared key with a remote device.
    pub private_key: Vec<u8>,
    /// The public key authorized to send admin messages to this node.
    pub admin_key: Vec<Vec<u8>>,
    /// If true, device is considered to be "managed" by a mesh administrator via admin messages
    /// Device is managed by a mesh administrator.
    pub is_managed: bool,
    /// Serial Console over the Stream API."
    pub serial_enabled: bool,
    /// By default we turn off logging as soon as an API client connects (to keep shared serial link quiet).
    /// Output live debug logging over serial or bluetooth is set to true.
    pub debug_log_api_enabled: bool,
    /// Allow incoming device control over the insecure legacy admin channel.
    pub admin_channel_enabled: bool,
}

impl Default for SecurityConfig {
    /// The message with every field unset: numbers 0, flags false, strings, bytes and lists
    /// empty, and no nested message.
    fn default() -> (r: Self)
        ensures
            r.public_key@.len() == 0,
            r.private_key@.len() == 0,
            r.admin_key@.len() == 0,
            r.is_managed == false,
            r.serial_enabled == false,
            r.debug_log_api_enabled == false,
            r.admin_channel_enabled == false,
    {
        SecurityConfig {
            public_key: Vec::new(),
            private_key: Vec::new(),
            admin_key: Vec::new(),
            is_managed: false,
            serial_enabled: false,
            debug_log_api_enabled: false,
            admin_channel_enabled: false,
        }
    }
}

/// Blank config request, strictly for getting the session key
#[derive(Clone, Debug, PartialEq)]
pub struct SessionkeyConfig {}

impl Default for SessionkeyConfig {
    /// The message with every field unset: numbers 0, flags false, strings, bytes and lists
    /// empty, and no nested message.
    fn default() -> (r: Self) {
        SessionkeyConfig {}
    }
}

} // verus!
