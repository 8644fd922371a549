//! Nested message and enum types in `ModuleConfig`.

pub mod detection_sensor_config;
pub mod audio_config;
pub mod serial_config;
pub mod canned_message_config;

use vstd::prelude::*;

verus! {

/// MQTT Client Config
#[derive(Clone, Debug, PartialEq)]
pub struct MqttConfig {
    /// If a meshtastic node is able to reach the internet it will normally attempt to gateway any channels that are marked as
    /// is_uplink_enabled or is_downlink_enabled.
    pub enabled: bool,
    /// The server to use for our MQTT global message gateway feature.
    /// If not set, the default server will be used
    pub address: String,
    /// MQTT username to use (most useful for a custom MQTT server).
    /// If using a custom server, this will be honoured even if empty.
    /// If using the default server, this will only be honoured if set, otherwise the device will use the default username
    pub username: String,
    /// MQTT password to use (most useful for a custom MQTT server).
    /// If using a custom server, this will be honoured even if empty.
    /// If using the default server, this will only be honoured if set, otherwise the device will use the default password
    pub password: String,
    /// Whether to send encrypted or decrypted packets to MQTT.
    /// This parameter is only honoured if you also set server
    /// (the default official mqtt.meshtastic.org server can handle encrypted packets)
    /// Decrypted packets may be useful for external systems that want to consume meshtastic packets
    pub encryption_enabled: bool,
    /// Whether to send / consume json packets on MQTT
    pub json_enabled: bool,
    /// If true, we attempt to establish a secure connection using TLS
    pub tls_enabled: bool,
    /// The root topic to use for MQTT messages. Default is "msh".
    /// This is useful if you want to use a single MQTT server for multiple meshtastic networks and separate them via ACLs
    pub root: String,
    /// If true, we can use the connected phone / client to proxy messages to MQTT instead of a direct connection
    pub proxy_to_client_enabled: bool,
    /// If true, we will periodically report unencrypted information about our node to a map via MQTT
    pub map_reporting_enabled: bool,
    /// Settings for reporting information about our node to a map via MQTT
    pub map_report_settings: Option<crate::module_config::MapReportSettings>,
}

impl Default for MqttConfig {
    /// The message with every field unset: numbers 0, flags false, strings, bytes and lists
    /// empty, and no nested message.
    fn default() -> (r: Self)
        ensures
            r.enabled == false,
            r.address@ == Seq::<char>::empty(),
            r.username@ == Seq::<char>::empty(),
            r.password@ == Seq::<char>::empty(),
            r.encryption_enabled == false,
            r.json_enabled == false,
            r.tls_enabled == false,
            r.root@ == Seq::<char>::empty(),
            r.proxy_to_client_enabled == false,
            r.map_reporting_enabled == false,
            r.map_report_settings is None,
    {
        MqttConfig {
            enabled: false,
            address: String::new(),
            username: String::new(),
            password: String::new(),
            encryption_enabled: false,
            json_enabled: false,
            tls_enabled: false,
            root: String::new(),
            proxy_to_client_enabled: false,
            map_reporting_enabled: false,
            map_report_settings: None,
        }
    }
}

/// Settings for reporting unencrypted information about our node to a map via MQTT
#[derive(Clone, Debug, PartialEq)]
pub struct MapReportSettings {
    /// How often we should report our info to the map (in seconds)
    pub publish_interval_secs: u32,
    /// Bits of precision for the location sent (default of 32 is full precision).
    pub position_precision: u32,
}

impl Default for MapReportSettings {
    /// The message with every field unset: numbers 0, flags false, strings, bytes and lists
    /// empty, and no nested message.
    fn default() -> (r: Self)
        ensures
            r.publish_interval_secs == 0,
            r.position_precision == 0,
    {
        MapReportSettings {
            publish_interval_secs: 0,
            position_precision: 0,
        }
    }
}

/// RemoteHardwareModule Config
#[derive(Clone, Debug, PartialEq)]
pub struct RemoteHardwareConfig {
    /// Whether the Module is enabled
    pub enabled: bool,
    /// Whether the Module allows consumers to read / write to pins not defined in available_pins
    pub allow_undefined_pin_access: bool,
    /// Exposes the available pins to the mesh for reading and writing
    pub available_pins: Vec<crate::RemoteHardwarePin>,
}

impl Default for RemoteHardwareConfig {
    /// The message with every field unset: numbers 0, flags false, strings, bytes and lists
    /// empty, and no nested message.
    fn default() -> (r: Self)
        ensures
            r.enabled == false,
            r.allow_undefined_pin_access == false,
            r.available_pins@.len() == 0,
    {
        RemoteHardwareConfig {
            enabled: false,
            allow_undefined_pin_access: false,
            available_pins: Vec::new(),
        }
    }
}

/// NeighborInfoModule Config
#[derive(Clone, Debug, PartialEq)]
pub struct NeighborInfoConfig {
    /// Whether the Module is enabled
    pub enabled: bool,
    /// Interval in seconds of how often we should try to send our
    /// Neighbor Info (minimum is 14400, i.e., 4 hours)
    pub update_interval: u32,
    /// Whether in addition to sending it to MQTT and the PhoneAPI, our NeighborInfo should be transmitted over LoRa.
    /// Note that this is not available on a channel with default key and name.
    pub transmit_over_lora: bool,
}

impl Default for NeighborInfoConfig {
    /// The message with every field unset: numbers 0, flags false, strings, bytes and lists
    /// empty, and no nested message.
    fn default() -> (r: Self)
        ensures
            r.enabled == false,
            r.update_interval == 0,
            r.transmit_over_lora == false,
    {
        NeighborInfoConfig {
            enabled: false,
            update_interval: 0,
            transmit_over_lora: false,
        }
    }
}

/// Detection Sensor Module Config
#[derive(Clone, Debug, PartialEq)]
pub struct DetectionSensorConfig {
    /// Whether the Module is enabled
    pub enabled: bool,
    /// Interval in seconds of how often we can send a message to the mesh when a
    /// trigger event is detected
    pub minimum_broadcast_secs: u32,
    /// Interval in seconds of how often we should send a message to the mesh
    /// with the current state regardless of trigger events When set to 0, only
    /// trigger events will be broadcasted Works as a sort of status heartbeat
    /// for peace of mind
    pub state_broadcast_secs: u32,
    /// Send ASCII bell with alert message
    /// Useful for triggering ext. notification on bell
    pub send_bell: bool,
    /// Friendly name used to format message sent to mesh
    /// Example: A name "Motion" would result in a message "Motion detected"
    /// Maximum length of 20 characters
    pub name: String,
    /// GPIO pin to monitor for state changes
    pub monitor_pin: u32,
    /// The type of trigger event to be used
    pub detection_trigger_type: i32,
    /// Whether or not use INPUT_PULLUP mode for GPIO pin
    /// Only applicable if the board uses pull-up resistors on the pin
    pub use_pullup: bool,
}

impl DetectionSensorConfig {
    /// Returns the enum value of `detection_trigger_type`, or the default if the field is set to an invalid enum value.
    pub fn detection_trigger_type(&self) -> (r: crate::module_config::detection_sensor_config::TriggerType)
        ensures
            r == crate::module_config::detection_sensor_config::TriggerType::from_number_or_default(self.detection_trigger_type),
            (exists|e: crate::module_config::detection_sensor_config::TriggerType| #[trigger] e.value() == self.detection_trigger_type) ==> r.value() == self.detection_trigger_type,
            (forall|e: crate::module_config::detection_sensor_config::TriggerType| #[trigger] e.value() != self.detection_trigger_type) ==> r.value() == 0,
    {
        proof {
            crate::module_config::detection_sensor_config::TriggerType::lemma_number_or_default(self.detection_trigger_type);
        }
        match crate::module_config::detection_sensor_config::TriggerType::from_i32(self.detection_trigger_type) {
            Some(e) => e,
            None => <crate::module_config::detection_sensor_config::TriggerType as Default>::default(),
        }
    }

    /// Sets `detection_trigger_type` to the provided enum value.
    pub fn set_detection_trigger_type(&mut self, value: crate::module_config::detection_sensor_config::TriggerType)
        ensures
            *final(self) == (Self { detection_trigger_type: value.value(), ..*old(self) }),
    {
        self.detection_trigger_type = i32::from(value);
    }
}

impl Default for DetectionSensorConfig {
    /// The message with every field unset: numbers 0, flags false, strings, bytes and lists
    /// empty, and no nested message.
    fn default() -> (r: Self)
        ensures
            r.enabled == false,
            r.minimum_broadcast_secs == 0,
            r.state_broadcast_secs == 0,
            r.send_bell == false,
            r.name@ == Seq::<char>::empty(),
            r.monitor_pin == 0,
            r.detection_trigger_type == 0,
            r.use_pullup == false,
    {
        DetectionSensorConfig {
            enabled: false,
            minimum_broadcast_secs: 0,
            state_broadcast_secs: 0,
            send_bell: false,
            name: String::new(),
            monitor_pin: 0,
            detection_trigger_type: 0,
            use_pullup: false,
        }
    }
}

/// Audio Config for codec2 voice
#[derive(Clone, Debug, PartialEq)]
pub struct AudioConfig {
    /// Whether Audio is enabled
    pub codec2_enabled: bool,
    /// PTT Pin
    pub ptt_pin: u32,
    /// The audio sample rate to use for codec2
    pub bitrate: i32,
    /// I2S Word Select
    pub i2s_ws: u32,
    /// I2S Data IN
    pub i2s_sd: u32,
    /// I2S Data OUT
    pub i2s_din: u32,
    /// I2S Clock
    pub i2s_sck: u32,
}

impl AudioConfig {
    /// Returns the enum value of `bitrate`, or the default if the field is set to an invalid enum value.
    pub fn bitrate(&self) -> (r: crate::module_config::audio_config::AudioBaud)
        ensures
            r == crate::module_config::audio_config::AudioBaud::from_number_or_default(self.bitrate),
            (exists|e: crate::module_config::audio_config::AudioBaud| #[trigger] e.value() == self.bitrate) ==> r.value() == self.bitrate,
            (forall|e: crate::module_config::audio_config::AudioBaud| #[trigger] e.value() != self.bitrate) ==> r.value() == 0,
    {
        proof {
            crate::module_config::audio_config::AudioBaud::lemma_number_or_default(self.bitrate);
        }
        match crate::module_config::audio_config::AudioBaud::from_i32(self.bitrate) {
            Some(e) => e,
            None => <crate::module_config::audio_config::AudioBaud as Default>::default(),
        }
    }

    /// Sets `bitrate` to the provided enum value.
    pub fn set_bitrate(&mut self, value: crate::module_config::audio_config::AudioBaud)
        ensures
            *final(self) == (Self { bitrate: value.value(), ..*old(self) }),
    {
        self.bitrate = i32::from(value);
    }
}

impl Default for AudioConfig {
    /// The message with every field unset: numbers 0, flags false, strings, bytes and lists
    /// empty, and no nested message.
    fn default() -> (r: Self)
        ensures
            r.codec2_enabled == false,
            r.ptt_pin == 0,
            r.bitrate == 0,
            r.i2s_ws == 0,
            r.i2s_sd == 0,
            r.i2s_din == 0,
            r.i2s_sck == 0,
    {
        AudioConfig {
            codec2_enabled: false,
            ptt_pin: 0,
            bitrate: 0,
            i2s_ws: 0,
            i2s_sd: 0,
            i2s_din: 0,
            i2s_sck: 0,
        }
    }
}

/// Config for the Paxcounter Module
#[derive(Clone, Debug, PartialEq)]
pub struct PaxcounterConfig {
    /// Enable the Paxcounter Module
    pub enabled: bool,
    pub paxcounter_update_interval: u32,
    /// WiFi RSSI threshold. Defaults to -80
    pub wifi_threshold: i32,
    /// BLE RSSI threshold. Defaults to -80
    pub ble_threshold: i32,
}

impl Default for PaxcounterConfig {
    /// The message with every field unset: numbers 0, flags false, strings, bytes and lists
    /// empty, and no nested message.
    fn default() -> (r: Self)
        ensures
            r.enabled == false,
            r.paxcounter_update_interval == 0,
            r.wifi_threshold == 0,
            r.ble_threshold == 0,
    {
        PaxcounterConfig {
            enabled: false,
            paxcounter_update_interval: 0,
            wifi_threshold: 0,
            ble_threshold: 0,
        }
    }
}

/// Serial Config
#[derive(Clone, Debug, PartialEq)]
pub struct SerialConfig {
    /// Preferences for the SerialModule
    pub enabled: bool,
    pub echo: bool,
    /// RX pin (should match Arduino gpio pin number)
    pub rxd: u32,
    /// TX pin (should match Arduino gpio pin number)
    pub txd: u32,
    /// Serial baud rate
    pub baud: i32,
    pub timeout: u32,
    /// Mode for serial module operation
    pub mode: i32,
    /// Overrides the platform's defacto Serial port instance to use with Serial module config settings
    /// This is currently only usable in output modes like NMEA / CalTopo and may behave strangely or not work at all in other modes
    /// Existing logging over the Serial Console will still be present
    pub override_console_serial_port: bool,
}

impl SerialConfig {
    /// Returns the enum value of `baud`, or the default if the field is set to an invalid enum value.
    pub fn baud(&self) -> (r: crate::module_config::serial_config::SerialBaud)
        ensures
            r == crate::module_config::serial_config::SerialBaud::from_number_or_default(self.baud),
            (exists|e: crate::module_config::serial_config::SerialBaud| #[trigger] e.value() == self.baud) ==> r.value() == self.baud,
            (forall|e: crate::module_config::serial_config::SerialBaud| #[trigger] e.value() != self.baud) ==> r.value() == 0,
    {
        proof {
            crate::module_config::serial_config::SerialBaud::lemma_number_or_default(self.baud);
        }
        match crate::module_config::serial_config::SerialBaud::from_i32(self.baud) {
            Some(e) => e,
            None => <crate::module_config::serial_config::SerialBaud as Default>::default(),
        }
    }

    /// Sets `baud` to the provided enum value.
    pub fn set_baud(&mut self, value: crate::module_config::serial_config::SerialBaud)
        ensures
            *final(self) == (Self { baud: value.value(), ..*old(self) }),
    {
        self.baud = i32::from(value);
    }

    /// Returns the enum value of `mode`, or the default if the field is set to an invalid enum value.
    pub fn mode(&self) -> (r: crate::module_config::serial_config::SerialMode)
        ensures
            r == crate::module_config::serial_config::SerialMode::from_number_or_default(self.mode),
            (exists|e: crate::module_config::serial_config::SerialMode| #[trigger] e.value() == self.mode) ==> r.value() == self.mode,
            (forall|e: crate::module_config::serial_config::SerialMode| #[trigger] e.value() != self.mode) ==> r.value() == 0,
    {
        proof {
            crate::module_config::serial_config::SerialMode::lemma_number_or_default(self.mode);
        }
        match crate::module_config::serial_config::SerialMode::from_i32(self.mode) {
            Some(e) => e,
            None => <crate::module_config::serial_config::SerialMode as Default>::default(),
        }
    }

    /// Sets `mode` to the provided enum value.
    pub fn set_mode(&mut self, value: crate::module_config::serial_config::SerialMode)
        ensures
            *final(self) == (Self { mode: value.value(), ..*old(self) }),
    {
        self.mode = i32::from(value);
    }
}

impl Default for SerialConfig {
    /// The message with every field unset: numbers 0, flags false, strings, bytes and lists
    /// empty, and no nested message.
    fn default() -> (r: Self)
        ensures
            r.enabled == false,
            r.echo == false,
            r.rxd == 0,
            r.txd == 0,
            r.baud == 0,
            r.timeout == 0,
            r.mode == 0,
            r.override_console_serial_port == false,
    {
        SerialConfig {
            enabled: false,
            echo: false,
            rxd: 0,
            txd: 0,
            baud: 0,
            timeout: 0,
            mode: 0,
            override_console_serial_port: false,
        }
    }
}

/// External Notifications Config
#[derive(Clone, Debug, PartialEq)]
pub struct ExternalNotificationConfig {
    /// Enable the ExternalNotificationModule
    pub enabled: bool,
    /// When using in On/Off mode, keep the output on for this many
    /// milliseconds. Default 1000ms (1 second).
    pub output_ms: u32,
    /// Define the output pin GPIO setting Defaults to
    /// EXT_NOTIFY_OUT if set for the board.
    /// In standalone devices this pin should drive the LED to match the UI.
    pub output: u32,
    /// Optional: Define a secondary output pin for a vibra motor
    /// This is used in standalone devices to match the UI.
    pub output_vibra: u32,
    /// Optional: Define a tertiary output pin for an active buzzer
    /// This is used in standalone devices to to match the UI.
    pub output_buzzer: u32,
    /// IF this is true, the 'output' Pin will be pulled active high, false
    /// means active low.
    pub active: bool,
    /// True: Alert when a text message arrives (output)
    pub alert_message: bool,
    /// True: Alert when a text message arrives (output_vibra)
    pub alert_message_vibra: bool,
    /// True: Alert when a text message arrives (output_buzzer)
    pub alert_message_buzzer: bool,
    /// True: Alert when the bell character is received (output)
    pub alert_bell: bool,
    /// True: Alert when the bell character is received (output_vibra)
    pub alert_bell_vibra: bool,
    /// True: Alert when the bell character is received (output_buzzer)
    pub alert_bell_buzzer: bool,
    /// use a PWM output instead of a simple on/off output. This will ignore
    /// the 'output', 'output_ms' and 'active' settings and use the
    /// device.buzzer_gpio instead.
    pub use_pwm: bool,
    /// The notification will toggle with 'output_ms' for this time of seconds.
    /// Default is 0 which means don't repeat at all. 60 would mean blink
    /// and/or beep for 60 seconds
    pub nag_timeout: u32,
    /// When true, enables devices with native I2S audio output to use the RTTTL over speaker like a buzzer
    /// T-Watch S3 and T-Deck for example have this capability
    pub use_i2s_as_buzzer: bool,
}

impl Default for ExternalNotificationConfig {
    /// The message with every field unset: numbers 0, flags false, strings, bytes and lists
    /// empty, and no nested message.
    fn default() -> (r: Self)
        ensures
            r.enabled == false,
            r.output_ms == 0,
            r.output == 0,
            r.output_vibra == 0,
            r.output_buzzer == 0,
            r.active == false,
            r.alert_message == false,
            r.alert_message_vibra == false,
            r.alert_message_buzzer == false,
            r.alert_bell == false,
            r.alert_bell_vibra == false,
            r.alert_bell_buzzer == false,
            r.use_pwm == false,
            r.nag_timeout == 0,
            r.use_i2s_as_buzzer == false,
    {
        ExternalNotificationConfig {
            enabled: false,
            output_ms: 0,
            output: 0,
            output_vibra: 0,
            output_buzzer: 0,
            active: false,
            alert_message: false,
            alert_message_vibra: false,
            alert_message_buzzer: false,
            alert_bell: false,
            alert_bell_vibra: false,
            alert_bell_buzzer: false,
            use_pwm: false,
            nag_timeout: 0,
            use_i2s_as_buzzer: false,
        }
    }
}

/// Store and Forward Module Config
#[derive(Clone, Debug, PartialEq)]
pub struct StoreForwardConfig {
    /// Enable the Store and Forward Module
    pub enabled: bool,
    pub heartbeat: bool,
    pub records: u32,
    pub history_return_max: u32,
    pub history_return_window: u32,
    /// Set to true to let this node act as a server that stores received messages and resends them upon request.
    pub is_server: bool,
}

impl Default for StoreForwardConfig {
    /// The message with every field unset: numbers 0, flags false, strings, bytes and lists
    /// empty, and no nested message.
    fn default() -> (r: Self)
        ensures
            r.enabled == false,
            r.heartbeat == false,
            r.records == 0,
            r.history_return_max == 0,
            r.history_return_window == 0,
            r.is_server == false,
    {
        StoreForwardConfig {
            enabled: false,
            heartbeat: false,
            records: 0,
            history_return_max: 0,
            history_return_window: 0,
            is_server: false,
        }
    }
}

/// Preferences for the RangeTestModule
#[derive(Clone, Debug, PartialEq)]
pub struct RangeTestConfig {
    /// Enable the Range Test Module
    pub enabled: bool,
    /// Send out range test messages from this node
    pub sender: u32,
    /// Bool value indicating that this node should save a RangeTest.csv file.
    /// ESP32 Only
    pub save: bool,
}

impl Default for RangeTestConfig {
    /// The message with every field unset: numbers 0, flags false, strings, bytes and lists
    /// empty, and no nested message.
    fn default() -> (r: Self)
        ensures
            r.enabled == false,
            r.sender == 0,
            r.save == false,
    {
        RangeTestConfig {
            enabled: false,
            sender: 0,
            save: false,
        }
    }
}

/// Configuration for both device and environment metrics
#[derive(Clone, Debug, PartialEq)]
pub struct TelemetryConfig {
    /// Interval in seconds of how often we should try to send our
    /// device metrics to the mesh
    pub device_update_interval: u32,
    pub environment_update_interval: u32,
    /// Preferences for the Telemetry Module (Environment)
    /// Enable/Disable the telemetry measurement module measurement collection
    pub environment_measurement_enabled: bool,
    /// Enable/Disable the telemetry measurement module on-device display
    pub environment_screen_enabled: bool,
    /// We'll always read the sensor in Celsius, but sometimes we might want to
    /// display the results in Fahrenheit as a "user preference".
    pub environment_display_fahrenheit: bool,
    /// Enable/Disable the air quality metrics
    pub air_quality_enabled: bool,
    /// Interval in seconds of how often we should try to send our
    /// air quality metrics to the mesh
    pub air_quality_interval: u32,
    /// Enable/disable Power metrics
    pub power_measurement_enabled: bool,
    /// Interval in seconds of how often we should try to send our
    /// power metrics to the mesh
    pub power_update_interval: u32,
    /// Enable/Disable the power measurement module on-device display
    pub power_screen_enabled: bool,
    /// Preferences for the (Health) Telemetry Module
    /// Enable/Disable the telemetry measurement module measurement collection
    pub health_measurement_enabled: bool,
    /// Interval in seconds of how often we should try to send our
    /// health metrics to the mesh
    pub health_update_interval: u32,
    /// Enable/Disable the health telemetry module on-device display
    pub health_screen_enabled: bool,
}

impl Default for TelemetryConfig {
    /// The message with every field unset: numbers 0, flags false, strings, bytes and lists
    /// empty, and no nested message.
    fn default() -> (r: Self)
        ensures
            r.device_update_interval == 0,
            r.environment_update_interval == 0,
            r.environment_measurement_enabled == false,
            r.environment_screen_enabled == false,
            r.environment_display_fahrenheit == false,
            r.air_quality_enabled == false,
            r.air_quality_interval == 0,
            r.power_measurement_enabled == false,
            r.power_update_interval == 0,
            r.power_screen_enabled == false,
            r.health_measurement_enabled == false,
            r.health_update_interval == 0,
            r.health_screen_enabled == false,
    {
        TelemetryConfig {
            device_update_interval: 0,
            environment_update_interval: 0,
            environment_measurement_enabled: false,
            environment_screen_enabled: false,
            environment_display_fahrenheit: false,
            air_quality_enabled: false,
            air_quality_interval: 0,
            power_measurement_enabled: false,
            power_update_interval: 0,
            power_screen_enabled: false,
            health_measurement_enabled: false,
            health_update_interval: 0,
            health_screen_enabled: false,
        }
    }
}

#[derive(Clone, Debug, PartialEq)]
pub struct CannedMessageConfig {
    /// Enable the rotary encoder #1. This is a 'dumb' encoder sending pulses on both A and B pins while rotating.
    pub rotary1_enabled: bool,
    /// GPIO pin for rotary encoder A port.
    pub inputbroker_pin_a: u32,
    /// GPIO pin for rotary encoder B port.
    pub inputbroker_pin_b: u32,
    /// GPIO pin for rotary encoder Press port.
    pub inputbroker_pin_press: u32,
    /// Generate input event on CW of this kind.
    pub inputbroker_event_cw: i32,
    /// Generate input event on CCW of this kind.
    pub inputbroker_event_ccw: i32,
    /// Generate input event on Press of this kind.
    pub inputbroker_event_press: i32,
    /// Enable the Up/Down/Select input device. Can be RAK rotary encoder or 3 buttons. Uses the a/b/press definitions from inputbroker.
    pub updown1_enabled: bool,
    /// Enable/disable CannedMessageModule.
    pub enabled: bool,
    /// Input event origin accepted by the canned message module.
    /// Can be e.g. "rotEnc1", "upDownEnc1", "scanAndSelect", "cardkb", "serialkb", or keyword "_any"
    pub allow_input_source: String,
    /// CannedMessageModule also sends a bell character with the messages.
    /// ExternalNotificationModule can benefit from this feature.
    pub send_bell: bool,
}

impl CannedMessageConfig {
    /// Returns the enum value of `inputbroker_event_cw`, or the default if the field is set to an invalid enum value.
    pub fn inputbroker_event_cw(&self) -> (r: crate::module_config::canned_message_config::InputEventChar)
        ensures
            r == crate::module_config::canned_message_config::InputEventChar::from_number_or_default(self.inputbroker_event_cw),
            (exists|e: crate::module_config::canned_message_config::InputEventChar| #[trigger] e.value() == self.inputbroker_event_cw) ==> r.value() == self.inputbroker_event_cw,
            (forall|e: crate::module_config::canned_message_config::InputEventChar| #[trigger] e.value() != self.inputbroker_event_cw) ==> r.value() == 0,
    {
        proof {
            crate::module_config::canned_message_config::InputEventChar::lemma_number_or_default(self.inputbroker_event_cw);
        }
        match crate::module_config::canned_message_config::InputEventChar::from_i32(self.inputbroker_event_cw) {
            Some(e) => e,
            None => <crate::module_config::canned_message_config::InputEventChar as Default>::default(),
        }
    }

    /// Sets `inputbroker_event_cw` to the provided enum value.
    pub fn set_inputbroker_event_cw(&mut self, value: crate::module_config::canned_message_config::InputEventChar)
        ensures
            *final(self) == (Self { inputbroker_event_cw: value.value(), ..*old(self) }),
    {
        self.inputbroker_event_cw = i32::from(value);
    }

    /// Returns the enum value of `inputbroker_event_ccw`, or the default if the field is set to an invalid enum value.
    pub fn inputbroker_event_ccw(&self) -> (r: crate::module_config::canned_message_config::InputEventChar)
        ensures
            r == crate::module_config::canned_message_config::InputEventChar::from_number_or_default(self.inputbroker_event_ccw),
            (exists|e: crate::module_config::canned_message_config::InputEventChar| #[trigger] e.value() == self.inputbroker_event_ccw) ==> r.value() == self.inputbroker_event_ccw,
            (forall|e: crate::module_config::canned_message_config::InputEventChar| #[trigger] e.value() != self.inputbroker_event_ccw) ==> r.value() == 0,
    {
        proof {
            crate::module_config::canned_message_config::InputEventChar::lemma_number_or_default(self.inputbroker_event_ccw);
        }
        match crate::module_config::canned_message_config::InputEventChar::from_i32(self.inputbroker_event_ccw) {
            Some(e) => e,
            None => <crate::module_config::canned_message_config::InputEventChar as Default>::default(),
        }
    }

    /// Sets `inputbroker_event_ccw` to the provided enum value.
    pub fn set_inputbroker_event_ccw(&mut self, value: crate::module_config::canned_message_config::InputEventChar)
        ensures
            *final(self) == (Self { inputbroker_event_ccw: value.value(), ..*old(self) }),
    {
        self.inputbroker_event_ccw = i32::from(value);
    }

    /// Returns the enum value of `inputbroker_event_press`, or the default if the field is set to an invalid enum value.
    pub fn inputbroker_event_press(&self) -> (r: crate::module_config::canned_message_config::InputEventChar)
        ensures
            r == crate::module_config::canned_message_config::InputEventChar::from_number_or_default(self.inputbroker_event_press),
            (exists|e: crate::module_config::canned_message_config::InputEventChar| #[trigger] e.value() == self.inputbroker_event_press) ==> r.value() == self.inputbroker_event_press,
            (forall|e: crate::module_config::canned_message_config::InputEventChar| #[trigger] e.value() != self.inputbroker_event_press) ==> r.value() == 0,
    {
        proof {
            crate::module_config::canned_message_config::InputEventChar::lemma_number_or_default(self.inputbroker_event_press);
        }
        match crate::module_config::canned_message_config::InputEventChar::from_i32(self.inputbroker_event_press) {
            Some(e) => e,
            None => <crate::module_config::canned_message_config::InputEventChar as Default>::default(),
        }
    }

    /// Sets `inputbroker_event_press` to the provided enum value.
    pub fn set_inputbroker_event_press(&mut self, value: crate::module_config::canned_message_config::InputEventChar)
        ensures
            *final(self) == (Self { inputbroker_event_press: value.value(), ..*old(self) }),
    {
        self.inputbroker_event_press = i32::from(value);
    }
}

impl Default for CannedMessageConfig {
    /// The message with every field unset: numbers 0, flags false, strings, bytes and lists
    /// empty, and no nested message.
    fn default() -> (r: Self)
        ensures
            r.rotary1_enabled == false,
            r.inputbroker_pin_a == 0,
            r.inputbroker_pin_b == 0,
            r.inputbroker_pin_press == 0,
            r.inputbroker_event_cw == 0,
            r.inputbroker_event_ccw == 0,
            r.inputbroker_event_press == 0,
            r.updown1_enabled == false,
            r.enabled == false,
            r.allow_input_source@ == Seq::<char>::empty(),
            r.send_bell == false,
    {
        CannedMessageConfig {
            rotary1_enabled: false,
            inputbroker_pin_a: 0,
            inputbroker_pin_b: 0,
            inputbroker_pin_press: 0,
            inputbroker_event_cw: 0,
            inputbroker_event_ccw: 0,
            inputbroker_event_press: 0,
            updown1_enabled: false,
            enabled: false,
            allow_input_source: String::new(),
            send_bell: false,
        }
    }
}

/// Ambient Lighting Module - Settings for control of onboard LEDs to allow users to adjust the brightness levels and respective color levels.
/// Initially created for the RAK14001 RGB LED module.
#[derive(Clone, Debug, PartialEq)]
pub struct AmbientLightingConfig {
    /// Sets LED to on or off.
    pub led_state: bool,
    /// Sets the current for the LED output. Default is 10.
    pub current: u32,
    /// Sets the red LED level. Values are 0-255.
    pub red: u32,
    /// Sets the green LED level. Values are 0-255.
    pub green: u32,
    /// Sets the blue LED level. Values are 0-255.
    pub blue: u32,
}

impl Default for AmbientLightingConfig {
    /// The message with every field unset: numbers 0, flags false, strings, bytes and lists
    /// empty, and no nested message.
    fn default() -> (r: Self)
        ensures
            r.led_state == false,
            r.current == 0,
            r.red == 0,
            r.green == 0,
            r.blue == 0,
    {
        AmbientLightingConfig {
            led_state: false,
            current: 0,
            red: 0,
            green: 0,
            blue: 0,
        }
    }
}

#[derive(Clone, Debug, PartialEq)]
pub enum PayloadVariant {
    Mqtt(crate::module_config::MqttConfig),
    Serial(crate::module_config::SerialConfig),
    ExternalNotification(crate::module_config::ExternalNotificationConfig),
    StoreForward(crate::module_config::StoreForwardConfig),
    RangeTest(crate::module_config::RangeTestConfig),
    Telemetry(crate::module_config::TelemetryConfig),
    CannedMessage(crate::module_config::CannedMessageConfig),
    Audio(crate::module_config::AudioConfig),
    RemoteHardware(crate::module_config::RemoteHardwareConfig),
    NeighborInfo(crate::module_config::NeighborInfoConfig),
    AmbientLighting(crate::module_config::AmbientLightingConfig),
    DetectionSensor(crate::module_config::DetectionSensorConfig),
    Paxcounter(crate::module_config::PaxcounterConfig),
}

} // verus!
