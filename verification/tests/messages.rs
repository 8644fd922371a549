use meshtastic::channel::Role as ChannelRole;
use meshtastic::config::device_config::Role as DeviceRole;
use meshtastic::config::DeviceConfig;
use meshtastic::log_record::Level;
use meshtastic::module_config::canned_message_config::InputEventChar;
use meshtastic::module_config::CannedMessageConfig;
use meshtastic::text::str_eq;
use meshtastic::{Channel, HardwareMessage, Position, RemoteHardwarePin, RemoteHardwarePinType, User, HardwareModel};

#[test]
fn str_eq_compares_characters() {
    assert!(str_eq("", ""));
    assert!(str_eq("ROUTER", "ROUTER"));
    assert!(!str_eq("ROUTER", "ROUTER_LATE"));
    assert!(!str_eq("ROUTER", "router"));
    assert!(!str_eq("ab", "ba"));
    assert!(str_eq("\u{e9}t\u{e9}", "\u{e9}t\u{e9}"));
    assert!(!str_eq("\u{e9}", "e"));
}

#[test]
fn enum_getter_reads_the_stored_number() {
    let mut channel = Channel::default();
    assert_eq!(channel.role, 0);
    assert_eq!(channel.role(), ChannelRole::Disabled);
    channel.role = 2;
    assert_eq!(channel.role(), ChannelRole::Secondary);
}

#[test]
fn enum_getter_falls_back_to_the_default_on_unknown_numbers() {
    let mut channel = Channel::default();
    channel.role = 17;
    assert_eq!(channel.role(), ChannelRole::Disabled);
    channel.role = -3;
    assert_eq!(channel.role(), ChannelRole::Disabled);

    let mut config = DeviceConfig::default();
    config.role = 42;
    assert_eq!(config.role(), DeviceRole::Client);
}

#[test]
fn enum_setter_stores_the_number_and_keeps_other_fields() {
    let mut config = DeviceConfig::default();
    config.serial_enabled = true;
    config.node_info_broadcast_secs = 900;
    config.set_role(DeviceRole::Router);
    assert_eq!(config.role, 2);
    assert_eq!(config.role(), DeviceRole::Router);
    assert!(config.serial_enabled);
    assert_eq!(config.node_info_broadcast_secs, 900);

    let mut canned = CannedMessageConfig::default();
    canned.set_inputbroker_event_cw(InputEventChar::Select);
    assert_eq!(canned.inputbroker_event_cw, 10);
    canned.set_inputbroker_event_press(InputEventChar::Cancel);
    assert_eq!(canned.inputbroker_event_press, 24);
    assert_eq!(canned.inputbroker_event_cw(), InputEventChar::Select);
}

#[test]
fn renamed_type_field_accessors() {
    let mut pin = RemoteHardwarePin::default();
    pin.set_type(RemoteHardwarePinType::DigitalWrite);
    assert_eq!(pin.type_, 2);
    assert_eq!(pin.type_(), RemoteHardwarePinType::DigitalWrite);

    let mut message = HardwareMessage::default();
    message.type_ = 99;
    assert_eq!(message.type_(), meshtastic::hardware_message::Type::Unset);
}

#[test]
fn optional_getters_return_the_value_or_the_default() {
    let mut position = Position::default();
    assert_eq!(position.latitude_i(), 0);
    assert_eq!(position.altitude(), 0);
    position.latitude_i = Some(-374_221_000);
    position.altitude = Some(-12);
    assert_eq!(position.latitude_i(), -374_221_000);
    assert_eq!(position.altitude(), -12);
}

#[test]
fn user_hardware_model_round_trip() {
    let mut user = User::default();
    user.set_hw_model(HardwareModel::Rak4631);
    assert_eq!(user.hw_model, 9);
    assert_eq!(user.hw_model(), HardwareModel::Rak4631);
    assert_eq!(user.hw_model().as_str_name(), "RAK4631");
}

#[test]
fn ordering_follows_protobuf_numbers() {
    assert!(Level::Unset < Level::Trace);
    assert!(Level::Trace < Level::Debug);
    assert!(Level::Warning < Level::Error);
    assert!(Level::Error < Level::Critical);
    assert!(InputEventChar::NoneValue < InputEventChar::Select);
    assert!(InputEventChar::Select < InputEventChar::Up);
    assert!(InputEventChar::Right < InputEventChar::Cancel);
    assert!(InputEventChar::Cancel < InputEventChar::Back);
}

#[test]
fn message_defaults_leave_every_field_unset() {
    let settings = meshtastic::ChannelSettings::default();
    assert_eq!(settings.channel_num, 0);
    assert!(settings.psk.is_empty());
    assert!(settings.name.is_empty());
    assert!(!settings.uplink_enabled);
    assert!(settings.module_settings.is_none());

    let user = User::default();
    assert!(user.id.is_empty());
    assert_eq!(user.hw_model(), HardwareModel::Unset);
    assert!(user.is_licensed == false);

    let position = Position::default();
    assert!(position.latitude_i.is_none());
    assert_eq!(position.location_source(), meshtastic::position::LocSource::LocUnset);
}

#[test]
fn nested_oneof_payloads_hold_their_messages() {
    let mut data = meshtastic::Data::default();
    data.set_portnum(meshtastic::PortNum::TextMessageApp);
    data.payload = b"hello".to_vec();
    let payload = meshtastic::mesh_packet::PayloadVariant::Decoded(data.clone());
    match payload {
        meshtastic::mesh_packet::PayloadVariant::Decoded(d) => {
            assert_eq!(d.portnum(), meshtastic::PortNum::TextMessageApp);
            assert_eq!(d.portnum, 1);
            assert_eq!(d, data);
        }
        _ => panic!("expected a decoded payload"),
    }
}

#[test]
fn constants_carry_their_numbers() {
    assert_eq!(i32::from(meshtastic::Constants::DataPayloadLen), 233);
    assert_eq!(meshtastic::Constants::from_str_name("DATA_PAYLOAD_LEN"), Some(meshtastic::Constants::DataPayloadLen));
}

#[test]
fn optional_string_getters() {
    let mut chat = meshtastic::GeoChat::default();
    assert_eq!(chat.to(), "");
    assert_eq!(chat.to_callsign(), "");
    chat.to = Some("ANDROID-1234".to_string());
    assert_eq!(chat.to(), "ANDROID-1234");
    assert_eq!(chat.to_callsign(), "");
}
