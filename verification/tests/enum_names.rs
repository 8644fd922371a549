#[test]
fn channel_role_names_and_numbers() {
    let all = [
        (meshtastic::channel::Role::Disabled, "DISABLED", 0),
        (meshtastic::channel::Role::Primary, "PRIMARY", 1),
        (meshtastic::channel::Role::Secondary, "SECONDARY", 2),
    ];
    for (e, name, number) in all {
        assert_eq!(e.as_str_name(), name);
        assert_eq!(meshtastic::channel::Role::from_str_name(name), Some(e));
        assert_eq!(meshtastic::channel::Role::from_str_name(&name.to_lowercase()), None);
        assert_eq!(meshtastic::channel::Role::from_str_name(&format!("{} ", name)), None);
        assert_eq!(i32::from(e), number);
        assert_eq!(meshtastic::channel::Role::from_i32(number), Some(e));
        assert!(meshtastic::channel::Role::is_valid(number));
        assert_eq!(meshtastic::channel::Role::try_from(number), Ok(e));
    }
    assert_eq!(meshtastic::channel::Role::from_str_name(""), None);
    assert_eq!(meshtastic::channel::Role::from_i32(3), None);
    assert!(!meshtastic::channel::Role::is_valid(3));
    assert!(!meshtastic::channel::Role::is_valid(-1));
    assert_eq!(meshtastic::channel::Role::try_from(3), Err(prost::UnknownEnumValue(3)));
    assert_eq!(meshtastic::channel::Role::default(), meshtastic::channel::Role::Disabled);
    assert_eq!(i32::from(meshtastic::channel::Role::default()), 0);
}

#[test]
fn theme_names_and_numbers() {
    let all = [
        (meshtastic::Theme::Dark, "DARK", 0),
        (meshtastic::Theme::Light, "LIGHT", 1),
        (meshtastic::Theme::Red, "RED", 2),
    ];
    for (e, name, number) in all {
        assert_eq!(e.as_str_name(), name);
        assert_eq!(meshtastic::Theme::from_str_name(name), Some(e));
        assert_eq!(meshtastic::Theme::from_str_name(&name.to_lowercase()), None);
        assert_eq!(meshtastic::Theme::from_str_name(&format!("{} ", name)), None);
        assert_eq!(i32::from(e), number);
        assert_eq!(meshtastic::Theme::from_i32(number), Some(e));
        assert!(meshtastic::Theme::is_valid(number));
        assert_eq!(meshtastic::Theme::try_from(number), Ok(e));
    }
    assert_eq!(meshtastic::Theme::from_str_name(""), None);
    assert_eq!(meshtastic::Theme::from_i32(3), None);
    assert!(!meshtastic::Theme::is_valid(3));
    assert!(!meshtastic::Theme::is_valid(-1));
    assert_eq!(meshtastic::Theme::try_from(3), Err(prost::UnknownEnumValue(3)));
    assert_eq!(meshtastic::Theme::default(), meshtastic::Theme::Dark);
    assert_eq!(i32::from(meshtastic::Theme::default()), 0);
}

#[test]
fn language_names_and_numbers() {
    let all = [
        (meshtastic::Language::English, "ENGLISH", 0),
        (meshtastic::Language::French, "FRENCH", 1),
        (meshtastic::Language::German, "GERMAN", 2),
        (meshtastic::Language::Italian, "ITALIAN", 3),
        (meshtastic::Language::Portuguese, "PORTUGUESE", 4),
        (meshtastic::Language::Spanish, "SPANISH", 5),
        (meshtastic::Language::Swedish, "SWEDISH", 6),
        (meshtastic::Language::Finnish, "FINNISH", 7),
        (meshtastic::Language::Polish, "POLISH", 8),
        (meshtastic::Language::Turkish, "TURKISH", 9),
        (meshtastic::Language::Serbian, "SERBIAN", 10),
        (meshtastic::Language::Russian, "RUSSIAN", 11),
        (meshtastic::Language::Dutch, "DUTCH", 12),
        (meshtastic::Language::Greek, "GREEK", 13),
        (meshtastic::Language::Norwegian, "NORWEGIAN", 14),
        (meshtastic::Language::Slovenian, "SLOVENIAN", 15),
        (meshtastic::Language::SimplifiedChinese, "SIMPLIFIED_CHINESE", 30),
        (meshtastic::Language::TraditionalChinese, "TRADITIONAL_CHINESE", 31),
    ];
    for (e, name, number) in all {
        assert_eq!(e.as_str_name(), name);
        assert_eq!(meshtastic::Language::from_str_name(name), Some(e));
        assert_eq!(meshtastic::Language::from_str_name(&name.to_lowercase()), None);
        assert_eq!(meshtastic::Language::from_str_name(&format!("{} ", name)), None);
        assert_eq!(i32::from(e), number);
        assert_eq!(meshtastic::Language::from_i32(number), Some(e));
        assert!(meshtastic::Language::is_valid(number));
        assert_eq!(meshtastic::Language::try_from(number), Ok(e));
    }
    assert_eq!(meshtastic::Language::from_str_name(""), None);
    assert_eq!(meshtastic::Language::from_i32(99), None);
    assert!(!meshtastic::Language::is_valid(99));
    assert!(!meshtastic::Language::is_valid(-1));
    assert_eq!(meshtastic::Language::try_from(99), Err(prost::UnknownEnumValue(99)));
    assert_eq!(meshtastic::Language::default(), meshtastic::Language::English);
    assert_eq!(i32::from(meshtastic::Language::default()), 0);
}

#[test]
fn config_device_config_role_names_and_numbers() {
    let all = [
        (meshtastic::config::device_config::Role::Client, "CLIENT", 0),
        (meshtastic::config::device_config::Role::ClientMute, "CLIENT_MUTE", 1),
        (meshtastic::config::device_config::Role::Router, "ROUTER", 2),
        (meshtastic::config::device_config::Role::RouterClient, "ROUTER_CLIENT", 3),
        (meshtastic::config::device_config::Role::Repeater, "REPEATER", 4),
        (meshtastic::config::device_config::Role::Tracker, "TRACKER", 5),
        (meshtastic::config::device_config::Role::Sensor, "SENSOR", 6),
        (meshtastic::config::device_config::Role::Tak, "TAK", 7),
        (meshtastic::config::device_config::Role::ClientHidden, "CLIENT_HIDDEN", 8),
        (meshtastic::config::device_config::Role::LostAndFound, "LOST_AND_FOUND", 9),
        (meshtastic::config::device_config::Role::TakTracker, "TAK_TRACKER", 10),
        (meshtastic::config::device_config::Role::RouterLate, "ROUTER_LATE", 11),
    ];
    for (e, name, number) in all {
        assert_eq!(e.as_str_name(), name);
        assert_eq!(meshtastic::config::device_config::Role::from_str_name(name), Some(e));
        assert_eq!(meshtastic::config::device_config::Role::from_str_name(&name.to_lowercase()), None);
        assert_eq!(meshtastic::config::device_config::Role::from_str_name(&format!("{} ", name)), None);
        assert_eq!(i32::from(e), number);
        assert_eq!(meshtastic::config::device_config::Role::from_i32(number), Some(e));
        assert!(meshtastic::config::device_config::Role::is_valid(number));
        assert_eq!(meshtastic::config::device_config::Role::try_from(number), Ok(e));
    }
    assert_eq!(meshtastic::config::device_config::Role::from_str_name(""), None);
    assert_eq!(meshtastic::config::device_config::Role::from_i32(99), None);
    assert!(!meshtastic::config::device_config::Role::is_valid(99));
    assert!(!meshtastic::config::device_config::Role::is_valid(-1));
    assert_eq!(meshtastic::config::device_config::Role::try_from(99), Err(prost::UnknownEnumValue(99)));
    assert_eq!(meshtastic::config::device_config::Role::default(), meshtastic::config::device_config::Role::Client);
    assert_eq!(i32::from(meshtastic::config::device_config::Role::default()), 0);
}

#[test]
fn config_device_config_rebroadcast_mode_names_and_numbers() {
    let all = [
        (meshtastic::config::device_config::RebroadcastMode::All, "ALL", 0),
        (meshtastic::config::device_config::RebroadcastMode::AllSkipDecoding, "ALL_SKIP_DECODING", 1),
        (meshtastic::config::device_config::RebroadcastMode::LocalOnly, "LOCAL_ONLY", 2),
        (meshtastic::config::device_config::RebroadcastMode::KnownOnly, "KNOWN_ONLY", 3),
        (meshtastic::config::device_config::RebroadcastMode::NoneValue, "NONE", 4),
        (meshtastic::config::device_config::RebroadcastMode::CorePortnumsOnly, "CORE_PORTNUMS_ONLY", 5),
    ];
    for (e, name, number) in all {
        assert_eq!(e.as_str_name(), name);
        assert_eq!(meshtastic::config::device_config::RebroadcastMode::from_str_name(name), Some(e));
        assert_eq!(meshtastic::config::device_config::RebroadcastMode::from_str_name(&name.to_lowercase()), None);
        assert_eq!(meshtastic::config::device_config::RebroadcastMode::from_str_name(&format!("{} ", name)), None);
        assert_eq!(i32::from(e), number);
        assert_eq!(meshtastic::config::device_config::RebroadcastMode::from_i32(number), Some(e));
        assert!(meshtastic::config::device_config::RebroadcastMode::is_valid(number));
        assert_eq!(meshtastic::config::device_config::RebroadcastMode::try_from(number), Ok(e));
    }
    assert_eq!(meshtastic::config::device_config::RebroadcastMode::from_str_name(""), None);
    assert_eq!(meshtastic::config::device_config::RebroadcastMode::from_i32(7), None);
    assert!(!meshtastic::config::device_config::RebroadcastMode::is_valid(7));
    assert!(!meshtastic::config::device_config::RebroadcastMode::is_valid(-1));
    assert_eq!(meshtastic::config::device_config::RebroadcastMode::try_from(7), Err(prost::UnknownEnumValue(7)));
    assert_eq!(meshtastic::config::device_config::RebroadcastMode::default(), meshtastic::config::device_config::RebroadcastMode::All);
    assert_eq!(i32::from(meshtastic::config::device_config::RebroadcastMode::default()), 0);
}

#[test]
fn config_position_config_position_flags_names_and_numbers() {
    let all = [
        (meshtastic::config::position_config::PositionFlags::Unset, "UNSET", 0),
        (meshtastic::config::position_config::PositionFlags::Altitude, "ALTITUDE", 1),
        (meshtastic::config::position_config::PositionFlags::AltitudeMsl, "ALTITUDE_MSL", 2),
        (meshtastic::config::position_config::PositionFlags::GeoidalSeparation, "GEOIDAL_SEPARATION", 4),
        (meshtastic::config::position_config::PositionFlags::Dop, "DOP", 8),
        (meshtastic::config::position_config::PositionFlags::Hvdop, "HVDOP", 16),
        (meshtastic::config::position_config::PositionFlags::Satinview, "SATINVIEW", 32),
        (meshtastic::config::position_config::PositionFlags::SeqNo, "SEQ_NO", 64),
        (meshtastic::config::position_config::PositionFlags::Timestamp, "TIMESTAMP", 128),
        (meshtastic::config::position_config::PositionFlags::Heading, "HEADING", 256),
        (meshtastic::config::position_config::PositionFlags::Speed, "SPEED", 512),
    ];
    for (e, name, number) in all {
        assert_eq!(e.as_str_name(), name);
        assert_eq!(meshtastic::config::position_config::PositionFlags::from_str_name(name), Some(e));
        assert_eq!(meshtastic::config::position_config::PositionFlags::from_str_name(&name.to_lowercase()), None);
        assert_eq!(meshtastic::config::position_config::PositionFlags::from_str_name(&format!("{} ", name)), None);
        assert_eq!(i32::from(e), number);
        assert_eq!(meshtastic::config::position_config::PositionFlags::from_i32(number), Some(e));
        assert!(meshtastic::config::position_config::PositionFlags::is_valid(number));
        assert_eq!(meshtastic::config::position_config::PositionFlags::try_from(number), Ok(e));
    }
    assert_eq!(meshtastic::config::position_config::PositionFlags::from_str_name(""), None);
    assert_eq!(meshtastic::config::position_config::PositionFlags::from_i32(3), None);
    assert!(!meshtastic::config::position_config::PositionFlags::is_valid(3));
    assert!(!meshtastic::config::position_config::PositionFlags::is_valid(-1));
    assert_eq!(meshtastic::config::position_config::PositionFlags::try_from(3), Err(prost::UnknownEnumValue(3)));
    assert_eq!(meshtastic::config::position_config::PositionFlags::default(), meshtastic::config::position_config::PositionFlags::Unset);
    assert_eq!(i32::from(meshtastic::config::position_config::PositionFlags::default()), 0);
}

#[test]
fn config_position_config_gps_mode_names_and_numbers() {
    let all = [
        (meshtastic::config::position_config::GpsMode::Disabled, "DISABLED", 0),
        (meshtastic::config::position_config::GpsMode::Enabled, "ENABLED", 1),
        (meshtastic::config::position_config::GpsMode::NotPresent, "NOT_PRESENT", 2),
    ];
    for (e, name, number) in all {
        assert_eq!(e.as_str_name(), name);
        assert_eq!(meshtastic::config::position_config::GpsMode::from_str_name(name), Some(e));
        assert_eq!(meshtastic::config::position_config::GpsMode::from_str_name(&name.to_lowercase()), None);
        assert_eq!(meshtastic::config::position_config::GpsMode::from_str_name(&format!("{} ", name)), None);
        assert_eq!(i32::from(e), number);
        assert_eq!(meshtastic::config::position_config::GpsMode::from_i32(number), Some(e));
        assert!(meshtastic::config::position_config::GpsMode::is_valid(number));
        assert_eq!(meshtastic::config::position_config::GpsMode::try_from(number), Ok(e));
    }
    assert_eq!(meshtastic::config::position_config::GpsMode::from_str_name(""), None);
    assert_eq!(meshtastic::config::position_config::GpsMode::from_i32(3), None);
    assert!(!meshtastic::config::position_config::GpsMode::is_valid(3));
    assert!(!meshtastic::config::position_config::GpsMode::is_valid(-1));
    assert_eq!(meshtastic::config::position_config::GpsMode::try_from(3), Err(prost::UnknownEnumValue(3)));
    assert_eq!(meshtastic::config::position_config::GpsMode::default(), meshtastic::config::position_config::GpsMode::Disabled);
    assert_eq!(i32::from(meshtastic::config::position_config::GpsMode::default()), 0);
}

#[test]
fn config_network_config_address_mode_names_and_numbers() {
    let all = [
        (meshtastic::config::network_config::AddressMode::Dhcp, "DHCP", 0),
        (meshtastic::config::network_config::AddressMode::Static, "STATIC", 1),
    ];
    for (e, name, number) in all {
        assert_eq!(e.as_str_name(), name);
        assert_eq!(meshtastic::config::network_config::AddressMode::from_str_name(name), Some(e));
        assert_eq!(meshtastic::config::network_config::AddressMode::from_str_name(&name.to_lowercase()), None);
        assert_eq!(meshtastic::config::network_config::AddressMode::from_str_name(&format!("{} ", name)), None);
        assert_eq!(i32::from(e), number);
        assert_eq!(meshtastic::config::network_config::AddressMode::from_i32(number), Some(e));
        assert!(meshtastic::config::network_config::AddressMode::is_valid(number));
        assert_eq!(meshtastic::config::network_config::AddressMode::try_from(number), Ok(e));
    }
    assert_eq!(meshtastic::config::network_config::AddressMode::from_str_name(""), None);
    assert_eq!(meshtastic::config::network_config::AddressMode::from_i32(3), None);
    assert!(!meshtastic::config::network_config::AddressMode::is_valid(3));
    assert!(!meshtastic::config::network_config::AddressMode::is_valid(-1));
    assert_eq!(meshtastic::config::network_config::AddressMode::try_from(3), Err(prost::UnknownEnumValue(3)));
    assert_eq!(meshtastic::config::network_config::AddressMode::default(), meshtastic::config::network_config::AddressMode::Dhcp);
    assert_eq!(i32::from(meshtastic::config::network_config::AddressMode::default()), 0);
}

#[test]
fn config_network_config_protocol_flags_names_and_numbers() {
    let all = [
        (meshtastic::config::network_config::ProtocolFlags::NoBroadcast, "NO_BROADCAST", 0),
        (meshtastic::config::network_config::ProtocolFlags::UdpBroadcast, "UDP_BROADCAST", 1),
    ];
    for (e, name, number) in all {
        assert_eq!(e.as_str_name(), name);
        assert_eq!(meshtastic::config::network_config::ProtocolFlags::from_str_name(name), Some(e));
        assert_eq!(meshtastic::config::network_config::ProtocolFlags::from_str_name(&name.to_lowercase()), None);
        assert_eq!(meshtastic::config::network_config::ProtocolFlags::from_str_name(&format!("{} ", name)), None);
        assert_eq!(i32::from(e), number);
        assert_eq!(meshtastic::config::network_config::ProtocolFlags::from_i32(number), Some(e));
        assert!(meshtastic::config::network_config::ProtocolFlags::is_valid(number));
        assert_eq!(meshtastic::config::network_config::ProtocolFlags::try_from(number), Ok(e));
    }
    assert_eq!(meshtastic::config::network_config::ProtocolFlags::from_str_name(""), None);
    assert_eq!(meshtastic::config::network_config::ProtocolFlags::from_i32(3), None);
    assert!(!meshtastic::config::network_config::ProtocolFlags::is_valid(3));
    assert!(!meshtastic::config::network_config::ProtocolFlags::is_valid(-1));
    assert_eq!(meshtastic::config::network_config::ProtocolFlags::try_from(3), Err(prost::UnknownEnumValue(3)));
    assert_eq!(meshtastic::config::network_config::ProtocolFlags::default(), meshtastic::config::network_config::ProtocolFlags::NoBroadcast);
    assert_eq!(i32::from(meshtastic::config::network_config::ProtocolFlags::default()), 0);
}

#[test]
fn config_display_config_gps_coordinate_format_names_and_numbers() {
    let all = [
        (meshtastic::config::display_config::GpsCoordinateFormat::Dec, "DEC", 0),
        (meshtastic::config::display_config::GpsCoordinateFormat::Dms, "DMS", 1),
        (meshtastic::config::display_config::GpsCoordinateFormat::Utm, "UTM", 2),
        (meshtastic::config::display_config::GpsCoordinateFormat::Mgrs, "MGRS", 3),
        (meshtastic::config::display_config::GpsCoordinateFormat::Olc, "OLC", 4),
        (meshtastic::config::display_config::GpsCoordinateFormat::Osgr, "OSGR", 5),
    ];
    for (e, name, number) in all {
        assert_eq!(e.as_str_name(), name);
        assert_eq!(meshtastic::config::display_config::GpsCoordinateFormat::from_str_name(name), Some(e));
        assert_eq!(meshtastic::config::display_config::GpsCoordinateFormat::from_str_name(&name.to_lowercase()), None);
        assert_eq!(meshtastic::config::display_config::GpsCoordinateFormat::from_str_name(&format!("{} ", name)), None);
        assert_eq!(i32::from(e), number);
        assert_eq!(meshtastic::config::display_config::GpsCoordinateFormat::from_i32(number), Some(e));
        assert!(meshtastic::config::display_config::GpsCoordinateFormat::is_valid(number));
        assert_eq!(meshtastic::config::display_config::GpsCoordinateFormat::try_from(number), Ok(e));
    }
    assert_eq!(meshtastic::config::display_config::GpsCoordinateFormat::from_str_name(""), None);
    assert_eq!(meshtastic::config::display_config::GpsCoordinateFormat::from_i32(7), None);
    assert!(!meshtastic::config::display_config::GpsCoordinateFormat::is_valid(7));
    assert!(!meshtastic::config::display_config::GpsCoordinateFormat::is_valid(-1));
    assert_eq!(meshtastic::config::display_config::GpsCoordinateFormat::try_from(7), Err(prost::UnknownEnumValue(7)));
    assert_eq!(meshtastic::config::display_config::GpsCoordinateFormat::default(), meshtastic::config::display_config::GpsCoordinateFormat::Dec);
    assert_eq!(i32::from(meshtastic::config::display_config::GpsCoordinateFormat::default()), 0);
}

#[test]
fn config_display_config_display_units_names_and_numbers() {
    let all = [
        (meshtastic::config::display_config::DisplayUnits::Metric, "METRIC", 0),
        (meshtastic::config::display_config::DisplayUnits::Imperial, "IMPERIAL", 1),
    ];
    for (e, name, number) in all {
        assert_eq!(e.as_str_name(), name);
        assert_eq!(meshtastic::config::display_config::DisplayUnits::from_str_name(name), Some(e));
        assert_eq!(meshtastic::config::display_config::DisplayUnits::from_str_name(&name.to_lowercase()), None);
        assert_eq!(meshtastic::config::display_config::DisplayUnits::from_str_name(&format!("{} ", name)), None);
        assert_eq!(i32::from(e), number);
        assert_eq!(meshtastic::config::display_config::DisplayUnits::from_i32(number), Some(e));
        assert!(meshtastic::config::display_config::DisplayUnits::is_valid(number));
        assert_eq!(meshtastic::config::display_config::DisplayUnits::try_from(number), Ok(e));
    }
    assert_eq!(meshtastic::config::display_config::DisplayUnits::from_str_name(""), None);
    assert_eq!(meshtastic::config::display_config::DisplayUnits::from_i32(3), None);
    assert!(!meshtastic::config::display_config::DisplayUnits::is_valid(3));
    assert!(!meshtastic::config::display_config::DisplayUnits::is_valid(-1));
    assert_eq!(meshtastic::config::display_config::DisplayUnits::try_from(3), Err(prost::UnknownEnumValue(3)));
    assert_eq!(meshtastic::config::display_config::DisplayUnits::default(), meshtastic::config::display_config::DisplayUnits::Metric);
    assert_eq!(i32::from(meshtastic::config::display_config::DisplayUnits::default()), 0);
}

#[test]
fn config_display_config_oled_type_names_and_numbers() {
    let all = [
        (meshtastic::config::display_config::OledType::OledAuto, "OLED_AUTO", 0),
        (meshtastic::config::display_config::OledType::OledSsd1306, "OLED_SSD1306", 1),
        (meshtastic::config::display_config::OledType::OledSh1106, "OLED_SH1106", 2),
        (meshtastic::config::display_config::OledType::OledSh1107, "OLED_SH1107", 3),
    ];
    for (e, name, number) in all {
        assert_eq!(e.as_str_name(), name);
        assert_eq!(meshtastic::config::display_config::OledType::from_str_name(name), Some(e));
        assert_eq!(meshtastic::config::display_config::OledType::from_str_name(&name.to_lowercase()), None);
        assert_eq!(meshtastic::config::display_config::OledType::from_str_name(&format!("{} ", name)), None);
        assert_eq!(i32::from(e), number);
        assert_eq!(meshtastic::config::display_config::OledType::from_i32(number), Some(e));
        assert!(meshtastic::config::display_config::OledType::is_valid(number));
        assert_eq!(meshtastic::config::display_config::OledType::try_from(number), Ok(e));
    }
    assert_eq!(meshtastic::config::display_config::OledType::from_str_name(""), None);
    assert_eq!(meshtastic::config::display_config::OledType::from_i32(7), None);
    assert!(!meshtastic::config::display_config::OledType::is_valid(7));
    assert!(!meshtastic::config::display_config::OledType::is_valid(-1));
    assert_eq!(meshtastic::config::display_config::OledType::try_from(7), Err(prost::UnknownEnumValue(7)));
    assert_eq!(meshtastic::config::display_config::OledType::default(), meshtastic::config::display_config::OledType::OledAuto);
    assert_eq!(i32::from(meshtastic::config::display_config::OledType::default()), 0);
}

#[test]
fn config_display_config_display_mode_names_and_numbers() {
    let all = [
        (meshtastic::config::display_config::DisplayMode::Default, "DEFAULT", 0),
        (meshtastic::config::display_config::DisplayMode::Twocolor, "TWOCOLOR", 1),
        (meshtastic::config::display_config::DisplayMode::Inverted, "INVERTED", 2),
        (meshtastic::config::display_config::DisplayMode::Color, "COLOR", 3),
    ];
    for (e, name, number) in all {
        assert_eq!(e.as_str_name(), name);
        assert_eq!(meshtastic::config::display_config::DisplayMode::from_str_name(name), Some(e));
        assert_eq!(meshtastic::config::display_config::DisplayMode::from_str_name(&name.to_lowercase()), None);
        assert_eq!(meshtastic::config::display_config::DisplayMode::from_str_name(&format!("{} ", name)), None);
        assert_eq!(i32::from(e), number);
        assert_eq!(meshtastic::config::display_config::DisplayMode::from_i32(number), Some(e));
        assert!(meshtastic::config::display_config::DisplayMode::is_valid(number));
        assert_eq!(meshtastic::config::display_config::DisplayMode::try_from(number), Ok(e));
    }
    assert_eq!(meshtastic::config::display_config::DisplayMode::from_str_name(""), None);
    assert_eq!(meshtastic::config::display_config::DisplayMode::from_i32(7), None);
    assert!(!meshtastic::config::display_config::DisplayMode::is_valid(7));
    assert!(!meshtastic::config::display_config::DisplayMode::is_valid(-1));
    assert_eq!(meshtastic::config::display_config::DisplayMode::try_from(7), Err(prost::UnknownEnumValue(7)));
    assert_eq!(meshtastic::config::display_config::DisplayMode::default(), meshtastic::config::display_config::DisplayMode::Default);
    assert_eq!(i32::from(meshtastic::config::display_config::DisplayMode::default()), 0);
}

#[test]
fn config_display_config_compass_orientation_names_and_numbers() {
    let all = [
        (meshtastic::config::display_config::CompassOrientation::Degrees0, "DEGREES_0", 0),
        (meshtastic::config::display_config::CompassOrientation::Degrees90, "DEGREES_90", 1),
        (meshtastic::config::display_config::CompassOrientation::Degrees180, "DEGREES_180", 2),
        (meshtastic::config::display_config::CompassOrientation::Degrees270, "DEGREES_270", 3),
        (meshtastic::config::display_config::CompassOrientation::Degrees0Inverted, "DEGREES_0_INVERTED", 4),
        (meshtastic::config::display_config::CompassOrientation::Degrees90Inverted, "DEGREES_90_INVERTED", 5),
        (meshtastic::config::display_config::CompassOrientation::Degrees180Inverted, "DEGREES_180_INVERTED", 6),
        (meshtastic::config::display_config::CompassOrientation::Degrees270Inverted, "DEGREES_270_INVERTED", 7),
    ];
    for (e, name, number) in all {
        assert_eq!(e.as_str_name(), name);
        assert_eq!(meshtastic::config::display_config::CompassOrientation::from_str_name(name), Some(e));
        assert_eq!(meshtastic::config::display_config::CompassOrientation::from_str_name(&name.to_lowercase()), None);
        assert_eq!(meshtastic::config::display_config::CompassOrientation::from_str_name(&format!("{} ", name)), None);
        assert_eq!(i32::from(e), number);
        assert_eq!(meshtastic::config::display_config::CompassOrientation::from_i32(number), Some(e));
        assert!(meshtastic::config::display_config::CompassOrientation::is_valid(number));
        assert_eq!(meshtastic::config::display_config::CompassOrientation::try_from(number), Ok(e));
    }
    assert_eq!(meshtastic::config::display_config::CompassOrientation::from_str_name(""), None);
    assert_eq!(meshtastic::config::display_config::CompassOrientation::from_i32(99), None);
    assert!(!meshtastic::config::display_config::CompassOrientation::is_valid(99));
    assert!(!meshtastic::config::display_config::CompassOrientation::is_valid(-1));
    assert_eq!(meshtastic::config::display_config::CompassOrientation::try_from(99), Err(prost::UnknownEnumValue(99)));
    assert_eq!(meshtastic::config::display_config::CompassOrientation::default(), meshtastic::config::display_config::CompassOrientation::Degrees0);
    assert_eq!(i32::from(meshtastic::config::display_config::CompassOrientation::default()), 0);
}

#[test]
fn config_lo_ra_config_region_code_names_and_numbers() {
    let all = [
        (meshtastic::config::lo_ra_config::RegionCode::Unset, "UNSET", 0),
        (meshtastic::config::lo_ra_config::RegionCode::Us, "US", 1),
        (meshtastic::config::lo_ra_config::RegionCode::Eu433, "EU_433", 2),
        (meshtastic::config::lo_ra_config::RegionCode::Eu868, "EU_868", 3),
        (meshtastic::config::lo_ra_config::RegionCode::Cn, "CN", 4),
        (meshtastic::config::lo_ra_config::RegionCode::Jp, "JP", 5),
        (meshtastic::config::lo_ra_config::RegionCode::Anz, "ANZ", 6),
        (meshtastic::config::lo_ra_config::RegionCode::Kr, "KR", 7),
        (meshtastic::config::lo_ra_config::RegionCode::Tw, "TW", 8),
        (meshtastic::config::lo_ra_config::RegionCode::Ru, "RU", 9),
        (meshtastic::config::lo_ra_config::RegionCode::In, "IN", 10),
        (meshtastic::config::lo_ra_config::RegionCode::Nz865, "NZ_865", 11),
        (meshtastic::config::lo_ra_config::RegionCode::Th, "TH", 12),
        (meshtastic::config::lo_ra_config::RegionCode::Lora24, "LORA_24", 13),
        (meshtastic::config::lo_ra_config::RegionCode::Ua433, "UA_433", 14),
        (meshtastic::config::lo_ra_config::RegionCode::Ua868, "UA_868", 15),
        (meshtastic::config::lo_ra_config::RegionCode::My433, "MY_433", 16),
        (meshtastic::config::lo_ra_config::RegionCode::My919, "MY_919", 17),
        (meshtastic::config::lo_ra_config::RegionCode::Sg923, "SG_923", 18),
        (meshtastic::config::lo_ra_config::RegionCode::Ph433, "PH_433", 19),
        (meshtastic::config::lo_ra_config::RegionCode::Ph868, "PH_868", 20),
        (meshtastic::config::lo_ra_config::RegionCode::Ph915, "PH_915", 21),
    ];
    for (e, name, number) in all {
        assert_eq!(e.as_str_name(), name);
        assert_eq!(meshtastic::config::lo_ra_config::RegionCode::from_str_name(name), Some(e));
        assert_eq!(meshtastic::config::lo_ra_config::RegionCode::from_str_name(&name.to_lowercase()), None);
        assert_eq!(meshtastic::config::lo_ra_config::RegionCode::from_str_name(&format!("{} ", name)), None);
        assert_eq!(i32::from(e), number);
        assert_eq!(meshtastic::config::lo_ra_config::RegionCode::from_i32(number), Some(e));
        assert!(meshtastic::config::lo_ra_config::RegionCode::is_valid(number));
        assert_eq!(meshtastic::config::lo_ra_config::RegionCode::try_from(number), Ok(e));
    }
    assert_eq!(meshtastic::config::lo_ra_config::RegionCode::from_str_name(""), None);
    assert_eq!(meshtastic::config::lo_ra_config::RegionCode::from_i32(99), None);
    assert!(!meshtastic::config::lo_ra_config::RegionCode::is_valid(99));
    assert!(!meshtastic::config::lo_ra_config::RegionCode::is_valid(-1));
    assert_eq!(meshtastic::config::lo_ra_config::RegionCode::try_from(99), Err(prost::UnknownEnumValue(99)));
    assert_eq!(meshtastic::config::lo_ra_config::RegionCode::default(), meshtastic::config::lo_ra_config::RegionCode::Unset);
    assert_eq!(i32::from(meshtastic::config::lo_ra_config::RegionCode::default()), 0);
}

#[test]
fn config_lo_ra_config_modem_preset_names_and_numbers() {
    let all = [
        (meshtastic::config::lo_ra_config::ModemPreset::LongFast, "LONG_FAST", 0),
        (meshtastic::config::lo_ra_config::ModemPreset::LongSlow, "LONG_SLOW", 1),
        (meshtastic::config::lo_ra_config::ModemPreset::VeryLongSlow, "VERY_LONG_SLOW", 2),
        (meshtastic::config::lo_ra_config::ModemPreset::MediumSlow, "MEDIUM_SLOW", 3),
        (meshtastic::config::lo_ra_config::ModemPreset::MediumFast, "MEDIUM_FAST", 4),
        (meshtastic::config::lo_ra_config::ModemPreset::ShortSlow, "SHORT_SLOW", 5),
        (meshtastic::config::lo_ra_config::ModemPreset::ShortFast, "SHORT_FAST", 6),
        (meshtastic::config::lo_ra_config::ModemPreset::LongModerate, "LONG_MODERATE", 7),
        (meshtastic::config::lo_ra_config::ModemPreset::ShortTurbo, "SHORT_TURBO", 8),
    ];
    for (e, name, number) in all {
        assert_eq!(e.as_str_name(), name);
        assert_eq!(meshtastic::config::lo_ra_config::ModemPreset::from_str_name(name), Some(e));
        assert_eq!(meshtastic::config::lo_ra_config::ModemPreset::from_str_name(&name.to_lowercase()), None);
        assert_eq!(meshtastic::config::lo_ra_config::ModemPreset::from_str_name(&format!("{} ", name)), None);
        assert_eq!(i32::from(e), number);
        assert_eq!(meshtastic::config::lo_ra_config::ModemPreset::from_i32(number), Some(e));
        assert!(meshtastic::config::lo_ra_config::ModemPreset::is_valid(number));
        assert_eq!(meshtastic::config::lo_ra_config::ModemPreset::try_from(number), Ok(e));
    }
    assert_eq!(meshtastic::config::lo_ra_config::ModemPreset::from_str_name(""), None);
    assert_eq!(meshtastic::config::lo_ra_config::ModemPreset::from_i32(99), None);
    assert!(!meshtastic::config::lo_ra_config::ModemPreset::is_valid(99));
    assert!(!meshtastic::config::lo_ra_config::ModemPreset::is_valid(-1));
    assert_eq!(meshtastic::config::lo_ra_config::ModemPreset::try_from(99), Err(prost::UnknownEnumValue(99)));
    assert_eq!(meshtastic::config::lo_ra_config::ModemPreset::default(), meshtastic::config::lo_ra_config::ModemPreset::LongFast);
    assert_eq!(i32::from(meshtastic::config::lo_ra_config::ModemPreset::default()), 0);
}

#[test]
fn config_bluetooth_config_pairing_mode_names_and_numbers() {
    let all = [
        (meshtastic::config::bluetooth_config::PairingMode::RandomPin, "RANDOM_PIN", 0),
        (meshtastic::config::bluetooth_config::PairingMode::FixedPin, "FIXED_PIN", 1),
        (meshtastic::config::bluetooth_config::PairingMode::NoPin, "NO_PIN", 2),
    ];
    for (e, name, number) in all {
        assert_eq!(e.as_str_name(), name);
        assert_eq!(meshtastic::config::bluetooth_config::PairingMode::from_str_name(name), Some(e));
        assert_eq!(meshtastic::config::bluetooth_config::PairingMode::from_str_name(&name.to_lowercase()), None);
        assert_eq!(meshtastic::config::bluetooth_config::PairingMode::from_str_name(&format!("{} ", name)), None);
        assert_eq!(i32::from(e), number);
        assert_eq!(meshtastic::config::bluetooth_config::PairingMode::from_i32(number), Some(e));
        assert!(meshtastic::config::bluetooth_config::PairingMode::is_valid(number));
        assert_eq!(meshtastic::config::bluetooth_config::PairingMode::try_from(number), Ok(e));
    }
    assert_eq!(meshtastic::config::bluetooth_config::PairingMode::from_str_name(""), None);
    assert_eq!(meshtastic::config::bluetooth_config::PairingMode::from_i32(3), None);
    assert!(!meshtastic::config::bluetooth_config::PairingMode::is_valid(3));
    assert!(!meshtastic::config::bluetooth_config::PairingMode::is_valid(-1));
    assert_eq!(meshtastic::config::bluetooth_config::PairingMode::try_from(3), Err(prost::UnknownEnumValue(3)));
    assert_eq!(meshtastic::config::bluetooth_config::PairingMode::default(), meshtastic::config::bluetooth_config::PairingMode::RandomPin);
    assert_eq!(i32::from(meshtastic::config::bluetooth_config::PairingMode::default()), 0);
}

#[test]
fn module_config_detection_sensor_config_trigger_type_names_and_numbers() {
    let all = [
        (meshtastic::module_config::detection_sensor_config::TriggerType::LogicLow, "LOGIC_LOW", 0),
        (meshtastic::module_config::detection_sensor_config::TriggerType::LogicHigh, "LOGIC_HIGH", 1),
        (meshtastic::module_config::detection_sensor_config::TriggerType::FallingEdge, "FALLING_EDGE", 2),
        (meshtastic::module_config::detection_sensor_config::TriggerType::RisingEdge, "RISING_EDGE", 3),
        (meshtastic::module_config::detection_sensor_config::TriggerType::EitherEdgeActiveLow, "EITHER_EDGE_ACTIVE_LOW", 4),
        (meshtastic::module_config::detection_sensor_config::TriggerType::EitherEdgeActiveHigh, "EITHER_EDGE_ACTIVE_HIGH", 5),
    ];
    for (e, name, number) in all {
        assert_eq!(e.as_str_name(), name);
        assert_eq!(meshtastic::module_config::detection_sensor_config::TriggerType::from_str_name(name), Some(e));
        assert_eq!(meshtastic::module_config::detection_sensor_config::TriggerType::from_str_name(&name.to_lowercase()), None);
        assert_eq!(meshtastic::module_config::detection_sensor_config::TriggerType::from_str_name(&format!("{} ", name)), None);
        assert_eq!(i32::from(e), number);
        assert_eq!(meshtastic::module_config::detection_sensor_config::TriggerType::from_i32(number), Some(e));
        assert!(meshtastic::module_config::detection_sensor_config::TriggerType::is_valid(number));
        assert_eq!(meshtastic::module_config::detection_sensor_config::TriggerType::try_from(number), Ok(e));
    }
    assert_eq!(meshtastic::module_config::detection_sensor_config::TriggerType::from_str_name(""), None);
    assert_eq!(meshtastic::module_config::detection_sensor_config::TriggerType::from_i32(7), None);
    assert!(!meshtastic::module_config::detection_sensor_config::TriggerType::is_valid(7));
    assert!(!meshtastic::module_config::detection_sensor_config::TriggerType::is_valid(-1));
    assert_eq!(meshtastic::module_config::detection_sensor_config::TriggerType::try_from(7), Err(prost::UnknownEnumValue(7)));
    assert_eq!(meshtastic::module_config::detection_sensor_config::TriggerType::default(), meshtastic::module_config::detection_sensor_config::TriggerType::LogicLow);
    assert_eq!(i32::from(meshtastic::module_config::detection_sensor_config::TriggerType::default()), 0);
}

#[test]
fn module_config_audio_config_audio_baud_names_and_numbers() {
    let all = [
        (meshtastic::module_config::audio_config::AudioBaud::Codec2Default, "CODEC2_DEFAULT", 0),
        (meshtastic::module_config::audio_config::AudioBaud::Codec23200, "CODEC2_3200", 1),
        (meshtastic::module_config::audio_config::AudioBaud::Codec22400, "CODEC2_2400", 2),
        (meshtastic::module_config::audio_config::AudioBaud::Codec21600, "CODEC2_1600", 3),
        (meshtastic::module_config::audio_config::AudioBaud::Codec21400, "CODEC2_1400", 4),
        (meshtastic::module_config::audio_config::AudioBaud::Codec21300, "CODEC2_1300", 5),
        (meshtastic::module_config::audio_config::AudioBaud::Codec21200, "CODEC2_1200", 6),
        (meshtastic::module_config::audio_config::AudioBaud::Codec2700, "CODEC2_700", 7),
        (meshtastic::module_config::audio_config::AudioBaud::Codec2700b, "CODEC2_700B", 8),
    ];
    for (e, name, number) in all {
        assert_eq!(e.as_str_name(), name);
        assert_eq!(meshtastic::module_config::audio_config::AudioBaud::from_str_name(name), Some(e));
        assert_eq!(meshtastic::module_config::audio_config::AudioBaud::from_str_name(&name.to_lowercase()), None);
        assert_eq!(meshtastic::module_config::audio_config::AudioBaud::from_str_name(&format!("{} ", name)), None);
        assert_eq!(i32::from(e), number);
        assert_eq!(meshtastic::module_config::audio_config::AudioBaud::from_i32(number), Some(e));
        assert!(meshtastic::module_config::audio_config::AudioBaud::is_valid(number));
        assert_eq!(meshtastic::module_config::audio_config::AudioBaud::try_from(number), Ok(e));
    }
    assert_eq!(meshtastic::module_config::audio_config::AudioBaud::from_str_name(""), None);
    assert_eq!(meshtastic::module_config::audio_config::AudioBaud::from_i32(99), None);
    assert!(!meshtastic::module_config::audio_config::AudioBaud::is_valid(99));
    assert!(!meshtastic::module_config::audio_config::AudioBaud::is_valid(-1));
    assert_eq!(meshtastic::module_config::audio_config::AudioBaud::try_from(99), Err(prost::UnknownEnumValue(99)));
    assert_eq!(meshtastic::module_config::audio_config::AudioBaud::default(), meshtastic::module_config::audio_config::AudioBaud::Codec2Default);
    assert_eq!(i32::from(meshtastic::module_config::audio_config::AudioBaud::default()), 0);
}

#[test]
fn module_config_serial_config_serial_baud_names_and_numbers() {
    let all = [
        (meshtastic::module_config::serial_config::SerialBaud::BaudDefault, "BAUD_DEFAULT", 0),
        (meshtastic::module_config::serial_config::SerialBaud::Baud110, "BAUD_110", 1),
        (meshtastic::module_config::serial_config::SerialBaud::Baud300, "BAUD_300", 2),
        (meshtastic::module_config::serial_config::SerialBaud::Baud600, "BAUD_600", 3),
        (meshtastic::module_config::serial_config::SerialBaud::Baud1200, "BAUD_1200", 4),
        (meshtastic::module_config::serial_config::SerialBaud::Baud2400, "BAUD_2400", 5),
        (meshtastic::module_config::serial_config::SerialBaud::Baud4800, "BAUD_4800", 6),
        (meshtastic::module_config::serial_config::SerialBaud::Baud9600, "BAUD_9600", 7),
        (meshtastic::module_config::serial_config::SerialBaud::Baud19200, "BAUD_19200", 8),
        (meshtastic::module_config::serial_config::SerialBaud::Baud38400, "BAUD_38400", 9),
        (meshtastic::module_config::serial_config::SerialBaud::Baud57600, "BAUD_57600", 10),
        (meshtastic::module_config::serial_config::SerialBaud::Baud115200, "BAUD_115200", 11),
        (meshtastic::module_config::serial_config::SerialBaud::Baud230400, "BAUD_230400", 12),
        (meshtastic::module_config::serial_config::SerialBaud::Baud460800, "BAUD_460800", 13),
        (meshtastic::module_config::serial_config::SerialBaud::Baud576000, "BAUD_576000", 14),
        (meshtastic::module_config::serial_config::SerialBaud::Baud921600, "BAUD_921600", 15),
    ];
    for (e, name, number) in all {
        assert_eq!(e.as_str_name(), name);
        assert_eq!(meshtastic::module_config::serial_config::SerialBaud::from_str_name(name), Some(e));
        assert_eq!(meshtastic::module_config::serial_config::SerialBaud::from_str_name(&name.to_lowercase()), None);
        assert_eq!(meshtastic::module_config::serial_config::SerialBaud::from_str_name(&format!("{} ", name)), None);
        assert_eq!(i32::from(e), number);
        assert_eq!(meshtastic::module_config::serial_config::SerialBaud::from_i32(number), Some(e));
        assert!(meshtastic::module_config::serial_config::SerialBaud::is_valid(number));
        assert_eq!(meshtastic::module_config::serial_config::SerialBaud::try_from(number), Ok(e));
    }
    assert_eq!(meshtastic::module_config::serial_config::SerialBaud::from_str_name(""), None);
    assert_eq!(meshtastic::module_config::serial_config::SerialBaud::from_i32(99), None);
    assert!(!meshtastic::module_config::serial_config::SerialBaud::is_valid(99));
    assert!(!meshtastic::module_config::serial_config::SerialBaud::is_valid(-1));
    assert_eq!(meshtastic::module_config::serial_config::SerialBaud::try_from(99), Err(prost::UnknownEnumValue(99)));
    assert_eq!(meshtastic::module_config::serial_config::SerialBaud::default(), meshtastic::module_config::serial_config::SerialBaud::BaudDefault);
    assert_eq!(i32::from(meshtastic::module_config::serial_config::SerialBaud::default()), 0);
}

#[test]
fn module_config_serial_config_serial_mode_names_and_numbers() {
    let all = [
        (meshtastic::module_config::serial_config::SerialMode::Default, "DEFAULT", 0),
        (meshtastic::module_config::serial_config::SerialMode::Simple, "SIMPLE", 1),
        (meshtastic::module_config::serial_config::SerialMode::Proto, "PROTO", 2),
        (meshtastic::module_config::serial_config::SerialMode::Textmsg, "TEXTMSG", 3),
        (meshtastic::module_config::serial_config::SerialMode::Nmea, "NMEA", 4),
        (meshtastic::module_config::serial_config::SerialMode::Caltopo, "CALTOPO", 5),
        (meshtastic::module_config::serial_config::SerialMode::Ws85, "WS85", 6),
    ];
    for (e, name, number) in all {
        assert_eq!(e.as_str_name(), name);
        assert_eq!(meshtastic::module_config::serial_config::SerialMode::from_str_name(name), Some(e));
        assert_eq!(meshtastic::module_config::serial_config::SerialMode::from_str_name(&name.to_lowercase()), None);
        assert_eq!(meshtastic::module_config::serial_config::SerialMode::from_str_name(&format!("{} ", name)), None);
        assert_eq!(i32::from(e), number);
        assert_eq!(meshtastic::module_config::serial_config::SerialMode::from_i32(number), Some(e));
        assert!(meshtastic::module_config::serial_config::SerialMode::is_valid(number));
        assert_eq!(meshtastic::module_config::serial_config::SerialMode::try_from(number), Ok(e));
    }
    assert_eq!(meshtastic::module_config::serial_config::SerialMode::from_str_name(""), None);
    assert_eq!(meshtastic::module_config::serial_config::SerialMode::from_i32(7), None);
    assert!(!meshtastic::module_config::serial_config::SerialMode::is_valid(7));
    assert!(!meshtastic::module_config::serial_config::SerialMode::is_valid(-1));
    assert_eq!(meshtastic::module_config::serial_config::SerialMode::try_from(7), Err(prost::UnknownEnumValue(7)));
    assert_eq!(meshtastic::module_config::serial_config::SerialMode::default(), meshtastic::module_config::serial_config::SerialMode::Default);
    assert_eq!(i32::from(meshtastic::module_config::serial_config::SerialMode::default()), 0);
}

#[test]
fn module_config_canned_message_config_input_event_char_names_and_numbers() {
    let all = [
        (meshtastic::module_config::canned_message_config::InputEventChar::NoneValue, "NONE", 0),
        (meshtastic::module_config::canned_message_config::InputEventChar::Select, "SELECT", 10),
        (meshtastic::module_config::canned_message_config::InputEventChar::Up, "UP", 17),
        (meshtastic::module_config::canned_message_config::InputEventChar::Down, "DOWN", 18),
        (meshtastic::module_config::canned_message_config::InputEventChar::Left, "LEFT", 19),
        (meshtastic::module_config::canned_message_config::InputEventChar::Right, "RIGHT", 20),
        (meshtastic::module_config::canned_message_config::InputEventChar::Cancel, "CANCEL", 24),
        (meshtastic::module_config::canned_message_config::InputEventChar::Back, "BACK", 27),
    ];
    for (e, name, number) in all {
        assert_eq!(e.as_str_name(), name);
        assert_eq!(meshtastic::module_config::canned_message_config::InputEventChar::from_str_name(name), Some(e));
        assert_eq!(meshtastic::module_config::canned_message_config::InputEventChar::from_str_name(&name.to_lowercase()), None);
        assert_eq!(meshtastic::module_config::canned_message_config::InputEventChar::from_str_name(&format!("{} ", name)), None);
        assert_eq!(i32::from(e), number);
        assert_eq!(meshtastic::module_config::canned_message_config::InputEventChar::from_i32(number), Some(e));
        assert!(meshtastic::module_config::canned_message_config::InputEventChar::is_valid(number));
        assert_eq!(meshtastic::module_config::canned_message_config::InputEventChar::try_from(number), Ok(e));
    }
    assert_eq!(meshtastic::module_config::canned_message_config::InputEventChar::from_str_name(""), None);
    assert_eq!(meshtastic::module_config::canned_message_config::InputEventChar::from_i32(1), None);
    assert!(!meshtastic::module_config::canned_message_config::InputEventChar::is_valid(1));
    assert!(!meshtastic::module_config::canned_message_config::InputEventChar::is_valid(-1));
    assert_eq!(meshtastic::module_config::canned_message_config::InputEventChar::try_from(1), Err(prost::UnknownEnumValue(1)));
    assert_eq!(meshtastic::module_config::canned_message_config::InputEventChar::default(), meshtastic::module_config::canned_message_config::InputEventChar::NoneValue);
    assert_eq!(i32::from(meshtastic::module_config::canned_message_config::InputEventChar::default()), 0);
}

#[test]
fn remote_hardware_pin_type_names_and_numbers() {
    let all = [
        (meshtastic::RemoteHardwarePinType::Unknown, "UNKNOWN", 0),
        (meshtastic::RemoteHardwarePinType::DigitalRead, "DIGITAL_READ", 1),
        (meshtastic::RemoteHardwarePinType::DigitalWrite, "DIGITAL_WRITE", 2),
    ];
    for (e, name, number) in all {
        assert_eq!(e.as_str_name(), name);
        assert_eq!(meshtastic::RemoteHardwarePinType::from_str_name(name), Some(e));
        assert_eq!(meshtastic::RemoteHardwarePinType::from_str_name(&name.to_lowercase()), None);
        assert_eq!(meshtastic::RemoteHardwarePinType::from_str_name(&format!("{} ", name)), None);
        assert_eq!(i32::from(e), number);
        assert_eq!(meshtastic::RemoteHardwarePinType::from_i32(number), Some(e));
        assert!(meshtastic::RemoteHardwarePinType::is_valid(number));
        assert_eq!(meshtastic::RemoteHardwarePinType::try_from(number), Ok(e));
    }
    assert_eq!(meshtastic::RemoteHardwarePinType::from_str_name(""), None);
    assert_eq!(meshtastic::RemoteHardwarePinType::from_i32(3), None);
    assert!(!meshtastic::RemoteHardwarePinType::is_valid(3));
    assert!(!meshtastic::RemoteHardwarePinType::is_valid(-1));
    assert_eq!(meshtastic::RemoteHardwarePinType::try_from(3), Err(prost::UnknownEnumValue(3)));
    assert_eq!(meshtastic::RemoteHardwarePinType::default(), meshtastic::RemoteHardwarePinType::Unknown);
    assert_eq!(i32::from(meshtastic::RemoteHardwarePinType::default()), 0);
}

#[test]
fn port_num_names_and_numbers() {
    let all = [
        (meshtastic::PortNum::UnknownApp, "UNKNOWN_APP", 0),
        (meshtastic::PortNum::TextMessageApp, "TEXT_MESSAGE_APP", 1),
        (meshtastic::PortNum::RemoteHardwareApp, "REMOTE_HARDWARE_APP", 2),
        (meshtastic::PortNum::PositionApp, "POSITION_APP", 3),
        (meshtastic::PortNum::NodeinfoApp, "NODEINFO_APP", 4),
        (meshtastic::PortNum::RoutingApp, "ROUTING_APP", 5),
        (meshtastic::PortNum::AdminApp, "ADMIN_APP", 6),
        (meshtastic::PortNum::TextMessageCompressedApp, "TEXT_MESSAGE_COMPRESSED_APP", 7),
        (meshtastic::PortNum::WaypointApp, "WAYPOINT_APP", 8),
        (meshtastic::PortNum::AudioApp, "AUDIO_APP", 9),
        (meshtastic::PortNum::DetectionSensorApp, "DETECTION_SENSOR_APP", 10),
        (meshtastic::PortNum::AlertApp, "ALERT_APP", 11),
        (meshtastic::PortNum::ReplyApp, "REPLY_APP", 32),
        (meshtastic::PortNum::IpTunnelApp, "IP_TUNNEL_APP", 33),
        (meshtastic::PortNum::PaxcounterApp, "PAXCOUNTER_APP", 34),
        (meshtastic::PortNum::SerialApp, "SERIAL_APP", 64),
        (meshtastic::PortNum::StoreForwardApp, "STORE_FORWARD_APP", 65),
        (meshtastic::PortNum::RangeTestApp, "RANGE_TEST_APP", 66),
        (meshtastic::PortNum::TelemetryApp, "TELEMETRY_APP", 67),
        (meshtastic::PortNum::ZpsApp, "ZPS_APP", 68),
        (meshtastic::PortNum::SimulatorApp, "SIMULATOR_APP", 69),
        (meshtastic::PortNum::TracerouteApp, "TRACEROUTE_APP", 70),
        (meshtastic::PortNum::NeighborinfoApp, "NEIGHBORINFO_APP", 71),
        (meshtastic::PortNum::AtakPlugin, "ATAK_PLUGIN", 72),
        (meshtastic::PortNum::MapReportApp, "MAP_REPORT_APP", 73),
        (meshtastic::PortNum::PowerstressApp, "POWERSTRESS_APP", 74),
        (meshtastic::PortNum::PrivateApp, "PRIVATE_APP", 256),
        (meshtastic::PortNum::AtakForwarder, "ATAK_FORWARDER", 257),
        (meshtastic::PortNum::Max, "MAX", 511),
    ];
    for (e, name, number) in all {
        assert_eq!(e.as_str_name(), name);
        assert_eq!(meshtastic::PortNum::from_str_name(name), Some(e));
        assert_eq!(meshtastic::PortNum::from_str_name(&name.to_lowercase()), None);
        assert_eq!(meshtastic::PortNum::from_str_name(&format!("{} ", name)), None);
        assert_eq!(i32::from(e), number);
        assert_eq!(meshtastic::PortNum::from_i32(number), Some(e));
        assert!(meshtastic::PortNum::is_valid(number));
        assert_eq!(meshtastic::PortNum::try_from(number), Ok(e));
    }
    assert_eq!(meshtastic::PortNum::from_str_name(""), None);
    assert_eq!(meshtastic::PortNum::from_i32(99), None);
    assert!(!meshtastic::PortNum::is_valid(99));
    assert!(!meshtastic::PortNum::is_valid(-1));
    assert_eq!(meshtastic::PortNum::try_from(99), Err(prost::UnknownEnumValue(99)));
    assert_eq!(meshtastic::PortNum::default(), meshtastic::PortNum::UnknownApp);
    assert_eq!(i32::from(meshtastic::PortNum::default()), 0);
}

#[test]
fn telemetry_sensor_type_names_and_numbers() {
    let all = [
        (meshtastic::TelemetrySensorType::SensorUnset, "SENSOR_UNSET", 0),
        (meshtastic::TelemetrySensorType::Bme280, "BME280", 1),
        (meshtastic::TelemetrySensorType::Bme680, "BME680", 2),
        (meshtastic::TelemetrySensorType::Mcp9808, "MCP9808", 3),
        (meshtastic::TelemetrySensorType::Ina260, "INA260", 4),
        (meshtastic::TelemetrySensorType::Ina219, "INA219", 5),
        (meshtastic::TelemetrySensorType::Bmp280, "BMP280", 6),
        (meshtastic::TelemetrySensorType::Shtc3, "SHTC3", 7),
        (meshtastic::TelemetrySensorType::Lps22, "LPS22", 8),
        (meshtastic::TelemetrySensorType::Qmc6310, "QMC6310", 9),
        (meshtastic::TelemetrySensorType::Qmi8658, "QMI8658", 10),
        (meshtastic::TelemetrySensorType::Qmc5883l, "QMC5883L", 11),
        (meshtastic::TelemetrySensorType::Sht31, "SHT31", 12),
        (meshtastic::TelemetrySensorType::Pmsa003i, "PMSA003I", 13),
        (meshtastic::TelemetrySensorType::Ina3221, "INA3221", 14),
        (meshtastic::TelemetrySensorType::Bmp085, "BMP085", 15),
        (meshtastic::TelemetrySensorType::Rcwl9620, "RCWL9620", 16),
        (meshtastic::TelemetrySensorType::Sht4x, "SHT4X", 17),
        (meshtastic::TelemetrySensorType::Veml7700, "VEML7700", 18),
        (meshtastic::TelemetrySensorType::Mlx90632, "MLX90632", 19),
        (meshtastic::TelemetrySensorType::Opt3001, "OPT3001", 20),
        (meshtastic::TelemetrySensorType::Ltr390uv, "LTR390UV", 21),
        (meshtastic::TelemetrySensorType::Tsl25911fn, "TSL25911FN", 22),
        (meshtastic::TelemetrySensorType::Aht10, "AHT10", 23),
        (meshtastic::TelemetrySensorType::DfrobotLark, "DFROBOT_LARK", 24),
        (meshtastic::TelemetrySensorType::Nau7802, "NAU7802", 25),
        (meshtastic::TelemetrySensorType::Bmp3xx, "BMP3XX", 26),
        (meshtastic::TelemetrySensorType::Icm20948, "ICM20948", 27),
        (meshtastic::TelemetrySensorType::Max17048, "MAX17048", 28),
        (meshtastic::TelemetrySensorType::CustomSensor, "CUSTOM_SENSOR", 29),
        (meshtastic::TelemetrySensorType::Max30102, "MAX30102", 30),
        (meshtastic::TelemetrySensorType::Mlx90614, "MLX90614", 31),
        (meshtastic::TelemetrySensorType::Scd4x, "SCD4X", 32),
        (meshtastic::TelemetrySensorType::Radsens, "RADSENS", 33),
        (meshtastic::TelemetrySensorType::Ina226, "INA226", 34),
        (meshtastic::TelemetrySensorType::DfrobotRain, "DFROBOT_RAIN", 35),
    ];
    for (e, name, number) in all {
        assert_eq!(e.as_str_name(), name);
        assert_eq!(meshtastic::TelemetrySensorType::from_str_name(name), Some(e));
        assert_eq!(meshtastic::TelemetrySensorType::from_str_name(&name.to_lowercase()), None);
        assert_eq!(meshtastic::TelemetrySensorType::from_str_name(&format!("{} ", name)), None);
        assert_eq!(i32::from(e), number);
        assert_eq!(meshtastic::TelemetrySensorType::from_i32(number), Some(e));
        assert!(meshtastic::TelemetrySensorType::is_valid(number));
        assert_eq!(meshtastic::TelemetrySensorType::try_from(number), Ok(e));
    }
    assert_eq!(meshtastic::TelemetrySensorType::from_str_name(""), None);
    assert_eq!(meshtastic::TelemetrySensorType::from_i32(99), None);
    assert!(!meshtastic::TelemetrySensorType::is_valid(99));
    assert!(!meshtastic::TelemetrySensorType::is_valid(-1));
    assert_eq!(meshtastic::TelemetrySensorType::try_from(99), Err(prost::UnknownEnumValue(99)));
    assert_eq!(meshtastic::TelemetrySensorType::default(), meshtastic::TelemetrySensorType::SensorUnset);
    assert_eq!(i32::from(meshtastic::TelemetrySensorType::default()), 0);
}

#[test]
fn x_modem_control_names_and_numbers() {
    let all = [
        (meshtastic::x_modem::Control::Nul, "NUL", 0),
        (meshtastic::x_modem::Control::Soh, "SOH", 1),
        (meshtastic::x_modem::Control::Stx, "STX", 2),
        (meshtastic::x_modem::Control::Eot, "EOT", 4),
        (meshtastic::x_modem::Control::Ack, "ACK", 6),
        (meshtastic::x_modem::Control::Nak, "NAK", 21),
        (meshtastic::x_modem::Control::Can, "CAN", 24),
        (meshtastic::x_modem::Control::Ctrlz, "CTRLZ", 26),
    ];
    for (e, name, number) in all {
        assert_eq!(e.as_str_name(), name);
        assert_eq!(meshtastic::x_modem::Control::from_str_name(name), Some(e));
        assert_eq!(meshtastic::x_modem::Control::from_str_name(&name.to_lowercase()), None);
        assert_eq!(meshtastic::x_modem::Control::from_str_name(&format!("{} ", name)), None);
        assert_eq!(i32::from(e), number);
        assert_eq!(meshtastic::x_modem::Control::from_i32(number), Some(e));
        assert!(meshtastic::x_modem::Control::is_valid(number));
        assert_eq!(meshtastic::x_modem::Control::try_from(number), Ok(e));
    }
    assert_eq!(meshtastic::x_modem::Control::from_str_name(""), None);
    assert_eq!(meshtastic::x_modem::Control::from_i32(3), None);
    assert!(!meshtastic::x_modem::Control::is_valid(3));
    assert!(!meshtastic::x_modem::Control::is_valid(-1));
    assert_eq!(meshtastic::x_modem::Control::try_from(3), Err(prost::UnknownEnumValue(3)));
    assert_eq!(meshtastic::x_modem::Control::default(), meshtastic::x_modem::Control::Nul);
    assert_eq!(i32::from(meshtastic::x_modem::Control::default()), 0);
}

#[test]
fn position_loc_source_names_and_numbers() {
    let all = [
        (meshtastic::position::LocSource::LocUnset, "LOC_UNSET", 0),
        (meshtastic::position::LocSource::LocManual, "LOC_MANUAL", 1),
        (meshtastic::position::LocSource::LocInternal, "LOC_INTERNAL", 2),
        (meshtastic::position::LocSource::LocExternal, "LOC_EXTERNAL", 3),
    ];
    for (e, name, number) in all {
        assert_eq!(e.as_str_name(), name);
        assert_eq!(meshtastic::position::LocSource::from_str_name(name), Some(e));
        assert_eq!(meshtastic::position::LocSource::from_str_name(&name.to_lowercase()), None);
        assert_eq!(meshtastic::position::LocSource::from_str_name(&format!("{} ", name)), None);
        assert_eq!(i32::from(e), number);
        assert_eq!(meshtastic::position::LocSource::from_i32(number), Some(e));
        assert!(meshtastic::position::LocSource::is_valid(number));
        assert_eq!(meshtastic::position::LocSource::try_from(number), Ok(e));
    }
    assert_eq!(meshtastic::position::LocSource::from_str_name(""), None);
    assert_eq!(meshtastic::position::LocSource::from_i32(7), None);
    assert!(!meshtastic::position::LocSource::is_valid(7));
    assert!(!meshtastic::position::LocSource::is_valid(-1));
    assert_eq!(meshtastic::position::LocSource::try_from(7), Err(prost::UnknownEnumValue(7)));
    assert_eq!(meshtastic::position::LocSource::default(), meshtastic::position::LocSource::LocUnset);
    assert_eq!(i32::from(meshtastic::position::LocSource::default()), 0);
}

#[test]
fn position_alt_source_names_and_numbers() {
    let all = [
        (meshtastic::position::AltSource::AltUnset, "ALT_UNSET", 0),
        (meshtastic::position::AltSource::AltManual, "ALT_MANUAL", 1),
        (meshtastic::position::AltSource::AltInternal, "ALT_INTERNAL", 2),
        (meshtastic::position::AltSource::AltExternal, "ALT_EXTERNAL", 3),
        (meshtastic::position::AltSource::AltBarometric, "ALT_BAROMETRIC", 4),
    ];
    for (e, name, number) in all {
        assert_eq!(e.as_str_name(), name);
        assert_eq!(meshtastic::position::AltSource::from_str_name(name), Some(e));
        assert_eq!(meshtastic::position::AltSource::from_str_name(&name.to_lowercase()), None);
        assert_eq!(meshtastic::position::AltSource::from_str_name(&format!("{} ", name)), None);
        assert_eq!(i32::from(e), number);
        assert_eq!(meshtastic::position::AltSource::from_i32(number), Some(e));
        assert!(meshtastic::position::AltSource::is_valid(number));
        assert_eq!(meshtastic::position::AltSource::try_from(number), Ok(e));
    }
    assert_eq!(meshtastic::position::AltSource::from_str_name(""), None);
    assert_eq!(meshtastic::position::AltSource::from_i32(7), None);
    assert!(!meshtastic::position::AltSource::is_valid(7));
    assert!(!meshtastic::position::AltSource::is_valid(-1));
    assert_eq!(meshtastic::position::AltSource::try_from(7), Err(prost::UnknownEnumValue(7)));
    assert_eq!(meshtastic::position::AltSource::default(), meshtastic::position::AltSource::AltUnset);
    assert_eq!(i32::from(meshtastic::position::AltSource::default()), 0);
}

#[test]
fn routing_error_names_and_numbers() {
    let all = [
        (meshtastic::routing::Error::NoneValue, "NONE", 0),
        (meshtastic::routing::Error::NoRoute, "NO_ROUTE", 1),
        (meshtastic::routing::Error::GotNak, "GOT_NAK", 2),
        (meshtastic::routing::Error::Timeout, "TIMEOUT", 3),
        (meshtastic::routing::Error::NoInterface, "NO_INTERFACE", 4),
        (meshtastic::routing::Error::MaxRetransmit, "MAX_RETRANSMIT", 5),
        (meshtastic::routing::Error::NoChannel, "NO_CHANNEL", 6),
        (meshtastic::routing::Error::TooLarge, "TOO_LARGE", 7),
        (meshtastic::routing::Error::NoResponse, "NO_RESPONSE", 8),
        (meshtastic::routing::Error::DutyCycleLimit, "DUTY_CYCLE_LIMIT", 9),
        (meshtastic::routing::Error::BadRequest, "BAD_REQUEST", 32),
        (meshtastic::routing::Error::NotAuthorized, "NOT_AUTHORIZED", 33),
        (meshtastic::routing::Error::PkiFailed, "PKI_FAILED", 34),
        (meshtastic::routing::Error::PkiUnknownPubkey, "PKI_UNKNOWN_PUBKEY", 35),
        (meshtastic::routing::Error::AdminBadSessionKey, "ADMIN_BAD_SESSION_KEY", 36),
        (meshtastic::routing::Error::AdminPublicKeyUnauthorized, "ADMIN_PUBLIC_KEY_UNAUTHORIZED", 37),
    ];
    for (e, name, number) in all {
        assert_eq!(e.as_str_name(), name);
        assert_eq!(meshtastic::routing::Error::from_str_name(name), Some(e));
        assert_eq!(meshtastic::routing::Error::from_str_name(&name.to_lowercase()), None);
        assert_eq!(meshtastic::routing::Error::from_str_name(&format!("{} ", name)), None);
        assert_eq!(i32::from(e), number);
        assert_eq!(meshtastic::routing::Error::from_i32(number), Some(e));
        assert!(meshtastic::routing::Error::is_valid(number));
        assert_eq!(meshtastic::routing::Error::try_from(number), Ok(e));
    }
    assert_eq!(meshtastic::routing::Error::from_str_name(""), None);
    assert_eq!(meshtastic::routing::Error::from_i32(99), None);
    assert!(!meshtastic::routing::Error::is_valid(99));
    assert!(!meshtastic::routing::Error::is_valid(-1));
    assert_eq!(meshtastic::routing::Error::try_from(99), Err(prost::UnknownEnumValue(99)));
    assert_eq!(meshtastic::routing::Error::default(), meshtastic::routing::Error::NoneValue);
    assert_eq!(i32::from(meshtastic::routing::Error::default()), 0);
}

#[test]
fn mesh_packet_priority_names_and_numbers() {
    let all = [
        (meshtastic::mesh_packet::Priority::Unset, "UNSET", 0),
        (meshtastic::mesh_packet::Priority::Min, "MIN", 1),
        (meshtastic::mesh_packet::Priority::Background, "BACKGROUND", 10),
        (meshtastic::mesh_packet::Priority::Default, "DEFAULT", 64),
        (meshtastic::mesh_packet::Priority::Reliable, "RELIABLE", 70),
        (meshtastic::mesh_packet::Priority::Response, "RESPONSE", 80),
        (meshtastic::mesh_packet::Priority::High, "HIGH", 100),
        (meshtastic::mesh_packet::Priority::Alert, "ALERT", 110),
        (meshtastic::mesh_packet::Priority::Ack, "ACK", 120),
        (meshtastic::mesh_packet::Priority::Max, "MAX", 127),
    ];
    for (e, name, number) in all {
        assert_eq!(e.as_str_name(), name);
        assert_eq!(meshtastic::mesh_packet::Priority::from_str_name(name), Some(e));
        assert_eq!(meshtastic::mesh_packet::Priority::from_str_name(&name.to_lowercase()), None);
        assert_eq!(meshtastic::mesh_packet::Priority::from_str_name(&format!("{} ", name)), None);
        assert_eq!(i32::from(e), number);
        assert_eq!(meshtastic::mesh_packet::Priority::from_i32(number), Some(e));
        assert!(meshtastic::mesh_packet::Priority::is_valid(number));
        assert_eq!(meshtastic::mesh_packet::Priority::try_from(number), Ok(e));
    }
    assert_eq!(meshtastic::mesh_packet::Priority::from_str_name(""), None);
    assert_eq!(meshtastic::mesh_packet::Priority::from_i32(3), None);
    assert!(!meshtastic::mesh_packet::Priority::is_valid(3));
    assert!(!meshtastic::mesh_packet::Priority::is_valid(-1));
    assert_eq!(meshtastic::mesh_packet::Priority::try_from(3), Err(prost::UnknownEnumValue(3)));
    assert_eq!(meshtastic::mesh_packet::Priority::default(), meshtastic::mesh_packet::Priority::Unset);
    assert_eq!(i32::from(meshtastic::mesh_packet::Priority::default()), 0);
}

#[test]
fn mesh_packet_delayed_names_and_numbers() {
    let all = [
        (meshtastic::mesh_packet::Delayed::NoDelay, "NO_DELAY", 0),
        (meshtastic::mesh_packet::Delayed::Broadcast, "DELAYED_BROADCAST", 1),
        (meshtastic::mesh_packet::Delayed::Direct, "DELAYED_DIRECT", 2),
    ];
    for (e, name, number) in all {
        assert_eq!(e.as_str_name(), name);
        assert_eq!(meshtastic::mesh_packet::Delayed::from_str_name(name), Some(e));
        assert_eq!(meshtastic::mesh_packet::Delayed::from_str_name(&name.to_lowercase()), None);
        assert_eq!(meshtastic::mesh_packet::Delayed::from_str_name(&format!("{} ", name)), None);
        assert_eq!(i32::from(e), number);
        assert_eq!(meshtastic::mesh_packet::Delayed::from_i32(number), Some(e));
        assert!(meshtastic::mesh_packet::Delayed::is_valid(number));
        assert_eq!(meshtastic::mesh_packet::Delayed::try_from(number), Ok(e));
    }
    assert_eq!(meshtastic::mesh_packet::Delayed::from_str_name(""), None);
    assert_eq!(meshtastic::mesh_packet::Delayed::from_i32(3), None);
    assert!(!meshtastic::mesh_packet::Delayed::is_valid(3));
    assert!(!meshtastic::mesh_packet::Delayed::is_valid(-1));
    assert_eq!(meshtastic::mesh_packet::Delayed::try_from(3), Err(prost::UnknownEnumValue(3)));
    assert_eq!(meshtastic::mesh_packet::Delayed::default(), meshtastic::mesh_packet::Delayed::NoDelay);
    assert_eq!(i32::from(meshtastic::mesh_packet::Delayed::default()), 0);
}

#[test]
fn log_record_level_names_and_numbers() {
    let all = [
        (meshtastic::log_record::Level::Unset, "UNSET", 0),
        (meshtastic::log_record::Level::Trace, "TRACE", 5),
        (meshtastic::log_record::Level::Debug, "DEBUG", 10),
        (meshtastic::log_record::Level::Info, "INFO", 20),
        (meshtastic::log_record::Level::Warning, "WARNING", 30),
        (meshtastic::log_record::Level::Error, "ERROR", 40),
        (meshtastic::log_record::Level::Critical, "CRITICAL", 50),
    ];
    for (e, name, number) in all {
        assert_eq!(e.as_str_name(), name);
        assert_eq!(meshtastic::log_record::Level::from_str_name(name), Some(e));
        assert_eq!(meshtastic::log_record::Level::from_str_name(&name.to_lowercase()), None);
        assert_eq!(meshtastic::log_record::Level::from_str_name(&format!("{} ", name)), None);
        assert_eq!(i32::from(e), number);
        assert_eq!(meshtastic::log_record::Level::from_i32(number), Some(e));
        assert!(meshtastic::log_record::Level::is_valid(number));
        assert_eq!(meshtastic::log_record::Level::try_from(number), Ok(e));
    }
    assert_eq!(meshtastic::log_record::Level::from_str_name(""), None);
    assert_eq!(meshtastic::log_record::Level::from_i32(1), None);
    assert!(!meshtastic::log_record::Level::is_valid(1));
    assert!(!meshtastic::log_record::Level::is_valid(-1));
    assert_eq!(meshtastic::log_record::Level::try_from(1), Err(prost::UnknownEnumValue(1)));
    assert_eq!(meshtastic::log_record::Level::default(), meshtastic::log_record::Level::Unset);
    assert_eq!(i32::from(meshtastic::log_record::Level::default()), 0);
}

#[test]
fn hardware_model_names_and_numbers() {
    let all = [
        (meshtastic::HardwareModel::Unset, "UNSET", 0),
        (meshtastic::HardwareModel::TloraV2, "TLORA_V2", 1),
        (meshtastic::HardwareModel::TloraV1, "TLORA_V1", 2),
        (meshtastic::HardwareModel::TloraV211p6, "TLORA_V2_1_1P6", 3),
        (meshtastic::HardwareModel::Tbeam, "TBEAM", 4),
        (meshtastic::HardwareModel::HeltecV20, "HELTEC_V2_0", 5),
        (meshtastic::HardwareModel::TbeamV0p7, "TBEAM_V0P7", 6),
        (meshtastic::HardwareModel::TEcho, "T_ECHO", 7),
        (meshtastic::HardwareModel::TloraV11p3, "TLORA_V1_1P3", 8),
        (meshtastic::HardwareModel::Rak4631, "RAK4631", 9),
        (meshtastic::HardwareModel::HeltecV21, "HELTEC_V2_1", 10),
        (meshtastic::HardwareModel::HeltecV1, "HELTEC_V1", 11),
        (meshtastic::HardwareModel::LilygoTbeamS3Core, "LILYGO_TBEAM_S3_CORE", 12),
        (meshtastic::HardwareModel::Rak11200, "RAK11200", 13),
        (meshtastic::HardwareModel::NanoG1, "NANO_G1", 14),
        (meshtastic::HardwareModel::TloraV211p8, "TLORA_V2_1_1P8", 15),
        (meshtastic::HardwareModel::TloraT3S3, "TLORA_T3_S3", 16),
        (meshtastic::HardwareModel::NanoG1Explorer, "NANO_G1_EXPLORER", 17),
        (meshtastic::HardwareModel::NanoG2Ultra, "NANO_G2_ULTRA", 18),
        (meshtastic::HardwareModel::LoraType, "LORA_TYPE", 19),
        (meshtastic::HardwareModel::Wiphone, "WIPHONE", 20),
        (meshtastic::HardwareModel::WioWm1110, "WIO_WM1110", 21),
        (meshtastic::HardwareModel::Rak2560, "RAK2560", 22),
        (meshtastic::HardwareModel::HeltecHru3601, "HELTEC_HRU_3601", 23),
        (meshtastic::HardwareModel::HeltecWirelessBridge, "HELTEC_WIRELESS_BRIDGE", 24),
        (meshtastic::HardwareModel::StationG1, "STATION_G1", 25),
        (meshtastic::HardwareModel::Rak11310, "RAK11310", 26),
        (meshtastic::HardwareModel::SenseloraRp2040, "SENSELORA_RP2040", 27),
        (meshtastic::HardwareModel::SenseloraS3, "SENSELORA_S3", 28),
        (meshtastic::HardwareModel::Canaryone, "CANARYONE", 29),
        (meshtastic::HardwareModel::Rp2040Lora, "RP2040_LORA", 30),
        (meshtastic::HardwareModel::StationG2, "STATION_G2", 31),
        (meshtastic::HardwareModel::LoraRelayV1, "LORA_RELAY_V1", 32),
        (meshtastic::HardwareModel::Nrf52840dk, "NRF52840DK", 33),
        (meshtastic::HardwareModel::Ppr, "PPR", 34),
        (meshtastic::HardwareModel::Genieblocks, "GENIEBLOCKS", 35),
        (meshtastic::HardwareModel::Nrf52Unknown, "NRF52_UNKNOWN", 36),
        (meshtastic::HardwareModel::Portduino, "PORTDUINO", 37),
        (meshtastic::HardwareModel::AndroidSim, "ANDROID_SIM", 38),
        (meshtastic::HardwareModel::DiyV1, "DIY_V1", 39),
        (meshtastic::HardwareModel::Nrf52840Pca10059, "NRF52840_PCA10059", 40),
        (meshtastic::HardwareModel::DrDev, "DR_DEV", 41),
        (meshtastic::HardwareModel::M5stack, "M5STACK", 42),
        (meshtastic::HardwareModel::HeltecV3, "HELTEC_V3", 43),
        (meshtastic::HardwareModel::HeltecWslV3, "HELTEC_WSL_V3", 44),
        (meshtastic::HardwareModel::Betafpv2400Tx, "BETAFPV_2400_TX", 45),
        (meshtastic::HardwareModel::Betafpv900NanoTx, "BETAFPV_900_NANO_TX", 46),
        (meshtastic::HardwareModel::RpiPico, "RPI_PICO", 47),
        (meshtastic::HardwareModel::HeltecWirelessTracker, "HELTEC_WIRELESS_TRACKER", 48),
        (meshtastic::HardwareModel::HeltecWirelessPaper, "HELTEC_WIRELESS_PAPER", 49),
        (meshtastic::HardwareModel::TDeck, "T_DECK", 50),
        (meshtastic::HardwareModel::TWatchS3, "T_WATCH_S3", 51),
        (meshtastic::HardwareModel::PicomputerS3, "PICOMPUTER_S3", 52),
        (meshtastic::HardwareModel::HeltecHt62, "HELTEC_HT62", 53),
        (meshtastic::HardwareModel::EbyteEsp32S3, "EBYTE_ESP32_S3", 54),
        (meshtastic::HardwareModel::Esp32S3Pico, "ESP32_S3_PICO", 55),
        (meshtastic::HardwareModel::Chatter2, "CHATTER_2", 56),
        (meshtastic::HardwareModel::HeltecWirelessPaperV10, "HELTEC_WIRELESS_PAPER_V1_0", 57),
        (meshtastic::HardwareModel::HeltecWirelessTrackerV10, "HELTEC_WIRELESS_TRACKER_V1_0", 58),
        (meshtastic::HardwareModel::Unphone, "UNPHONE", 59),
        (meshtastic::HardwareModel::TdLorac, "TD_LORAC", 60),
        (meshtastic::HardwareModel::CdebyteEoraS3, "CDEBYTE_EORA_S3", 61),
        (meshtastic::HardwareModel::TwcMeshV4, "TWC_MESH_V4", 62),
        (meshtastic::HardwareModel::Nrf52PromicroDiy, "NRF52_PROMICRO_DIY", 63),
        (meshtastic::HardwareModel::Radiomaster900BanditNano, "RADIOMASTER_900_BANDIT_NANO", 64),
        (meshtastic::HardwareModel::HeltecCapsuleSensorV3, "HELTEC_CAPSULE_SENSOR_V3", 65),
        (meshtastic::HardwareModel::HeltecVisionMasterT190, "HELTEC_VISION_MASTER_T190", 66),
        (meshtastic::HardwareModel::HeltecVisionMasterE213, "HELTEC_VISION_MASTER_E213", 67),
        (meshtastic::HardwareModel::HeltecVisionMasterE290, "HELTEC_VISION_MASTER_E290", 68),
        (meshtastic::HardwareModel::HeltecMeshNodeT114, "HELTEC_MESH_NODE_T114", 69),
        (meshtastic::HardwareModel::SensecapIndicator, "SENSECAP_INDICATOR", 70),
        (meshtastic::HardwareModel::TrackerT1000E, "TRACKER_T1000_E", 71),
        (meshtastic::HardwareModel::Rak3172, "RAK3172", 72),
        (meshtastic::HardwareModel::WioE5, "WIO_E5", 73),
        (meshtastic::HardwareModel::Radiomaster900Bandit, "RADIOMASTER_900_BANDIT", 74),
        (meshtastic::HardwareModel::Me25ls014y10td, "ME25LS01_4Y10TD", 75),
        (meshtastic::HardwareModel::Rp2040FeatherRfm95, "RP2040_FEATHER_RFM95", 76),
        (meshtastic::HardwareModel::M5stackCorebasic, "M5STACK_COREBASIC", 77),
        (meshtastic::HardwareModel::M5stackCore2, "M5STACK_CORE2", 78),
        (meshtastic::HardwareModel::RpiPico2, "RPI_PICO2", 79),
        (meshtastic::HardwareModel::M5stackCores3, "M5STACK_CORES3", 80),
        (meshtastic::HardwareModel::SeeedXiaoS3, "SEEED_XIAO_S3", 81),
        (meshtastic::HardwareModel::Ms24sf1, "MS24SF1", 82),
        (meshtastic::HardwareModel::TloraC6, "TLORA_C6", 83),
        (meshtastic::HardwareModel::WismeshTap, "WISMESH_TAP", 84),
        (meshtastic::HardwareModel::Routastic, "ROUTASTIC", 85),
        (meshtastic::HardwareModel::MeshTab, "MESH_TAB", 86),
        (meshtastic::HardwareModel::Meshlink, "MESHLINK", 87),
        (meshtastic::HardwareModel::PrivateHw, "PRIVATE_HW", 255),
    ];
    for (e, name, number) in all {
        assert_eq!(e.as_str_name(), name);
        assert_eq!(meshtastic::HardwareModel::from_str_name(name), Some(e));
        assert_eq!(meshtastic::HardwareModel::from_str_name(&name.to_lowercase()), None);
        assert_eq!(meshtastic::HardwareModel::from_str_name(&format!("{} ", name)), None);
        assert_eq!(i32::from(e), number);
        assert_eq!(meshtastic::HardwareModel::from_i32(number), Some(e));
        assert!(meshtastic::HardwareModel::is_valid(number));
        assert_eq!(meshtastic::HardwareModel::try_from(number), Ok(e));
    }
    assert_eq!(meshtastic::HardwareModel::from_str_name(""), None);
    assert_eq!(meshtastic::HardwareModel::from_i32(99), None);
    assert!(!meshtastic::HardwareModel::is_valid(99));
    assert!(!meshtastic::HardwareModel::is_valid(-1));
    assert_eq!(meshtastic::HardwareModel::try_from(99), Err(prost::UnknownEnumValue(99)));
    assert_eq!(meshtastic::HardwareModel::default(), meshtastic::HardwareModel::Unset);
    assert_eq!(i32::from(meshtastic::HardwareModel::default()), 0);
}

#[test]
fn constants_names_and_numbers() {
    let all = [
        (meshtastic::Constants::Zero, "ZERO", 0),
        (meshtastic::Constants::DataPayloadLen, "DATA_PAYLOAD_LEN", 233),
    ];
    for (e, name, number) in all {
        assert_eq!(e.as_str_name(), name);
        assert_eq!(meshtastic::Constants::from_str_name(name), Some(e));
        assert_eq!(meshtastic::Constants::from_str_name(&name.to_lowercase()), None);
        assert_eq!(meshtastic::Constants::from_str_name(&format!("{} ", name)), None);
        assert_eq!(i32::from(e), number);
        assert_eq!(meshtastic::Constants::from_i32(number), Some(e));
        assert!(meshtastic::Constants::is_valid(number));
        assert_eq!(meshtastic::Constants::try_from(number), Ok(e));
    }
    assert_eq!(meshtastic::Constants::from_str_name(""), None);
    assert_eq!(meshtastic::Constants::from_i32(1), None);
    assert!(!meshtastic::Constants::is_valid(1));
    assert!(!meshtastic::Constants::is_valid(-1));
    assert_eq!(meshtastic::Constants::try_from(1), Err(prost::UnknownEnumValue(1)));
    assert_eq!(meshtastic::Constants::default(), meshtastic::Constants::Zero);
    assert_eq!(i32::from(meshtastic::Constants::default()), 0);
}

#[test]
fn critical_error_code_names_and_numbers() {
    let all = [
        (meshtastic::CriticalErrorCode::NoneValue, "NONE", 0),
        (meshtastic::CriticalErrorCode::TxWatchdog, "TX_WATCHDOG", 1),
        (meshtastic::CriticalErrorCode::SleepEnterWait, "SLEEP_ENTER_WAIT", 2),
        (meshtastic::CriticalErrorCode::NoRadio, "NO_RADIO", 3),
        (meshtastic::CriticalErrorCode::Unspecified, "UNSPECIFIED", 4),
        (meshtastic::CriticalErrorCode::UbloxUnitFailed, "UBLOX_UNIT_FAILED", 5),
        (meshtastic::CriticalErrorCode::NoAxp192, "NO_AXP192", 6),
        (meshtastic::CriticalErrorCode::InvalidRadioSetting, "INVALID_RADIO_SETTING", 7),
        (meshtastic::CriticalErrorCode::TransmitFailed, "TRANSMIT_FAILED", 8),
        (meshtastic::CriticalErrorCode::Brownout, "BROWNOUT", 9),
        (meshtastic::CriticalErrorCode::Sx1262Failure, "SX1262_FAILURE", 10),
        (meshtastic::CriticalErrorCode::RadioSpiBug, "RADIO_SPI_BUG", 11),
        (meshtastic::CriticalErrorCode::FlashCorruptionRecoverable, "FLASH_CORRUPTION_RECOVERABLE", 12),
        (meshtastic::CriticalErrorCode::FlashCorruptionUnrecoverable, "FLASH_CORRUPTION_UNRECOVERABLE", 13),
    ];
    for (e, name, number) in all {
        assert_eq!(e.as_str_name(), name);
        assert_eq!(meshtastic::CriticalErrorCode::from_str_name(name), Some(e));
        assert_eq!(meshtastic::CriticalErrorCode::from_str_name(&name.to_lowercase()), None);
        assert_eq!(meshtastic::CriticalErrorCode::from_str_name(&format!("{} ", name)), None);
        assert_eq!(i32::from(e), number);
        assert_eq!(meshtastic::CriticalErrorCode::from_i32(number), Some(e));
        assert!(meshtastic::CriticalErrorCode::is_valid(number));
        assert_eq!(meshtastic::CriticalErrorCode::try_from(number), Ok(e));
    }
    assert_eq!(meshtastic::CriticalErrorCode::from_str_name(""), None);
    assert_eq!(meshtastic::CriticalErrorCode::from_i32(99), None);
    assert!(!meshtastic::CriticalErrorCode::is_valid(99));
    assert!(!meshtastic::CriticalErrorCode::is_valid(-1));
    assert_eq!(meshtastic::CriticalErrorCode::try_from(99), Err(prost::UnknownEnumValue(99)));
    assert_eq!(meshtastic::CriticalErrorCode::default(), meshtastic::CriticalErrorCode::NoneValue);
    assert_eq!(i32::from(meshtastic::CriticalErrorCode::default()), 0);
}

#[test]
fn excluded_modules_names_and_numbers() {
    let all = [
        (meshtastic::ExcludedModules::ExcludedNone, "EXCLUDED_NONE", 0),
        (meshtastic::ExcludedModules::MqttConfig, "MQTT_CONFIG", 1),
        (meshtastic::ExcludedModules::SerialConfig, "SERIAL_CONFIG", 2),
        (meshtastic::ExcludedModules::ExtnotifConfig, "EXTNOTIF_CONFIG", 4),
        (meshtastic::ExcludedModules::StoreforwardConfig, "STOREFORWARD_CONFIG", 8),
        (meshtastic::ExcludedModules::RangetestConfig, "RANGETEST_CONFIG", 16),
        (meshtastic::ExcludedModules::TelemetryConfig, "TELEMETRY_CONFIG", 32),
        (meshtastic::ExcludedModules::CannedmsgConfig, "CANNEDMSG_CONFIG", 64),
        (meshtastic::ExcludedModules::AudioConfig, "AUDIO_CONFIG", 128),
        (meshtastic::ExcludedModules::RemotehardwareConfig, "REMOTEHARDWARE_CONFIG", 256),
        (meshtastic::ExcludedModules::NeighborinfoConfig, "NEIGHBORINFO_CONFIG", 512),
        (meshtastic::ExcludedModules::AmbientlightingConfig, "AMBIENTLIGHTING_CONFIG", 1024),
        (meshtastic::ExcludedModules::DetectionsensorConfig, "DETECTIONSENSOR_CONFIG", 2048),
        (meshtastic::ExcludedModules::PaxcounterConfig, "PAXCOUNTER_CONFIG", 4096),
    ];
    for (e, name, number) in all {
        assert_eq!(e.as_str_name(), name);
        assert_eq!(meshtastic::ExcludedModules::from_str_name(name), Some(e));
        assert_eq!(meshtastic::ExcludedModules::from_str_name(&name.to_lowercase()), None);
        assert_eq!(meshtastic::ExcludedModules::from_str_name(&format!("{} ", name)), None);
        assert_eq!(i32::from(e), number);
        assert_eq!(meshtastic::ExcludedModules::from_i32(number), Some(e));
        assert!(meshtastic::ExcludedModules::is_valid(number));
        assert_eq!(meshtastic::ExcludedModules::try_from(number), Ok(e));
    }
    assert_eq!(meshtastic::ExcludedModules::from_str_name(""), None);
    assert_eq!(meshtastic::ExcludedModules::from_i32(3), None);
    assert!(!meshtastic::ExcludedModules::is_valid(3));
    assert!(!meshtastic::ExcludedModules::is_valid(-1));
    assert_eq!(meshtastic::ExcludedModules::try_from(3), Err(prost::UnknownEnumValue(3)));
    assert_eq!(meshtastic::ExcludedModules::default(), meshtastic::ExcludedModules::ExcludedNone);
    assert_eq!(i32::from(meshtastic::ExcludedModules::default()), 0);
}

#[test]
fn admin_message_config_type_names_and_numbers() {
    let all = [
        (meshtastic::admin_message::ConfigType::DeviceConfig, "DEVICE_CONFIG", 0),
        (meshtastic::admin_message::ConfigType::PositionConfig, "POSITION_CONFIG", 1),
        (meshtastic::admin_message::ConfigType::PowerConfig, "POWER_CONFIG", 2),
        (meshtastic::admin_message::ConfigType::NetworkConfig, "NETWORK_CONFIG", 3),
        (meshtastic::admin_message::ConfigType::DisplayConfig, "DISPLAY_CONFIG", 4),
        (meshtastic::admin_message::ConfigType::LoraConfig, "LORA_CONFIG", 5),
        (meshtastic::admin_message::ConfigType::BluetoothConfig, "BLUETOOTH_CONFIG", 6),
        (meshtastic::admin_message::ConfigType::SecurityConfig, "SECURITY_CONFIG", 7),
        (meshtastic::admin_message::ConfigType::SessionkeyConfig, "SESSIONKEY_CONFIG", 8),
        (meshtastic::admin_message::ConfigType::DeviceuiConfig, "DEVICEUI_CONFIG", 9),
    ];
    for (e, name, number) in all {
        assert_eq!(e.as_str_name(), name);
        assert_eq!(meshtastic::admin_message::ConfigType::from_str_name(name), Some(e));
        assert_eq!(meshtastic::admin_message::ConfigType::from_str_name(&name.to_lowercase()), None);
        assert_eq!(meshtastic::admin_message::ConfigType::from_str_name(&format!("{} ", name)), None);
        assert_eq!(i32::from(e), number);
        assert_eq!(meshtastic::admin_message::ConfigType::from_i32(number), Some(e));
        assert!(meshtastic::admin_message::ConfigType::is_valid(number));
        assert_eq!(meshtastic::admin_message::ConfigType::try_from(number), Ok(e));
    }
    assert_eq!(meshtastic::admin_message::ConfigType::from_str_name(""), None);
    assert_eq!(meshtastic::admin_message::ConfigType::from_i32(99), None);
    assert!(!meshtastic::admin_message::ConfigType::is_valid(99));
    assert!(!meshtastic::admin_message::ConfigType::is_valid(-1));
    assert_eq!(meshtastic::admin_message::ConfigType::try_from(99), Err(prost::UnknownEnumValue(99)));
    assert_eq!(meshtastic::admin_message::ConfigType::default(), meshtastic::admin_message::ConfigType::DeviceConfig);
    assert_eq!(i32::from(meshtastic::admin_message::ConfigType::default()), 0);
}

#[test]
fn admin_message_module_config_type_names_and_numbers() {
    let all = [
        (meshtastic::admin_message::ModuleConfigType::MqttConfig, "MQTT_CONFIG", 0),
        (meshtastic::admin_message::ModuleConfigType::SerialConfig, "SERIAL_CONFIG", 1),
        (meshtastic::admin_message::ModuleConfigType::ExtnotifConfig, "EXTNOTIF_CONFIG", 2),
        (meshtastic::admin_message::ModuleConfigType::StoreforwardConfig, "STOREFORWARD_CONFIG", 3),
        (meshtastic::admin_message::ModuleConfigType::RangetestConfig, "RANGETEST_CONFIG", 4),
        (meshtastic::admin_message::ModuleConfigType::TelemetryConfig, "TELEMETRY_CONFIG", 5),
        (meshtastic::admin_message::ModuleConfigType::CannedmsgConfig, "CANNEDMSG_CONFIG", 6),
        (meshtastic::admin_message::ModuleConfigType::AudioConfig, "AUDIO_CONFIG", 7),
        (meshtastic::admin_message::ModuleConfigType::RemotehardwareConfig, "REMOTEHARDWARE_CONFIG", 8),
        (meshtastic::admin_message::ModuleConfigType::NeighborinfoConfig, "NEIGHBORINFO_CONFIG", 9),
        (meshtastic::admin_message::ModuleConfigType::AmbientlightingConfig, "AMBIENTLIGHTING_CONFIG", 10),
        (meshtastic::admin_message::ModuleConfigType::DetectionsensorConfig, "DETECTIONSENSOR_CONFIG", 11),
        (meshtastic::admin_message::ModuleConfigType::PaxcounterConfig, "PAXCOUNTER_CONFIG", 12),
    ];
    for (e, name, number) in all {
        assert_eq!(e.as_str_name(), name);
        assert_eq!(meshtastic::admin_message::ModuleConfigType::from_str_name(name), Some(e));
        assert_eq!(meshtastic::admin_message::ModuleConfigType::from_str_name(&name.to_lowercase()), None);
        assert_eq!(meshtastic::admin_message::ModuleConfigType::from_str_name(&format!("{} ", name)), None);
        assert_eq!(i32::from(e), number);
        assert_eq!(meshtastic::admin_message::ModuleConfigType::from_i32(number), Some(e));
        assert!(meshtastic::admin_message::ModuleConfigType::is_valid(number));
        assert_eq!(meshtastic::admin_message::ModuleConfigType::try_from(number), Ok(e));
    }
    assert_eq!(meshtastic::admin_message::ModuleConfigType::from_str_name(""), None);
    assert_eq!(meshtastic::admin_message::ModuleConfigType::from_i32(99), None);
    assert!(!meshtastic::admin_message::ModuleConfigType::is_valid(99));
    assert!(!meshtastic::admin_message::ModuleConfigType::is_valid(-1));
    assert_eq!(meshtastic::admin_message::ModuleConfigType::try_from(99), Err(prost::UnknownEnumValue(99)));
    assert_eq!(meshtastic::admin_message::ModuleConfigType::default(), meshtastic::admin_message::ModuleConfigType::MqttConfig);
    assert_eq!(i32::from(meshtastic::admin_message::ModuleConfigType::default()), 0);
}

#[test]
fn team_names_and_numbers() {
    let all = [
        (meshtastic::Team::UnspecifedColor, "Unspecifed_Color", 0),
        (meshtastic::Team::White, "White", 1),
        (meshtastic::Team::Yellow, "Yellow", 2),
        (meshtastic::Team::Orange, "Orange", 3),
        (meshtastic::Team::Magenta, "Magenta", 4),
        (meshtastic::Team::Red, "Red", 5),
        (meshtastic::Team::Maroon, "Maroon", 6),
        (meshtastic::Team::Purple, "Purple", 7),
        (meshtastic::Team::DarkBlue, "Dark_Blue", 8),
        (meshtastic::Team::Blue, "Blue", 9),
        (meshtastic::Team::Cyan, "Cyan", 10),
        (meshtastic::Team::Teal, "Teal", 11),
        (meshtastic::Team::Green, "Green", 12),
        (meshtastic::Team::DarkGreen, "Dark_Green", 13),
        (meshtastic::Team::Brown, "Brown", 14),
    ];
    for (e, name, number) in all {
        assert_eq!(e.as_str_name(), name);
        assert_eq!(meshtastic::Team::from_str_name(name), Some(e));
        assert_eq!(meshtastic::Team::from_str_name(&name.to_lowercase()), None);
        assert_eq!(meshtastic::Team::from_str_name(&format!("{} ", name)), None);
        assert_eq!(i32::from(e), number);
        assert_eq!(meshtastic::Team::from_i32(number), Some(e));
        assert!(meshtastic::Team::is_valid(number));
        assert_eq!(meshtastic::Team::try_from(number), Ok(e));
    }
    assert_eq!(meshtastic::Team::from_str_name(""), None);
    assert_eq!(meshtastic::Team::from_i32(99), None);
    assert!(!meshtastic::Team::is_valid(99));
    assert!(!meshtastic::Team::is_valid(-1));
    assert_eq!(meshtastic::Team::try_from(99), Err(prost::UnknownEnumValue(99)));
    assert_eq!(meshtastic::Team::default(), meshtastic::Team::UnspecifedColor);
    assert_eq!(i32::from(meshtastic::Team::default()), 0);
}

#[test]
fn member_role_names_and_numbers() {
    let all = [
        (meshtastic::MemberRole::Unspecifed, "Unspecifed", 0),
        (meshtastic::MemberRole::TeamMember, "TeamMember", 1),
        (meshtastic::MemberRole::TeamLead, "TeamLead", 2),
        (meshtastic::MemberRole::Hq, "HQ", 3),
        (meshtastic::MemberRole::Sniper, "Sniper", 4),
        (meshtastic::MemberRole::Medic, "Medic", 5),
        (meshtastic::MemberRole::ForwardObserver, "ForwardObserver", 6),
        (meshtastic::MemberRole::Rto, "RTO", 7),
        (meshtastic::MemberRole::K9, "K9", 8),
    ];
    for (e, name, number) in all {
        assert_eq!(e.as_str_name(), name);
        assert_eq!(meshtastic::MemberRole::from_str_name(name), Some(e));
        assert_eq!(meshtastic::MemberRole::from_str_name(&name.to_lowercase()), None);
        assert_eq!(meshtastic::MemberRole::from_str_name(&format!("{} ", name)), None);
        assert_eq!(i32::from(e), number);
        assert_eq!(meshtastic::MemberRole::from_i32(number), Some(e));
        assert!(meshtastic::MemberRole::is_valid(number));
        assert_eq!(meshtastic::MemberRole::try_from(number), Ok(e));
    }
    assert_eq!(meshtastic::MemberRole::from_str_name(""), None);
    assert_eq!(meshtastic::MemberRole::from_i32(99), None);
    assert!(!meshtastic::MemberRole::is_valid(99));
    assert!(!meshtastic::MemberRole::is_valid(-1));
    assert_eq!(meshtastic::MemberRole::try_from(99), Err(prost::UnknownEnumValue(99)));
    assert_eq!(meshtastic::MemberRole::default(), meshtastic::MemberRole::Unspecifed);
    assert_eq!(i32::from(meshtastic::MemberRole::default()), 0);
}

#[test]
fn power_mon_state_names_and_numbers() {
    let all = [
        (meshtastic::power_mon::State::NoneValue, "None", 0),
        (meshtastic::power_mon::State::CpuDeepSleep, "CPU_DeepSleep", 1),
        (meshtastic::power_mon::State::CpuLightSleep, "CPU_LightSleep", 2),
        (meshtastic::power_mon::State::Vext1On, "Vext1_On", 4),
        (meshtastic::power_mon::State::LoraRxOn, "Lora_RXOn", 8),
        (meshtastic::power_mon::State::LoraTxOn, "Lora_TXOn", 16),
        (meshtastic::power_mon::State::LoraRxActive, "Lora_RXActive", 32),
        (meshtastic::power_mon::State::BtOn, "BT_On", 64),
        (meshtastic::power_mon::State::LedOn, "LED_On", 128),
        (meshtastic::power_mon::State::ScreenOn, "Screen_On", 256),
        (meshtastic::power_mon::State::ScreenDrawing, "Screen_Drawing", 512),
        (meshtastic::power_mon::State::WifiOn, "Wifi_On", 1024),
        (meshtastic::power_mon::State::GpsActive, "GPS_Active", 2048),
    ];
    for (e, name, number) in all {
        assert_eq!(e.as_str_name(), name);
        assert_eq!(meshtastic::power_mon::State::from_str_name(name), Some(e));
        assert_eq!(meshtastic::power_mon::State::from_str_name(&name.to_lowercase()), None);
        assert_eq!(meshtastic::power_mon::State::from_str_name(&format!("{} ", name)), None);
        assert_eq!(i32::from(e), number);
        assert_eq!(meshtastic::power_mon::State::from_i32(number), Some(e));
        assert!(meshtastic::power_mon::State::is_valid(number));
        assert_eq!(meshtastic::power_mon::State::try_from(number), Ok(e));
    }
    assert_eq!(meshtastic::power_mon::State::from_str_name(""), None);
    assert_eq!(meshtastic::power_mon::State::from_i32(3), None);
    assert!(!meshtastic::power_mon::State::is_valid(3));
    assert!(!meshtastic::power_mon::State::is_valid(-1));
    assert_eq!(meshtastic::power_mon::State::try_from(3), Err(prost::UnknownEnumValue(3)));
    assert_eq!(meshtastic::power_mon::State::default(), meshtastic::power_mon::State::NoneValue);
    assert_eq!(i32::from(meshtastic::power_mon::State::default()), 0);
}

#[test]
fn power_stress_message_opcode_names_and_numbers() {
    let all = [
        (meshtastic::power_stress_message::Opcode::Unset, "UNSET", 0),
        (meshtastic::power_stress_message::Opcode::PrintInfo, "PRINT_INFO", 1),
        (meshtastic::power_stress_message::Opcode::ForceQuiet, "FORCE_QUIET", 2),
        (meshtastic::power_stress_message::Opcode::EndQuiet, "END_QUIET", 3),
        (meshtastic::power_stress_message::Opcode::ScreenOn, "SCREEN_ON", 16),
        (meshtastic::power_stress_message::Opcode::ScreenOff, "SCREEN_OFF", 17),
        (meshtastic::power_stress_message::Opcode::CpuIdle, "CPU_IDLE", 32),
        (meshtastic::power_stress_message::Opcode::CpuDeepsleep, "CPU_DEEPSLEEP", 33),
        (meshtastic::power_stress_message::Opcode::CpuFullon, "CPU_FULLON", 34),
        (meshtastic::power_stress_message::Opcode::LedOn, "LED_ON", 48),
        (meshtastic::power_stress_message::Opcode::LedOff, "LED_OFF", 49),
        (meshtastic::power_stress_message::Opcode::LoraOff, "LORA_OFF", 64),
        (meshtastic::power_stress_message::Opcode::LoraTx, "LORA_TX", 65),
        (meshtastic::power_stress_message::Opcode::LoraRx, "LORA_RX", 66),
        (meshtastic::power_stress_message::Opcode::BtOff, "BT_OFF", 80),
        (meshtastic::power_stress_message::Opcode::BtOn, "BT_ON", 81),
        (meshtastic::power_stress_message::Opcode::WifiOff, "WIFI_OFF", 96),
        (meshtastic::power_stress_message::Opcode::WifiOn, "WIFI_ON", 97),
        (meshtastic::power_stress_message::Opcode::GpsOff, "GPS_OFF", 112),
        (meshtastic::power_stress_message::Opcode::GpsOn, "GPS_ON", 113),
    ];
    for (e, name, number) in all {
        assert_eq!(e.as_str_name(), name);
        assert_eq!(meshtastic::power_stress_message::Opcode::from_str_name(name), Some(e));
        assert_eq!(meshtastic::power_stress_message::Opcode::from_str_name(&name.to_lowercase()), None);
        assert_eq!(meshtastic::power_stress_message::Opcode::from_str_name(&format!("{} ", name)), None);
        assert_eq!(i32::from(e), number);
        assert_eq!(meshtastic::power_stress_message::Opcode::from_i32(number), Some(e));
        assert!(meshtastic::power_stress_message::Opcode::is_valid(number));
        assert_eq!(meshtastic::power_stress_message::Opcode::try_from(number), Ok(e));
    }
    assert_eq!(meshtastic::power_stress_message::Opcode::from_str_name(""), None);
    assert_eq!(meshtastic::power_stress_message::Opcode::from_i32(7), None);
    assert!(!meshtastic::power_stress_message::Opcode::is_valid(7));
    assert!(!meshtastic::power_stress_message::Opcode::is_valid(-1));
    assert_eq!(meshtastic::power_stress_message::Opcode::try_from(7), Err(prost::UnknownEnumValue(7)));
    assert_eq!(meshtastic::power_stress_message::Opcode::default(), meshtastic::power_stress_message::Opcode::Unset);
    assert_eq!(i32::from(meshtastic::power_stress_message::Opcode::default()), 0);
}

#[test]
fn hardware_message_type_names_and_numbers() {
    let all = [
        (meshtastic::hardware_message::Type::Unset, "UNSET", 0),
        (meshtastic::hardware_message::Type::WriteGpios, "WRITE_GPIOS", 1),
        (meshtastic::hardware_message::Type::WatchGpios, "WATCH_GPIOS", 2),
        (meshtastic::hardware_message::Type::GpiosChanged, "GPIOS_CHANGED", 3),
        (meshtastic::hardware_message::Type::ReadGpios, "READ_GPIOS", 4),
        (meshtastic::hardware_message::Type::ReadGpiosReply, "READ_GPIOS_REPLY", 5),
    ];
    for (e, name, number) in all {
        assert_eq!(e.as_str_name(), name);
        assert_eq!(meshtastic::hardware_message::Type::from_str_name(name), Some(e));
        assert_eq!(meshtastic::hardware_message::Type::from_str_name(&name.to_lowercase()), None);
        assert_eq!(meshtastic::hardware_message::Type::from_str_name(&format!("{} ", name)), None);
        assert_eq!(i32::from(e), number);
        assert_eq!(meshtastic::hardware_message::Type::from_i32(number), Some(e));
        assert!(meshtastic::hardware_message::Type::is_valid(number));
        assert_eq!(meshtastic::hardware_message::Type::try_from(number), Ok(e));
    }
    assert_eq!(meshtastic::hardware_message::Type::from_str_name(""), None);
    assert_eq!(meshtastic::hardware_message::Type::from_i32(7), None);
    assert!(!meshtastic::hardware_message::Type::is_valid(7));
    assert!(!meshtastic::hardware_message::Type::is_valid(-1));
    assert_eq!(meshtastic::hardware_message::Type::try_from(7), Err(prost::UnknownEnumValue(7)));
    assert_eq!(meshtastic::hardware_message::Type::default(), meshtastic::hardware_message::Type::Unset);
    assert_eq!(i32::from(meshtastic::hardware_message::Type::default()), 0);
}

#[test]
fn store_and_forward_request_response_names_and_numbers() {
    let all = [
        (meshtastic::store_and_forward::RequestResponse::Unset, "UNSET", 0),
        (meshtastic::store_and_forward::RequestResponse::RouterError, "ROUTER_ERROR", 1),
        (meshtastic::store_and_forward::RequestResponse::RouterHeartbeat, "ROUTER_HEARTBEAT", 2),
        (meshtastic::store_and_forward::RequestResponse::RouterPing, "ROUTER_PING", 3),
        (meshtastic::store_and_forward::RequestResponse::RouterPong, "ROUTER_PONG", 4),
        (meshtastic::store_and_forward::RequestResponse::RouterBusy, "ROUTER_BUSY", 5),
        (meshtastic::store_and_forward::RequestResponse::RouterHistory, "ROUTER_HISTORY", 6),
        (meshtastic::store_and_forward::RequestResponse::RouterStats, "ROUTER_STATS", 7),
        (meshtastic::store_and_forward::RequestResponse::RouterTextDirect, "ROUTER_TEXT_DIRECT", 8),
        (meshtastic::store_and_forward::RequestResponse::RouterTextBroadcast, "ROUTER_TEXT_BROADCAST", 9),
        (meshtastic::store_and_forward::RequestResponse::ClientError, "CLIENT_ERROR", 64),
        (meshtastic::store_and_forward::RequestResponse::ClientHistory, "CLIENT_HISTORY", 65),
        (meshtastic::store_and_forward::RequestResponse::ClientStats, "CLIENT_STATS", 66),
        (meshtastic::store_and_forward::RequestResponse::ClientPing, "CLIENT_PING", 67),
        (meshtastic::store_and_forward::RequestResponse::ClientPong, "CLIENT_PONG", 68),
        (meshtastic::store_and_forward::RequestResponse::ClientAbort, "CLIENT_ABORT", 106),
    ];
    for (e, name, number) in all {
        assert_eq!(e.as_str_name(), name);
        assert_eq!(meshtastic::store_and_forward::RequestResponse::from_str_name(name), Some(e));
        assert_eq!(meshtastic::store_and_forward::RequestResponse::from_str_name(&name.to_lowercase()), None);
        assert_eq!(meshtastic::store_and_forward::RequestResponse::from_str_name(&format!("{} ", name)), None);
        assert_eq!(i32::from(e), number);
        assert_eq!(meshtastic::store_and_forward::RequestResponse::from_i32(number), Some(e));
        assert!(meshtastic::store_and_forward::RequestResponse::is_valid(number));
        assert_eq!(meshtastic::store_and_forward::RequestResponse::try_from(number), Ok(e));
    }
    assert_eq!(meshtastic::store_and_forward::RequestResponse::from_str_name(""), None);
    assert_eq!(meshtastic::store_and_forward::RequestResponse::from_i32(99), None);
    assert!(!meshtastic::store_and_forward::RequestResponse::is_valid(99));
    assert!(!meshtastic::store_and_forward::RequestResponse::is_valid(-1));
    assert_eq!(meshtastic::store_and_forward::RequestResponse::try_from(99), Err(prost::UnknownEnumValue(99)));
    assert_eq!(meshtastic::store_and_forward::RequestResponse::default(), meshtastic::store_and_forward::RequestResponse::Unset);
    assert_eq!(i32::from(meshtastic::store_and_forward::RequestResponse::default()), 0);
}

