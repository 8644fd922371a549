//! Message and enumeration types of the on-device user interface definitions.

use vstd::prelude::*;
use crate::enum_error::make_unknown_enum_value;
use crate::text::str_eq;

verus! {

#[derive(Clone, Debug, PartialEq)]
pub struct DeviceUiConfig {
    /// A version integer used to invalidate saved files when we make incompatible changes.
    pub version: u32,
    /// TFT display brightness 1..255
    pub screen_brightness: u32,
    /// Screen timeout 0..900
    pub screen_timeout: u32,
    /// Screen/Settings lock enabled
    pub screen_lock: bool,
    pub settings_lock: bool,
    pub pin_code: u32,
    /// Color theme
    pub theme: i32,
    /// Audible message, banner and ring tone
    pub alert_enabled: bool,
    pub banner_enabled: bool,
    pub ring_tone_id: u32,
    /// Localization
    pub language: i32,
    /// Node list filter
    pub node_filter: Option<crate::NodeFilter>,
    /// Node list highlightening
    pub node_highlight: Option<crate::NodeHighlight>,
    /// 8 integers for screen calibration data
    pub calibration_data: Vec<u8>,
}

impl DeviceUiConfig {
    /// Returns the enum value of `theme`, or the default if the field is set to an invalid enum value.
    pub fn theme(&self) -> (r: crate::Theme)
        ensures
            r == crate::Theme::from_number_or_default(self.theme),
            (exists|e: crate::Theme| #[trigger] e.value() == self.theme) ==> r.value() == self.theme,
            (forall|e: crate::Theme| #[trigger] e.value() != self.theme) ==> r.value() == 0,
    {
        proof {
            crate::Theme::lemma_number_or_default(self.theme);
        }
        match crate::Theme::from_i32(self.theme) {
            Some(e) => e,
            None => <crate::Theme as Default>::default(),
        }
    }

    /// Sets `theme` to the provided enum value.
    pub fn set_theme(&mut self, value: crate::Theme)
        ensures
            *final(self) == (Self { theme: value.value(), ..*old(self) }),
    {
        self.theme = i32::from(value);
    }

    /// Returns the enum value of `language`, or the default if the field is set to an invalid enum value.
    pub fn language(&self) -> (r: crate::Language)
        ensures
            r == crate::Language::from_number_or_default(self.language),
            (exists|e: crate::Language| #[trigger] e.value() == self.language) ==> r.value() == self.language,
            (forall|e: crate::Language| #[trigger] e.value() != self.language) ==> r.value() == 0,
    {
        proof {
            crate::Language::lemma_number_or_default(self.language);
        }
        match crate::Language::from_i32(self.language) {
            Some(e) => e,
            None => <crate::Language as Default>::default(),
        }
    }

    /// Sets `language` to the provided enum value.
    pub fn set_language(&mut self, value: crate::Language)
        ensures
            *final(self) == (Self { language: value.value(), ..*old(self) }),
    {
        self.language = i32::from(value);
    }
}

impl Default for DeviceUiConfig {
    /// The message with every field unset: numbers 0, flags false, strings, bytes and lists
    /// empty, and no nested message.
    fn default() -> (r: Self)
        ensures
            r.version == 0,
            r.screen_brightness == 0,
            r.screen_timeout == 0,
            r.screen_lock == false,
            r.settings_lock == false,
            r.pin_code == 0,
            r.theme == 0,
            r.alert_enabled == false,
            r.banner_enabled == false,
            r.ring_tone_id == 0,
            r.language == 0,
            r.node_filter is None,
            r.node_highlight is None,
            r.calibration_data@.len() == 0,
    {
        DeviceUiConfig {
            version: 0,
            screen_brightness: 0,
            screen_timeout: 0,
            screen_lock: false,
            settings_lock: false,
            pin_code: 0,
            theme: 0,
            alert_enabled: false,
            banner_enabled: false,
            ring_tone_id: 0,
            language: 0,
            node_filter: None,
            node_highlight: None,
            calibration_data: Vec::new(),
        }
    }
}

#[derive(Clone, Debug, PartialEq)]
pub struct NodeFilter {
    /// Filter unknown nodes
    pub unknown_switch: bool,
    /// Filter offline nodes
    pub offline_switch: bool,
    /// Filter nodes w/o public key
    pub public_key_switch: bool,
    /// Filter based on hops away
    pub hops_away: i32,
    /// Filter nodes w/o position
    pub position_switch: bool,
    /// Filter nodes by matching name string
    pub node_name: String,
    /// Filter based on channel
    pub channel: i32,
}

impl Default for NodeFilter {
    /// The message with every field unset: numbers 0, flags false, strings, bytes and lists
    /// empty, and no nested message.
    fn default() -> (r: Self)
        ensures
            r.unknown_switch == false,
            r.offline_switch == false,
            r.public_key_switch == false,
            r.hops_away == 0,
            r.position_switch == false,
            r.node_name@ == Seq::<char>::empty(),
            r.channel == 0,
    {
        NodeFilter {
            unknown_switch: false,
            offline_switch: false,
            public_key_switch: false,
            hops_away: 0,
            position_switch: false,
            node_name: String::new(),
            channel: 0,
        }
    }
}

#[derive(Clone, Debug, PartialEq)]
pub struct NodeHighlight {
    /// Hightlight nodes w/ active chat
    pub chat_switch: bool,
    /// Highlight nodes w/ position
    pub position_switch: bool,
    /// Highlight nodes w/ telemetry data
    pub telemetry_switch: bool,
    /// Highlight nodes w/ iaq data
    pub iaq_switch: bool,
    /// Highlight nodes by matching name string
    pub node_name: String,
}

impl Default for NodeHighlight {
    /// The message with every field unset: numbers 0, flags false, strings, bytes and lists
    /// empty, and no nested message.
    fn default() -> (r: Self)
        ensures
            r.chat_switch == false,
            r.position_switch == false,
            r.telemetry_switch == false,
            r.iaq_switch == false,
            r.node_name@ == Seq::<char>::empty(),
    {
        NodeHighlight {
            chat_switch: false,
            position_switch: false,
            telemetry_switch: false,
            iaq_switch: false,
            node_name: String::new(),
        }
    }
}

#[derive(Clone, Copy, Debug, PartialEq, Eq, Hash, PartialOrd, Ord)]
pub enum Theme {
    /// Dark
    Dark,
    /// Light
    Light,
    /// Red
    Red,
}

impl Theme {
    /// The name of this variant in the ProtoBuf definition.
    pub open spec fn str_name(self) -> Seq<char> {
        match self {
            Theme::Dark => "DARK"@,
            Theme::Light => "LIGHT"@,
            Theme::Red => "RED"@,
        }
    }

    /// The number of this variant in the ProtoBuf definition.
    pub open spec fn value(self) -> i32 {
        match self {
            Theme::Dark => 0,
            Theme::Light => 1,
            Theme::Red => 2,
        }
    }

    /// The variant numbered 0, which a field holds when it is not set.
    pub open spec fn default_variant() -> Self {
        Theme::Dark
    }

    /// The variant numbered `value`, or the default variant when no variant has that number:
    /// what a message field holding `value` reads as.
    pub open spec fn from_number_or_default(value: i32) -> Self {
        match Self::with_value(value) {
            Some(e) => e,
            None => Self::default_variant(),
        }
    }

    /// The variant whose ProtoBuf name is `name`, if there is one.
    pub open spec fn named(name: Seq<char>) -> Option<Self> {
        if exists|e: Self| #[trigger] e.str_name() == name {
            Some(choose|e: Self| #[trigger] e.str_name() == name)
        } else {
            None
        }
    }

    /// The variant whose ProtoBuf number is `value`, if there is one.
    pub open spec fn with_value(value: i32) -> Option<Self> {
        if exists|e: Self| #[trigger] e.value() == value {
            Some(choose|e: Self| #[trigger] e.value() == value)
        } else {
            None
        }
    }

    spec fn name_lookup(name: Seq<char>) -> Option<Self> {
        if name == "DARK"@ {
            Some(Theme::Dark)
        } else if name == "LIGHT"@ {
            Some(Theme::Light)
        } else if name == "RED"@ {
            Some(Theme::Red)
        } else {
            None
        }
    }

    spec fn value_lookup(value: i32) -> Option<Self> {
        if value == 0 {
            Some(Theme::Dark)
        } else if value == 1 {
            Some(Theme::Light)
        } else if value == 2 {
            Some(Theme::Red)
        } else {
            None
        }
    }

    proof fn lemma_lookups()
        ensures
            forall|e: Self| #[trigger] Self::name_lookup(e.str_name()) == Some(e),
            forall|e: Self| #[trigger] Self::value_lookup(e.value()) == Some(e),
    {
        reveal_strlit("DARK");
        assert("DARK"@.len() == 4);
        reveal_strlit("LIGHT");
        assert("LIGHT"@.len() == 5);
        reveal_strlit("RED");
        assert("RED"@.len() == 3);
    }

    /// Distinct variants have distinct ProtoBuf names and distinct ProtoBuf numbers.
    pub proof fn lemma_injective(a: Self, b: Self)
        ensures
            a.str_name() == b.str_name() ==> a == b,
            a.value() == b.value() ==> a == b,
    {
        Self::lemma_lookups();
        assert(Self::name_lookup(a.str_name()) == Some(a));
        assert(Self::name_lookup(b.str_name()) == Some(b));
        assert(Self::value_lookup(a.value()) == Some(a));
        assert(Self::value_lookup(b.value()) == Some(b));
    }

    /// A name denotes a variant exactly when it is that variant's ProtoBuf name:
    /// `from_str_name` undoes `as_str_name`, and accepts nothing else.
    pub proof fn lemma_named(name: Seq<char>, e: Self)
        ensures
            Self::named(name) == Some(e) <==> e.str_name() == name,
    {
        if e.str_name() == name {
            let x = choose|x: Self| #[trigger] x.str_name() == name;
            Self::lemma_injective(x, e);
        }
    }

    /// A number denotes a variant exactly when it is that variant's ProtoBuf number:
    /// `from_i32` undoes the conversion to `i32`, and accepts nothing else.
    pub proof fn lemma_with_value(value: i32, e: Self)
        ensures
            Self::with_value(value) == Some(e) <==> e.value() == value,
    {
        if e.value() == value {
            let x = choose|x: Self| #[trigger] x.value() == value;
            Self::lemma_injective(x, e);
        }
    }

    /// What a field holding `value` reads as: the variant numbered `value` when some variant
    /// has that number, and otherwise the variant numbered 0.
    pub proof fn lemma_number_or_default(value: i32)
        ensures
            (exists|e: Self| #[trigger] e.value() == value) ==> Self::from_number_or_default(value).value() == value,
            (forall|e: Self| #[trigger] e.value() != value) ==> Self::from_number_or_default(value).value() == 0,
            (forall|e: Self| #[trigger] e.value() != value) ==> Self::from_number_or_default(value) == Self::default_variant(),
            Self::default_variant().value() == 0,
    {
        if exists|e: Self| #[trigger] e.value() == value {
            let e = choose|e: Self| #[trigger] e.value() == value;
            Self::lemma_with_value(value, e);
        }
    }

    /// `try_from` accepts exactly the numbers that variants have and gives back the variant with
    /// that number; every other number it rejects with the error that records that number.
    pub proof fn lemma_try_from(value: i32, e: Self)
        ensures
            (<Self as vstd::std_specs::convert::TryFromSpec<i32>>::try_from_spec(value) == Ok::<Self, prost::UnknownEnumValue>(e)) <==> e.value() == value,
            (forall|x: Self| #[trigger] x.value() != value) ==> <Self as vstd::std_specs::convert::TryFromSpec<i32>>::try_from_spec(value) == Err::<Self, prost::UnknownEnumValue>(crate::enum_error::unknown_enum_value(value)),
            (exists|x: Self| #[trigger] x.value() == value) ==> <Self as vstd::std_specs::convert::TryFromSpec<i32>>::try_from_spec(value) is Ok,
    {
        Self::lemma_with_value(value, e);
        if exists|x: Self| #[trigger] x.value() == value {
            let x = choose|x: Self| #[trigger] x.value() == value;
            Self::lemma_with_value(value, x);
        }
    }

    /// Reading back the number of a variant gives that variant: a field set to `e` reads as `e`.
    pub proof fn lemma_read_after_write(e: Self)
        ensures
            Self::from_number_or_default(e.value()) == e,
    {
        Self::lemma_with_value(e.value(), e);
    }

    /// String value of the enum field names used in the ProtoBuf definition.
    ///
    /// The values are not transformed in any way and thus are considered stable
    /// (if the ProtoBuf definition does not change) and safe for programmatic use.
    pub fn as_str_name(&self) -> (name: &'static str)
        ensures
            name@ == self.str_name(),
    {
        match self {
            Theme::Dark => "DARK",
            Theme::Light => "LIGHT",
            Theme::Red => "RED",
        }
    }

    /// Creates an enum from field names used in the ProtoBuf definition.
    pub fn from_str_name(value: &str) -> (r: Option<Self>)
        ensures
            r == Self::named(value@),
    {
        if str_eq(value, "DARK") {
            proof {
                Self::lemma_named(value@, Theme::Dark);
            }
            return Some(Theme::Dark);
        }
        if str_eq(value, "LIGHT") {
            proof {
                Self::lemma_named(value@, Theme::Light);
            }
            return Some(Theme::Light);
        }
        if str_eq(value, "RED") {
            proof {
                Self::lemma_named(value@, Theme::Red);
            }
            return Some(Theme::Red);
        }
        None
    }

    /// Returns `true` if `value` is a variant of `Theme`.
    pub fn is_valid(value: i32) -> (r: bool)
        ensures
            r == (Self::with_value(value) is Some),
    {
        Self::from_i32(value).is_some()
    }

    /// Converts an `i32` to a `Theme`, or `None` if `value` is not a valid variant.
    pub fn from_i32(value: i32) -> (r: Option<Self>)
        ensures
            r == Self::with_value(value),
    {
        if value == 0 {
            proof {
                Self::lemma_with_value(value, Theme::Dark);
            }
            return Some(Theme::Dark);
        }
        if value == 1 {
            proof {
                Self::lemma_with_value(value, Theme::Light);
            }
            return Some(Theme::Light);
        }
        if value == 2 {
            proof {
                Self::lemma_with_value(value, Theme::Red);
            }
            return Some(Theme::Red);
        }
        None
    }
}

impl Default for Theme {
    /// The variant numbered 0, the default value of the field in ProtoBuf.
    fn default() -> (r: Self)
        ensures
            r == Self::default_variant(),
            r.value() == 0,
    {
        Theme::Dark
    }
}

impl From<Theme> for i32 {
    fn from(value: Theme) -> (r: i32) {
        match value {
            Theme::Dark => 0,
            Theme::Light => 1,
            Theme::Red => 2,
        }
    }
}

impl TryFrom<i32> for Theme {
    type Error = prost::UnknownEnumValue;

    fn try_from(value: i32) -> (r: Result<Theme, prost::UnknownEnumValue>)
        ensures
            r matches Ok(e) ==> e.value() == value,
            (exists|e: Theme| #[trigger] e.value() == value) ==> r is Ok,
            r is Err ==> r == Err::<Theme, prost::UnknownEnumValue>(crate::enum_error::unknown_enum_value(value)),
    {
        proof {
            if exists|e: Theme| #[trigger] e.value() == value {
                let e = choose|e: Theme| #[trigger] e.value() == value;
                Theme::lemma_with_value(value, e);
            }
        }
        match Theme::from_i32(value) {
            Some(e) => Ok(e),
            None => Err(make_unknown_enum_value(value)),
        }
    }
}

impl vstd::std_specs::convert::TryFromSpecImpl<i32> for Theme {
    open spec fn obeys_try_from_spec() -> bool {
        true
    }

    open spec fn try_from_spec(value: i32) -> Result<Theme, prost::UnknownEnumValue> {
        match Theme::with_value(value) {
            Some(e) => Ok(e),
            None => Err(crate::enum_error::unknown_enum_value(value)),
        }
    }
}

impl vstd::std_specs::convert::FromSpecImpl<Theme> for i32 {
    open spec fn obeys_from_spec() -> bool {
        true
    }

    open spec fn from_spec(value: Theme) -> i32 {
        value.value()
    }
}

/// Localization
#[derive(Clone, Copy, Debug, PartialEq, Eq, Hash, PartialOrd, Ord)]
pub enum Language {
    /// English
    English,
    /// French
    French,
    /// German
    German,
    /// Italian
    Italian,
    /// Portuguese
    Portuguese,
    /// Spanish
    Spanish,
    /// Swedish
    Swedish,
    /// Finnish
    Finnish,
    /// Polish
    Polish,
    /// Turkish
    Turkish,
    /// Serbian
    Serbian,
    /// Russian
    Russian,
    /// Dutch
    Dutch,
    /// Greek
    Greek,
    /// Norwegian
    Norwegian,
    /// Slovenian
    Slovenian,
    /// Simplified Chinese (experimental)
    SimplifiedChinese,
    /// Traditional Chinese (experimental)
    TraditionalChinese,
}

impl Language {
    /// The name of this variant in the ProtoBuf definition.
    pub open spec fn str_name(self) -> Seq<char> {
        match self {
            Language::English => "ENGLISH"@,
            Language::French => "FRENCH"@,
            Language::German => "GERMAN"@,
            Language::Italian => "ITALIAN"@,
            Language::Portuguese => "PORTUGUESE"@,
            Language::Spanish => "SPANISH"@,
            Language::Swedish => "SWEDISH"@,
            Language::Finnish => "FINNISH"@,
            Language::Polish => "POLISH"@,
            Language::Turkish => "TURKISH"@,
            Language::Serbian => "SERBIAN"@,
            Language::Russian => "RUSSIAN"@,
            Language::Dutch => "DUTCH"@,
            Language::Greek => "GREEK"@,
            Language::Norwegian => "NORWEGIAN"@,
            Language::Slovenian => "SLOVENIAN"@,
            Language::SimplifiedChinese => "SIMPLIFIED_CHINESE"@,
            Language::TraditionalChinese => "TRADITIONAL_CHINESE"@,
        }
    }

    /// The number of this variant in the ProtoBuf definition.
    pub open spec fn value(self) -> i32 {
        match self {
            Language::English => 0,
            Language::French => 1,
            Language::German => 2,
            Language::Italian => 3,
            Language::Portuguese => 4,
            Language::Spanish => 5,
            Language::Swedish => 6,
            Language::Finnish => 7,
            Language::Polish => 8,
            Language::Turkish => 9,
            Language::Serbian => 10,
            Language::Russian => 11,
            Language::Dutch => 12,
            Language::Greek => 13,
            Language::Norwegian => 14,
            Language::Slovenian => 15,
            Language::SimplifiedChinese => 30,
            Language::TraditionalChinese => 31,
        }
    }

    /// The variant numbered 0, which a field holds when it is not set.
    pub open spec fn default_variant() -> Self {
        Language::English
    }

    /// The variant numbered `value`, or the default variant when no variant has that number:
    /// what a message field holding `value` reads as.
    pub open spec fn from_number_or_default(value: i32) -> Self {
        match Self::with_value(value) {
            Some(e) => e,
            None => Self::default_variant(),
        }
    }

    /// The variant whose ProtoBuf name is `name`, if there is one.
    pub open spec fn named(name: Seq<char>) -> Option<Self> {
        if exists|e: Self| #[trigger] e.str_name() == name {
            Some(choose|e: Self| #[trigger] e.str_name() == name)
        } else {
            None
        }
    }

    /// The variant whose ProtoBuf number is `value`, if there is one.
    pub open spec fn with_value(value: i32) -> Option<Self> {
        if exists|e: Self| #[trigger] e.value() == value {
            Some(choose|e: Self| #[trigger] e.value() == value)
        } else {
            None
        }
    }

    spec fn name_lookup(name: Seq<char>) -> Option<Self> {
        if name == "ENGLISH"@ {
            Some(Language::English)
        } else if name == "FRENCH"@ {
            Some(Language::French)
        } else if name == "GERMAN"@ {
            Some(Language::German)
        } else if name == "ITALIAN"@ {
            Some(Language::Italian)
        } else if name == "PORTUGUESE"@ {
            Some(Language::Portuguese)
        } else if name == "SPANISH"@ {
            Some(Language::Spanish)
        } else if name == "SWEDISH"@ {
            Some(Language::Swedish)
        } else if name == "FINNISH"@ {
            Some(Language::Finnish)
        } else if name == "POLISH"@ {
            Some(Language::Polish)
        } else if name == "TURKISH"@ {
            Some(Language::Turkish)
        } else if name == "SERBIAN"@ {
            Some(Language::Serbian)
        } else if name == "RUSSIAN"@ {
            Some(Language::Russian)
        } else if name == "DUTCH"@ {
            Some(Language::Dutch)
        } else if name == "GREEK"@ {
            Some(Language::Greek)
        } else if name == "NORWEGIAN"@ {
            Some(Language::Norwegian)
        } else if name == "SLOVENIAN"@ {
            Some(Language::Slovenian)
        } else if name == "SIMPLIFIED_CHINESE"@ {
            Some(Language::SimplifiedChinese)
        } else if name == "TRADITIONAL_CHINESE"@ {
            Some(Language::TraditionalChinese)
        } else {
            None
        }
    }

    spec fn value_lookup(value: i32) -> Option<Self> {
        if value == 0 {
            Some(Language::English)
        } else if value == 1 {
            Some(Language::French)
        } else if value == 2 {
            Some(Language::German)
        } else if value == 3 {
            Some(Language::Italian)
        } else if value == 4 {
            Some(Language::Portuguese)
        } else if value == 5 {
            Some(Language::Spanish)
        } else if value == 6 {
            Some(Language::Swedish)
        } else if value == 7 {
            Some(Language::Finnish)
        } else if value == 8 {
            Some(Language::Polish)
        } else if value == 9 {
            Some(Language::Turkish)
        } else if value == 10 {
            Some(Language::Serbian)
        } else if value == 11 {
            Some(Language::Russian)
        } else if value == 12 {
            Some(Language::Dutch)
        } else if value == 13 {
            Some(Language::Greek)
        } else if value == 14 {
            Some(Language::Norwegian)
        } else if value == 15 {
            Some(Language::Slovenian)
        } else if value == 30 {
            Some(Language::SimplifiedChinese)
        } else if value == 31 {
            Some(Language::TraditionalChinese)
        } else {
            None
        }
    }

    proof fn lemma_lookups()
        ensures
            forall|e: Self| #[trigger] Self::name_lookup(e.str_name()) == Some(e),
            forall|e: Self| #[trigger] Self::value_lookup(e.value()) == Some(e),
    {
        reveal_strlit("ENGLISH");
        assert("ENGLISH"@.len() == 7);
        assert("ENGLISH"@[0] == 'E');
        reveal_strlit("FRENCH");
        assert("FRENCH"@.len() == 6);
        assert("FRENCH"@[0] == 'F');
        reveal_strlit("GERMAN");
        assert("GERMAN"@.len() == 6);
        assert("GERMAN"@[0] == 'G');
        reveal_strlit("ITALIAN");
        assert("ITALIAN"@.len() == 7);
        assert("ITALIAN"@[0] == 'I');
        reveal_strlit("PORTUGUESE");
        assert("PORTUGUESE"@.len() == 10);
        reveal_strlit("SPANISH");
        assert("SPANISH"@.len() == 7);
        assert("SPANISH"@[0] == 'S');
        assert("SPANISH"@[1] == 'P');
        reveal_strlit("SWEDISH");
        assert("SWEDISH"@.len() == 7);
        assert("SWEDISH"@[0] == 'S');
        assert("SWEDISH"@[1] == 'W');
        reveal_strlit("FINNISH");
        assert("FINNISH"@.len() == 7);
        assert("FINNISH"@[0] == 'F');
        reveal_strlit("POLISH");
        assert("POLISH"@.len() == 6);
        assert("POLISH"@[0] == 'P');
        reveal_strlit("TURKISH");
        assert("TURKISH"@.len() == 7);
        assert("TURKISH"@[0] == 'T');
        reveal_strlit("SERBIAN");
        assert("SERBIAN"@.len() == 7);
        assert("SERBIAN"@[0] == 'S');
        assert("SERBIAN"@[1] == 'E');
        reveal_strlit("RUSSIAN");
        assert("RUSSIAN"@.len() == 7);
        assert("RUSSIAN"@[0] == 'R');
        reveal_strlit("DUTCH");
        assert("DUTCH"@.len() == 5);
        assert("DUTCH"@[0] == 'D');
        reveal_strlit("GREEK");
        assert("GREEK"@.len() == 5);
        assert("GREEK"@[0] == 'G');
        reveal_strlit("NORWEGIAN");
        assert("NORWEGIAN"@.len() == 9);
        assert("NORWEGIAN"@[0] == 'N');
        reveal_strlit("SLOVENIAN");
        assert("SLOVENIAN"@.len() == 9);
        assert("SLOVENIAN"@[0] == 'S');
        reveal_strlit("SIMPLIFIED_CHINESE");
        assert("SIMPLIFIED_CHINESE"@.len() == 18);
        reveal_strlit("TRADITIONAL_CHINESE");
        assert("TRADITIONAL_CHINESE"@.len() == 19);
    }

    /// Distinct variants have distinct ProtoBuf names and distinct ProtoBuf numbers.
    pub proof fn lemma_injective(a: Self, b: Self)
        ensures
            a.str_name() == b.str_name() ==> a == b,
            a.value() == b.value() ==> a == b,
    {
        Self::lemma_lookups();
        assert(Self::name_lookup(a.str_name()) == Some(a));
        assert(Self::name_lookup(b.str_name()) == Some(b));
        assert(Self::value_lookup(a.value()) == Some(a));
        assert(Self::value_lookup(b.value()) == Some(b));
    }

    /// A name denotes a variant exactly when it is that variant's ProtoBuf name:
    /// `from_str_name` undoes `as_str_name`, and accepts nothing else.
    pub proof fn lemma_named(name: Seq<char>, e: Self)
        ensures
            Self::named(name) == Some(e) <==> e.str_name() == name,
    {
        if e.str_name() == name {
            let x = choose|x: Self| #[trigger] x.str_name() == name;
            Self::lemma_injective(x, e);
        }
    }

    /// A number denotes a variant exactly when it is that variant's ProtoBuf number:
    /// `from_i32` undoes the conversion to `i32`, and accepts nothing else.
    pub proof fn lemma_with_value(value: i32, e: Self)
        ensures
            Self::with_value(value) == Some(e) <==> e.value() == value,
    {
        if e.value() == value {
            let x = choose|x: Self| #[trigger] x.value() == value;
            Self::lemma_injective(x, e);
        }
    }

    /// What a field holding `value` reads as: the variant numbered `value` when some variant
    /// has that number, and otherwise the variant numbered 0.
    pub proof fn lemma_number_or_default(value: i32)
        ensures
            (exists|e: Self| #[trigger] e.value() == value) ==> Self::from_number_or_default(value).value() == value,
            (forall|e: Self| #[trigger] e.value() != value) ==> Self::from_number_or_default(value).value() == 0,
            (forall|e: Self| #[trigger] e.value() != value) ==> Self::from_number_or_default(value) == Self::default_variant(),
            Self::default_variant().value() == 0,
    {
        if exists|e: Self| #[trigger] e.value() == value {
            let e = choose|e: Self| #[trigger] e.value() == value;
            Self::lemma_with_value(value, e);
        }
    }

    /// `try_from` accepts exactly the numbers that variants have and gives back the variant with
    /// that number; every other number it rejects with the error that records that number.
    pub proof fn lemma_try_from(value: i32, e: Self)
        ensures
            (<Self as vstd::std_specs::convert::TryFromSpec<i32>>::try_from_spec(value) == Ok::<Self, prost::UnknownEnumValue>(e)) <==> e.value() == value,
            (forall|x: Self| #[trigger] x.value() != value) ==> <Self as vstd::std_specs::convert::TryFromSpec<i32>>::try_from_spec(value) == Err::<Self, prost::UnknownEnumValue>(crate::enum_error::unknown_enum_value(value)),
            (exists|x: Self| #[trigger] x.value() == value) ==> <Self as vstd::std_specs::convert::TryFromSpec<i32>>::try_from_spec(value) is Ok,
    {
        Self::lemma_with_value(value, e);
        if exists|x: Self| #[trigger] x.value() == value {
            let x = choose|x: Self| #[trigger] x.value() == value;
            Self::lemma_with_value(value, x);
        }
    }

    /// Reading back the number of a variant gives that variant: a field set to `e` reads as `e`.
    pub proof fn lemma_read_after_write(e: Self)
        ensures
            Self::from_number_or_default(e.value()) == e,
    {
        Self::lemma_with_value(e.value(), e);
    }

    /// String value of the enum field names used in the ProtoBuf definition.
    ///
    /// The values are not transformed in any way and thus are considered stable
    /// (if the ProtoBuf definition does not change) and safe for programmatic use.
    pub fn as_str_name(&self) -> (name: &'static str)
        ensures
            name@ == self.str_name(),
    {
        match self {
            Language::English => "ENGLISH",
            Language::French => "FRENCH",
            Language::German => "GERMAN",
            Language::Italian => "ITALIAN",
            Language::Portuguese => "PORTUGUESE",
            Language::Spanish => "SPANISH",
            Language::Swedish => "SWEDISH",
            Language::Finnish => "FINNISH",
            Language::Polish => "POLISH",
            Language::Turkish => "TURKISH",
            Language::Serbian => "SERBIAN",
            Language::Russian => "RUSSIAN",
            Language::Dutch => "DUTCH",
            Language::Greek => "GREEK",
            Language::Norwegian => "NORWEGIAN",
            Language::Slovenian => "SLOVENIAN",
            Language::SimplifiedChinese => "SIMPLIFIED_CHINESE",
            Language::TraditionalChinese => "TRADITIONAL_CHINESE",
        }
    }

    /// Creates an enum from field names used in the ProtoBuf definition.
    pub fn from_str_name(value: &str) -> (r: Option<Self>)
        ensures
            r == Self::named(value@),
    {
        if str_eq(value, "ENGLISH") {
            proof {
                Self::lemma_named(value@, Language::English);
            }
            return Some(Language::English);
        }
        if str_eq(value, "FRENCH") {
            proof {
                Self::lemma_named(value@, Language::French);
            }
            return Some(Language::French);
        }
        if str_eq(value, "GERMAN") {
            proof {
                Self::lemma_named(value@, Language::German);
            }
            return Some(Language::German);
        }
        if str_eq(value, "ITALIAN") {
            proof {
                Self::lemma_named(value@, Language::Italian);
            }
            return Some(Language::Italian);
        }
        if str_eq(value, "PORTUGUESE") {
            proof {
                Self::lemma_named(value@, Language::Portuguese);
            }
            return Some(Language::Portuguese);
        }
        if str_eq(value, "SPANISH") {
            proof {
                Self::lemma_named(value@, Language::Spanish);
            }
            return Some(Language::Spanish);
        }
        if str_eq(value, "SWEDISH") {
            proof {
                Self::lemma_named(value@, Language::Swedish);
            }
            return Some(Language::Swedish);
        }
        if str_eq(value, "FINNISH") {
            proof {
                Self::lemma_named(value@, Language::Finnish);
            }
            return Some(Language::Finnish);
        }
        if str_eq(value, "POLISH") {
            proof {
                Self::lemma_named(value@, Language::Polish);
            }
            return Some(Language::Polish);
        }
        if str_eq(value, "TURKISH") {
            proof {
                Self::lemma_named(value@, Language::Turkish);
            }
            return Some(Language::Turkish);
        }
        if str_eq(value, "SERBIAN") {
            proof {
                Self::lemma_named(value@, Language::Serbian);
            }
            return Some(Language::Serbian);
        }
        if str_eq(value, "RUSSIAN") {
            proof {
                Self::lemma_named(value@, Language::Russian);
            }
            return Some(Language::Russian);
        }
        if str_eq(value, "DUTCH") {
            proof {
                Self::lemma_named(value@, Language::Dutch);
            }
            return Some(Language::Dutch);
        }
        if str_eq(value, "GREEK") {
            proof {
                Self::lemma_named(value@, Language::Greek);
            }
            return Some(Language::Greek);
        }
        if str_eq(value, "NORWEGIAN") {
            proof {
                Self::lemma_named(value@, Language::Norwegian);
            }
            return Some(Language::Norwegian);
        }
        if str_eq(value, "SLOVENIAN") {
            proof {
                Self::lemma_named(value@, Language::Slovenian);
            }
            return Some(Language::Slovenian);
        }
        if str_eq(value, "SIMPLIFIED_CHINESE") {
            proof {
                Self::lemma_named(value@, Language::SimplifiedChinese);
            }
            return Some(Language::SimplifiedChinese);
        }
        if str_eq(value, "TRADITIONAL_CHINESE") {
            proof {
                Self::lemma_named(value@, Language::TraditionalChinese);
            }
            return Some(Language::TraditionalChinese);
        }
        None
    }

    /// Returns `true` if `value` is a variant of `Language`.
    pub fn is_valid(value: i32) -> (r: bool)
        ensures
            r == (Self::with_value(value) is Some),
    {
        Self::from_i32(value).is_some()
    }

    /// Converts an `i32` to a `Language`, or `None` if `value` is not a valid variant.
    pub fn from_i32(value: i32) -> (r: Option<Self>)
        ensures
            r == Self::with_value(value),
    {
        if value == 0 {
            proof {
                Self::lemma_with_value(value, Language::English);
            }
            return Some(Language::English);
        }
        if value == 1 {
            proof {
                Self::lemma_with_value(value, Language::French);
            }
            return Some(Language::French);
        }
        if value == 2 {
            proof {
                Self::lemma_with_value(value, Language::German);
            }
            return Some(Language::German);
        }
        if value == 3 {
            proof {
                Self::lemma_with_value(value, Language::Italian);
            }
            return Some(Language::Italian);
        }
        if value == 4 {
            proof {
                Self::lemma_with_value(value, Language::Portuguese);
            }
            return Some(Language::Portuguese);
        }
        if value == 5 {
            proof {
                Self::lemma_with_value(value, Language::Spanish);
            }
            return Some(Language::Spanish);
        }
        if value == 6 {
            proof {
                Self::lemma_with_value(value, Language::Swedish);
            }
            return Some(Language::Swedish);
        }
        if value == 7 {
            proof {
                Self::lemma_with_value(value, Language::Finnish);
            }
            return Some(Language::Finnish);
        }
        if value == 8 {
            proof {
                Self::lemma_with_value(value, Language::Polish);
            }
            return Some(Language::Polish);
        }
        if value == 9 {
            proof {
                Self::lemma_with_value(value, Language::Turkish);
            }
            return Some(Language::Turkish);
        }
        if value == 10 {
            proof {
                Self::lemma_with_value(value, Language::Serbian);
            }
            return Some(Language::Serbian);
        }
        if value == 11 {
            proof {
                Self::lemma_with_value(value, Language::Russian);
            }
            return Some(Language::Russian);
        }
        if value == 12 {
            proof {
                Self::lemma_with_value(value, Language::Dutch);
            }
            return Some(Language::Dutch);
        }
        if value == 13 {
            proof {
                Self::lemma_with_value(value, Language::Greek);
            }
            return Some(Language::Greek);
        }
        if value == 14 {
            proof {
                Self::lemma_with_value(value, Language::Norwegian);
            }
            return Some(Language::Norwegian);
        }
        if value == 15 {
            proof {
                Self::lemma_with_value(value, Language::Slovenian);
            }
            return Some(Language::Slovenian);
        }
        if value == 30 {
            proof {
                Self::lemma_with_value(value, Language::SimplifiedChinese);
            }
            return Some(Language::SimplifiedChinese);
        }
        if value == 31 {
            proof {
                Self::lemma_with_value(value, Language::TraditionalChinese);
            }
            return Some(Language::TraditionalChinese);
        }
        None
    }
}

impl Default for Language {
    /// The variant numbered 0, the default value of the field in ProtoBuf.
    fn default() -> (r: Self)
        ensures
            r == Self::default_variant(),
            r.value() == 0,
    {
        Language::English
    }
}

impl From<Language> for i32 {
    fn from(value: Language) -> (r: i32) {
        match value {
            Language::English => 0,
            Language::French => 1,
            Language::German => 2,
            Language::Italian => 3,
            Language::Portuguese => 4,
            Language::Spanish => 5,
            Language::Swedish => 6,
            Language::Finnish => 7,
            Language::Polish => 8,
            Language::Turkish => 9,
            Language::Serbian => 10,
            Language::Russian => 11,
            Language::Dutch => 12,
            Language::Greek => 13,
            Language::Norwegian => 14,
            Language::Slovenian => 15,
            Language::SimplifiedChinese => 30,
            Language::TraditionalChinese => 31,
        }
    }
}

impl TryFrom<i32> for Language {
    type Error = prost::UnknownEnumValue;

    fn try_from(value: i32) -> (r: Result<Language, prost::UnknownEnumValue>)
        ensures
            r matches Ok(e) ==> e.value() == value,
            (exists|e: Language| #[trigger] e.value() == value) ==> r is Ok,
            r is Err ==> r == Err::<Language, prost::UnknownEnumValue>(crate::enum_error::unknown_enum_value(value)),
    {
        proof {
            if exists|e: Language| #[trigger] e.value() == value {
                let e = choose|e: Language| #[trigger] e.value() == value;
                Language::lemma_with_value(value, e);
            }
        }
        match Language::from_i32(value) {
            Some(e) => Ok(e),
            None => Err(make_unknown_enum_value(value)),
        }
    }
}

impl vstd::std_specs::convert::TryFromSpecImpl<i32> for Language {
    open spec fn obeys_try_from_spec() -> bool {
        true
    }

    open spec fn try_from_spec(value: i32) -> Result<Language, prost::UnknownEnumValue> {
        match Language::with_value(value) {
            Some(e) => Ok(e),
            None => Err(crate::enum_error::unknown_enum_value(value)),
        }
    }
}

impl vstd::std_specs::convert::FromSpecImpl<Language> for i32 {
    open spec fn obeys_from_spec() -> bool {
        true
    }

    open spec fn from_spec(value: Language) -> i32 {
        value.value()
    }
}

} // verus!
