//! Message and enumeration types of the ATAK definitions.

use vstd::prelude::*;
use crate::enum_error::make_unknown_enum_value;
use crate::text::str_eq;

verus! {

/// Packets for the official ATAK Plugin
#[derive(Clone, Debug, PartialEq)]
pub struct TakPacket {
    /// Are the payloads strings compressed for LoRA transport?
    pub is_compressed: bool,
    /// The contact / callsign for ATAK user
    pub contact: Option<crate::Contact>,
    /// The group for ATAK user
    pub group: Option<crate::Group>,
    /// The status of the ATAK EUD
    pub status: Option<crate::Status>,
    /// The payload of the packet
    pub payload_variant: Option<crate::tak_packet::PayloadVariant>,
}

impl Default for TakPacket {
    /// The message with every field unset: numbers 0, flags false, strings, bytes and lists
    /// empty, and no nested message.
    fn default() -> (r: Self)
        ensures
            r.is_compressed == false,
            r.contact is None,
            r.group is None,
            r.status is None,
            r.payload_variant is None,
    {
        TakPacket {
            is_compressed: false,
            contact: None,
            group: None,
            status: None,
            payload_variant: None,
        }
    }
}

/// ATAK GeoChat message
#[derive(Clone, Debug, PartialEq)]
pub struct GeoChat {
    /// The text message
    pub message: String,
    /// Uid recipient of the message
    pub to: Option<String>,
    /// Callsign of the recipient for the message
    pub to_callsign: Option<String>,
}

impl GeoChat {
    /// Returns the value of `to`, or the default value if `to` is unset.
    pub fn to(&self) -> (r: &str)
        ensures
            r@ == (match self.to {
                Some(v) => v@,
                None => Seq::empty(),
            }),
    {
        match &self.to {
            Some(v) => v.as_str(),
            None => {
                proof {
                    reveal_strlit("");
                }
                assert(""@.len() == 0);
                ""
            },
        }
    }

    /// Returns the value of `to_callsign`, or the default value if `to_callsign` is unset.
    pub fn to_callsign(&self) -> (r: &str)
        ensures
            r@ == (match self.to_callsign {
                Some(v) => v@,
                None => Seq::empty(),
            }),
    {
        match &self.to_callsign {
            Some(v) => v.as_str(),
            None => {
                proof {
                    reveal_strlit("");
                }
                assert(""@.len() == 0);
                ""
            },
        }
    }
}

impl Default for GeoChat {
    /// The message with every field unset: numbers 0, flags false, strings, bytes and lists
    /// empty, and no nested message.
    fn default() -> (r: Self)
        ensures
            r.message@ == Seq::<char>::empty(),
            r.to is None,
            r.to_callsign is None,
    {
        GeoChat {
            message: String::new(),
            to: None,
            to_callsign: None,
        }
    }
}

/// ATAK Group
/// <__group role='Team Member' name='Cyan'/>
#[derive(Clone, Debug, PartialEq)]
pub struct Group {
    /// Role of the group member
    pub role: i32,
    /// Team (color)
    /// Default Cyan
    pub team: i32,
}

impl Group {
    /// Returns the enum value of `role`, or the default if the field is set to an invalid enum value.
    pub fn role(&self) -> (r: crate::MemberRole)
        ensures
            r == crate::MemberRole::from_number_or_default(self.role),
            (exists|e: crate::MemberRole| #[trigger] e.value() == self.role) ==> r.value() == self.role,
            (forall|e: crate::MemberRole| #[trigger] e.value() != self.role) ==> r.value() == 0,
    {
        proof {
            crate::MemberRole::lemma_number_or_default(self.role);
        }
        match crate::MemberRole::from_i32(self.role) {
            Some(e) => e,
            None => <crate::MemberRole as Default>::default(),
        }
    }

    /// Sets `role` to the provided enum value.
    pub fn set_role(&mut self, value: crate::MemberRole)
        ensures
            *final(self) == (Self { role: value.value(), ..*old(self) }),
    {
        self.role = i32::from(value);
    }

    /// Returns the enum value of `team`, or the default if the field is set to an invalid enum value.
    pub fn team(&self) -> (r: crate::Team)
        ensures
            r == crate::Team::from_number_or_default(self.team),
            (exists|e: crate::Team| #[trigger] e.value() == self.team) ==> r.value() == self.team,
            (forall|e: crate::Team| #[trigger] e.value() != self.team) ==> r.value() == 0,
    {
        proof {
            crate::Team::lemma_number_or_default(self.team);
        }
        match crate::Team::from_i32(self.team) {
            Some(e) => e,
            None => <crate::Team as Default>::default(),
        }
    }

    /// Sets `team` to the provided enum value.
    pub fn set_team(&mut self, value: crate::Team)
        ensures
            *final(self) == (Self { team: value.value(), ..*old(self) }),
    {
        self.team = i32::from(value);
    }
}

impl Default for Group {
    /// The message with every field unset: numbers 0, flags false, strings, bytes and lists
    /// empty, and no nested message.
    fn default() -> (r: Self)
        ensures
            r.role == 0,
            r.team == 0,
    {
        Group {
            role: 0,
            team: 0,
        }
    }
}

/// ATAK EUD Status
/// <status battery='100' />
#[derive(Clone, Debug, PartialEq)]
pub struct Status {
    /// Battery level
    pub battery: u32,
}

impl Default for Status {
    /// The message with every field unset: numbers 0, flags false, strings, bytes and lists
    /// empty, and no nested message.
    fn default() -> (r: Self)
        ensures
            r.battery == 0,
    {
        Status {
            battery: 0,
        }
    }
}

/// ATAK Contact
/// <contact endpoint='0.0.0.0:4242:tcp' phone='+12345678' callsign='FALKE'/>
#[derive(Clone, Debug, PartialEq)]
pub struct Contact {
    /// Callsign
    pub callsign: String,
    /// Device callsign
    ///
    ///
    /// IP address of endpoint in integer form (0.0.0.0 default)
    pub device_callsign: String,
}

impl Default for Contact {
    /// The message with every field unset: numbers 0, flags false, strings, bytes and lists
    /// empty, and no nested message.
    fn default() -> (r: Self)
        ensures
            r.callsign@ == Seq::<char>::empty(),
            r.device_callsign@ == Seq::<char>::empty(),
    {
        Contact {
            callsign: String::new(),
            device_callsign: String::new(),
        }
    }
}

/// Position Location Information from ATAK
#[derive(Clone, Debug, PartialEq)]
pub struct Pli {
    /// The new preferred location encoding, multiply by 1e-7 to get degrees
    /// in floating point
    pub latitude_i: i32,
    /// The new preferred location encoding, multiply by 1e-7 to get degrees
    /// in floating point
    pub longitude_i: i32,
    /// Altitude (ATAK prefers HAE)
    pub altitude: i32,
    /// Speed
    pub speed: u32,
    /// Course in degrees
    pub course: u32,
}

impl Default for Pli {
    /// The message with every field unset: numbers 0, flags false, strings, bytes and lists
    /// empty, and no nested message.
    fn default() -> (r: Self)
        ensures
            r.latitude_i == 0,
            r.longitude_i == 0,
            r.altitude == 0,
            r.speed == 0,
            r.course == 0,
    {
        Pli {
            latitude_i: 0,
            longitude_i: 0,
            altitude: 0,
            speed: 0,
            course: 0,
        }
    }
}

#[derive(Clone, Copy, Debug, PartialEq, Eq, Hash, PartialOrd, Ord)]
pub enum Team {
    /// Unspecifed
    UnspecifedColor,
    /// White
    White,
    /// Yellow
    Yellow,
    /// Orange
    Orange,
    /// Magenta
    Magenta,
    /// Red
    Red,
    /// Maroon
    Maroon,
    /// Purple
    Purple,
    /// Dark Blue
    DarkBlue,
    /// Blue
    Blue,
    /// Cyan
    Cyan,
    /// Teal
    Teal,
    /// Green
    Green,
    /// Dark Green
    DarkGreen,
    /// Brown
    Brown,
}

impl Team {
    /// The name of this variant in the ProtoBuf definition.
    pub open spec fn str_name(self) -> Seq<char> {
        match self {
            Team::UnspecifedColor => "Unspecifed_Color"@,
            Team::White => "White"@,
            Team::Yellow => "Yellow"@,
            Team::Orange => "Orange"@,
            Team::Magenta => "Magenta"@,
            Team::Red => "Red"@,
            Team::Maroon => "Maroon"@,
            Team::Purple => "Purple"@,
            Team::DarkBlue => "Dark_Blue"@,
            Team::Blue => "Blue"@,
            Team::Cyan => "Cyan"@,
            Team::Teal => "Teal"@,
            Team::Green => "Green"@,
            Team::DarkGreen => "Dark_Green"@,
            Team::Brown => "Brown"@,
        }
    }

    /// The number of this variant in the ProtoBuf definition.
    pub open spec fn value(self) -> i32 {
        match self {
            Team::UnspecifedColor => 0,
            Team::White => 1,
            Team::Yellow => 2,
            Team::Orange => 3,
            Team::Magenta => 4,
            Team::Red => 5,
            Team::Maroon => 6,
            Team::Purple => 7,
            Team::DarkBlue => 8,
            Team::Blue => 9,
            Team::Cyan => 10,
            Team::Teal => 11,
            Team::Green => 12,
            Team::DarkGreen => 13,
            Team::Brown => 14,
        }
    }

    /// The variant numbered 0, which a field holds when it is not set.
    pub open spec fn default_variant() -> Self {
        Team::UnspecifedColor
    }

    /// The variant numbered `value`, or the default variant when no variant has that number:
    /// what a message field holding `value` reads as.
    pub open spec fn from_number_or_default(value: i32) -> Self {
        match Self::with_value(value) {
            Some(e) => e,
            None => Self::default_variant(),
        }
    }

    /// The variant whose ProtoBuf name is `name`, if there is one.
    pub open spec fn named(name: Seq<char>) -> Option<Self> {
        if exists|e: Self| #[trigger] e.str_name() == name {
            Some(choose|e: Self| #[trigger] e.str_name() == name)
        } else {
            None
        }
    }

    /// The variant whose ProtoBuf number is `value`, if there is one.
    pub open spec fn with_value(value: i32) -> Option<Self> {
        if exists|e: Self| #[trigger] e.value() == value {
            Some(choose|e: Self| #[trigger] e.value() == value)
        } else {
            None
        }
    }

    spec fn name_lookup(name: Seq<char>) -> Option<Self> {
        if name == "Unspecifed_Color"@ {
            Some(Team::UnspecifedColor)
        } else if name == "White"@ {
            Some(Team::White)
        } else if name == "Yellow"@ {
            Some(Team::Yellow)
        } else if name == "Orange"@ {
            Some(Team::Orange)
        } else if name == "Magenta"@ {
            Some(Team::Magenta)
        } else if name == "Red"@ {
            Some(Team::Red)
        } else if name == "Maroon"@ {
            Some(Team::Maroon)
        } else if name == "Purple"@ {
            Some(Team::Purple)
        } else if name == "Dark_Blue"@ {
            Some(Team::DarkBlue)
        } else if name == "Blue"@ {
            Some(Team::Blue)
        } else if name == "Cyan"@ {
            Some(Team::Cyan)
        } else if name == "Teal"@ {
            Some(Team::Teal)
        } else if name == "Green"@ {
            Some(Team::Green)
        } else if name == "Dark_Green"@ {
            Some(Team::DarkGreen)
        } else if name == "Brown"@ {
            Some(Team::Brown)
        } else {
            None
        }
    }

    spec fn value_lookup(value: i32) -> Option<Self> {
        if value == 0 {
            Some(Team::UnspecifedColor)
        } else if value == 1 {
            Some(Team::White)
        } else if value == 2 {
            Some(Team::Yellow)
        } else if value == 3 {
            Some(Team::Orange)
        } else if value == 4 {
            Some(Team::Magenta)
        } else if value == 5 {
            Some(Team::Red)
        } else if value == 6 {
            Some(Team::Maroon)
        } else if value == 7 {
            Some(Team::Purple)
        } else if value == 8 {
            Some(Team::DarkBlue)
        } else if value == 9 {
            Some(Team::Blue)
        } else if value == 10 {
            Some(Team::Cyan)
        } else if value == 11 {
            Some(Team::Teal)
        } else if value == 12 {
            Some(Team::Green)
        } else if value == 13 {
            Some(Team::DarkGreen)
        } else if value == 14 {
            Some(Team::Brown)
        } else {
            None
        }
    }

    proof fn lemma_lookups()
        ensures
            forall|e: Self| #[trigger] Self::name_lookup(e.str_name()) == Some(e),
            forall|e: Self| #[trigger] Self::value_lookup(e.value()) == Some(e),
    {
        reveal_strlit("Unspecifed_Color");
        assert("Unspecifed_Color"@.len() == 16);
        reveal_strlit("White");
        assert("White"@.len() == 5);
        assert("White"@[0] == 'W');
        reveal_strlit("Yellow");
        assert("Yellow"@.len() == 6);
        assert("Yellow"@[0] == 'Y');
        reveal_strlit("Orange");
        assert("Orange"@.len() == 6);
        assert("Orange"@[0] == 'O');
        reveal_strlit("Magenta");
        assert("Magenta"@.len() == 7);
        reveal_strlit("Red");
        assert("Red"@.len() == 3);
        reveal_strlit("Maroon");
        assert("Maroon"@.len() == 6);
        assert("Maroon"@[0] == 'M');
        reveal_strlit("Purple");
        assert("Purple"@.len() == 6);
        assert("Purple"@[0] == 'P');
        reveal_strlit("Dark_Blue");
        assert("Dark_Blue"@.len() == 9);
        reveal_strlit("Blue");
        assert("Blue"@.len() == 4);
        assert("Blue"@[0] == 'B');
        reveal_strlit("Cyan");
        assert("Cyan"@.len() == 4);
        assert("Cyan"@[0] == 'C');
        reveal_strlit("Teal");
        assert("Teal"@.len() == 4);
        assert("Teal"@[0] == 'T');
        reveal_strlit("Green");
        assert("Green"@.len() == 5);
        assert("Green"@[0] == 'G');
        reveal_strlit("Dark_Green");
        assert("Dark_Green"@.len() == 10);
        reveal_strlit("Brown");
        assert("Brown"@.len() == 5);
        assert("Brown"@[0] == 'B');
    }

    /// Distinct variants have distinct ProtoBuf names and distinct ProtoBuf numbers.
    pub proof fn lemma_injective(a: Self, b: Self)
        ensures
            a.str_name() == b.str_name() ==> a == b,
            a.value() == b.value() ==> a == b,
    {
        Self::lemma_lookups();
        assert(Self::name_lookup(a.str_name()) == Some(a));
        assert(Self::name_lookup(b.str_name()) == Some(b));
        assert(Self::value_lookup(a.value()) == Some(a));
        assert(Self::value_lookup(b.value()) == Some(b));
    }

    /// A name denotes a variant exactly when it is that variant's ProtoBuf name:
    /// `from_str_name` undoes `as_str_name`, and accepts nothing else.
    pub proof fn lemma_named(name: Seq<char>, e: Self)
        ensures
            Self::named(name) == Some(e) <==> e.str_name() == name,
    {
        if e.str_name() == name {
            let x = choose|x: Self| #[trigger] x.str_name() == name;
            Self::lemma_injective(x, e);
        }
    }

    /// A number denotes a variant exactly when it is that variant's ProtoBuf number:
    /// `from_i32` undoes the conversion to `i32`, and accepts nothing else.
    pub proof fn lemma_with_value(value: i32, e: Self)
        ensures
            Self::with_value(value) == Some(e) <==> e.value() == value,
    {
        if e.value() == value {
            let x = choose|x: Self| #[trigger] x.value() == value;
            Self::lemma_injective(x, e);
        }
    }

    /// What a field holding `value` reads as: the variant numbered `value` when some variant
    /// has that number, and otherwise the variant numbered 0.
    pub proof fn lemma_number_or_default(value: i32)
        ensures
            (exists|e: Self| #[trigger] e.value() == value) ==> Self::from_number_or_default(value).value() == value,
            (forall|e: Self| #[trigger] e.value() != value) ==> Self::from_number_or_default(value).value() == 0,
            (forall|e: Self| #[trigger] e.value() != value) ==> Self::from_number_or_default(value) == Self::default_variant(),
            Self::default_variant().value() == 0,
    {
        if exists|e: Self| #[trigger] e.value() == value {
            let e = choose|e: Self| #[trigger] e.value() == value;
            Self::lemma_with_value(value, e);
        }
    }

    /// `try_from` accepts exactly the numbers that variants have and gives back the variant with
    /// that number; every other number it rejects with the error that records that number.
    pub proof fn lemma_try_from(value: i32, e: Self)
        ensures
            (<Self as vstd::std_specs::convert::TryFromSpec<i32>>::try_from_spec(value) == Ok::<Self, prost::UnknownEnumValue>(e)) <==> e.value() == value,
            (forall|x: Self| #[trigger] x.value() != value) ==> <Self as vstd::std_specs::convert::TryFromSpec<i32>>::try_from_spec(value) == Err::<Self, prost::UnknownEnumValue>(crate::enum_error::unknown_enum_value(value)),
            (exists|x: Self| #[trigger] x.value() == value) ==> <Self as vstd::std_specs::convert::TryFromSpec<i32>>::try_from_spec(value) is Ok,
    {
        Self::lemma_with_value(value, e);
        if exists|x: Self| #[trigger] x.value() == value {
            let x = choose|x: Self| #[trigger] x.value() == value;
            Self::lemma_with_value(value, x);
        }
    }

    /// Reading back the number of a variant gives that variant: a field set to `e` reads as `e`.
    pub proof fn lemma_read_after_write(e: Self)
        ensures
            Self::from_number_or_default(e.value()) == e,
    {
        Self::lemma_with_value(e.value(), e);
    }

    /// String value of the enum field names used in the ProtoBuf definition.
    ///
    /// The values are not transformed in any way and thus are considered stable
    /// (if the ProtoBuf definition does not change) and safe for programmatic use.
    pub fn as_str_name(&self) -> (name: &'static str)
        ensures
            name@ == self.str_name(),
    {
        match self {
            Team::UnspecifedColor => "Unspecifed_Color",
            Team::White => "White",
            Team::Yellow => "Yellow",
            Team::Orange => "Orange",
            Team::Magenta => "Magenta",
            Team::Red => "Red",
            Team::Maroon => "Maroon",
            Team::Purple => "Purple",
            Team::DarkBlue => "Dark_Blue",
            Team::Blue => "Blue",
            Team::Cyan => "Cyan",
            Team::Teal => "Teal",
            Team::Green => "Green",
            Team::DarkGreen => "Dark_Green",
            Team::Brown => "Brown",
        }
    }

    /// Creates an enum from field names used in the ProtoBuf definition.
    pub fn from_str_name(value: &str) -> (r: Option<Self>)
        ensures
            r == Self::named(value@),
    {
        if str_eq(value, "Unspecifed_Color") {
            proof {
                Self::lemma_named(value@, Team::UnspecifedColor);
            }
            return Some(Team::UnspecifedColor);
        }
        if str_eq(value, "White") {
            proof {
                Self::lemma_named(value@, Team::White);
            }
            return Some(Team::White);
        }
        if str_eq(value, "Yellow") {
            proof {
                Self::lemma_named(value@, Team::Yellow);
            }
            return Some(Team::Yellow);
        }
        if str_eq(value, "Orange") {
            proof {
                Self::lemma_named(value@, Team::Orange);
            }
            return Some(Team::Orange);
        }
        if str_eq(value, "Magenta") {
            proof {
                Self::lemma_named(value@, Team::Magenta);
            }
            return Some(Team::Magenta);
        }
        if str_eq(value, "Red") {
            proof {
                Self::lemma_named(value@, Team::Red);
            }
            return Some(Team::Red);
        }
        if str_eq(value, "Maroon") {
            proof {
                Self::lemma_named(value@, Team::Maroon);
            }
            return Some(Team::Maroon);
        }
        if str_eq(value, "Purple") {
            proof {
                Self::lemma_named(value@, Team::Purple);
            }
            return Some(Team::Purple);
        }
        if str_eq(value, "Dark_Blue") {
            proof {
                Self::lemma_named(value@, Team::DarkBlue);
            }
            return Some(Team::DarkBlue);
        }
        if str_eq(value, "Blue") {
            proof {
                Self::lemma_named(value@, Team::Blue);
            }
            return Some(Team::Blue);
        }
        if str_eq(value, "Cyan") {
            proof {
                Self::lemma_named(value@, Team::Cyan);
            }
            return Some(Team::Cyan);
        }
        if str_eq(value, "Teal") {
            proof {
                Self::lemma_named(value@, Team::Teal);
            }
            return Some(Team::Teal);
        }
        if str_eq(value, "Green") {
            proof {
                Self::lemma_named(value@, Team::Green);
            }
            return Some(Team::Green);
        }
        if str_eq(value, "Dark_Green") {
            proof {
                Self::lemma_named(value@, Team::DarkGreen);
            }
            return Some(Team::DarkGreen);
        }
        if str_eq(value, "Brown") {
            proof {
                Self::lemma_named(value@, Team::Brown);
            }
            return Some(Team::Brown);
        }
        None
    }

    /// Returns `true` if `value` is a variant of `Team`.
    pub fn is_valid(value: i32) -> (r: bool)
        ensures
            r == (Self::with_value(value) is Some),
    {
        Self::from_i32(value).is_some()
    }

    /// Converts an `i32` to a `Team`, or `None` if `value` is not a valid variant.
    pub fn from_i32(value: i32) -> (r: Option<Self>)
        ensures
            r == Self::with_value(value),
    {
        if value == 0 {
            proof {
                Self::lemma_with_value(value, Team::UnspecifedColor);
            }
            return Some(Team::UnspecifedColor);
        }
        if value == 1 {
            proof {
                Self::lemma_with_value(value, Team::White);
            }
            return Some(Team::White);
        }
        if value == 2 {
            proof {
                Self::lemma_with_value(value, Team::Yellow);
            }
            return Some(Team::Yellow);
        }
        if value == 3 {
            proof {
                Self::lemma_with_value(value, Team::Orange);
            }
            return Some(Team::Orange);
        }
        if value == 4 {
            proof {
                Self::lemma_with_value(value, Team::Magenta);
            }
            return Some(Team::Magenta);
        }
        if value == 5 {
            proof {
                Self::lemma_with_value(value, Team::Red);
            }
            return Some(Team::Red);
        }
        if value == 6 {
            proof {
                Self::lemma_with_value(value, Team::Maroon);
            }
            return Some(Team::Maroon);
        }
        if value == 7 {
            proof {
                Self::lemma_with_value(value, Team::Purple);
            }
            return Some(Team::Purple);
        }
        if value == 8 {
            proof {
                Self::lemma_with_value(value, Team::DarkBlue);
            }
            return Some(Team::DarkBlue);
        }
        if value == 9 {
            proof {
                Self::lemma_with_value(value, Team::Blue);
            }
            return Some(Team::Blue);
        }
        if value == 10 {
            proof {
                Self::lemma_with_value(value, Team::Cyan);
            }
            return Some(Team::Cyan);
        }
        if value == 11 {
            proof {
                Self::lemma_with_value(value, Team::Teal);
            }
            return Some(Team::Teal);
        }
        if value == 12 {
            proof {
                Self::lemma_with_value(value, Team::Green);
            }
            return Some(Team::Green);
        }
        if value == 13 {
            proof {
                Self::lemma_with_value(value, Team::DarkGreen);
            }
            return Some(Team::DarkGreen);
        }
        if value == 14 {
            proof {
                Self::lemma_with_value(value, Team::Brown);
            }
            return Some(Team::Brown);
        }
        None
    }
}

impl Default for Team {
    /// The variant numbered 0, the default value of the field in ProtoBuf.
    fn default() -> (r: Self)
        ensures
            r == Self::default_variant(),
            r.value() == 0,
    {
        Team::UnspecifedColor
    }
}

impl From<Team> for i32 {
    fn from(value: Team) -> (r: i32) {
        match value {
            Team::UnspecifedColor => 0,
            Team::White => 1,
            Team::Yellow => 2,
            Team::Orange => 3,
            Team::Magenta => 4,
            Team::Red => 5,
            Team::Maroon => 6,
            Team::Purple => 7,
            Team::DarkBlue => 8,
            Team::Blue => 9,
            Team::Cyan => 10,
            Team::Teal => 11,
            Team::Green => 12,
            Team::DarkGreen => 13,
            Team::Brown => 14,
        }
    }
}

impl TryFrom<i32> for Team {
    type Error = prost::UnknownEnumValue;

    fn try_from(value: i32) -> (r: Result<Team, prost::UnknownEnumValue>)
        ensures
            r matches Ok(e) ==> e.value() == value,
            (exists|e: Team| #[trigger] e.value() == value) ==> r is Ok,
            r is Err ==> r == Err::<Team, prost::UnknownEnumValue>(crate::enum_error::unknown_enum_value(value)),
    {
        proof {
            if exists|e: Team| #[trigger] e.value() == value {
                let e = choose|e: Team| #[trigger] e.value() == value;
                Team::lemma_with_value(value, e);
            }
        }
        match Team::from_i32(value) {
            Some(e) => Ok(e),
            None => Err(make_unknown_enum_value(value)),
        }
    }
}

impl vstd::std_specs::convert::TryFromSpecImpl<i32> for Team {
    open spec fn obeys_try_from_spec() -> bool {
        true
    }

    open spec fn try_from_spec(value: i32) -> Result<Team, prost::UnknownEnumValue> {
        match Team::with_value(value) {
            Some(e) => Ok(e),
            None => Err(crate::enum_error::unknown_enum_value(value)),
        }
    }
}

impl vstd::std_specs::convert::FromSpecImpl<Team> for i32 {
    open spec fn obeys_from_spec() -> bool {
        true
    }

    open spec fn from_spec(value: Team) -> i32 {
        value.value()
    }
}

/// Role of the group member
#[derive(Clone, Copy, Debug, PartialEq, Eq, Hash, PartialOrd, Ord)]
pub enum MemberRole {
    /// Unspecifed
    Unspecifed,
    /// Team Member
    TeamMember,
    /// Team Lead
    TeamLead,
    /// Headquarters
    Hq,
    /// Airsoft enthusiast
    Sniper,
    /// Medic
    Medic,
    /// ForwardObserver
    ForwardObserver,
    /// Radio Telephone Operator
    Rto,
    /// Doggo
    K9,
}

impl MemberRole {
    /// The name of this variant in the ProtoBuf definition.
    pub open spec fn str_name(self) -> Seq<char> {
        match self {
            MemberRole::Unspecifed => "Unspecifed"@,
            MemberRole::TeamMember => "TeamMember"@,
            MemberRole::TeamLead => "TeamLead"@,
            MemberRole::Hq => "HQ"@,
            MemberRole::Sniper => "Sniper"@,
            MemberRole::Medic => "Medic"@,
            MemberRole::ForwardObserver => "ForwardObserver"@,
            MemberRole::Rto => "RTO"@,
            MemberRole::K9 => "K9"@,
        }
    }

    /// The number of this variant in the ProtoBuf definition.
    pub open spec fn value(self) -> i32 {
        match self {
            MemberRole::Unspecifed => 0,
            MemberRole::TeamMember => 1,
            MemberRole::TeamLead => 2,
            MemberRole::Hq => 3,
            MemberRole::Sniper => 4,
            MemberRole::Medic => 5,
            MemberRole::ForwardObserver => 6,
            MemberRole::Rto => 7,
            MemberRole::K9 => 8,
        }
    }

    /// The variant numbered 0, which a field holds when it is not set.
    pub open spec fn default_variant() -> Self {
        MemberRole::Unspecifed
    }

    /// The variant numbered `value`, or the default variant when no variant has that number:
    /// what a message field holding `value` reads as.
    pub open spec fn from_number_or_default(value: i32) -> Self {
        match Self::with_value(value) {
            Some(e) => e,
            None => Self::default_variant(),
        }
    }

    /// The variant whose ProtoBuf name is `name`, if there is one.
    pub open spec fn named(name: Seq<char>) -> Option<Self> {
        if exists|e: Self| #[trigger] e.str_name() == name {
            Some(choose|e: Self| #[trigger] e.str_name() == name)
        } else {
            None
        }
    }

    /// The variant whose ProtoBuf number is `value`, if there is one.
    pub open spec fn with_value(value: i32) -> Option<Self> {
        if exists|e: Self| #[trigger] e.value() == value {
            Some(choose|e: Self| #[trigger] e.value() == value)
        } else {
            None
        }
    }

    spec fn name_lookup(name: Seq<char>) -> Option<Self> {
        if name == "Unspecifed"@ {
            Some(MemberRole::Unspecifed)
        } else if name == "TeamMember"@ {
            Some(MemberRole::TeamMember)
        } else if name == "TeamLead"@ {
            Some(MemberRole::TeamLead)
        } else if name == "HQ"@ {
            Some(MemberRole::Hq)
        } else if name == "Sniper"@ {
            Some(MemberRole::Sniper)
        } else if name == "Medic"@ {
            Some(MemberRole::Medic)
        } else if name == "ForwardObserver"@ {
            Some(MemberRole::ForwardObserver)
        } else if name == "RTO"@ {
            Some(MemberRole::Rto)
        } else if name == "K9"@ {
            Some(MemberRole::K9)
        } else {
            None
        }
    }

    spec fn value_lookup(value: i32) -> Option<Self> {
        if value == 0 {
            Some(MemberRole::Unspecifed)
        } else if value == 1 {
            Some(MemberRole::TeamMember)
        } else if value == 2 {
            Some(MemberRole::TeamLead)
        } else if value == 3 {
            Some(MemberRole::Hq)
        } else if value == 4 {
            Some(MemberRole::Sniper)
        } else if value == 5 {
            Some(MemberRole::Medic)
        } else if value == 6 {
            Some(MemberRole::ForwardObserver)
        } else if value == 7 {
            Some(MemberRole::Rto)
        } else if value == 8 {
            Some(MemberRole::K9)
        } else {
            None
        }
    }

    proof fn lemma_lookups()
        ensures
            forall|e: Self| #[trigger] Self::name_lookup(e.str_name()) == Some(e),
            forall|e: Self| #[trigger] Self::value_lookup(e.value()) == Some(e),
    {
        reveal_strlit("Unspecifed");
        assert("Unspecifed"@.len() == 10);
        assert("Unspecifed"@[0] == 'U');
        reveal_strlit("TeamMember");
        assert("TeamMember"@.len() == 10);
        assert("TeamMember"@[0] == 'T');
        reveal_strlit("TeamLead");
        assert("TeamLead"@.len() == 8);
        reveal_strlit("HQ");
        assert("HQ"@.len() == 2);
        assert("HQ"@[0] == 'H');
        reveal_strlit("Sniper");
        assert("Sniper"@.len() == 6);
        reveal_strlit("Medic");
        assert("Medic"@.len() == 5);
        reveal_strlit("ForwardObserver");
        assert("ForwardObserver"@.len() == 15);
        reveal_strlit("RTO");
        assert("RTO"@.len() == 3);
        reveal_strlit("K9");
        assert("K9"@.len() == 2);
        assert("K9"@[0] == 'K');
    }

    /// Distinct variants have distinct ProtoBuf names and distinct ProtoBuf numbers.
    pub proof fn lemma_injective(a: Self, b: Self)
        ensures
            a.str_name() == b.str_name() ==> a == b,
            a.value() == b.value() ==> a == b,
    {
        Self::lemma_lookups();
        assert(Self::name_lookup(a.str_name()) == Some(a));
        assert(Self::name_lookup(b.str_name()) == Some(b));
        assert(Self::value_lookup(a.value()) == Some(a));
        assert(Self::value_lookup(b.value()) == Some(b));
    }

    /// A name denotes a variant exactly when it is that variant's ProtoBuf name:
    /// `from_str_name` undoes `as_str_name`, and accepts nothing else.
    pub proof fn lemma_named(name: Seq<char>, e: Self)
        ensures
            Self::named(name) == Some(e) <==> e.str_name() == name,
    {
        if e.str_name() == name {
            let x = choose|x: Self| #[trigger] x.str_name() == name;
            Self::lemma_injective(x, e);
        }
    }

    /// A number denotes a variant exactly when it is that variant's ProtoBuf number:
    /// `from_i32` undoes the conversion to `i32`, and accepts nothing else.
    pub proof fn lemma_with_value(value: i32, e: Self)
        ensures
            Self::with_value(value) == Some(e) <==> e.value() == value,
    {
        if e.value() == value {
            let x = choose|x: Self| #[trigger] x.value() == value;
            Self::lemma_injective(x, e);
        }
    }

    /// What a field holding `value` reads as: the variant numbered `value` when some variant
    /// has that number, and otherwise the variant numbered 0.
    pub proof fn lemma_number_or_default(value: i32)
        ensures
            (exists|e: Self| #[trigger] e.value() == value) ==> Self::from_number_or_default(value).value() == value,
            (forall|e: Self| #[trigger] e.value() != value) ==> Self::from_number_or_default(value).value() == 0,
            (forall|e: Self| #[trigger] e.value() != value) ==> Self::from_number_or_default(value) == Self::default_variant(),
            Self::default_variant().value() == 0,
    {
        if exists|e: Self| #[trigger] e.value() == value {
            let e = choose|e: Self| #[trigger] e.value() == value;
            Self::lemma_with_value(value, e);
        }
    }

    /// `try_from` accepts exactly the numbers that variants have and gives back the variant with
    /// that number; every other number it rejects with the error that records that number.
    pub proof fn lemma_try_from(value: i32, e: Self)
        ensures
            (<Self as vstd::std_specs::convert::TryFromSpec<i32>>::try_from_spec(value) == Ok::<Self, prost::UnknownEnumValue>(e)) <==> e.value() == value,
            (forall|x: Self| #[trigger] x.value() != value) ==> <Self as vstd::std_specs::convert::TryFromSpec<i32>>::try_from_spec(value) == Err::<Self, prost::UnknownEnumValue>(crate::enum_error::unknown_enum_value(value)),
            (exists|x: Self| #[trigger] x.value() == value) ==> <Self as vstd::std_specs::convert::TryFromSpec<i32>>::try_from_spec(value) is Ok,
    {
        Self::lemma_with_value(value, e);
        if exists|x: Self| #[trigger] x.value() == value {
            let x = choose|x: Self| #[trigger] x.value() == value;
            Self::lemma_with_value(value, x);
        }
    }

    /// Reading back the number of a variant gives that variant: a field set to `e` reads as `e`.
    pub proof fn lemma_read_after_write(e: Self)
        ensures
            Self::from_number_or_default(e.value()) == e,
    {
        Self::lemma_with_value(e.value(), e);
    }

    /// String value of the enum field names used in the ProtoBuf definition.
    ///
    /// The values are not transformed in any way and thus are considered stable
    /// (if the ProtoBuf definition does not change) and safe for programmatic use.
    pub fn as_str_name(&self) -> (name: &'static str)
        ensures
            name@ == self.str_name(),
    {
        match self {
            MemberRole::Unspecifed => "Unspecifed",
            MemberRole::TeamMember => "TeamMember",
            MemberRole::TeamLead => "TeamLead",
            MemberRole::Hq => "HQ",
            MemberRole::Sniper => "Sniper",
            MemberRole::Medic => "Medic",
            MemberRole::ForwardObserver => "ForwardObserver",
            MemberRole::Rto => "RTO",
            MemberRole::K9 => "K9",
        }
    }

    /// Creates an enum from field names used in the ProtoBuf definition.
    pub fn from_str_name(value: &str) -> (r: Option<Self>)
        ensures
            r == Self::named(value@),
    {
        if str_eq(value, "Unspecifed") {
            proof {
                Self::lemma_named(value@, MemberRole::Unspecifed);
            }
            return Some(MemberRole::Unspecifed);
        }
        if str_eq(value, "TeamMember") {
            proof {
                Self::lemma_named(value@, MemberRole::TeamMember);
            }
            return Some(MemberRole::TeamMember);
        }
        if str_eq(value, "TeamLead") {
            proof {
                Self::lemma_named(value@, MemberRole::TeamLead);
            }
            return Some(MemberRole::TeamLead);
        }
        if str_eq(value, "HQ") {
            proof {
                Self::lemma_named(value@, MemberRole::Hq);
            }
            return Some(MemberRole::Hq);
        }
        if str_eq(value, "Sniper") {
            proof {
                Self::lemma_named(value@, MemberRole::Sniper);
            }
            return Some(MemberRole::Sniper);
        }
        if str_eq(value, "Medic") {
            proof {
                Self::lemma_named(value@, MemberRole::Medic);
            }
            return Some(MemberRole::Medic);
        }
        if str_eq(value, "ForwardObserver") {
            proof {
                Self::lemma_named(value@, MemberRole::ForwardObserver);
            }
            return Some(MemberRole::ForwardObserver);
        }
        if str_eq(value, "RTO") {
            proof {
                Self::lemma_named(value@, MemberRole::Rto);
            }
            return Some(MemberRole::Rto);
        }
        if str_eq(value, "K9") {
            proof {
                Self::lemma_named(value@, MemberRole::K9);
            }
            return Some(MemberRole::K9);
        }
        None
    }

    /// Returns `true` if `value` is a variant of `MemberRole`.
    pub fn is_valid(value: i32) -> (r: bool)
        ensures
            r == (Self::with_value(value) is Some),
    {
        Self::from_i32(value).is_some()
    }

    /// Converts an `i32` to a `MemberRole`, or `None` if `value` is not a valid variant.
    pub fn from_i32(value: i32) -> (r: Option<Self>)
        ensures
            r == Self::with_value(value),
    {
        if value == 0 {
            proof {
                Self::lemma_with_value(value, MemberRole::Unspecifed);
            }
            return Some(MemberRole::Unspecifed);
        }
        if value == 1 {
            proof {
                Self::lemma_with_value(value, MemberRole::TeamMember);
            }
            return Some(MemberRole::TeamMember);
        }
        if value == 2 {
            proof {
                Self::lemma_with_value(value, MemberRole::TeamLead);
            }
            return Some(MemberRole::TeamLead);
        }
        if value == 3 {
            proof {
                Self::lemma_with_value(value, MemberRole::Hq);
            }
            return Some(MemberRole::Hq);
        }
        if value == 4 {
            proof {
                Self::lemma_with_value(value, MemberRole::Sniper);
            }
            return Some(MemberRole::Sniper);
        }
        if value == 5 {
            proof {
                Self::lemma_with_value(value, MemberRole::Medic);
            }
            return Some(MemberRole::Medic);
        }
        if value == 6 {
            proof {
                Self::lemma_with_value(value, MemberRole::ForwardObserver);
            }
            return Some(MemberRole::ForwardObserver);
        }
        if value == 7 {
            proof {
                Self::lemma_with_value(value, MemberRole::Rto);
            }
            return Some(MemberRole::Rto);
        }
        if value == 8 {
            proof {
                Self::lemma_with_value(value, MemberRole::K9);
            }
            return Some(MemberRole::K9);
        }
        None
    }
}

impl Default for MemberRole {
    /// The variant numbered 0, the default value of the field in ProtoBuf.
    fn default() -> (r: Self)
        ensures
            r == Self::default_variant(),
            r.value() == 0,
    {
        MemberRole::Unspecifed
    }
}

impl From<MemberRole> for i32 {
    fn from(value: MemberRole) -> (r: i32) {
        match value {
            MemberRole::Unspecifed => 0,
            MemberRole::TeamMember => 1,
            MemberRole::TeamLead => 2,
            MemberRole::Hq => 3,
            MemberRole::Sniper => 4,
            MemberRole::Medic => 5,
            MemberRole::ForwardObserver => 6,
            MemberRole::Rto => 7,
            MemberRole::K9 => 8,
        }
    }
}

impl TryFrom<i32> for MemberRole {
    type Error = prost::UnknownEnumValue;

    fn try_from(value: i32) -> (r: Result<MemberRole, prost::UnknownEnumValue>)
        ensures
            r matches Ok(e) ==> e.value() == value,
            (exists|e: MemberRole| #[trigger] e.value() == value) ==> r is Ok,
            r is Err ==> r == Err::<MemberRole, prost::UnknownEnumValue>(crate::enum_error::unknown_enum_value(value)),
    {
        proof {
            if exists|e: MemberRole| #[trigger] e.value() == value {
                let e = choose|e: MemberRole| #[trigger] e.value() == value;
                MemberRole::lemma_with_value(value, e);
            }
        }
        match MemberRole::from_i32(value) {
            Some(e) => Ok(e),
            None => Err(make_unknown_enum_value(value)),
        }
    }
}

impl vstd::std_specs::convert::TryFromSpecImpl<i32> for MemberRole {
    open spec fn obeys_try_from_spec() -> bool {
        true
    }

    open spec fn try_from_spec(value: i32) -> Result<MemberRole, prost::UnknownEnumValue> {
        match MemberRole::with_value(value) {
            Some(e) => Ok(e),
            None => Err(crate::enum_error::unknown_enum_value(value)),
        }
    }
}

impl vstd::std_specs::convert::FromSpecImpl<MemberRole> for i32 {
    open spec fn obeys_from_spec() -> bool {
        true
    }

    open spec fn from_spec(value: MemberRole) -> i32 {
        value.value()
    }
}

} // verus!
