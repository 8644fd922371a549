//! Nested message and enum types in `PowerStressMessage`.

use vstd::prelude::*;
use crate::enum_error::make_unknown_enum_value;
use crate::text::str_eq;

verus! {

/// What operation would we like the UUT to perform.
/// note: senders should probably set want_response in their request packets, so that they can know when the state
/// machine has started processing their request
#[derive(Clone, Copy, Debug, PartialEq, Eq, Hash, PartialOrd, Ord)]
pub enum Opcode {
    /// Unset/unused
    Unset,
    /// Print board version slog and send an ack that we are alive and ready to process commands
    PrintInfo,
    /// Try to turn off all automatic processing of packets, screen, sleeping, etc (to make it easier to measure in isolation)
    ForceQuiet,
    /// Stop powerstress processing - probably by just rebooting the board
    EndQuiet,
    /// Turn the screen on
    ScreenOn,
    /// Turn the screen off
    ScreenOff,
    /// Let the CPU run but we assume mostly idling for num_seconds
    CpuIdle,
    CpuDeepsleep,
    /// Spin the CPU as fast as possible for num_seconds
    CpuFullon,
    /// Turn the LED on for num_seconds (and leave it on - for baseline power measurement purposes)
    LedOn,
    /// Force the LED off for num_seconds
    LedOff,
    /// Completely turn off the LORA radio for num_seconds
    LoraOff,
    /// Send Lora packets for num_seconds
    LoraTx,
    /// Receive Lora packets for num_seconds (node will be mostly just listening, unless an external agent is helping stress this by sending packets on the current channel)
    LoraRx,
    /// Turn off the BT radio for num_seconds
    BtOff,
    /// Turn on the BT radio for num_seconds
    BtOn,
    /// Turn off the WIFI radio for num_seconds
    WifiOff,
    /// Turn on the WIFI radio for num_seconds
    WifiOn,
    /// Turn off the GPS radio for num_seconds
    GpsOff,
    /// Turn on the GPS radio for num_seconds
    GpsOn,
}

impl Opcode {
    /// The name of this variant in the ProtoBuf definition.
    pub open spec fn str_name(self) -> Seq<char> {
        match self {
            Opcode::Unset => "UNSET"@,
            Opcode::PrintInfo => "PRINT_INFO"@,
            Opcode::ForceQuiet => "FORCE_QUIET"@,
            Opcode::EndQuiet => "END_QUIET"@,
            Opcode::ScreenOn => "SCREEN_ON"@,
            Opcode::ScreenOff => "SCREEN_OFF"@,
            Opcode::CpuIdle => "CPU_IDLE"@,
            Opcode::CpuDeepsleep => "CPU_DEEPSLEEP"@,
            Opcode::CpuFullon => "CPU_FULLON"@,
            Opcode::LedOn => "LED_ON"@,
            Opcode::LedOff => "LED_OFF"@,
            Opcode::LoraOff => "LORA_OFF"@,
            Opcode::LoraTx => "LORA_TX"@,
            Opcode::LoraRx => "LORA_RX"@,
            Opcode::BtOff => "BT_OFF"@,
            Opcode::BtOn => "BT_ON"@,
            Opcode::WifiOff => "WIFI_OFF"@,
            Opcode::WifiOn => "WIFI_ON"@,
            Opcode::GpsOff => "GPS_OFF"@,
            Opcode::GpsOn => "GPS_ON"@,
        }
    }

    /// The number of this variant in the ProtoBuf definition.
    pub open spec fn value(self) -> i32 {
        match self {
            Opcode::Unset => 0,
            Opcode::PrintInfo => 1,
            Opcode::ForceQuiet => 2,
            Opcode::EndQuiet => 3,
            Opcode::ScreenOn => 16,
            Opcode::ScreenOff => 17,
            Opcode::CpuIdle => 32,
            Opcode::CpuDeepsleep => 33,
            Opcode::CpuFullon => 34,
            Opcode::LedOn => 48,
            Opcode::LedOff => 49,
            Opcode::LoraOff => 64,
            Opcode::LoraTx => 65,
            Opcode::LoraRx => 66,
            Opcode::BtOff => 80,
            Opcode::BtOn => 81,
            Opcode::WifiOff => 96,
            Opcode::WifiOn => 97,
            Opcode::GpsOff => 112,
            Opcode::GpsOn => 113,
        }
    }

    /// The variant numbered 0, which a field holds when it is not set.
    pub open spec fn default_variant() -> Self {
        Opcode::Unset
    }

    /// The variant numbered `value`, or the default variant when no variant has that number:
    /// what a message field holding `value` reads as.
    pub open spec fn from_number_or_default(value: i32) -> Self {
        match Self::with_value(value) {
            Some(e) => e,
            None => Self::default_variant(),
        }
    }

    /// The variant whose ProtoBuf name is `name`, if there is one.
    pub open spec fn named(name: Seq<char>) -> Option<Self> {
        if exists|e: Self| #[trigger] e.str_name() == name {
            Some(choose|e: Self| #[trigger] e.str_name() == name)
        } else {
            None
        }
    }

    /// The variant whose ProtoBuf number is `value`, if there is one.
    pub open spec fn with_value(value: i32) -> Option<Self> {
        if exists|e: Self| #[trigger] e.value() == value {
            Some(choose|e: Self| #[trigger] e.value() == value)
        } else {
            None
        }
    }

    spec fn name_lookup(name: Seq<char>) -> Option<Self> {
        if name == "UNSET"@ {
            Some(Opcode::Unset)
        } else if name == "PRINT_INFO"@ {
            Some(Opcode::PrintInfo)
        } else if name == "FORCE_QUIET"@ {
            Some(Opcode::ForceQuiet)
        } else if name == "END_QUIET"@ {
            Some(Opcode::EndQuiet)
        } else if name == "SCREEN_ON"@ {
            Some(Opcode::ScreenOn)
        } else if name == "SCREEN_OFF"@ {
            Some(Opcode::ScreenOff)
        } else if name == "CPU_IDLE"@ {
            Some(Opcode::CpuIdle)
        } else if name == "CPU_DEEPSLEEP"@ {
            Some(Opcode::CpuDeepsleep)
        } else if name == "CPU_FULLON"@ {
            Some(Opcode::CpuFullon)
        } else if name == "LED_ON"@ {
            Some(Opcode::LedOn)
        } else if name == "LED_OFF"@ {
            Some(Opcode::LedOff)
        } else if name == "LORA_OFF"@ {
            Some(Opcode::LoraOff)
        } else if name == "LORA_TX"@ {
            Some(Opcode::LoraTx)
        } else if name == "LORA_RX"@ {
            Some(Opcode::LoraRx)
        } else if name == "BT_OFF"@ {
            Some(Opcode::BtOff)
        } else if name == "BT_ON"@ {
            Some(Opcode::BtOn)
        } else if name == "WIFI_OFF"@ {
            Some(Opcode::WifiOff)
        } else if name == "WIFI_ON"@ {
            Some(Opcode::WifiOn)
        } else if name == "GPS_OFF"@ {
            Some(Opcode::GpsOff)
        } else if name == "GPS_ON"@ {
            Some(Opcode::GpsOn)
        } else {
            None
        }
    }

    spec fn value_lookup(value: i32) -> Option<Self> {
        if value == 0 {
            Some(Opcode::Unset)
        } else if value == 1 {
            Some(Opcode::PrintInfo)
        } else if value == 2 {
            Some(Opcode::ForceQuiet)
        } else if value == 3 {
            Some(Opcode::EndQuiet)
        } else if value == 16 {
            Some(Opcode::ScreenOn)
        } else if value == 17 {
            Some(Opcode::ScreenOff)
        } else if value == 32 {
            Some(Opcode::CpuIdle)
        } else if value == 33 {
            Some(Opcode::CpuDeepsleep)
        } else if value == 34 {
            Some(Opcode::CpuFullon)
        } else if value == 48 {
            Some(Opcode::LedOn)
        } else if value == 49 {
            Some(Opcode::LedOff)
        } else if value == 64 {
            Some(Opcode::LoraOff)
        } else if value == 65 {
            Some(Opcode::LoraTx)
        } else if value == 66 {
            Some(Opcode::LoraRx)
        } else if value == 80 {
            Some(Opcode::BtOff)
        } else if value == 81 {
            Some(Opcode::BtOn)
        } else if value == 96 {
            Some(Opcode::WifiOff)
        } else if value == 97 {
            Some(Opcode::WifiOn)
        } else if value == 112 {
            Some(Opcode::GpsOff)
        } else if value == 113 {
            Some(Opcode::GpsOn)
        } else {
            None
        }
    }

    proof fn lemma_lookups()
        ensures
            forall|e: Self| #[trigger] Self::name_lookup(e.str_name()) == Some(e),
            forall|e: Self| #[trigger] Self::value_lookup(e.value()) == Some(e),
    {
        reveal_strlit("UNSET");
        assert("UNSET"@.len() == 5);
        assert("UNSET"@[0] == 'U');
        reveal_strlit("PRINT_INFO");
        assert("PRINT_INFO"@.len() == 10);
        assert("PRINT_INFO"@[0] == 'P');
        reveal_strlit("FORCE_QUIET");
        assert("FORCE_QUIET"@.len() == 11);
        reveal_strlit("END_QUIET");
        assert("END_QUIET"@.len() == 9);
        assert("END_QUIET"@[0] == 'E');
        reveal_strlit("SCREEN_ON");
        assert("SCREEN_ON"@.len() == 9);
        assert("SCREEN_ON"@[0] == 'S');
        reveal_strlit("SCREEN_OFF");
        assert("SCREEN_OFF"@.len() == 10);
        assert("SCREEN_OFF"@[0] == 'S');
        reveal_strlit("CPU_IDLE");
        assert("CPU_IDLE"@.len() == 8);
        assert("CPU_IDLE"@[0] == 'C');
        reveal_strlit("CPU_DEEPSLEEP");
        assert("CPU_DEEPSLEEP"@.len() == 13);
        reveal_strlit("CPU_FULLON");
        assert("CPU_FULLON"@.len() == 10);
        assert("CPU_FULLON"@[0] == 'C');
        reveal_strlit("LED_ON");
        assert("LED_ON"@.len() == 6);
        assert("LED_ON"@[0] == 'L');
        reveal_strlit("LED_OFF");
        assert("LED_OFF"@.len() == 7);
        assert("LED_OFF"@[0] == 'L');
        assert("LED_OFF"@[1] == 'E');
        reveal_strlit("LORA_OFF");
        assert("LORA_OFF"@.len() == 8);
        assert("LORA_OFF"@[0] == 'L');
        reveal_strlit("LORA_TX");
        assert("LORA_TX"@.len() == 7);
        assert("LORA_TX"@[0] == 'L');
        assert("LORA_TX"@[1] == 'O');
        assert("LORA_TX"@[5] == 'T');
        reveal_strlit("LORA_RX");
        assert("LORA_RX"@.len() == 7);
        assert("LORA_RX"@[0] == 'L');
        assert("LORA_RX"@[1] == 'O');
        assert("LORA_RX"@[5] == 'R');
        reveal_strlit("BT_OFF");
        assert("BT_OFF"@.len() == 6);
        assert("BT_OFF"@[0] == 'B');
        reveal_strlit("BT_ON");
        assert("BT_ON"@.len() == 5);
        assert("BT_ON"@[0] == 'B');
        reveal_strlit("WIFI_OFF");
        assert("WIFI_OFF"@.len() == 8);
        assert("WIFI_OFF"@[0] == 'W');
        reveal_strlit("WIFI_ON");
        assert("WIFI_ON"@.len() == 7);
        assert("WIFI_ON"@[0] == 'W');
        reveal_strlit("GPS_OFF");
        assert("GPS_OFF"@.len() == 7);
        assert("GPS_OFF"@[0] == 'G');
        reveal_strlit("GPS_ON");
        assert("GPS_ON"@.len() == 6);
        assert("GPS_ON"@[0] == 'G');
    }

    /// Distinct variants have distinct ProtoBuf names and distinct ProtoBuf numbers.
    pub proof fn lemma_injective(a: Self, b: Self)
        ensures
            a.str_name() == b.str_name() ==> a == b,
            a.value() == b.value() ==> a == b,
    {
        Self::lemma_lookups();
        assert(Self::name_lookup(a.str_name()) == Some(a));
        assert(Self::name_lookup(b.str_name()) == Some(b));
        assert(Self::value_lookup(a.value()) == Some(a));
        assert(Self::value_lookup(b.value()) == Some(b));
    }

    /// A name denotes a variant exactly when it is that variant's ProtoBuf name:
    /// `from_str_name` undoes `as_str_name`, and accepts nothing else.
    pub proof fn lemma_named(name: Seq<char>, e: Self)
        ensures
            Self::named(name) == Some(e) <==> e.str_name() == name,
    {
        if e.str_name() == name {
            let x = choose|x: Self| #[trigger] x.str_name() == name;
            Self::lemma_injective(x, e);
        }
    }

    /// A number denotes a variant exactly when it is that variant's ProtoBuf number:
    /// `from_i32` undoes the conversion to `i32`, and accepts nothing else.
    pub proof fn lemma_with_value(value: i32, e: Self)
        ensures
            Self::with_value(value) == Some(e) <==> e.value() == value,
    {
        if e.value() == value {
            let x = choose|x: Self| #[trigger] x.value() == value;
            Self::lemma_injective(x, e);
        }
    }

    /// What a field holding `value` reads as: the variant numbered `value` when some variant
    /// has that number, and otherwise the variant numbered 0.
    pub proof fn lemma_number_or_default(value: i32)
        ensures
            (exists|e: Self| #[trigger] e.value() == value) ==> Self::from_number_or_default(value).value() == value,
            (forall|e: Self| #[trigger] e.value() != value) ==> Self::from_number_or_default(value).value() == 0,
            (forall|e: Self| #[trigger] e.value() != value) ==> Self::from_number_or_default(value) == Self::default_variant(),
            Self::default_variant().value() == 0,
    {
        if exists|e: Self| #[trigger] e.value() == value {
            let e = choose|e: Self| #[trigger] e.value() == value;
            Self::lemma_with_value(value, e);
        }
    }

    /// `try_from` accepts exactly the numbers that variants have and gives back the variant with
    /// that number; every other number it rejects with the error that records that number.
    pub proof fn lemma_try_from(value: i32, e: Self)
        ensures
            (<Self as vstd::std_specs::convert::TryFromSpec<i32>>::try_from_spec(value) == Ok::<Self, prost::UnknownEnumValue>(e)) <==> e.value() == value,
            (forall|x: Self| #[trigger] x.value() != value) ==> <Self as vstd::std_specs::convert::TryFromSpec<i32>>::try_from_spec(value) == Err::<Self, prost::UnknownEnumValue>(crate::enum_error::unknown_enum_value(value)),
            (exists|x: Self| #[trigger] x.value() == value) ==> <Self as vstd::std_specs::convert::TryFromSpec<i32>>::try_from_spec(value) is Ok,
    {
        Self::lemma_with_value(value, e);
        if exists|x: Self| #[trigger] x.value() == value {
            let x = choose|x: Self| #[trigger] x.value() == value;
            Self::lemma_with_value(value, x);
        }
    }

    /// Reading back the number of a variant gives that variant: a field set to `e` reads as `e`.
    pub proof fn lemma_read_after_write(e: Self)
        ensures
            Self::from_number_or_default(e.value()) == e,
    {
        Self::lemma_with_value(e.value(), e);
    }

    /// String value of the enum field names used in the ProtoBuf definition.
    ///
    /// The values are not transformed in any way and thus are considered stable
    /// (if the ProtoBuf definition does not change) and safe for programmatic use.
    pub fn as_str_name(&self) -> (name: &'static str)
        ensures
            name@ == self.str_name(),
    {
        match self {
            Opcode::Unset => "UNSET",
            Opcode::PrintInfo => "PRINT_INFO",
            Opcode::ForceQuiet => "FORCE_QUIET",
            Opcode::EndQuiet => "END_QUIET",
            Opcode::ScreenOn => "SCREEN_ON",
            Opcode::ScreenOff => "SCREEN_OFF",
            Opcode::CpuIdle => "CPU_IDLE",
            Opcode::CpuDeepsleep => "CPU_DEEPSLEEP",
            Opcode::CpuFullon => "CPU_FULLON",
            Opcode::LedOn => "LED_ON",
            Opcode::LedOff => "LED_OFF",
            Opcode::LoraOff => "LORA_OFF",
            Opcode::LoraTx => "LORA_TX",
            Opcode::LoraRx => "LORA_RX",
            Opcode::BtOff => "BT_OFF",
            Opcode::BtOn => "BT_ON",
            Opcode::WifiOff => "WIFI_OFF",
            Opcode::WifiOn => "WIFI_ON",
            Opcode::GpsOff => "GPS_OFF",
            Opcode::GpsOn => "GPS_ON",
        }
    }

    /// Creates an enum from field names used in the ProtoBuf definition.
    pub fn from_str_name(value: &str) -> (r: Option<Self>)
        ensures
            r == Self::named(value@),
    {
        if str_eq(value, "UNSET") {
            proof {
                Self::lemma_named(value@, Opcode::Unset);
            }
            return Some(Opcode::Unset);
        }
        if str_eq(value, "PRINT_INFO") {
            proof {
                Self::lemma_named(value@, Opcode::PrintInfo);
            }
            return Some(Opcode::PrintInfo);
        }
        if str_eq(value, "FORCE_QUIET") {
            proof {
                Self::lemma_named(value@, Opcode::ForceQuiet);
            }
            return Some(Opcode::ForceQuiet);
        }
        if str_eq(value, "END_QUIET") {
            proof {
                Self::lemma_named(value@, Opcode::EndQuiet);
            }
            return Some(Opcode::EndQuiet);
        }
        if str_eq(value, "SCREEN_ON") {
            proof {
                Self::lemma_named(value@, Opcode::ScreenOn);
            }
            return Some(Opcode::ScreenOn);
        }
        if str_eq(value, "SCREEN_OFF") {
            proof {
                Self::lemma_named(value@, Opcode::ScreenOff);
            }
            return Some(Opcode::ScreenOff);
        }
        if str_eq(value, "CPU_IDLE") {
            proof {
                Self::lemma_named(value@, Opcode::CpuIdle);
            }
            return Some(Opcode::CpuIdle);
        }
        if str_eq(value, "CPU_DEEPSLEEP") {
            proof {
                Self::lemma_named(value@, Opcode::CpuDeepsleep);
            }
            return Some(Opcode::CpuDeepsleep);
        }
        if str_eq(value, "CPU_FULLON") {
            proof {
                Self::lemma_named(value@, Opcode::CpuFullon);
            }
            return Some(Opcode::CpuFullon);
        }
        if str_eq(value, "LED_ON") {
            proof {
                Self::lemma_named(value@, Opcode::LedOn);
            }
            return Some(Opcode::LedOn);
        }
        if str_eq(value, "LED_OFF") {
            proof {
                Self::lemma_named(value@, Opcode::LedOff);
            }
            return Some(Opcode::LedOff);
        }
        if str_eq(value, "LORA_OFF") {
            proof {
                Self::lemma_named(value@, Opcode::LoraOff);
            }
            return Some(Opcode::LoraOff);
        }
        if str_eq(value, "LORA_TX") {
            proof {
                Self::lemma_named(value@, Opcode::LoraTx);
            }
            return Some(Opcode::LoraTx);
        }
        if str_eq(value, "LORA_RX") {
            proof {
                Self::lemma_named(value@, Opcode::LoraRx);
            }
            return Some(Opcode::LoraRx);
        }
        if str_eq(value, "BT_OFF") {
            proof {
                Self::lemma_named(value@, Opcode::BtOff);
            }
            return Some(Opcode::BtOff);
        }
        if str_eq(value, "BT_ON") {
            proof {
                Self::lemma_named(value@, Opcode::BtOn);
            }
            return Some(Opcode::BtOn);
        }
        if str_eq(value, "WIFI_OFF") {
            proof {
                Self::lemma_named(value@, Opcode::WifiOff);
            }
            return Some(Opcode::WifiOff);
        }
        if str_eq(value, "WIFI_ON") {
            proof {
                Self::lemma_named(value@, Opcode::WifiOn);
            }
            return Some(Opcode::WifiOn);
        }
        if str_eq(value, "GPS_OFF") {
            proof {
                Self::lemma_named(value@, Opcode::GpsOff);
            }
            return Some(Opcode::GpsOff);
        }
        if str_eq(value, "GPS_ON") {
            proof {
                Self::lemma_named(value@, Opcode::GpsOn);
            }
            return Some(Opcode::GpsOn);
        }
        None
    }

    /// Returns `true` if `value` is a variant of `Opcode`.
    pub fn is_valid(value: i32) -> (r: bool)
        ensures
            r == (Self::with_value(value) is Some),
    {
        Self::from_i32(value).is_some()
    }

    /// Converts an `i32` to a `Opcode`, or `None` if `value` is not a valid variant.
    pub fn from_i32(value: i32) -> (r: Option<Self>)
        ensures
            r == Self::with_value(value),
    {
        if value == 0 {
            proof {
                Self::lemma_with_value(value, Opcode::Unset);
            }
            return Some(Opcode::Unset);
        }
        if value == 1 {
            proof {
                Self::lemma_with_value(value, Opcode::PrintInfo);
            }
            return Some(Opcode::PrintInfo);
        }
        if value == 2 {
            proof {
                Self::lemma_with_value(value, Opcode::ForceQuiet);
            }
            return Some(Opcode::ForceQuiet);
        }
        if value == 3 {
            proof {
                Self::lemma_with_value(value, Opcode::EndQuiet);
            }
            return Some(Opcode::EndQuiet);
        }
        if value == 16 {
            proof {
                Self::lemma_with_value(value, Opcode::ScreenOn);
            }
            return Some(Opcode::ScreenOn);
        }
        if value == 17 {
            proof {
                Self::lemma_with_value(value, Opcode::ScreenOff);
            }
            return Some(Opcode::ScreenOff);
        }
        if value == 32 {
            proof {
                Self::lemma_with_value(value, Opcode::CpuIdle);
            }
            return Some(Opcode::CpuIdle);
        }
        if value == 33 {
            proof {
                Self::lemma_with_value(value, Opcode::CpuDeepsleep);
            }
            return Some(Opcode::CpuDeepsleep);
        }
        if value == 34 {
            proof {
                Self::lemma_with_value(value, Opcode::CpuFullon);
            }
            return Some(Opcode::CpuFullon);
        }
        if value == 48 {
            proof {
                Self::lemma_with_value(value, Opcode::LedOn);
            }
            return Some(Opcode::LedOn);
        }
        if value == 49 {
            proof {
                Self::lemma_with_value(value, Opcode::LedOff);
            }
            return Some(Opcode::LedOff);
        }
        if value == 64 {
            proof {
                Self::lemma_with_value(value, Opcode::LoraOff);
            }
            return Some(Opcode::LoraOff);
        }
        if value == 65 {
            proof {
                Self::lemma_with_value(value, Opcode::LoraTx);
            }
            return Some(Opcode::LoraTx);
        }
        if value == 66 {
            proof {
                Self::lemma_with_value(value, Opcode::LoraRx);
            }
            return Some(Opcode::LoraRx);
        }
        if value == 80 {
            proof {
                Self::lemma_with_value(value, Opcode::BtOff);
            }
            return Some(Opcode::BtOff);
        }
        if value == 81 {
            proof {
                Self::lemma_with_value(value, Opcode::BtOn);
            }
            return Some(Opcode::BtOn);
        }
        if value == 96 {
            proof {
                Self::lemma_with_value(value, Opcode::WifiOff);
            }
            return Some(Opcode::WifiOff);
        }
        if value == 97 {
            proof {
                Self::lemma_with_value(value, Opcode::WifiOn);
            }
            return Some(Opcode::WifiOn);
        }
        if value == 112 {
            proof {
                Self::lemma_with_value(value, Opcode::GpsOff);
            }
            return Some(Opcode::GpsOff);
        }
        if value == 113 {
            proof {
                Self::lemma_with_value(value, Opcode::GpsOn);
            }
            return Some(Opcode::GpsOn);
        }
        None
    }
}

impl Default for Opcode {
    /// The variant numbered 0, the default value of the field in ProtoBuf.
    fn default() -> (r: Self)
        ensures
            r == Self::default_variant(),
            r.value() == 0,
    {
        Opcode::Unset
    }
}

impl From<Opcode> for i32 {
    fn from(value: Opcode) -> (r: i32) {
        match value {
            Opcode::Unset => 0,
            Opcode::PrintInfo => 1,
            Opcode::ForceQuiet => 2,
            Opcode::EndQuiet => 3,
            Opcode::ScreenOn => 16,
            Opcode::ScreenOff => 17,
            Opcode::CpuIdle => 32,
            Opcode::CpuDeepsleep => 33,
            Opcode::CpuFullon => 34,
            Opcode::LedOn => 48,
            Opcode::LedOff => 49,
            Opcode::LoraOff => 64,
            Opcode::LoraTx => 65,
            Opcode::LoraRx => 66,
            Opcode::BtOff => 80,
            Opcode::BtOn => 81,
            Opcode::WifiOff => 96,
            Opcode::WifiOn => 97,
            Opcode::GpsOff => 112,
            Opcode::GpsOn => 113,
        }
    }
}

impl TryFrom<i32> for Opcode {
    type Error = prost::UnknownEnumValue;

    fn try_from(value: i32) -> (r: Result<Opcode, prost::UnknownEnumValue>)
        ensures
            r matches Ok(e) ==> e.value() == value,
            (exists|e: Opcode| #[trigger] e.value() == value) ==> r is Ok,
            r is Err ==> r == Err::<Opcode, prost::UnknownEnumValue>(crate::enum_error::unknown_enum_value(value)),
    {
        proof {
            if exists|e: Opcode| #[trigger] e.value() == value {
                let e = choose|e: Opcode| #[trigger] e.value() == value;
                Opcode::lemma_with_value(value, e);
            }
        }
        match Opcode::from_i32(value) {
            Some(e) => Ok(e),
            None => Err(make_unknown_enum_value(value)),
        }
    }
}

impl vstd::std_specs::convert::TryFromSpecImpl<i32> for Opcode {
    open spec fn obeys_try_from_spec() -> bool {
        true
    }

    open spec fn try_from_spec(value: i32) -> Result<Opcode, prost::UnknownEnumValue> {
        match Opcode::with_value(value) {
            Some(e) => Ok(e),
            None => Err(crate::enum_error::unknown_enum_value(value)),
        }
    }
}

impl vstd::std_specs::convert::FromSpecImpl<Opcode> for i32 {
    open spec fn obeys_from_spec() -> bool {
        true
    }

    open spec fn from_spec(value: Opcode) -> i32 {
        value.value()
    }
}

} // verus!
