//! Nested message and enum types in `PowerMon`.

use vstd::prelude::*;
use crate::enum_error::make_unknown_enum_value;
use crate::text::str_eq;

verus! {

/// Any significant power changing event in meshtastic should be tagged with a powermon state transition.
/// If you are making new meshtastic features feel free to add new entries at the end of this definition.
#[derive(Clone, Copy, Debug, PartialEq, Eq, Hash, PartialOrd, Ord)]
pub enum State {
    NoneValue,
    CpuDeepSleep,
    CpuLightSleep,
    /// The external Vext1 power is on.  Many boards have auxillary power rails that the CPU turns on only
    /// occasionally.  In cases where that rail has multiple devices on it we usually want to have logging on
    /// the state of that rail as an independent record.
    /// For instance on the Heltec Tracker 1.1 board, this rail is the power source for the GPS and screen.
    ///
    /// The log messages will be short and complete (see PowerMon.Event in the protobufs for details).
    /// something like "S:PM:C,0x00001234,REASON" where the hex number is the bitmask of all current states.
    /// (We use a bitmask for states so that if a log message gets lost it won't be fatal)
    Vext1On,
    LoraRxOn,
    LoraTxOn,
    LoraRxActive,
    BtOn,
    LedOn,
    ScreenOn,
    ScreenDrawing,
    WifiOn,
    /// GPS is actively trying to find our location
    /// See GPSPowerState for more details
    GpsActive,
}

impl State {
    /// The name of this variant in the ProtoBuf definition.
    pub open spec fn str_name(self) -> Seq<char> {
        match self {
            State::NoneValue => "None"@,
            State::CpuDeepSleep => "CPU_DeepSleep"@,
            State::CpuLightSleep => "CPU_LightSleep"@,
            State::Vext1On => "Vext1_On"@,
            State::LoraRxOn => "Lora_RXOn"@,
            State::LoraTxOn => "Lora_TXOn"@,
            State::LoraRxActive => "Lora_RXActive"@,
            State::BtOn => "BT_On"@,
            State::LedOn => "LED_On"@,
            State::ScreenOn => "Screen_On"@,
            State::ScreenDrawing => "Screen_Drawing"@,
            State::WifiOn => "Wifi_On"@,
            State::GpsActive => "GPS_Active"@,
        }
    }

    /// The number of this variant in the ProtoBuf definition.
    pub open spec fn value(self) -> i32 {
        match self {
            State::NoneValue => 0,
            State::CpuDeepSleep => 1,
            State::CpuLightSleep => 2,
            State::Vext1On => 4,
            State::LoraRxOn => 8,
            State::LoraTxOn => 16,
            State::LoraRxActive => 32,
            State::BtOn => 64,
            State::LedOn => 128,
            State::ScreenOn => 256,
            State::ScreenDrawing => 512,
            State::WifiOn => 1024,
            State::GpsActive => 2048,
        }
    }

    /// The variant numbered 0, which a field holds when it is not set.
    pub open spec fn default_variant() -> Self {
        State::NoneValue
    }

    /// The variant numbered `value`, or the default variant when no variant has that number:
    /// what a message field holding `value` reads as.
    pub open spec fn from_number_or_default(value: i32) -> Self {
        match Self::with_value(value) {
            Some(e) => e,
            None => Self::default_variant(),
        }
    }

    /// The variant whose ProtoBuf name is `name`, if there is one.
    pub open spec fn named(name: Seq<char>) -> Option<Self> {
        if exists|e: Self| #[trigger] e.str_name() == name {
            Some(choose|e: Self| #[trigger] e.str_name() == name)
        } else {
            None
        }
    }

    /// The variant whose ProtoBuf number is `value`, if there is one.
    pub open spec fn with_value(value: i32) -> Option<Self> {
        if exists|e: Self| #[trigger] e.value() == value {
            Some(choose|e: Self| #[trigger] e.value() == value)
        } else {
            None
        }
    }

    spec fn name_lookup(name: Seq<char>) -> Option<Self> {
        if name == "None"@ {
            Some(State::NoneValue)
        } else if name == "CPU_DeepSleep"@ {
            Some(State::CpuDeepSleep)
        } else if name == "CPU_LightSleep"@ {
            Some(State::CpuLightSleep)
        } else if name == "Vext1_On"@ {
            Some(State::Vext1On)
        } else if name == "Lora_RXOn"@ {
            Some(State::LoraRxOn)
        } else if name == "Lora_TXOn"@ {
            Some(State::LoraTxOn)
        } else if name == "Lora_RXActive"@ {
            Some(State::LoraRxActive)
        } else if name == "BT_On"@ {
            Some(State::BtOn)
        } else if name == "LED_On"@ {
            Some(State::LedOn)
        } else if name == "Screen_On"@ {
            Some(State::ScreenOn)
        } else if name == "Screen_Drawing"@ {
            Some(State::ScreenDrawing)
        } else if name == "Wifi_On"@ {
            Some(State::WifiOn)
        } else if name == "GPS_Active"@ {
            Some(State::GpsActive)
        } else {
            None
        }
    }

    spec fn value_lookup(value: i32) -> Option<Self> {
        if value == 0 {
            Some(State::NoneValue)
        } else if value == 1 {
            Some(State::CpuDeepSleep)
        } else if value == 2 {
            Some(State::CpuLightSleep)
        } else if value == 4 {
            Some(State::Vext1On)
        } else if value == 8 {
            Some(State::LoraRxOn)
        } else if value == 16 {
            Some(State::LoraTxOn)
        } else if value == 32 {
            Some(State::LoraRxActive)
        } else if value == 64 {
            Some(State::BtOn)
        } else if value == 128 {
            Some(State::LedOn)
        } else if value == 256 {
            Some(State::ScreenOn)
        } else if value == 512 {
            Some(State::ScreenDrawing)
        } else if value == 1024 {
            Some(State::WifiOn)
        } else if value == 2048 {
            Some(State::GpsActive)
        } else {
            None
        }
    }

    proof fn lemma_lookups()
        ensures
            forall|e: Self| #[trigger] Self::name_lookup(e.str_name()) == Some(e),
            forall|e: Self| #[trigger] Self::value_lookup(e.value()) == Some(e),
    {
        reveal_strlit("None");
        assert("None"@.len() == 4);
        reveal_strlit("CPU_DeepSleep");
        assert("CPU_DeepSleep"@.len() == 13);
        assert("CPU_DeepSleep"@[0] == 'C');
        reveal_strlit("CPU_LightSleep");
        assert("CPU_LightSleep"@.len() == 14);
        assert("CPU_LightSleep"@[0] == 'C');
        reveal_strlit("Vext1_On");
        assert("Vext1_On"@.len() == 8);
        reveal_strlit("Lora_RXOn");
        assert("Lora_RXOn"@.len() == 9);
        assert("Lora_RXOn"@[0] == 'L');
        assert("Lora_RXOn"@[5] == 'R');
        reveal_strlit("Lora_TXOn");
        assert("Lora_TXOn"@.len() == 9);
        assert("Lora_TXOn"@[0] == 'L');
        assert("Lora_TXOn"@[5] == 'T');
        reveal_strlit("Lora_RXActive");
        assert("Lora_RXActive"@.len() == 13);
        assert("Lora_RXActive"@[0] == 'L');
        reveal_strlit("BT_On");
        assert("BT_On"@.len() == 5);
        reveal_strlit("LED_On");
        assert("LED_On"@.len() == 6);
        reveal_strlit("Screen_On");
        assert("Screen_On"@.len() == 9);
        assert("Screen_On"@[0] == 'S');
        reveal_strlit("Screen_Drawing");
        assert("Screen_Drawing"@.len() == 14);
        assert("Screen_Drawing"@[0] == 'S');
        reveal_strlit("Wifi_On");
        assert("Wifi_On"@.len() == 7);
        reveal_strlit("GPS_Active");
        assert("GPS_Active"@.len() == 10);
    }

    /// Distinct variants have distinct ProtoBuf names and distinct ProtoBuf numbers.
    pub proof fn lemma_injective(a: Self, b: Self)
        ensures
            a.str_name() == b.str_name() ==> a == b,
            a.value() == b.value() ==> a == b,
    {
        Self::lemma_lookups();
        assert(Self::name_lookup(a.str_name()) == Some(a));
        assert(Self::name_lookup(b.str_name()) == Some(b));
        assert(Self::value_lookup(a.value()) == Some(a));
        assert(Self::value_lookup(b.value()) == Some(b));
    }

    /// A name denotes a variant exactly when it is that variant's ProtoBuf name:
    /// `from_str_name` undoes `as_str_name`, and accepts nothing else.
    pub proof fn lemma_named(name: Seq<char>, e: Self)
        ensures
            Self::named(name) == Some(e) <==> e.str_name() == name,
    {
        if e.str_name() == name {
            let x = choose|x: Self| #[trigger] x.str_name() == name;
            Self::lemma_injective(x, e);
        }
    }

    /// A number denotes a variant exactly when it is that variant's ProtoBuf number:
    /// `from_i32` undoes the conversion to `i32`, and accepts nothing else.
    pub proof fn lemma_with_value(value: i32, e: Self)
        ensures
            Self::with_value(value) == Some(e) <==> e.value() == value,
    {
        if e.value() == value {
            let x = choose|x: Self| #[trigger] x.value() == value;
            Self::lemma_injective(x, e);
        }
    }

    /// What a field holding `value` reads as: the variant numbered `value` when some variant
    /// has that number, and otherwise the variant numbered 0.
    pub proof fn lemma_number_or_default(value: i32)
        ensures
            (exists|e: Self| #[trigger] e.value() == value) ==> Self::from_number_or_default(value).value() == value,
            (forall|e: Self| #[trigger] e.value() != value) ==> Self::from_number_or_default(value).value() == 0,
            (forall|e: Self| #[trigger] e.value() != value) ==> Self::from_number_or_default(value) == Self::default_variant(),
            Self::default_variant().value() == 0,
    {
        if exists|e: Self| #[trigger] e.value() == value {
            let e = choose|e: Self| #[trigger] e.value() == value;
            Self::lemma_with_value(value, e);
        }
    }

    /// `try_from` accepts exactly the numbers that variants have and gives back the variant with
    /// that number; every other number it rejects with the error that records that number.
    pub proof fn lemma_try_from(value: i32, e: Self)
        ensures
            (<Self as vstd::std_specs::convert::TryFromSpec<i32>>::try_from_spec(value) == Ok::<Self, prost::UnknownEnumValue>(e)) <==> e.value() == value,
            (forall|x: Self| #[trigger] x.value() != value) ==> <Self as vstd::std_specs::convert::TryFromSpec<i32>>::try_from_spec(value) == Err::<Self, prost::UnknownEnumValue>(crate::enum_error::unknown_enum_value(value)),
            (exists|x: Self| #[trigger] x.value() == value) ==> <Self as vstd::std_specs::convert::TryFromSpec<i32>>::try_from_spec(value) is Ok,
    {
        Self::lemma_with_value(value, e);
        if exists|x: Self| #[trigger] x.value() == value {
            let x = choose|x: Self| #[trigger] x.value() == value;
            Self::lemma_with_value(value, x);
        }
    }

    /// Reading back the number of a variant gives that variant: a field set to `e` reads as `e`.
    pub proof fn lemma_read_after_write(e: Self)
        ensures
            Self::from_number_or_default(e.value()) == e,
    {
        Self::lemma_with_value(e.value(), e);
    }

    /// String value of the enum field names used in the ProtoBuf definition.
    ///
    /// The values are not transformed in any way and thus are considered stable
    /// (if the ProtoBuf definition does not change) and safe for programmatic use.
    pub fn as_str_name(&self) -> (name: &'static str)
        ensures
            name@ == self.str_name(),
    {
        match self {
            State::NoneValue => "None",
            State::CpuDeepSleep => "CPU_DeepSleep",
            State::CpuLightSleep => "CPU_LightSleep",
            State::Vext1On => "Vext1_On",
            State::LoraRxOn => "Lora_RXOn",
            State::LoraTxOn => "Lora_TXOn",
            State::LoraRxActive => "Lora_RXActive",
            State::BtOn => "BT_On",
            State::LedOn => "LED_On",
            State::ScreenOn => "Screen_On",
            State::ScreenDrawing => "Screen_Drawing",
            State::WifiOn => "Wifi_On",
            State::GpsActive => "GPS_Active",
        }
    }

    /// Creates an enum from field names used in the ProtoBuf definition.
    pub fn from_str_name(value: &str) -> (r: Option<Self>)
        ensures
            r == Self::named(value@),
    {
        if str_eq(value, "None") {
            proof {
                Self::lemma_named(value@, State::NoneValue);
            }
            return Some(State::NoneValue);
        }
        if str_eq(value, "CPU_DeepSleep") {
            proof {
                Self::lemma_named(value@, State::CpuDeepSleep);
            }
            return Some(State::CpuDeepSleep);
        }
        if str_eq(value, "CPU_LightSleep") {
            proof {
                Self::lemma_named(value@, State::CpuLightSleep);
            }
            return Some(State::CpuLightSleep);
        }
        if str_eq(value, "Vext1_On") {
            proof {
                Self::lemma_named(value@, State::Vext1On);
            }
            return Some(State::Vext1On);
        }
        if str_eq(value, "Lora_RXOn") {
            proof {
                Self::lemma_named(value@, State::LoraRxOn);
            }
            return Some(State::LoraRxOn);
        }
        if str_eq(value, "Lora_TXOn") {
            proof {
                Self::lemma_named(value@, State::LoraTxOn);
            }
            return Some(State::LoraTxOn);
        }
        if str_eq(value, "Lora_RXActive") {
            proof {
                Self::lemma_named(value@, State::LoraRxActive);
            }
            return Some(State::LoraRxActive);
        }
        if str_eq(value, "BT_On") {
            proof {
                Self::lemma_named(value@, State::BtOn);
            }
            return Some(State::BtOn);
        }
        if str_eq(value, "LED_On") {
            proof {
                Self::lemma_named(value@, State::LedOn);
            }
            return Some(State::LedOn);
        }
        if str_eq(value, "Screen_On") {
            proof {
                Self::lemma_named(value@, State::ScreenOn);
            }
            return Some(State::ScreenOn);
        }
        if str_eq(value, "Screen_Drawing") {
            proof {
                Self::lemma_named(value@, State::ScreenDrawing);
            }
            return Some(State::ScreenDrawing);
        }
        if str_eq(value, "Wifi_On") {
            proof {
                Self::lemma_named(value@, State::WifiOn);
            }
            return Some(State::WifiOn);
        }
        if str_eq(value, "GPS_Active") {
            proof {
                Self::lemma_named(value@, State::GpsActive);
            }
            return Some(State::GpsActive);
        }
        None
    }

    /// Returns `true` if `value` is a variant of `State`.
    pub fn is_valid(value: i32) -> (r: bool)
        ensures
            r == (Self::with_value(value) is Some),
    {
        Self::from_i32(value).is_some()
    }

    /// Converts an `i32` to a `State`, or `None` if `value` is not a valid variant.
    pub fn from_i32(value: i32) -> (r: Option<Self>)
        ensures
            r == Self::with_value(value),
    {
        if value == 0 {
            proof {
                Self::lemma_with_value(value, State::NoneValue);
            }
            return Some(State::NoneValue);
        }
        if value == 1 {
            proof {
                Self::lemma_with_value(value, State::CpuDeepSleep);
            }
            return Some(State::CpuDeepSleep);
        }
        if value == 2 {
            proof {
                Self::lemma_with_value(value, State::CpuLightSleep);
            }
            return Some(State::CpuLightSleep);
        }
        if value == 4 {
            proof {
                Self::lemma_with_value(value, State::Vext1On);
            }
            return Some(State::Vext1On);
        }
        if value == 8 {
            proof {
                Self::lemma_with_value(value, State::LoraRxOn);
            }
            return Some(State::LoraRxOn);
        }
        if value == 16 {
            proof {
                Self::lemma_with_value(value, State::LoraTxOn);
            }
            return Some(State::LoraTxOn);
        }
        if value == 32 {
            proof {
                Self::lemma_with_value(value, State::LoraRxActive);
            }
            return Some(State::LoraRxActive);
        }
        if value == 64 {
            proof {
                Self::lemma_with_value(value, State::BtOn);
            }
            return Some(State::BtOn);
        }
        if value == 128 {
            proof {
                Self::lemma_with_value(value, State::LedOn);
            }
            return Some(State::LedOn);
        }
        if value == 256 {
            proof {
                Self::lemma_with_value(value, State::ScreenOn);
            }
            return Some(State::ScreenOn);
        }
        if value == 512 {
            proof {
                Self::lemma_with_value(value, State::ScreenDrawing);
            }
            return Some(State::ScreenDrawing);
        }
        if value == 1024 {
            proof {
                Self::lemma_with_value(value, State::WifiOn);
            }
            return Some(State::WifiOn);
        }
        if value == 2048 {
            proof {
                Self::lemma_with_value(value, State::GpsActive);
            }
            return Some(State::GpsActive);
        }
        None
    }
}

impl Default for State {
    /// The variant numbered 0, the default value of the field in ProtoBuf.
    fn default() -> (r: Self)
        ensures
            r == Self::default_variant(),
            r.value() == 0,
    {
        State::NoneValue
    }
}

impl From<State> for i32 {
    fn from(value: State) -> (r: i32) {
        match value {
            State::NoneValue => 0,
            State::CpuDeepSleep => 1,
            State::CpuLightSleep => 2,
            State::Vext1On => 4,
            State::LoraRxOn => 8,
            State::LoraTxOn => 16,
            State::LoraRxActive => 32,
            State::BtOn => 64,
            State::LedOn => 128,
            State::ScreenOn => 256,
            State::ScreenDrawing => 512,
            State::WifiOn => 1024,
            State::GpsActive => 2048,
        }
    }
}

impl TryFrom<i32> for State {
    type Error = prost::UnknownEnumValue;

    fn try_from(value: i32) -> (r: Result<State, prost::UnknownEnumValue>)
        ensures
            r matches Ok(e) ==> e.value() == value,
            (exists|e: State| #[trigger] e.value() == value) ==> r is Ok,
            r is Err ==> r == Err::<State, prost::UnknownEnumValue>(crate::enum_error::unknown_enum_value(value)),
    {
        proof {
            if exists|e: State| #[trigger] e.value() == value {
                let e = choose|e: State| #[trigger] e.value() == value;
                State::lemma_with_value(value, e);
            }
        }
        match State::from_i32(value) {
            Some(e) => Ok(e),
            None => Err(make_unknown_enum_value(value)),
        }
    }
}

impl vstd::std_specs::convert::TryFromSpecImpl<i32> for State {
    open spec fn obeys_try_from_spec() -> bool {
        true
    }

    open spec fn try_from_spec(value: i32) -> Result<State, prost::UnknownEnumValue> {
        match State::with_value(value) {
            Some(e) => Ok(e),
            None => Err(crate::enum_error::unknown_enum_value(value)),
        }
    }
}

impl vstd::std_specs::convert::FromSpecImpl<State> for i32 {
    open spec fn obeys_from_spec() -> bool {
        true
    }

    open spec fn from_spec(value: State) -> i32 {
        value.value()
    }
}

} // verus!
