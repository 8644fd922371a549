//! Message and enumeration types of the remote hardware definitions.

use vstd::prelude::*;

verus! {

/// An example app to show off the module system. This message is used for
/// REMOTE_HARDWARE_APP PortNums.
/// Also provides easy remote access to any GPIO.
/// In the future other remote hardware operations can be added based on user interest
/// (i.e. serial output, spi/i2c input/output).
/// because no security yet (beyond the channel mechanism).
/// It should be off by default and then protected based on some TBD mechanism
/// (a special channel once multichannel support is included?)
#[derive(Clone, Debug, PartialEq)]
pub struct HardwareMessage {
    /// What type of HardwareMessage is this?
    pub type_: i32,
    /// What gpios are we changing. Not used for all MessageTypes, see MessageType for details
    pub gpio_mask: u64,
    /// For gpios that were listed in gpio_mask as valid, what are the signal levels for those gpios.
    /// Not used for all MessageTypes, see MessageType for details
    pub gpio_value: u64,
}

impl HardwareMessage {
    /// Returns the enum value of `type_`, or the default if the field is set to an invalid enum value.
    pub fn type_(&self) -> (r: crate::hardware_message::Type)
        ensures
            r == crate::hardware_message::Type::from_number_or_default(self.type_),
            (exists|e: crate::hardware_message::Type| #[trigger] e.value() == self.type_) ==> r.value() == self.type_,
            (forall|e: crate::hardware_message::Type| #[trigger] e.value() != self.type_) ==> r.value() == 0,
    {
        proof {
            crate::hardware_message::Type::lemma_number_or_default(self.type_);
        }
        match crate::hardware_message::Type::from_i32(self.type_) {
            Some(e) => e,
            None => <crate::hardware_message::Type as Default>::default(),
        }
    }

    /// Sets `type_` to the provided enum value.
    pub fn set_type(&mut self, value: crate::hardware_message::Type)
        ensures
            *final(self) == (Self { type_: value.value(), ..*old(self) }),
    {
        self.type_ = i32::from(value);
    }
}

impl Default for HardwareMessage {
    /// The message with every field unset: numbers 0, flags false, strings, bytes and lists
    /// empty, and no nested message.
    fn default() -> (r: Self)
        ensures
            r.type_ == 0,
            r.gpio_mask == 0,
            r.gpio_value == 0,
    {
        HardwareMessage {
            type_: 0,
            gpio_mask: 0,
            gpio_value: 0,
        }
    }
}

} // verus!
