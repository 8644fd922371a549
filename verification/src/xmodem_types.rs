//! Message and enumeration types of the XModem transfer definitions.

use vstd::prelude::*;

verus! {

#[derive(Clone, Debug, PartialEq)]
pub struct XModem {
    pub control: i32,
    pub seq: u32,
    pub crc16: u32,
    pub buffer: Vec<u8>,
}

impl XModem {
    /// Returns the enum value of `control`, or the default if the field is set to an invalid enum value.
    pub fn control(&self) -> (r: crate::x_modem::Control)
        ensures
            r == crate::x_modem::Control::from_number_or_default(self.control),
            (exists|e: crate::x_modem::Control| #[trigger] e.value() == self.control) ==> r.value() == self.control,
            (forall|e: crate::x_modem::Control| #[trigger] e.value() != self.control) ==> r.value() == 0,
    {
        proof {
            crate::x_modem::Control::lemma_number_or_default(self.control);
        }
        match crate::x_modem::Control::from_i32(self.control) {
            Some(e) => e,
            None => <crate::x_modem::Control as Default>::default(),
        }
    }

    /// Sets `control` to the provided enum value.
    pub fn set_control(&mut self, value: crate::x_modem::Control)
        ensures
            *final(self) == (Self { control: value.value(), ..*old(self) }),
    {
        self.control = i32::from(value);
    }
}

impl Default for XModem {
    /// The message with every field unset: numbers 0, flags false, strings, bytes and lists
    /// empty, and no nested message.
    fn default() -> (r: Self)
        ensures
            r.control == 0,
            r.seq == 0,
            r.crc16 == 0,
            r.buffer@.len() == 0,
    {
        XModem {
            control: 0,
            seq: 0,
            crc16: 0,
            buffer: Vec::new(),
        }
    }
}

} // verus!
