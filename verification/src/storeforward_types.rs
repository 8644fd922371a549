//! Message and enumeration types of the store and forward definitions.

use vstd::prelude::*;

verus! {

#[derive(Clone, Debug, PartialEq)]
pub struct StoreAndForward {
    pub rr: i32,
    pub variant: Option<crate::store_and_forward::Variant>,
}

impl StoreAndForward {
    /// Returns the enum value of `rr`, or the default if the field is set to an invalid enum value.
    pub fn rr(&self) -> (r: crate::store_and_forward::RequestResponse)
        ensures
            r == crate::store_and_forward::RequestResponse::from_number_or_default(self.rr),
            (exists|e: crate::store_and_forward::RequestResponse| #[trigger] e.value() == self.rr) ==> r.value() == self.rr,
            (forall|e: crate::store_and_forward::RequestResponse| #[trigger] e.value() != self.rr) ==> r.value() == 0,
    {
        proof {
            crate::store_and_forward::RequestResponse::lemma_number_or_default(self.rr);
        }
        match crate::store_and_forward::RequestResponse::from_i32(self.rr) {
            Some(e) => e,
            None => <crate::store_and_forward::RequestResponse as Default>::default(),
        }
    }

    /// Sets `rr` to the provided enum value.
    pub fn set_rr(&mut self, value: crate::store_and_forward::RequestResponse)
        ensures
            *final(self) == (Self { rr: value.value(), ..*old(self) }),
    {
        self.rr = i32::from(value);
    }
}

impl Default for StoreAndForward {
    /// The message with every field unset: numbers 0, flags false, strings, bytes and lists
    /// empty, and no nested message.
    fn default() -> (r: Self)
        ensures
            r.rr == 0,
            r.variant is None,
    {
        StoreAndForward {
            rr: 0,
            variant: None,
        }
    }
}

} // verus!
