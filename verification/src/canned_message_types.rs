//! Message and enumeration types of the canned message definitions.

use vstd::prelude::*;

verus! {

/// Canned message module configuration.
#[derive(Clone, Debug, PartialEq)]
pub struct CannedMessageModuleConfig {
    /// Predefined messages for canned message module separated by '|' characters.
    pub messages: String,
}

impl Default for CannedMessageModuleConfig {
    /// The message with every field unset: numbers 0, flags false, strings, bytes and lists
    /// empty, and no nested message.
    fn default() -> (r: Self)
        ensures
            r.messages@ == Seq::<char>::empty(),
    {
        CannedMessageModuleConfig {
            messages: String::new(),
        }
    }
}

} // verus!
