//! Message and enumeration types of the power monitoring definitions.

use vstd::prelude::*;

verus! {

/// Note: There are no 'PowerMon' messages normally in use (PowerMons are sent only as structured logs - slogs).
/// But we wrap our State enum in this message to effectively nest a namespace (without our linter yelling at us)
#[derive(Clone, Debug, PartialEq)]
pub struct PowerMon {}

impl Default for PowerMon {
    /// The message with every field unset: numbers 0, flags false, strings, bytes and lists
    /// empty, and no nested message.
    fn default() -> (r: Self) {
        PowerMon {}
    }
}

} // verus!
