//! Message and enumeration types of the RTTTL ringtone definitions.

use vstd::prelude::*;

verus! {

/// Canned message module configuration.
#[derive(Clone, Debug, PartialEq)]
pub struct RtttlConfig {
    /// Ringtone for PWM Buzzer in RTTTL Format.
    pub ringtone: String,
}

impl Default for RtttlConfig {
    /// The message with every field unset: numbers 0, flags false, strings, bytes and lists
    /// empty, and no nested message.
    fn default() -> (r: Self)
        ensures
            r.ringtone@ == Seq::<char>::empty(),
    {
        RtttlConfig {
            ringtone: String::new(),
        }
    }
}

} // verus!
