//! Message and enumeration types of the channel settings definitions.

use vstd::prelude::*;

verus! {

/// This information can be encoded as a QRcode/url so that other users can configure
/// their radio to join the same channel.
/// A note about how channel names are shown to users: channelname-X
/// poundsymbol is a prefix used to indicate this is a channel name (idea from @professr).
/// Where X is a letter from A-Z (base 26) representing a hash of the PSK for this
/// channel - so that if the user changes anything about the channel (which does
/// force a new PSK) this letter will also change. Thus preventing user confusion if
/// two friends try to type in a channel name of "BobsChan" and then can't talk
/// because their PSKs will be different.
/// The PSK is hashed into this letter by "0x41 + [xor all bytes of the psk ] modulo 26"
/// This also allows the option of someday if people have the PSK off (zero), the
/// users COULD type in a channel name and be able to talk.
/// explain how remote settings and remote gpio are managed as an example
#[derive(Clone, Debug, PartialEq)]
pub struct ChannelSettings {
    /// Deprecated in favor of LoraConfig.channel_num
    pub channel_num: u32,
    /// A simple pre-shared key for now for crypto.
    /// Must be either 0 bytes (no crypto), 16 bytes (AES128), or 32 bytes (AES256).
    /// A special shorthand is used for 1 byte long psks.
    /// These psks should be treated as only minimally secure,
    /// because they are listed in this source code.
    /// Those bytes are mapped using the following scheme:
    /// `0` = No crypto
    /// `1` = The special "default" channel key: {0xd4, 0xf1, 0xbb, 0x3a, 0x20, 0x29, 0x07, 0x59, 0xf0, 0xbc, 0xff, 0xab, 0xcf, 0x4e, 0x69, 0x01}
    /// `2` through 10 = The default channel key, except with 1 through 9 added to the last byte.
    /// Shown to user as simple1 through 10
    pub psk: Vec<u8>,
    /// A SHORT name that will be packed into the URL.
    /// Less than 12 bytes.
    /// Something for end users to call the channel
    /// If this is the empty string it is assumed that this channel
    /// is the special (minimally secure) "Default"channel.
    /// In user interfaces it should be rendered as a local language translation of "X".
    /// For channel_num hashing empty string will be treated as "X".
    /// Where "X" is selected based on the English words listed above for ModemPreset
    pub name: String,
    /// Used to construct a globally unique channel ID.
    /// The full globally unique ID will be: "name.id" where ID is shown as base36.
    /// Assuming that the number of meshtastic users is below 20K (true for a long time)
    /// the chance of this 64 bit random number colliding with anyone else is super low.
    /// And the penalty for collision is low as well, it just means that anyone trying to decrypt channel messages might need to
    /// try multiple candidate channels.
    /// Any time a non wire compatible change is made to a channel, this field should be chosen anew.
    /// There are a small number of 'special' globally known (and fairly) insecure standard channels.
    /// Those channels do not have a numeric id included in the settings, but instead it is pulled from
    /// a table of well known IDs.
    pub id: u32,
    /// If true, messages on the mesh will be sent to the *public* internet by any gateway ndoe
    pub uplink_enabled: bool,
    /// If true, messages seen on the internet will be forwarded to the local mesh.
    pub downlink_enabled: bool,
    /// Per-channel module settings.
    pub module_settings: Option<crate::ModuleSettings>,
}

impl Default for ChannelSettings {
    /// The message with every field unset: numbers 0, flags false, strings, bytes and lists
    /// empty, and no nested message.
    fn default() -> (r: Self)
        ensures
            r.channel_num == 0,
            r.psk@.len() == 0,
            r.name@ == Seq::<char>::empty(),
            r.id == 0,
            r.uplink_enabled == false,
            r.downlink_enabled == false,
            r.module_settings is None,
    {
        ChannelSettings {
            channel_num: 0,
            psk: Vec::new(),
            name: String::new(),
            id: 0,
            uplink_enabled: false,
            downlink_enabled: false,
            module_settings: None,
        }
    }
}

/// This message is specifically for modules to store per-channel configuration data.
#[derive(Clone, Debug, PartialEq)]
pub struct ModuleSettings {
    /// Bits of precision for the location sent in position packets.
    pub position_precision: u32,
    /// Controls whether or not the phone / clients should mute the current channel
    /// Useful for noisy public channels you don't necessarily want to disable
    pub is_client_muted: bool,
}

impl Default for ModuleSettings {
    /// The message with every field unset: numbers 0, flags false, strings, bytes and lists
    /// empty, and no nested message.
    fn default() -> (r: Self)
        ensures
            r.position_precision == 0,
            r.is_client_muted == false,
    {
        ModuleSettings {
            position_precision: 0,
            is_client_muted: false,
        }
    }
}

/// A pair of a channel number, mode and the (sharable) settings for that channel
#[derive(Clone, Debug, PartialEq)]
pub struct Channel {
    /// The index of this channel in the channel table (from 0 to MAX_NUM_CHANNELS-1)
    /// (Someday - not currently implemented) An index of -1 could be used to mean "set by name",
    /// in which case the target node will find and set the channel by settings.name.
    pub index: i32,
    /// The new settings, or NULL to disable that channel
    pub settings: Option<crate::ChannelSettings>,
    pub role: i32,
}

impl Channel {
    /// Returns the enum value of `role`, or the default if the field is set to an invalid enum value.
    pub fn role(&self) -> (r: crate::channel::Role)
        ensures
            r == crate::channel::Role::from_number_or_default(self.role),
            (exists|e: crate::channel::Role| #[trigger] e.value() == self.role) ==> r.value() == self.role,
            (forall|e: crate::channel::Role| #[trigger] e.value() != self.role) ==> r.value() == 0,
    {
        proof {
            crate::channel::Role::lemma_number_or_default(self.role);
        }
        match crate::channel::Role::from_i32(self.role) {
            Some(e) => e,
            None => <crate::channel::Role as Default>::default(),
        }
    }

    /// Sets `role` to the provided enum value.
    pub fn set_role(&mut self, value: crate::channel::Role)
        ensures
            *final(self) == (Self { role: value.value(), ..*old(self) }),
    {
        self.role = i32::from(value);
    }
}

impl Default for Channel {
    /// The message with every field unset: numbers 0, flags false, strings, bytes and lists
    /// empty, and no nested message.
    fn default() -> (r: Self)
        ensures
            r.index == 0,
            r.settings is None,
            r.role == 0,
    {
        Channel {
            index: 0,
            settings: None,
            role: 0,
        }
    }
}

} // verus!
