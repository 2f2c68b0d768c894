//! APN-level iOS settings: interaction category and sound.

use crate::json::{jstr_bytes, null_bytes};
use vstd::prelude::*;

verus! {

/// APN settings a push entity may supply.
pub trait ApnPush {
    /// The notification's interaction category, if any.
    fn category(&self) -> Option<String> {
        None
    }

    /// The notification's sound, if any.
    fn sound(&self) -> Option<IosPushSound> {
        None
    }
}

/// The sound an iOS notification plays.
pub enum IosPushSound {
    /// The system default sound.
    Default,
    /// No sound at all.
    Silent,
    /// A named custom sound.
    Custom(String),
}

/// The rendered JSON value of a sound setting: the default name, an explicit
/// null, or the custom name.
pub open spec fn sound_value_bytes(s: IosPushSound) -> Seq<u8> {
    match s {
        IosPushSound::Default => jstr_bytes("default"@),
        IosPushSound::Silent => null_bytes(),
        IosPushSound::Custom(name) => jstr_bytes(name@),
    }
}

} // verus!
