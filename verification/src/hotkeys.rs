//! Hotkey intents.
//!
//! Each variant names one user intent that a platform hotkey layer can
//! deliver; [`crate::manager::Manager::handle_hotkey`] maps an intent to the
//! corresponding volume operation. Registering hotkeys with the operating
//! system is the surrounding application's concern.

use vstd::prelude::*;

verus! {

/// Failure to register a required hotkey with the operating system.
#[derive(Debug, Clone, Copy, PartialEq, Eq, Structural)]
pub struct HotKeyBindError;

/// One hotkey intent.
#[derive(Debug, Clone, Copy, PartialEq, Eq, Structural)]
pub enum HotKey {
    /// Raise the volume by the coarse step.
    VolumeUp,
    /// Lower the volume by the coarse step.
    VolumeDown,
    /// Raise the volume by the fine step.
    VolumeUpFine,
    /// Lower the volume by the fine step.
    VolumeDownfine,
    /// Toggle the dim (mute) state.
    Mute,
}

} // verus!
