//! Core state management for a networked volume control: a fixed-point model
//! of a device's master volume and dim state, the rules for adjusting them
//! from hotkey intents, and the handling of inbound protocol updates.

pub mod config;
pub mod errors;
pub mod hotkeys;
pub mod laws;
pub mod manager;
pub mod osc;
pub mod ports;
pub mod recording;
pub mod units;
