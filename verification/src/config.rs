//! Configuration values the surrounding application feeds into the core.
//!
//! [`Osc`] names the endpoints of the control connection; [`Volume`] holds
//! the step sizes and ceiling in fixed point (see [`crate::units::UNIT`]).
//! Loading these from a configuration file is the application's concern;
//! the defaults here mirror the values used when no file is present.

use vstd::prelude::*;

use crate::units::UNIT;

verus! {

/// Endpoints of the control connection.
#[derive(Debug, PartialEq, Eq)]
pub struct Osc {
    /// Host the device listens on.
    pub outgoing_hostname: String,
    /// Port the device listens on.
    pub outgoing_port: u16,
    /// Host this application listens on.
    pub incoming_hostname: String,
    /// Port this application listens on.
    pub incoming_port: u16,
}

impl Default for Osc {
    /// Local loopback on the conventional ports.
    fn default() -> (o: Self)
        ensures
            o.outgoing_hostname@ == "127.0.0.1"@,
            o.outgoing_port == 7001,
            o.incoming_hostname@ == "127.0.0.1"@,
            o.incoming_port == 9001,
    {
        Osc {
            outgoing_hostname: "127.0.0.1".to_owned(),
            outgoing_port: 7001,
            incoming_hostname: "127.0.0.1".to_owned(),
            incoming_port: 9001,
        }
    }
}

/// Volume behaviour configuration, in fixed point.
#[derive(Debug, Clone, Copy, PartialEq, Eq, Structural)]
pub struct Volume {
    /// Coarse step size.
    pub increment: i32,
    /// Fine step size.
    pub fine_increment: i32,
    /// Ceiling that increases saturate at.
    pub max_volume: i32,
}

impl Default for Volume {
    /// Coarse step 0.02, fine step 0.01, ceiling 1.0.
    fn default() -> (v: Self)
        ensures
            v == (Volume { increment: 20_000, fine_increment: 10_000, max_volume: UNIT }),
    {
        Volume { increment: 20_000, fine_increment: 10_000, max_volume: UNIT }
    }
}

} // verus!
