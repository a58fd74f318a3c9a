//! Model of the control protocol surface.
//!
//! The device is driven over three literal addresses: the master volume
//! (linear gain), a human-readable decibel readout, and the dim toggle.
//! Outbound traffic is always a single message carrying one gain value.
//! Inbound traffic arrives as an envelope that is either a bare message or a
//! bundle of items; only messages inside a bundle ever update state, and a
//! nested bundle inside a bundle is ignored.

use vstd::prelude::*;

verus! {

/// Address of the master volume control (linear gain).
pub open spec fn volume_addr() -> Seq<char> {
    "/1/mastervolume"@
}

/// Address of the decibel readout reported by the device.
pub open spec fn volume_decibels_addr() -> Seq<char> {
    "/1/mastervolumeVal"@
}

/// Address of the dim (mute) toggle.
pub open spec fn dim_addr() -> Seq<char> {
    "/1/mainDim"@
}

/// The master volume address as a string.
pub fn volume_addr_str() -> (r: &'static str)
    ensures
        r@ == volume_addr(),
{
    "/1/mastervolume"
}

/// The decibel readout address as a string.
pub fn volume_decibels_addr_str() -> (r: &'static str)
    ensures
        r@ == volume_decibels_addr(),
{
    "/1/mastervolumeVal"
}

/// The dim toggle address as a string.
pub fn dim_addr_str() -> (r: &'static str)
    ensures
        r@ == dim_addr(),
{
    "/1/mainDim"
}

/// One argument of an inbound message. Gain values are fixed point (see
/// [`crate::units::UNIT`]); arguments of any other protocol type are kept
/// only as [`Arg::Other`], since nothing reads them.
#[derive(Debug, PartialEq, Eq)]
pub enum Arg {
    /// A scalar gain value.
    Scalar(i32),
    /// A text value, such as the decibel readout.
    Text(String),
    /// An argument of a type this crate does not interpret.
    Other,
}

/// One inbound message: an address and its arguments.
#[derive(Debug, PartialEq, Eq)]
pub struct Message {
    /// Address the message was sent to, matched literally.
    pub addr: String,
    /// Arguments in order; only the first is ever examined.
    pub args: Vec<Arg>,
}

/// One item of an inbound bundle.
#[derive(Debug, PartialEq, Eq)]
pub enum BundleItem {
    /// A message, dispatched on its address.
    Message(Message),
    /// A bundle nested inside the bundle; ignored.
    NestedBundle,
}

/// One decoded inbound envelope.
#[derive(Debug, PartialEq, Eq)]
pub enum Packet {
    /// A bare message outside a bundle; yields no updates.
    Message(Message),
    /// A bundle of items, applied in order.
    Bundle(Vec<BundleItem>),
}

} // verus!
