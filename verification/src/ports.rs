//! Transport capability interfaces.
//!
//! The manager never touches the network itself: it is injected with a
//! [`Sender`] for fire-and-forget outbound messages and a [`Receiver`] that
//! blocks for one inbound envelope. Implementations live outside the crate
//! (or in [`crate::recording`] for in-memory use); each sender tracks, as
//! ghost state, the log of messages it has accepted, so that contracts can
//! state exactly what a manager operation transmitted.

use vstd::prelude::*;

use crate::errors::Error;
use crate::osc::Packet;

verus! {

/// Ghost record of one outbound message: an address and the single gain
/// value carried as its payload. Every outbound message of the protocol has
/// this shape.
pub ghost struct OutMessage {
    /// Address the message was sent to.
    pub addr: Seq<char>,
    /// Fixed-point gain payload.
    pub value: int,
}

/// Outbound transport: transmits one already-shaped protocol message,
/// without acknowledgement.
pub trait Sender: Sized {
    /// The log of messages this sender has accepted so far, oldest first.
    /// A sender that tracks no log may keep the default, an always-empty
    /// log; the contract of [`Sender::send`] then promises nothing of a
    /// successful send, so proofs about the traffic need a tracking sender.
    open spec fn sent(&self) -> Seq<OutMessage> {
        Seq::<OutMessage>::empty()
    }

    /// Transmit one message carrying a single gain value. On success the
    /// message is appended to the sent log; on failure the log is unchanged.
    fn send(&mut self, addr: &str, value: i32) -> (r: Result<(), Error>)
        ensures
            r is Ok ==> final(self).sent() == old(self).sent().push(
                OutMessage { addr: addr@, value: value as int },
            ),
            r is Err ==> final(self).sent() == old(self).sent(),
    ;
}

/// Inbound transport: blocks until one envelope arrives and is decoded, or
/// until the implementation's own timeout policy gives up. Nothing is
/// promised about the envelope: the device decides what it sends.
pub trait Receiver: Sized {
    /// Receive and decode one envelope.
    fn receive(&mut self) -> (r: Result<Packet, Error>);
}

} // verus!
