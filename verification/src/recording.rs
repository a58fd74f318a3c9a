//! In-memory transports.
//!
//! These implement the port interfaces without any network: a
//! [`RecordingSender`] keeps every accepted message in a log, a
//! [`FailingSender`] refuses every message, and a [`ScriptedReceiver`]
//! serves a fixed queue of envelopes. They give tests — and any headless
//! use of the manager — full visibility of the traffic.

use vstd::prelude::*;

use crate::errors::Error;
use crate::osc::Packet;
use crate::ports::{OutMessage, Receiver, Sender};

verus! {

/// One message accepted by a [`RecordingSender`].
#[derive(Debug, PartialEq, Eq)]
pub struct SentRecord {
    /// Address the message was sent to.
    pub addr: String,
    /// Fixed-point gain payload.
    pub value: i32,
}

/// A sender that accepts every message and appends it to a log.
#[derive(Debug)]
pub struct RecordingSender {
    log: Vec<SentRecord>,
}

impl RecordingSender {
    /// A sender with an empty log.
    pub fn new() -> (s: Self)
        ensures
            s.sent() == Seq::<OutMessage>::empty(),
    {
        let s = RecordingSender { log: Vec::new() };
        proof {
            assert(s.sent() =~= Seq::<OutMessage>::empty());
        }
        s
    }

    /// The accepted messages, oldest first.
    pub fn messages(&self) -> (r: &Vec<SentRecord>)
        ensures
            r@.len() == self.sent().len(),
            forall|i: int|
                0 <= i < r@.len() ==> (#[trigger] r@[i]).addr@ == self.sent()[i].addr
                    && r@[i].value as int == self.sent()[i].value,
    {
        &self.log
    }
}

impl Sender for RecordingSender {
    closed spec fn sent(&self) -> Seq<OutMessage> {
        self.log@.map_values(|rec: SentRecord| OutMessage { addr: rec.addr@, value: rec.value as int })
    }

    fn send(&mut self, addr: &str, value: i32) -> (r: Result<(), Error>)
        ensures
            r is Ok,
    {
        self.log.push(SentRecord { addr: addr.to_owned(), value });
        proof {
            assert(self.sent() =~= old(self).sent().push(
                OutMessage { addr: addr@, value: value as int },
            ));
        }
        Ok(())
    }
}

/// A sender that refuses every message.
#[derive(Debug, Clone, Copy, PartialEq, Eq, Structural)]
pub struct FailingSender;

impl Sender for FailingSender {
    closed spec fn sent(&self) -> Seq<OutMessage> {
        Seq::<OutMessage>::empty()
    }

    fn send(&mut self, addr: &str, value: i32) -> (r: Result<(), Error>)
        ensures
            r is Err,
    {
        Err(Error::Transport("sender refuses every message".to_owned()))
    }
}

/// A receiver that serves a fixed queue of envelopes in order, and fails
/// with a transport error once the queue is exhausted.
#[derive(Debug)]
pub struct ScriptedReceiver {
    queue: Vec<Packet>,
}

impl ScriptedReceiver {
    /// A receiver that will serve the given envelopes, first element first.
    pub fn new(packets: Vec<Packet>) -> (s: Self)
        ensures
            s.pending() == packets@,
    {
        ScriptedReceiver { queue: packets }
    }

    /// The envelopes not yet served.
    pub closed spec fn pending(&self) -> Seq<Packet> {
        self.queue@
    }
}

impl Receiver for ScriptedReceiver {
    fn receive(&mut self) -> (r: Result<Packet, Error>)
        ensures
            old(self).pending().len() == 0 ==> r is Err && final(self).pending()
                == old(self).pending(),
            old(self).pending().len() > 0 ==> r == Ok::<Packet, Error>(old(self).pending()[0])
                && final(self).pending() == old(self).pending().drop_first(),
    {
        if self.queue.len() == 0 {
            Err(Error::Transport("no scripted envelope left".to_owned()))
        } else {
            let packet = self.queue.remove(0);
            proof {
                assert(self.pending() =~= old(self).pending().drop_first());
            }
            Ok(packet)
        }
    }
}

} // verus!
