//! The volume state manager.
//!
//! A [`Manager`] owns the device state known so far (volume, decibel
//! readout, dim), converts hotkey intents into outbound protocol messages
//! with clamping and no-change suppression, and applies inbound bundles to
//! its state. Until all three state fields have been reported by the device
//! at least once, every mutating operation is a no-op that reports `false`.
//!
//! A send and the local commit that follows it are not transactional: the
//! commit happens only after the send succeeded, so a failed send never
//! leaves local state changed.

use vstd::prelude::*;

use crate::errors::{ConfigError, Error};
use crate::hotkeys::HotKey;
use crate::osc::{
    dim_addr, dim_addr_str, volume_addr, volume_addr_str, volume_decibels_addr,
    volume_decibels_addr_str, Arg, BundleItem, Message, Packet,
};
use crate::ports::{OutMessage, Receiver, Sender};
use crate::units::{RoughEq, MAX_FINE_INCREMENT, MAX_INCREMENT, UNIT, UNKNOWN};

verus! {

/// Mathematical model of a manager's device-facing state: the configured
/// step sizes and ceiling, and the three state fields.
pub ghost struct ManagerView {
    /// Coarse step size.
    pub increment: int,
    /// Fine step size.
    pub fine_increment: int,
    /// Ceiling that increases saturate at.
    pub max_volume: int,
    /// Stored volume, or [`UNKNOWN`].
    pub volume: int,
    /// Decibel readout last reported by the device, if any.
    pub volume_db: Option<Seq<char>>,
    /// Stored dim state, or [`UNKNOWN`].
    pub dim: int,
}

impl ManagerView {
    /// The configuration is in range: both step sizes are positive and no
    /// larger than their caps, and the ceiling is a gain between 0 and 1.
    pub open spec fn wf(self) -> bool {
        &&& 0 < self.increment <= MAX_INCREMENT as int
        &&& 0 < self.fine_increment <= MAX_FINE_INCREMENT as int
        &&& 0 <= self.max_volume <= UNIT as int
    }

    /// All three state fields have been reported by the device.
    pub open spec fn is_initialized(self) -> bool {
        &&& self.volume != UNKNOWN as int
        &&& self.volume_db is Some
        &&& self.dim != UNKNOWN as int
    }

    /// This state with the volume replaced.
    pub open spec fn with_volume(self, volume: int) -> ManagerView {
        ManagerView { volume, ..self }
    }

    /// This state with the decibel readout replaced.
    pub open spec fn with_volume_db(self, volume_db: Seq<char>) -> ManagerView {
        ManagerView { volume_db: Some(volume_db), ..self }
    }

    /// This state with the dim state replaced.
    pub open spec fn with_dim(self, dim: int) -> ManagerView {
        ManagerView { dim, ..self }
    }

    /// The dim value a toggle commits: off if currently dimmed, on otherwise.
    pub open spec fn dim_target(self) -> int {
        if self.dim == UNIT as int {
            0
        } else {
            UNIT as int
        }
    }
}

/// Result of one volume increase: the raw sum, saturated at the ceiling.
pub open spec fn step_up(volume: int, increment: int, max_volume: int) -> int {
    if volume + increment >= max_volume {
        max_volume
    } else {
        volume + increment
    }
}

/// Result of one volume decrease: the raw difference, saturated at zero.
pub open spec fn step_down(volume: int, increment: int) -> int {
    if volume - increment < 0 {
        0
    } else {
        volume - increment
    }
}

/// Whether an inbound message updates some state field: its address must be
/// one of the three known addresses and its first argument must have the
/// type that address carries.
pub open spec fn msg_updates(m: Message) -> bool {
    if m.addr@ == volume_addr() {
        m.args@.len() > 0 && m.args@[0] is Scalar
    } else if m.addr@ == volume_decibels_addr() {
        m.args@.len() > 0 && m.args@[0] is Text
    } else if m.addr@ == dim_addr() {
        m.args@.len() > 0 && m.args@[0] is Scalar
    } else {
        false
    }
}

/// The state after applying one inbound message.
pub open spec fn msg_apply(v: ManagerView, m: Message) -> ManagerView {
    if m.addr@ == volume_addr() {
        if m.args@.len() > 0 && m.args@[0] is Scalar {
            v.with_volume(m.args@[0]->Scalar_0 as int)
        } else {
            v
        }
    } else if m.addr@ == volume_decibels_addr() {
        if m.args@.len() > 0 && m.args@[0] is Text {
            v.with_volume_db(m.args@[0]->Text_0@)
        } else {
            v
        }
    } else if m.addr@ == dim_addr() {
        if m.args@.len() > 0 && m.args@[0] is Scalar {
            v.with_dim(m.args@[0]->Scalar_0 as int)
        } else {
            v
        }
    } else {
        v
    }
}

/// Whether one bundle item updates some state field.
pub open spec fn item_updates(it: BundleItem) -> bool {
    match it {
        BundleItem::Message(m) => msg_updates(m),
        BundleItem::NestedBundle => false,
    }
}

/// The state after applying one bundle item.
pub open spec fn item_apply(v: ManagerView, it: BundleItem) -> ManagerView {
    match it {
        BundleItem::Message(m) => msg_apply(v, m),
        BundleItem::NestedBundle => v,
    }
}

/// Whether any item of a bundle updates some state field.
pub open spec fn items_update(items: Seq<BundleItem>) -> bool
    decreases items.len(),
{
    items.len() != 0 && (item_updates(items[0]) || items_update(items.drop_first()))
}

/// The state after applying the items of a bundle, in order.
pub open spec fn items_apply(v: ManagerView, items: Seq<BundleItem>) -> ManagerView
    decreases items.len(),
{
    if items.len() == 0 {
        v
    } else {
        items_apply(item_apply(v, items[0]), items.drop_first())
    }
}

/// Whether an inbound envelope updates some state field. A bare message
/// outside a bundle never does.
pub open spec fn packet_updates(p: Packet) -> bool {
    match p {
        Packet::Message(_) => false,
        Packet::Bundle(items) => items_update(items@),
    }
}

/// The state after applying one inbound envelope.
pub open spec fn packet_apply(v: ManagerView, p: Packet) -> ManagerView {
    match p {
        Packet::Message(_) => v,
        Packet::Bundle(items) => items_apply(v, items@),
    }
}

/// The sent log of an attached sender.
pub open spec fn port_sent<S: Sender>(s: Option<S>) -> Seq<OutMessage>
    recommends
        s is Some,
{
    s.unwrap().sent()
}

/// Contract shared by the four volume adjustment operations, for a new
/// volume of `new_volume`: a no-op reporting `false` while uninitialized or
/// when the volume would not change; otherwise one message on the volume
/// address is sent and the new volume is committed only if the send
/// succeeded.
pub open spec fn adjust_ensures<S: Sender>(
    pre: ManagerView,
    post: ManagerView,
    sender_pre: Option<S>,
    sender_post: Option<S>,
    r: Result<bool, Error>,
    new_volume: int,
) -> bool {
    &&& (sender_post is Some <==> sender_pre is Some)
    &&& !pre.is_initialized() ==> r == Ok::<bool, Error>(false) && post == pre && sender_post
        == sender_pre
    &&& pre.is_initialized() && new_volume == pre.volume ==> r == Ok::<bool, Error>(false) && post
        == pre && sender_post == sender_pre
    &&& pre.is_initialized() && new_volume != pre.volume ==> {
        &&& sender_pre is None ==> r == Err::<bool, Error>(Error::NotConnected) && post == pre
            && sender_post == sender_pre
        &&& sender_pre is Some ==> {
            &&& r is Ok ==> r == Ok::<bool, Error>(true) && post == pre.with_volume(new_volume)
                && port_sent(sender_post) == port_sent(sender_pre).push(
                (OutMessage { addr: volume_addr(), value: new_volume }),
            )
            &&& r is Err ==> post == pre && port_sent(sender_post) == port_sent(sender_pre)
        }
    }
}

/// Contract of the dim toggle: a no-op reporting `false` while
/// uninitialized; otherwise one message carrying the literal trigger payload
/// 1.0 is sent on the dim address — whatever the direction of the flip —
/// and the computed toggle target is committed only if the send succeeded.
pub open spec fn toggle_ensures<S: Sender>(
    pre: ManagerView,
    post: ManagerView,
    sender_pre: Option<S>,
    sender_post: Option<S>,
    r: Result<bool, Error>,
) -> bool {
    &&& (sender_post is Some <==> sender_pre is Some)
    &&& !pre.is_initialized() ==> r == Ok::<bool, Error>(false) && post == pre && sender_post
        == sender_pre
    &&& pre.is_initialized() ==> {
        &&& sender_pre is None ==> r == Err::<bool, Error>(Error::NotConnected) && post == pre
            && sender_post == sender_pre
        &&& sender_pre is Some ==> {
            &&& r is Ok ==> r == Ok::<bool, Error>(true) && post == pre.with_dim(pre.dim_target())
                && port_sent(sender_post) == port_sent(sender_pre).push(
                (OutMessage { addr: dim_addr(), value: UNIT as int }),
            )
            &&& r is Err ==> post == pre && port_sent(sender_post) == port_sent(sender_pre)
        }
    }
}

/// Tracks device volume state and serializes read/modify/send operations
/// against it.
pub struct Manager<S: Sender, R: Receiver> {
    increment: i32,
    fine_increment: i32,
    max_volume: i32,
    volume: i32,
    volume_db: Option<String>,
    dim: i32,
    sender: Option<S>,
    receiver: Option<R>,
}

impl<S: Sender, R: Receiver> View for Manager<S, R> {
    type V = ManagerView;

    closed spec fn view(&self) -> ManagerView {
        ManagerView {
            increment: self.increment as int,
            fine_increment: self.fine_increment as int,
            max_volume: self.max_volume as int,
            volume: self.volume as int,
            volume_db: match self.volume_db {
                Some(s) => Some(s@),
                None => None,
            },
            dim: self.dim as int,
        }
    }
}

impl<S: Sender, R: Receiver> Default for Manager<S, R> {
    /// A manager with the default configuration (coarse step 0.02, fine
    /// step 0.01, ceiling 1.0), no state received yet, and no transports.
    fn default() -> (m: Self)
        ensures
            m@ == (ManagerView {
                increment: 20_000 as int,
                fine_increment: 10_000 as int,
                max_volume: UNIT as int,
                volume: UNKNOWN as int,
                volume_db: None,
                dim: UNKNOWN as int,
            }),
            m@.wf(),
            m.sender_port() is None,
            m.receiver_port() is None,
    {
        Manager {
            increment: 20_000,
            fine_increment: 10_000,
            max_volume: UNIT,
            volume: UNKNOWN,
            volume_db: None,
            dim: UNKNOWN,
            sender: None,
            receiver: None,
        }
    }
}

impl<S: Sender, R: Receiver> Manager<S, R> {
    /// The attached sender, if any.
    pub closed spec fn sender_port(&self) -> Option<S> {
        self.sender
    }

    /// The attached receiver, if any.
    pub closed spec fn receiver_port(&self) -> Option<R> {
        self.receiver
    }

    /// Attach the outbound transport.
    pub fn set_sender(&mut self, sender: S)
        ensures
            final(self)@ == old(self)@,
            final(self).sender_port() == Some(sender),
            final(self).receiver_port() == old(self).receiver_port(),
    {
        self.sender = Some(sender);
    }

    /// Attach the inbound transport.
    pub fn set_receiver(&mut self, receiver: R)
        ensures
            final(self)@ == old(self)@,
            final(self).sender_port() == old(self).sender_port(),
            final(self).receiver_port() == Some(receiver),
    {
        self.receiver = Some(receiver);
    }

    /// Configure the coarse step size: accepted exactly when greater than 0
    /// and at most a gain of 0.10.
    pub fn set_increment(&mut self, increment: i32) -> (r: Result<(), ConfigError>)
        ensures
            final(self).sender_port() == old(self).sender_port(),
            final(self).receiver_port() == old(self).receiver_port(),
            0 < increment <= MAX_INCREMENT ==> r == Ok::<(), ConfigError>(()) && final(self)@
                == (ManagerView { increment: increment as int, ..old(self)@ }),
            !(0 < increment <= MAX_INCREMENT) ==> r == Err::<(), ConfigError>(
                ConfigError::IncrementRange,
            ) && final(self)@ == old(self)@,
    {
        if increment <= 0 || increment > MAX_INCREMENT {
            return Err(ConfigError::IncrementRange);
        }
        self.increment = increment;
        Ok(())
    }

    /// Configure the fine step size: accepted exactly when greater than 0
    /// and at most a gain of 0.05.
    pub fn set_fine_increment(&mut self, fine_increment: i32) -> (r: Result<(), ConfigError>)
        ensures
            final(self).sender_port() == old(self).sender_port(),
            final(self).receiver_port() == old(self).receiver_port(),
            0 < fine_increment <= MAX_FINE_INCREMENT ==> r == Ok::<(), ConfigError>(())
                && final(self)@ == (ManagerView {
                    fine_increment: fine_increment as int,
                    ..old(self)@
                }),
            !(0 < fine_increment <= MAX_FINE_INCREMENT) ==> r == Err::<(), ConfigError>(
                ConfigError::FineIncrementRange,
            ) && final(self)@ == old(self)@,
    {
        if fine_increment <= 0 || fine_increment > MAX_FINE_INCREMENT {
            return Err(ConfigError::FineIncrementRange);
        }
        self.fine_increment = fine_increment;
        Ok(())
    }

    /// Configure the volume ceiling: accepted exactly when a gain between 0
    /// and 1.0.
    pub fn set_max_volume(&mut self, max_volume: i32) -> (r: Result<(), ConfigError>)
        ensures
            final(self).sender_port() == old(self).sender_port(),
            final(self).receiver_port() == old(self).receiver_port(),
            0 <= max_volume <= UNIT ==> r == Ok::<(), ConfigError>(()) && final(self)@
                == (ManagerView { max_volume: max_volume as int, ..old(self)@ }),
            !(0 <= max_volume <= UNIT) ==> r == Err::<(), ConfigError>(ConfigError::MaxVolumeRange)
                && final(self)@ == old(self)@,
    {
        if max_volume < 0 || max_volume > UNIT {
            return Err(ConfigError::MaxVolumeRange);
        }
        self.max_volume = max_volume;
        Ok(())
    }

    /// Snapshot of the stored volume, or [`UNKNOWN`] if not yet reported.
    pub fn volume(&self) -> (r: i32)
        ensures
            r as int == self@.volume,
    {
        self.volume
    }

    /// Snapshot of the decibel readout, or `None` if not yet reported.
    pub fn volume_db(&self) -> (r: Option<String>)
        ensures
            (r is Some <==> self@.volume_db is Some),
            r is Some ==> r.unwrap()@ == self@.volume_db.unwrap(),
    {
        match &self.volume_db {
            Some(s) => Some(s.clone()),
            None => None,
        }
    }

    /// Whether the device is currently dimmed.
    pub fn dimmed(&self) -> (r: bool)
        ensures
            r == (self@.dim == UNIT as int),
    {
        self.dim.roughly_eq(UNIT)
    }

    /// Whether all three state fields have been reported by the device.
    pub fn initialized(&self) -> (r: bool)
        ensures
            r == self@.is_initialized(),
    {
        self.volume.roughly_ne(UNKNOWN) && self.volume_db.is_some() && self.dim.roughly_ne(UNKNOWN)
    }

    /// Borrow the attached sender, e.g. to inspect a recording sender's log.
    pub fn sender(&self) -> (r: &Option<S>)
        ensures
            *r == self.sender_port(),
    {
        &self.sender
    }

    /// Send one message through the attached sender, or fail with
    /// [`Error::NotConnected`] if none is attached. State fields are never
    /// touched.
    fn send(&mut self, addr: &str, value: i32) -> (r: Result<(), Error>)
        ensures
            final(self)@ == old(self)@,
            final(self).receiver_port() == old(self).receiver_port(),
            (final(self).sender_port() is Some <==> old(self).sender_port() is Some),
            old(self).sender_port() is None ==> r == Err::<(), Error>(Error::NotConnected)
                && final(self).sender_port() == old(self).sender_port(),
            old(self).sender_port() is Some ==> {
                &&& r is Ok ==> port_sent(final(self).sender_port()) == port_sent(
                    old(self).sender_port(),
                ).push((OutMessage { addr: addr@, value: value as int }))
                &&& r is Err ==> port_sent(final(self).sender_port()) == port_sent(
                    old(self).sender_port(),
                )
            },
    {
        match self.sender.take() {
            None => Err(Error::NotConnected),
            Some(mut s) => {
                let r = s.send(addr, value);
                self.sender = Some(s);
                r
            },
        }
    }

    /// Ask the device to report its current state: sends one query (payload
    /// -1.0) on the volume address and one on the dim address. State fields
    /// are not touched; the answers arrive later through
    /// [`Manager::recieve_volume`].
    pub fn request_volume(&mut self) -> (r: Result<(), Error>)
        ensures
            final(self)@ == old(self)@,
            final(self).receiver_port() == old(self).receiver_port(),
            (final(self).sender_port() is Some <==> old(self).sender_port() is Some),
            old(self).sender_port() is None ==> r == Err::<(), Error>(Error::NotConnected),
            old(self).sender_port() is Some ==> {
                &&& r is Ok ==> port_sent(final(self).sender_port()) == port_sent(
                    old(self).sender_port(),
                ).push((OutMessage { addr: volume_addr(), value: UNKNOWN as int })).push(
                    (OutMessage { addr: dim_addr(), value: UNKNOWN as int }),
                )
                &&& r is Err ==> port_sent(final(self).sender_port()) == port_sent(
                    old(self).sender_port(),
                ) || port_sent(final(self).sender_port()) == port_sent(
                    old(self).sender_port(),
                ).push((OutMessage { addr: volume_addr(), value: UNKNOWN as int }))
            },
    {
        match self.send(volume_addr_str(), UNKNOWN) {
            Err(e) => Err(e),
            Ok(()) => self.send(dim_addr_str(), UNKNOWN),
        }
    }

    /// Block on the attached receiver for one envelope and apply it, as
    /// [`Manager::apply_packet`] does. Reports whether at least one state
    /// field was updated; fails with [`Error::NotConnected`] if no receiver
    /// is attached, and propagates the receiver's own failures unchanged.
    pub fn recieve_volume(&mut self) -> (r: Result<bool, Error>)
        ensures
            final(self).sender_port() == old(self).sender_port(),
            (final(self).receiver_port() is Some <==> old(self).receiver_port() is Some),
            old(self).receiver_port() is None ==> r == Err::<bool, Error>(Error::NotConnected),
            r is Err ==> final(self)@ == old(self)@,
            r is Ok ==> exists|p: Packet|
                final(self)@ == packet_apply(old(self)@, p) && r == Ok::<bool, Error>(
                    packet_updates(p),
                ),
            final(self)@.increment == old(self)@.increment,
            final(self)@.fine_increment == old(self)@.fine_increment,
            final(self)@.max_volume == old(self)@.max_volume,
    {
        let mut receiver = match self.receiver.take() {
            None => {
                return Err(Error::NotConnected);
            },
            Some(receiver) => receiver,
        };
        let incoming = receiver.receive();
        self.receiver = Some(receiver);
        match incoming {
            Err(e) => Err(e),
            Ok(packet) => {
                let ghost pre = self@;
                let updated = self.apply_packet(&packet);
                proof {
                    lemma_packet_apply_keeps_config(pre, packet);
                    assert(self@ == packet_apply(old(self)@, packet) && updated == packet_updates(
                        packet,
                    ));
                }
                Ok(updated)
            },
        }
    }

    /// Apply one inbound envelope to the state fields. Each message of a
    /// bundle is dispatched on its address in iteration order: a gain on the
    /// volume address replaces the stored volume, a text on the decibel
    /// address replaces the readout, a gain on the dim address replaces the
    /// dim state; anything else is ignored. A bare message outside a bundle
    /// yields no updates. Reports whether at least one field was updated.
    pub fn apply_packet(&mut self, packet: &Packet) -> (r: bool)
        ensures
            final(self)@ == packet_apply(old(self)@, *packet),
            r == packet_updates(*packet),
            final(self).sender_port() == old(self).sender_port(),
            final(self).receiver_port() == old(self).receiver_port(),
    {
        match packet {
            Packet::Message(_) => false,
            Packet::Bundle(items) => {
                let ghost pre = self@;
                let ghost sender_pre = self.sender_port();
                let ghost receiver_pre = self.receiver_port();
                let volume_address = volume_addr_str().to_owned();
                let decibels_address = volume_decibels_addr_str().to_owned();
                let dim_address = dim_addr_str().to_owned();
                let mut received = false;
                let n = items.len();
                for i in 0..n
                    invariant
                        n == items@.len(),
                        self@ == items_apply(pre, items@.take(i as int)),
                        received == items_update(items@.take(i as int)),
                        self.sender_port() == sender_pre,
                        self.receiver_port() == receiver_pre,
                        volume_address@ == volume_addr(),
                        decibels_address@ == volume_decibels_addr(),
                        dim_address@ == dim_addr(),
                {
                    proof {
                        assert(items@.take(i as int + 1) =~= items@.take(i as int).push(
                            items@[i as int],
                        ));
                        lemma_items_apply_push(pre, items@.take(i as int), items@[i as int]);
                        lemma_items_update_push(items@.take(i as int), items@[i as int]);
                    }
                    match &items[i] {
                        BundleItem::Message(m) => {
                            if m.addr == volume_address {
                                if m.args.len() > 0 {
                                    match &m.args[0] {
                                        Arg::Scalar(value) => {
                                            self.volume = *value;
                                            received = true;
                                        },
                                        _ => {},
                                    }
                                }
                            } else if m.addr == decibels_address {
                                if m.args.len() > 0 {
                                    match &m.args[0] {
                                        Arg::Text(text) => {
                                            self.volume_db = Some(text.clone());
                                            received = true;
                                        },
                                        _ => {},
                                    }
                                }
                            } else if m.addr == dim_address {
                                if m.args.len() > 0 {
                                    match &m.args[0] {
                                        Arg::Scalar(value) => {
                                            self.dim = *value;
                                            received = true;
                                        },
                                        _ => {},
                                    }
                                }
                            }
                        },
                        BundleItem::NestedBundle => {},
                    }
                }
                proof {
                    assert(items@.take(n as int) =~= items@);
                }
                received
            },
        }
    }

    /// Raise the volume by the coarse step, saturating at the ceiling.
    pub fn increase_volume(&mut self) -> (r: Result<bool, Error>)
        requires
            old(self)@.wf(),
        ensures
            final(self).receiver_port() == old(self).receiver_port(),
            adjust_ensures(
                old(self)@,
                final(self)@,
                old(self).sender_port(),
                final(self).sender_port(),
                r,
                step_up(old(self)@.volume, old(self)@.increment, old(self)@.max_volume),
            ),
    {
        let increment = self.increment;
        self.increase_volume_by_increment(increment)
    }

    /// Raise the volume by the fine step, saturating at the ceiling.
    pub fn increase_volume_fine(&mut self) -> (r: Result<bool, Error>)
        requires
            old(self)@.wf(),
        ensures
            final(self).receiver_port() == old(self).receiver_port(),
            adjust_ensures(
                old(self)@,
                final(self)@,
                old(self).sender_port(),
                final(self).sender_port(),
                r,
                step_up(old(self)@.volume, old(self)@.fine_increment, old(self)@.max_volume),
            ),
    {
        let increment = self.fine_increment;
        self.increase_volume_by_increment(increment)
    }

    /// Lower the volume by the coarse step, saturating at zero.
    pub fn decrease_volume(&mut self) -> (r: Result<bool, Error>)
        requires
            old(self)@.wf(),
        ensures
            final(self).receiver_port() == old(self).receiver_port(),
            adjust_ensures(
                old(self)@,
                final(self)@,
                old(self).sender_port(),
                final(self).sender_port(),
                r,
                step_down(old(self)@.volume, old(self)@.increment),
            ),
    {
        let increment = self.increment;
        self.decrease_volume_by_increment(increment)
    }

    /// Lower the volume by the fine step, saturating at zero.
    pub fn decrease_volume_fine(&mut self) -> (r: Result<bool, Error>)
        requires
            old(self)@.wf(),
        ensures
            final(self).receiver_port() == old(self).receiver_port(),
            adjust_ensures(
                old(self)@,
                final(self)@,
                old(self).sender_port(),
                final(self).sender_port(),
                r,
                step_down(old(self)@.volume, old(self)@.fine_increment),
            ),
    {
        let increment = self.fine_increment;
        self.decrease_volume_by_increment(increment)
    }

    /// Toggle the dim state. The outbound payload is always the literal
    /// trigger 1.0 — the device flips on receipt — while the committed
    /// local state is the computed toggle target.
    pub fn toggle_dim(&mut self) -> (r: Result<bool, Error>)
        ensures
            final(self).receiver_port() == old(self).receiver_port(),
            toggle_ensures(
                old(self)@,
                final(self)@,
                old(self).sender_port(),
                final(self).sender_port(),
                r,
            ),
    {
        if !self.initialized() {
            return Ok(false);
        }
        let new_dim: i32 = if self.dim.roughly_eq(UNIT) {
            0
        } else {
            UNIT
        };
        match self.send(dim_addr_str(), UNIT) {
            Err(e) => Err(e),
            Ok(()) => {
                self.dim = new_dim;
                Ok(true)
            },
        }
    }

    /// Perform the operation a hotkey intent stands for.
    pub fn handle_hotkey(&mut self, hotkey: HotKey) -> (r: Result<bool, Error>)
        requires
            old(self)@.wf(),
        ensures
            final(self).receiver_port() == old(self).receiver_port(),
            match hotkey {
                HotKey::VolumeUp => adjust_ensures(
                    old(self)@,
                    final(self)@,
                    old(self).sender_port(),
                    final(self).sender_port(),
                    r,
                    step_up(old(self)@.volume, old(self)@.increment, old(self)@.max_volume),
                ),
                HotKey::VolumeDown => adjust_ensures(
                    old(self)@,
                    final(self)@,
                    old(self).sender_port(),
                    final(self).sender_port(),
                    r,
                    step_down(old(self)@.volume, old(self)@.increment),
                ),
                HotKey::VolumeUpFine => adjust_ensures(
                    old(self)@,
                    final(self)@,
                    old(self).sender_port(),
                    final(self).sender_port(),
                    r,
                    step_up(old(self)@.volume, old(self)@.fine_increment, old(self)@.max_volume),
                ),
                HotKey::VolumeDownfine => adjust_ensures(
                    old(self)@,
                    final(self)@,
                    old(self).sender_port(),
                    final(self).sender_port(),
                    r,
                    step_down(old(self)@.volume, old(self)@.fine_increment),
                ),
                HotKey::Mute => toggle_ensures(
                    old(self)@,
                    final(self)@,
                    old(self).sender_port(),
                    final(self).sender_port(),
                    r,
                ),
            },
    {
        match hotkey {
            HotKey::VolumeUp => self.increase_volume(),
            HotKey::VolumeDown => self.decrease_volume(),
            HotKey::VolumeUpFine => self.increase_volume_fine(),
            HotKey::VolumeDownfine => self.decrease_volume_fine(),
            HotKey::Mute => self.toggle_dim(),
        }
    }

    /// Shared body of the two increase operations.
    fn increase_volume_by_increment(&mut self, increment: i32) -> (r: Result<bool, Error>)
        requires
            0 < increment,
        ensures
            final(self).receiver_port() == old(self).receiver_port(),
            adjust_ensures(
                old(self)@,
                final(self)@,
                old(self).sender_port(),
                final(self).sender_port(),
                r,
                step_up(old(self)@.volume, increment as int, old(self)@.max_volume),
            ),
    {
        if !self.initialized() {
            return Ok(false);
        }
        let current = self.volume;
        let widened: i64 = current as i64 + increment as i64;
        let new_volume: i32 = if widened >= self.max_volume as i64 {
            self.max_volume
        } else {
            widened as i32
        };
        if new_volume.roughly_eq(current) {
            return Ok(false);
        }
        match self.send(volume_addr_str(), new_volume) {
            Err(e) => Err(e),
            Ok(()) => {
                self.volume = new_volume;
                Ok(true)
            },
        }
    }

    /// Shared body of the two decrease operations.
    fn decrease_volume_by_increment(&mut self, increment: i32) -> (r: Result<bool, Error>)
        requires
            0 < increment,
        ensures
            final(self).receiver_port() == old(self).receiver_port(),
            adjust_ensures(
                old(self)@,
                final(self)@,
                old(self).sender_port(),
                final(self).sender_port(),
                r,
                step_down(old(self)@.volume, increment as int),
            ),
    {
        if !self.initialized() {
            return Ok(false);
        }
        let current = self.volume;
        let widened: i64 = current as i64 - increment as i64;
        let new_volume: i32 = if widened < 0 {
            0
        } else {
            widened as i32
        };
        if new_volume.roughly_eq(current) {
            return Ok(false);
        }
        match self.send(volume_addr_str(), new_volume) {
            Err(e) => Err(e),
            Ok(()) => {
                self.volume = new_volume;
                Ok(true)
            },
        }
    }
}

/// Applying a bundle item by item steps through `item_apply` once per item.
pub proof fn lemma_items_apply_push(v: ManagerView, items: Seq<BundleItem>, it: BundleItem)
    ensures
        items_apply(v, items.push(it)) == item_apply(items_apply(v, items), it),
    decreases items.len(),
{
    reveal_with_fuel(items_apply, 2);
    if items.len() == 0 {
        assert(items.push(it)[0] == it);
        assert(items.push(it).drop_first() =~= Seq::<BundleItem>::empty());
    } else {
        assert(items.push(it)[0] == items[0]);
        assert(items.push(it).drop_first() =~= items.drop_first().push(it));
        lemma_items_apply_push(item_apply(v, items[0]), items.drop_first(), it);
    }
}

/// A bundle updates some field exactly when one of its items does.
pub proof fn lemma_items_update_push(items: Seq<BundleItem>, it: BundleItem)
    ensures
        items_update(items.push(it)) == (items_update(items) || item_updates(it)),
    decreases items.len(),
{
    reveal_with_fuel(items_update, 2);
    if items.len() == 0 {
        assert(items.push(it)[0] == it);
        assert(items.push(it).drop_first() =~= Seq::<BundleItem>::empty());
    } else {
        assert(items.push(it)[0] == items[0]);
        assert(items.push(it).drop_first() =~= items.drop_first().push(it));
        lemma_items_update_push(items.drop_first(), it);
    }
}

/// Inbound envelopes never touch the configured step sizes or ceiling.
pub proof fn lemma_items_apply_keeps_config(v: ManagerView, items: Seq<BundleItem>)
    ensures
        items_apply(v, items).increment == v.increment,
        items_apply(v, items).fine_increment == v.fine_increment,
        items_apply(v, items).max_volume == v.max_volume,
        items_apply(v, items).wf() == v.wf(),
    decreases items.len(),
{
    if items.len() != 0 {
        lemma_items_apply_keeps_config(item_apply(v, items[0]), items.drop_first());
    }
}

/// Inbound envelopes never touch the configured step sizes or ceiling.
pub proof fn lemma_packet_apply_keeps_config(v: ManagerView, p: Packet)
    ensures
        packet_apply(v, p).increment == v.increment,
        packet_apply(v, p).fine_increment == v.fine_increment,
        packet_apply(v, p).max_volume == v.max_volume,
        packet_apply(v, p).wf() == v.wf(),
{
    match p {
        Packet::Message(_) => {},
        Packet::Bundle(items) => {
            lemma_items_apply_keeps_config(v, items@);
        },
    }
}

} // verus!
