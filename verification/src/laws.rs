//! Properties of the volume rules, stated and proved once.
//!
//! Each lemma records one behavioural guarantee of the manager in terms of
//! the specification functions its contracts are written with, so the
//! guarantees can be read — and are checked — independently of any one
//! operation's postcondition.

use vstd::prelude::*;

use crate::manager::{
    item_apply, item_updates, items_apply, items_update, msg_apply, msg_updates, packet_apply,
    packet_updates, step_down, step_up, ManagerView,
};
use crate::osc::{dim_addr, volume_addr, volume_decibels_addr, BundleItem, Message, Packet};
use crate::units::UNKNOWN;

verus! {

/// A volume increase never drives the stored volume above the ceiling:
/// the step that would exceed it clamps exactly to the ceiling and still
/// changes the volume when it was below the ceiling, while a step taken at
/// the ceiling changes nothing — which the operations report as `false`,
/// sending nothing.
pub proof fn lemma_increase_clamps(volume: int, increment: int, max_volume: int)
    requires
        0 < increment,
    ensures
        step_up(volume, increment, max_volume) <= max_volume,
        step_up(volume, increment, max_volume) >= volume || step_up(
            volume,
            increment,
            max_volume,
        ) == max_volume,
        volume == max_volume ==> step_up(volume, increment, max_volume) == volume,
        volume < max_volume ==> step_up(volume, increment, max_volume) != volume,
{
}

/// A volume decrease never drives the stored volume below zero: the step
/// that would cross it clamps exactly to zero and still changes the volume
/// when it was above zero, while a step taken at zero changes nothing —
/// which the operations report as `false`, sending nothing.
pub proof fn lemma_decrease_clamps(volume: int, increment: int)
    requires
        0 < increment,
    ensures
        step_down(volume, increment) >= 0,
        step_down(volume, increment) <= volume || step_down(volume, increment) == 0,
        volume == 0 ==> step_down(volume, increment) == volume,
        volume > 0 ==> step_down(volume, increment) != volume,
{
}

/// The manager counts as initialized exactly when all three state fields
/// have been reported, in whatever order they arrived: while any one of
/// them still holds its unknown marker, it does not.
pub proof fn lemma_initialized_requires_all(v: ManagerView)
    ensures
        v.volume == UNKNOWN as int ==> !v.is_initialized(),
        v.volume_db is None ==> !v.is_initialized(),
        v.dim == UNKNOWN as int ==> !v.is_initialized(),
        v.volume != UNKNOWN as int && v.volume_db is Some && v.dim != UNKNOWN as int
            ==> v.is_initialized(),
{
}

/// A message that updates no field leaves the state exactly as it was.
pub proof fn lemma_message_without_update_is_noop(v: ManagerView, m: Message)
    requires
        !msg_updates(m),
    ensures
        msg_apply(v, m) == v,
{
}

/// A bundle none of whose items updates a field — unrecognized addresses,
/// arguments of the wrong type, nested bundles — leaves the state exactly
/// as it was.
pub proof fn lemma_bundle_without_updates_is_noop(v: ManagerView, items: Seq<BundleItem>)
    requires
        !items_update(items),
    ensures
        items_apply(v, items) == v,
    decreases items.len(),
{
    if items.len() != 0 {
        assert(!item_updates(items[0]));
        assert(item_apply(v, items[0]) == v);
        lemma_bundle_without_updates_is_noop(v, items.drop_first());
    }
}

/// A bare message outside a bundle never updates state, whatever its
/// address and arguments: only bundles carry updates.
pub proof fn lemma_bare_message_is_noop(v: ManagerView, m: Message)
    ensures
        packet_apply(v, Packet::Message(m)) == v,
        !packet_updates(Packet::Message(m)),
{
}

/// A bundle that carries one well-typed message per known address — as the
/// device sends in answer to a state request — updates all three fields
/// and leaves the manager initialized, whatever its state was before.
pub proof fn lemma_full_bundle_initializes(
    v: ManagerView,
    volume_msg: Message,
    decibels_msg: Message,
    dim_msg: Message,
)
    requires
        volume_msg.addr@ == volume_addr(),
        volume_msg.args@.len() > 0,
        volume_msg.args@[0] is Scalar,
        volume_msg.args@[0]->Scalar_0 != UNKNOWN,
        decibels_msg.addr@ == volume_decibels_addr(),
        decibels_msg.args@.len() > 0,
        decibels_msg.args@[0] is Text,
        dim_msg.addr@ == dim_addr(),
        dim_msg.args@.len() > 0,
        dim_msg.args@[0] is Scalar,
        dim_msg.args@[0]->Scalar_0 != UNKNOWN,
    ensures
        ({
            let items = seq![
                BundleItem::Message(volume_msg),
                BundleItem::Message(decibels_msg),
                BundleItem::Message(dim_msg),
            ];
            &&& items_apply(v, items).is_initialized()
            &&& items_apply(v, items).volume == volume_msg.args@[0]->Scalar_0 as int
            &&& items_apply(v, items).volume_db == Some(decibels_msg.args@[0]->Text_0@)
            &&& items_apply(v, items).dim == dim_msg.args@[0]->Scalar_0 as int
            &&& items_update(items)
        }),
{
    reveal_strlit("/1/mastervolume");
    reveal_strlit("/1/mastervolumeVal");
    reveal_strlit("/1/mainDim");
    reveal_with_fuel(items_apply, 4);
    reveal_with_fuel(items_update, 4);
    let items = seq![
        BundleItem::Message(volume_msg),
        BundleItem::Message(decibels_msg),
        BundleItem::Message(dim_msg),
    ];
    assert(items.drop_first() =~= seq![
        BundleItem::Message(decibels_msg),
        BundleItem::Message(dim_msg),
    ]);
    assert(items.drop_first().drop_first() =~= seq![BundleItem::Message(dim_msg)]);
    assert(items.drop_first().drop_first().drop_first() =~= Seq::<BundleItem>::empty());
    // The three addresses have distinct lengths, so no message is caught by
    // an earlier dispatch branch than its own.
    assert(volume_addr().len() == 15);
    assert(volume_decibels_addr().len() == 18);
    assert(dim_addr().len() == 10);
    let after_volume = msg_apply(v, volume_msg);
    assert(after_volume == v.with_volume(volume_msg.args@[0]->Scalar_0 as int));
    let after_decibels = msg_apply(after_volume, decibels_msg);
    assert(after_decibels == after_volume.with_volume_db(decibels_msg.args@[0]->Text_0@));
    assert(msg_apply(after_decibels, dim_msg) == after_decibels.with_dim(
        dim_msg.args@[0]->Scalar_0 as int,
    ));
}

} // verus!
