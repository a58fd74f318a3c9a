//! Behaviour of the volume manager: initialization gating, clamping,
//! no-change suppression, dim toggling, inbound bundles, and transport
//! failures.

use totalmix_volume_control::errors::Error;
use totalmix_volume_control::hotkeys::HotKey;
use totalmix_volume_control::manager::Manager;
use totalmix_volume_control::osc::{Arg, BundleItem, Message, Packet};
use totalmix_volume_control::recording::{FailingSender, RecordingSender, ScriptedReceiver};
use totalmix_volume_control::units::{UNIT, UNKNOWN};

const VOLUME_ADDR: &str = "/1/mastervolume";
const DECIBELS_ADDR: &str = "/1/mastervolumeVal";
const DIM_ADDR: &str = "/1/mainDim";

fn volume_message(value: i32) -> BundleItem {
    BundleItem::Message(Message {
        addr: VOLUME_ADDR.to_string(),
        args: vec![Arg::Scalar(value)],
    })
}

fn decibels_message(text: &str) -> BundleItem {
    BundleItem::Message(Message {
        addr: DECIBELS_ADDR.to_string(),
        args: vec![Arg::Text(text.to_string())],
    })
}

fn dim_message(value: i32) -> BundleItem {
    BundleItem::Message(Message {
        addr: DIM_ADDR.to_string(),
        args: vec![Arg::Scalar(value)],
    })
}

fn full_bundle(volume: i32, decibels: &str, dim: i32) -> Packet {
    Packet::Bundle(vec![
        volume_message(volume),
        decibels_message(decibels),
        dim_message(dim),
    ])
}

/// A manager that has received a full state report and carries a recording
/// sender.
fn initialized_manager(volume: i32, dim: i32) -> Manager<RecordingSender, ScriptedReceiver> {
    let mut manager: Manager<RecordingSender, ScriptedReceiver> = Manager::default();
    manager.apply_packet(&full_bundle(volume, "-12.0 dB", dim));
    assert!(manager.initialized());
    manager.set_sender(RecordingSender::new());
    manager
}

fn sent_log(manager: &Manager<RecordingSender, ScriptedReceiver>) -> Vec<(String, i32)> {
    manager
        .sender()
        .as_ref()
        .expect("sender should be attached")
        .messages()
        .iter()
        .map(|record| (record.addr.clone(), record.value))
        .collect()
}

#[test]
fn default_state_is_unknown() {
    let manager: Manager<RecordingSender, ScriptedReceiver> = Manager::default();
    assert_eq!(manager.volume(), UNKNOWN);
    assert!(manager.volume_db().is_none());
    assert!(!manager.dimmed());
    assert!(!manager.initialized());
}

#[test]
fn initialized_after_all_three_in_any_order() {
    let orders: Vec<[BundleItem; 3]> = vec![
        [volume_message(500_000), decibels_message("-6.0 dB"), dim_message(0)],
        [decibels_message("-6.0 dB"), dim_message(0), volume_message(500_000)],
        [dim_message(0), volume_message(500_000), decibels_message("-6.0 dB")],
    ];
    for order in orders {
        let mut manager: Manager<RecordingSender, ScriptedReceiver> = Manager::default();
        let mut items = order.into_iter();
        manager.apply_packet(&Packet::Bundle(vec![items.next().unwrap()]));
        assert!(!manager.initialized());
        manager.apply_packet(&Packet::Bundle(vec![items.next().unwrap()]));
        assert!(!manager.initialized());
        manager.apply_packet(&Packet::Bundle(vec![items.next().unwrap()]));
        assert!(manager.initialized());
    }
}

#[test]
fn uninitialized_mutations_are_noops_and_send_nothing() {
    let mut manager: Manager<RecordingSender, ScriptedReceiver> = Manager::default();
    manager.set_sender(RecordingSender::new());
    assert_eq!(manager.increase_volume(), Ok(false));
    assert_eq!(manager.decrease_volume(), Ok(false));
    assert_eq!(manager.increase_volume_fine(), Ok(false));
    assert_eq!(manager.decrease_volume_fine(), Ok(false));
    assert_eq!(manager.toggle_dim(), Ok(false));
    assert!(sent_log(&manager).is_empty());
    assert_eq!(manager.volume(), UNKNOWN);
    assert!(!manager.dimmed());
}

#[test]
fn increase_clamps_to_max_and_reports_change() {
    // Coarse step 0.02, volume 0.99, ceiling 1.0: the increase clamps to
    // 1.0, reports a change, and sends exactly that value.
    let mut manager = initialized_manager(990_000, 0);
    assert_eq!(manager.increase_volume(), Ok(true));
    assert_eq!(manager.volume(), UNIT);
    assert_eq!(sent_log(&manager), vec![(VOLUME_ADDR.to_string(), UNIT)]);

    // A second increase is already at the ceiling: no change, no send.
    assert_eq!(manager.increase_volume(), Ok(false));
    assert_eq!(manager.volume(), UNIT);
    assert_eq!(sent_log(&manager).len(), 1);
}

#[test]
fn increase_steps_by_increment() {
    let mut manager = initialized_manager(500_000, 0);
    assert_eq!(manager.increase_volume(), Ok(true));
    assert_eq!(manager.volume(), 520_000);
    assert_eq!(manager.increase_volume_fine(), Ok(true));
    assert_eq!(manager.volume(), 530_000);
    assert_eq!(
        sent_log(&manager),
        vec![
            (VOLUME_ADDR.to_string(), 520_000),
            (VOLUME_ADDR.to_string(), 530_000),
        ]
    );
}

#[test]
fn decrease_clamps_to_zero_and_reports_change() {
    let mut manager = initialized_manager(10_000, 0);
    assert_eq!(manager.decrease_volume(), Ok(true));
    assert_eq!(manager.volume(), 0);
    assert_eq!(sent_log(&manager), vec![(VOLUME_ADDR.to_string(), 0)]);

    // Already at the floor: no change, no send.
    assert_eq!(manager.decrease_volume(), Ok(false));
    assert_eq!(manager.decrease_volume_fine(), Ok(false));
    assert_eq!(manager.volume(), 0);
    assert_eq!(sent_log(&manager).len(), 1);
}

#[test]
fn decrease_steps_by_increment() {
    let mut manager = initialized_manager(500_000, 0);
    assert_eq!(manager.decrease_volume(), Ok(true));
    assert_eq!(manager.volume(), 480_000);
    assert_eq!(manager.decrease_volume_fine(), Ok(true));
    assert_eq!(manager.volume(), 470_000);
}

#[test]
fn increase_respects_configured_max() {
    let mut manager = initialized_manager(880_000, 0);
    manager.set_max_volume(900_000).unwrap();
    assert_eq!(manager.increase_volume(), Ok(true));
    assert_eq!(manager.volume(), 900_000);
    assert_eq!(manager.increase_volume(), Ok(false));
}

#[test]
fn toggle_dim_always_sends_trigger_payload() {
    let mut manager = initialized_manager(500_000, 0);
    assert!(!manager.dimmed());

    // Dimming sends the 1.0 trigger and commits dim = 1.0.
    assert_eq!(manager.toggle_dim(), Ok(true));
    assert!(manager.dimmed());
    assert_eq!(sent_log(&manager), vec![(DIM_ADDR.to_string(), UNIT)]);

    // Undimming sends the same literal 1.0 trigger and commits dim = 0.0.
    assert_eq!(manager.toggle_dim(), Ok(true));
    assert!(!manager.dimmed());
    assert_eq!(
        sent_log(&manager),
        vec![(DIM_ADDR.to_string(), UNIT), (DIM_ADDR.to_string(), UNIT)]
    );
}

#[test]
fn apply_full_bundle_updates_all_fields() {
    let mut manager: Manager<RecordingSender, ScriptedReceiver> = Manager::default();
    let updated = manager.apply_packet(&full_bundle(750_000, "-2.5 dB", UNIT));
    assert!(updated);
    assert_eq!(manager.volume(), 750_000);
    assert_eq!(manager.volume_db(), Some("-2.5 dB".to_string()));
    assert!(manager.dimmed());
    assert!(manager.initialized());
}

#[test]
fn apply_bundle_with_unrecognized_addresses_changes_nothing() {
    let mut manager: Manager<RecordingSender, ScriptedReceiver> = Manager::default();
    let packet = Packet::Bundle(vec![
        BundleItem::Message(Message {
            addr: "/1/someOtherControl".to_string(),
            args: vec![Arg::Scalar(100)],
        }),
        BundleItem::Message(Message {
            addr: "/2/mastervolume".to_string(),
            args: vec![Arg::Scalar(100)],
        }),
        BundleItem::NestedBundle,
    ]);
    assert!(!manager.apply_packet(&packet));
    assert_eq!(manager.volume(), UNKNOWN);
    assert!(manager.volume_db().is_none());
    assert!(!manager.initialized());
}

#[test]
fn apply_bare_message_changes_nothing() {
    let mut manager: Manager<RecordingSender, ScriptedReceiver> = Manager::default();
    let packet = Packet::Message(Message {
        addr: VOLUME_ADDR.to_string(),
        args: vec![Arg::Scalar(500_000)],
    });
    assert!(!manager.apply_packet(&packet));
    assert_eq!(manager.volume(), UNKNOWN);
}

#[test]
fn apply_ignores_arguments_of_wrong_type() {
    let mut manager: Manager<RecordingSender, ScriptedReceiver> = Manager::default();
    let packet = Packet::Bundle(vec![
        BundleItem::Message(Message {
            addr: VOLUME_ADDR.to_string(),
            args: vec![Arg::Text("0.5".to_string())],
        }),
        BundleItem::Message(Message {
            addr: DECIBELS_ADDR.to_string(),
            args: vec![Arg::Scalar(500_000)],
        }),
        BundleItem::Message(Message { addr: DIM_ADDR.to_string(), args: vec![] }),
        BundleItem::Message(Message { addr: DIM_ADDR.to_string(), args: vec![Arg::Other] }),
    ]);
    assert!(!manager.apply_packet(&packet));
    assert!(!manager.initialized());
}

#[test]
fn apply_takes_last_value_per_address() {
    let mut manager: Manager<RecordingSender, ScriptedReceiver> = Manager::default();
    let packet = Packet::Bundle(vec![volume_message(100_000), volume_message(200_000)]);
    assert!(manager.apply_packet(&packet));
    assert_eq!(manager.volume(), 200_000);
}

#[test]
fn request_volume_sends_queries_on_both_addresses() {
    let mut manager: Manager<RecordingSender, ScriptedReceiver> = Manager::default();
    manager.set_sender(RecordingSender::new());
    assert_eq!(manager.request_volume(), Ok(()));
    assert_eq!(
        sent_log(&manager),
        vec![
            (VOLUME_ADDR.to_string(), UNKNOWN),
            (DIM_ADDR.to_string(), UNKNOWN),
        ]
    );
    // The request itself does not touch state.
    assert_eq!(manager.volume(), UNKNOWN);
    assert!(!manager.initialized());
}

#[test]
fn round_trip_request_then_receive_initializes() {
    let mut manager: Manager<RecordingSender, ScriptedReceiver> = Manager::default();
    manager.set_sender(RecordingSender::new());
    manager.set_receiver(ScriptedReceiver::new(vec![full_bundle(640_000, "-4.0 dB", 0)]));

    assert!(!manager.initialized());
    assert_eq!(manager.request_volume(), Ok(()));
    assert_eq!(manager.recieve_volume(), Ok(true));
    assert!(manager.initialized());
    assert_eq!(manager.volume(), 640_000);
    assert_eq!(manager.volume_db(), Some("-4.0 dB".to_string()));
    assert!(!manager.dimmed());
}

#[test]
fn recieve_volume_without_receiver_is_not_connected() {
    let mut manager: Manager<RecordingSender, ScriptedReceiver> = Manager::default();
    assert_eq!(manager.recieve_volume(), Err(Error::NotConnected));
}

#[test]
fn recieve_volume_propagates_receiver_failure() {
    let mut manager: Manager<RecordingSender, ScriptedReceiver> = Manager::default();
    manager.set_receiver(ScriptedReceiver::new(vec![]));
    assert!(matches!(manager.recieve_volume(), Err(Error::Transport(_))));
}

#[test]
fn recieve_volume_reports_false_for_empty_updates() {
    let mut manager: Manager<RecordingSender, ScriptedReceiver> = Manager::default();
    manager.set_receiver(ScriptedReceiver::new(vec![
        Packet::Bundle(vec![]),
        Packet::Message(Message {
            addr: VOLUME_ADDR.to_string(),
            args: vec![Arg::Scalar(1)],
        }),
    ]));
    assert_eq!(manager.recieve_volume(), Ok(false));
    assert_eq!(manager.recieve_volume(), Ok(false));
    assert_eq!(manager.volume(), UNKNOWN);
}

#[test]
fn mutations_without_sender_are_not_connected() {
    let mut manager: Manager<RecordingSender, ScriptedReceiver> = Manager::default();
    manager.apply_packet(&full_bundle(500_000, "-6.0 dB", 0));
    assert_eq!(manager.increase_volume(), Err(Error::NotConnected));
    assert_eq!(manager.decrease_volume(), Err(Error::NotConnected));
    assert_eq!(manager.toggle_dim(), Err(Error::NotConnected));
    // The failed operations left state untouched.
    assert_eq!(manager.volume(), 500_000);
    assert!(!manager.dimmed());
}

#[test]
fn failed_send_leaves_state_unchanged() {
    let mut manager: Manager<FailingSender, ScriptedReceiver> = Manager::default();
    manager.apply_packet(&full_bundle(500_000, "-6.0 dB", 0));
    manager.set_sender(FailingSender);

    assert!(matches!(manager.increase_volume(), Err(Error::Transport(_))));
    assert_eq!(manager.volume(), 500_000);

    assert!(matches!(manager.toggle_dim(), Err(Error::Transport(_))));
    assert!(!manager.dimmed());
}

#[test]
fn handle_hotkey_dispatches_to_operations() {
    let mut manager = initialized_manager(500_000, 0);
    assert_eq!(manager.handle_hotkey(HotKey::VolumeUp), Ok(true));
    assert_eq!(manager.volume(), 520_000);
    assert_eq!(manager.handle_hotkey(HotKey::VolumeDown), Ok(true));
    assert_eq!(manager.volume(), 500_000);
    assert_eq!(manager.handle_hotkey(HotKey::VolumeUpFine), Ok(true));
    assert_eq!(manager.volume(), 510_000);
    assert_eq!(manager.handle_hotkey(HotKey::VolumeDownfine), Ok(true));
    assert_eq!(manager.volume(), 500_000);
    assert_eq!(manager.handle_hotkey(HotKey::Mute), Ok(true));
    assert!(manager.dimmed());
}

#[test]
fn received_volume_above_ceiling_clamps_on_next_increase() {
    // The device can report a volume above the configured ceiling; the next
    // increase saturates at the ceiling.
    let mut manager = initialized_manager(UNIT, 0);
    manager.set_max_volume(900_000).unwrap();
    assert_eq!(manager.increase_volume(), Ok(true));
    assert_eq!(manager.volume(), 900_000);
}
