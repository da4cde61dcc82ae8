use bluetooth_tray::device::{Address, BTDevice, BTDeviceStatus};
use bluetooth_tray::events::{Action, AppEvent, BTEvent, Event, TrayEvent, MAILBOX_CAPACITY};
use bluetooth_tray::reconciler::{Outgoing, Reconciler};
use bluetooth_tray::state::BTState;
use bluetooth_tray::watcher::{plan_request, HardwareStep};

fn snapshot(on: bool, names: &[&str]) -> BTState {
    let devices = names
        .iter()
        .enumerate()
        .map(|(i, n)| BTDevice {
            name: n.to_string(),
            address: Address { bytes: [0, 0, 0, 0, 0, i as u8] },
            status: BTDeviceStatus::Paired,
            is_paired: true,
            is_trusted: true,
            battery_percentage: None,
        })
        .collect();
    BTState { on, devices }
}

fn published(out: Option<Outgoing>) -> BTState {
    match out {
        Some(Outgoing::ToTray(TrayEvent::Update(s))) => s,
        other => panic!("expected a published snapshot, got {:?}", other),
    }
}

#[test]
fn new_reconciler_holds_default_snapshot() {
    let r = Reconciler::new();
    assert!(!r.state.on);
    assert!(r.state.devices.is_empty());
    assert!(r.running);
}

#[test]
fn toggle_power_while_powered() {
    let mut r = Reconciler::new();
    published(r.handle(AppEvent::Response(snapshot(true, &["Mouse"]))));
    let out = r.handle(AppEvent::Request(Action::ToggleBluetooth));
    let (action, state) = match out {
        Some(Outgoing::ToWatcher(BTEvent::Request { action, state })) => (action, state),
        other => panic!("expected a request to the watcher, got {:?}", other),
    };
    assert!(matches!(action, Action::ToggleBluetooth));
    assert!(state.on);
    assert_eq!(state.devices.len(), 1);
    let plan = plan_request(&action, &state);
    assert_eq!(plan[0], HardwareStep::SetPowered(false));
    assert_eq!(plan[1], HardwareStep::KillSwitch(true));
    assert!(plan.contains(&HardwareStep::Rebuild));
    assert!(plan.contains(&HardwareStep::RebuildAfter(5_000)));
    // The immediate rebuild, then the delayed one, are both published.
    let now = published(r.handle(AppEvent::Response(snapshot(false, &["Mouse"]))));
    assert!(!now.on);
    let later = published(r.handle(AppEvent::Response(snapshot(false, &[]))));
    assert!(later.devices.is_empty());
    assert!(!r.state.on);
    assert!(r.state.devices.is_empty());
}

#[test]
fn last_snapshot_wins() {
    let mut r = Reconciler::new();
    let from_intent = published(r.handle(AppEvent::Response(snapshot(true, &["A"]))));
    assert_eq!(from_intent.devices.len(), 1);
    let from_notification = published(r.handle(AppEvent::Response(snapshot(true, &["A", "B"]))));
    assert_eq!(from_notification.devices.len(), 2);
    assert_eq!(r.state.devices.len(), 2);
    published(r.handle(AppEvent::Response(snapshot(false, &["C"]))));
    assert!(!r.state.on);
    assert_eq!(r.state.devices[0].name, "C");
}

#[test]
fn device_intent_carries_a_copy_of_the_device() {
    let mut r = Reconciler::new();
    let s = snapshot(true, &["Speaker"]);
    let d = s.devices[0].clone();
    r.handle(AppEvent::Response(s));
    match r.handle(AppEvent::Request(Action::ToggleDevice(d))) {
        Some(Outgoing::ToWatcher(BTEvent::Request { action: Action::ToggleDevice(x), state })) => {
            assert_eq!(x.name, "Speaker");
            assert_eq!(state.devices.len(), 1);
        }
        other => panic!("unexpected {:?}", other),
    }
}

#[test]
fn shutdown_refuses_new_intents() {
    let mut r = Reconciler::new();
    assert!(r.on_event(Event::Update));
    assert!(r.running);
    assert!(!r.on_event(Event::Shutdown));
    assert!(!r.running);
    assert!(r.handle(AppEvent::Request(Action::Scan)).is_none());
    let s = published(r.handle(AppEvent::Response(snapshot(true, &[]))));
    assert!(s.on);
}

#[test]
fn full_mailbox_holds_the_sender_back() {
    let (tx, mut rx) = tokio::sync::mpsc::channel::<u32>(MAILBOX_CAPACITY);
    for i in 0..MAILBOX_CAPACITY as u32 {
        tx.try_send(i).unwrap();
    }
    assert!(matches!(
        tx.try_send(99),
        Err(tokio::sync::mpsc::error::TrySendError::Full(99))
    ));
    assert_eq!(rx.try_recv().unwrap(), 0);
    tx.try_send(32).unwrap();
    let rest: Vec<u32> = std::iter::from_fn(|| rx.try_recv().ok()).collect();
    assert_eq!(rest, (1..=32).collect::<Vec<u32>>());
}
