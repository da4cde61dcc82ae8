use bluetooth_tray::device::{Address, BTDevice, BTDeviceStatus};
use bluetooth_tray::state::{build_state, BTState, DeviceQuery};

fn failed_query(bytes: [u8; 6]) -> DeviceQuery {
    DeviceQuery {
        address: Address { bytes },
        name: None,
        is_paired: None,
        is_trusted: None,
        is_connected: None,
        battery_percentage: None,
    }
}

#[test]
fn rebuild_with_failed_queries_uses_defaults() {
    let queries = vec![
        failed_query([0xAA, 0xBB, 0xCC, 0xDD, 0xEE, 0xFF]),
        failed_query([0x11, 0x22, 0x33, 0x44, 0x55, 0x66]),
    ];
    let state = build_state(Some(false), &queries).expect("power query succeeded");
    assert!(!state.on);
    assert_eq!(state.devices.len(), 2);
    assert_eq!(state.devices[0].name, "11:22:33:44:55:66");
    assert_eq!(state.devices[1].name, "AA:BB:CC:DD:EE:FF");
    for d in &state.devices {
        assert_eq!(d.status, BTDeviceStatus::Disconnected);
        assert!(!d.is_paired);
        assert!(!d.is_trusted);
        assert_eq!(d.battery_percentage, None);
        assert!(!d.is_on());
    }
}

#[test]
fn rebuild_fails_only_on_power_query() {
    let queries = vec![failed_query([1, 2, 3, 4, 5, 6])];
    assert!(build_state(None, &queries).is_none());
    let empty: Vec<DeviceQuery> = Vec::new();
    let state = build_state(Some(true), &empty).unwrap();
    assert!(state.on);
    assert!(state.devices.is_empty());
}

#[test]
fn connected_device_with_battery() {
    let queries = vec![DeviceQuery {
        address: Address { bytes: [0xAA, 0xBB, 0xCC, 0xDD, 0xEE, 0xFF] },
        name: None,
        is_paired: None,
        is_trusted: None,
        is_connected: Some(true),
        battery_percentage: Some(42),
    }];
    let state = build_state(Some(true), &queries).unwrap();
    assert!(state.on);
    assert_eq!(state.devices.len(), 1);
    let d = &state.devices[0];
    assert_eq!(d.status, BTDeviceStatus::Connected);
    assert_eq!(d.battery_percentage, Some(42));
    assert!(d.is_on());
}

#[test]
fn empty_name_falls_back_to_address() {
    let mut q = failed_query([0, 1, 2, 3, 4, 5]);
    q.name = Some(String::new());
    assert_eq!(BTDevice::from_device(&q).name, "00:01:02:03:04:05");
    q.name = Some("Speaker".to_string());
    assert_eq!(BTDevice::from_device(&q).name, "Speaker");
}

#[test]
fn status_is_connected_then_paired_then_disconnected() {
    let mut q = failed_query([0, 1, 2, 3, 4, 5]);
    q.is_paired = Some(true);
    q.is_trusted = Some(true);
    let d = BTDevice::from_device(&q);
    assert_eq!(d.status, BTDeviceStatus::Paired);
    assert!(d.is_paired && d.is_trusted);
    q.is_connected = Some(true);
    assert_eq!(BTDevice::from_device(&q).status, BTDeviceStatus::Connected);
    q.is_connected = Some(false);
    q.is_paired = Some(false);
    assert_eq!(BTDevice::from_device(&q).status, BTDeviceStatus::Disconnected);
}

#[test]
fn rebuild_sorts_devices() {
    let mut a = failed_query([0, 0, 0, 0, 0, 1]);
    a.name = Some("zed".to_string());
    let mut b = failed_query([0, 0, 0, 0, 0, 2]);
    b.name = Some("Alpha".to_string());
    let mut c = failed_query([0, 0, 0, 0, 0, 3]);
    c.name = Some("mid".to_string());
    c.is_paired = Some(true);
    let state = build_state(Some(true), &vec![a, b, c]).unwrap();
    let names: Vec<&str> = state.devices.iter().map(|d| d.name.as_str()).collect();
    assert_eq!(names, vec!["mid", "Alpha", "zed"]);
}

#[test]
fn default_snapshot_is_off_and_empty() {
    let s = BTState::default();
    assert!(!s.on);
    assert!(s.devices.is_empty());
}
