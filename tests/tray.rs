use bluetooth_tray::device::{Address, BTDevice, BTDeviceStatus};
use bluetooth_tray::events::Action;
use bluetooth_tray::state::BTState;
use bluetooth_tray::tray::{
    device_label, icon_from_png, icon_from_rgba, rgba_to_argb, EntryKind, IconKind, Tray,
};

fn device(name: &str, status: BTDeviceStatus, battery: Option<u8>) -> BTDevice {
    BTDevice {
        name: name.to_string(),
        address: Address { bytes: [9, 8, 7, 6, 5, 4] },
        status,
        is_paired: true,
        is_trusted: true,
        battery_percentage: battery,
    }
}

#[test]
fn label_shows_battery_level() {
    assert_eq!(device_label(&device("Buds", BTDeviceStatus::Connected, Some(42))), "Buds (42)%");
    assert_eq!(device_label(&device("Buds", BTDeviceStatus::Connected, Some(0))), "Buds (0)%");
    assert_eq!(device_label(&device("Buds", BTDeviceStatus::Connected, Some(100))), "Buds (100)%");
    assert_eq!(device_label(&device("Buds", BTDeviceStatus::Connected, None)), "Buds");
}

#[test]
fn icon_follows_power() {
    let mut t = Tray::new();
    assert_eq!(t.icon(), IconKind::Off);
    t.update(BTState { on: true, devices: Vec::new() });
    assert_eq!(t.icon(), IconKind::On);
}

#[test]
fn top_menu_has_power_entry() {
    let mut t = Tray::new();
    t.update(BTState { on: true, devices: Vec::new() });
    let m = t.menu();
    assert_eq!(m.len(), 3);
    assert_eq!(m[0].kind, EntryKind::Checkmark);
    assert_eq!(m[0].label, "Bluetooth");
    assert!(m[0].checked);
    assert!(matches!(m[0].activation, Some(Action::ToggleBluetooth)));
    assert_eq!(m[1].kind, EntryKind::Separator);
    assert_eq!(m[2].kind, EntryKind::SubMenu);
    assert_eq!(m[2].label, "Devices");
    assert!(m[2].activation.is_none());
    assert_eq!(m[2].submenu.len(), 3);
    assert_eq!(m[2].submenu[0].label, "My Devices");
    assert_eq!(m[2].submenu[2].label, "No devices found");
}

#[test]
fn top_menu_nests_device_entries() {
    let mut t = Tray::new();
    t.update(BTState { on: false, devices: vec![device("Pad", BTDeviceStatus::Connected, Some(5))] });
    let m = t.menu();
    assert!(!m[0].checked);
    let sub = &m[2].submenu;
    assert_eq!(sub.len(), 3);
    assert_eq!(sub[2].label, "Pad (5)%");
    assert!(sub[2].checked);
}

#[test]
fn device_menu_without_devices() {
    let t = Tray::new();
    let m = t.device_menu();
    assert_eq!(m.len(), 3);
    assert_eq!(m[0].label, "My Devices");
    assert!(!m[0].enabled);
    assert_eq!(m[1].kind, EntryKind::Separator);
    assert_eq!(m[2].label, "No devices found");
    assert!(!m[2].enabled);
    assert!(m[2].activation.is_none());
}

#[test]
fn device_menu_lists_devices() {
    let mut t = Tray::new();
    t.update(BTState {
        on: true,
        devices: vec![
            device("Keyboard", BTDeviceStatus::Paired, None),
            device("Buds", BTDeviceStatus::Connected, Some(7)),
        ],
    });
    let m = t.device_menu();
    assert_eq!(m.len(), 4);
    assert_eq!(m[2].label, "Keyboard");
    assert!(!m[2].checked);
    assert_eq!(m[3].label, "Buds (7)%");
    assert!(m[3].checked);
    match &m[3].activation {
        Some(Action::ToggleDevice(d)) => assert_eq!(d.name, "Buds"),
        other => panic!("unexpected {:?}", other),
    }
    // The entry keeps its own copy once the snapshot is replaced.
    t.update(BTState::default());
    match &m[2].activation {
        Some(Action::ToggleDevice(d)) => assert_eq!(d.name, "Keyboard"),
        other => panic!("unexpected {:?}", other),
    }
}

#[test]
fn pixels_rotate_to_argb() {
    let mut data = vec![1, 2, 3, 4, 5, 6, 7, 8];
    rgba_to_argb(&mut data);
    assert_eq!(data, vec![4, 1, 2, 3, 8, 5, 6, 7]);
}

#[test]
fn icon_from_rgba_checks_shape() {
    let icon = icon_from_rgba(1, 2, vec![10, 20, 30, 40, 50, 60, 70, 80]).unwrap();
    assert_eq!((icon.width, icon.height), (1, 2));
    assert_eq!(icon.data, vec![40, 10, 20, 30, 80, 50, 60, 70]);
    assert!(icon_from_rgba(1, 1, vec![1, 2, 3]).is_none());
    assert!(icon_from_rgba(u32::MAX, 1, vec![1, 2, 3, 4]).is_none());
}

#[test]
fn icon_from_png_decodes_and_rotates() {
    let img = image::RgbaImage::from_raw(2, 1, vec![10, 20, 30, 40, 50, 60, 70, 80]).unwrap();
    let mut bytes: Vec<u8> = Vec::new();
    img.write_to(&mut std::io::Cursor::new(&mut bytes), image::ImageFormat::Png).unwrap();
    let icon = icon_from_png(&bytes).unwrap();
    assert_eq!((icon.width, icon.height), (2, 1));
    assert_eq!(icon.data, vec![40, 10, 20, 30, 80, 50, 60, 70]);
}

#[test]
fn icon_from_png_rejects_garbage() {
    assert!(icon_from_png(&[1, 2, 3, 4]).is_none());
    assert!(icon_from_png(&[]).is_none());
}
