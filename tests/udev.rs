use stratisd_core::udev::{EventType, UdevEngineDevice, UdevEngineEvent};

fn prop(k: &str, v: &str) -> (Vec<u8>, Vec<u8>) {
    (k.as_bytes().to_vec(), v.as_bytes().to_vec())
}

#[test]
fn device_without_node_path() {
    let d = UdevEngineDevice::new(false, None, None, Vec::new());
    assert!(d.devnode().is_none());
    assert!(d.devnum().is_none());
    assert!(!d.is_initialized());
    assert!(d.property_value(b"ID_FS_TYPE").is_none());
}

#[test]
fn property_lookup_finds_exactly_the_given_keys() {
    let props = vec![
        prop("ID_FS_TYPE", "stratis"),
        prop("DEVNAME", "/dev/sdb"),
        prop("ID_FS_UUID", "abc"),
    ];
    let d = UdevEngineDevice::new(true, Some("/dev/sdb".to_string()), Some(2064), props);
    assert!(d.is_initialized());
    assert_eq!(d.devnode(), Some("/dev/sdb"));
    assert_eq!(d.devnum(), Some(2064));
    assert_eq!(d.property_value(b"ID_FS_TYPE"), Some(&b"stratis"[..]));
    assert_eq!(d.property_value(b"DEVNAME"), Some(&b"/dev/sdb"[..]));
    assert_eq!(d.property_value(b"ID_FS_UUID"), Some(&b"abc"[..]));
    assert!(d.property_value(b"ID_FS").is_none());
    assert!(d.property_value(b"ID_FS_TYPEX").is_none());
    assert!(d.property_value(b"").is_none());
}

#[test]
fn later_property_replaces_earlier() {
    let d = UdevEngineDevice::new(true, None, None, vec![prop("A", "1"), prop("A", "2")]);
    assert_eq!(d.property_value(b"A"), Some(&b"2"[..]));
}

#[test]
fn event_keeps_kind_and_device() {
    let d = UdevEngineDevice::new(true, Some("/dev/sdc".to_string()), Some(1), vec![prop("K", "V")]);
    let e = UdevEngineEvent::new(EventType::Remove, d);
    assert_eq!(e.event_type(), EventType::Remove);
    assert_eq!(e.device().devnode(), Some("/dev/sdc"));
    assert_eq!(e.device().property_value(b"K"), Some(&b"V"[..]));
}
