use headset_battery::devices::{
    format_hex_id, list_devices, select_device, supported_devices, HidDeviceInfo,
};

fn dev(vid: u16, pid: u16, usage: u16, usage_page: u16, path: &str) -> HidDeviceInfo {
    HidDeviceInfo {
        vendor_id: vid,
        product_id: pid,
        usage,
        usage_page,
        manufacturer: Some("HP".to_string()),
        product: Some("HyperX Cloud II Wireless".to_string()),
        path: path.as_bytes().to_vec(),
    }
}

#[test]
fn supported_devices_in_priority_order() {
    let pairs = supported_devices();
    assert_eq!(
        pairs,
        vec![
            (0x0951, 0x1718),
            (0x03F0, 0x018B),
            (0x03F0, 0x0995),
            (0x03F0, 0x098D),
            (0x03F0, 0x0696),
            (0x03F0, 0x0D93),
        ]
    );
}

#[test]
fn select_device_none_when_nothing_supported() {
    let ds = vec![dev(0x1234, 0x5678, 1, 1, "a"), dev(0x03F0, 0x0001, 1, 1, "b")];
    assert_eq!(select_device(&ds), None);
    assert_eq!(select_device(&Vec::new()), None);
}

#[test]
fn select_device_prefers_earlier_pair() {
    // An HP Cloud II Wireless (second pair) and a Kingston (first pair) are present:
    // the Kingston wins although it is listed later.
    let ds = vec![
        dev(0x03F0, 0x018B, 9, 9, "hp"),
        dev(0x0951, 0x1718, 1, 1, "kingston"),
    ];
    assert_eq!(select_device(&ds), Some(1));
}

#[test]
fn select_device_highest_usage_then_usage_page() {
    let ds = vec![
        dev(0x03F0, 0x0995, 1, 0xFF00, "a"),
        dev(0x03F0, 0x0995, 2, 1, "b"),
        dev(0x03F0, 0x0995, 2, 0x000C, "c"),
        dev(0x03F0, 0x0995, 1, 0xFFFF, "d"),
    ];
    assert_eq!(select_device(&ds), Some(2));
}

#[test]
fn select_device_last_among_equals() {
    let ds = vec![
        dev(0x03F0, 0x0D93, 5, 5, "a"),
        dev(0x03F0, 0x0D93, 5, 5, "b"),
        dev(0x1111, 0x2222, 9, 9, "c"),
    ];
    assert_eq!(select_device(&ds), Some(1));
}

#[test]
fn hex_ids_are_zero_padded_upper_case() {
    assert_eq!(format_hex_id(0x03F0), "0x03F0");
    assert_eq!(format_hex_id(0x0951), "0x0951");
    assert_eq!(format_hex_id(0), "0x0000");
    assert_eq!(format_hex_id(0xABCD), "0xABCD");
    assert_eq!(format_hex_id(0x0D93), format!("0x{:04X}", 0x0D93u16));
}

#[test]
fn list_devices_empty_when_enumeration_failed() {
    assert!(list_devices(None).is_empty());
}

#[test]
fn list_devices_groups_by_pair_in_priority_order() {
    let mut unnamed = dev(0x0951, 0x1718, 3, 0xFF00, "k1");
    unnamed.manufacturer = None;
    unnamed.product = None;
    let ds = vec![
        dev(0x03F0, 0x0D93, 1, 0x000C, "stinger"),
        dev(0x1234, 0x0001, 1, 1, "other"),
        unnamed,
        dev(0x03F0, 0x018B, 2, 0xFF13, "hp"),
        dev(0x0951, 0x1718, 4, 1, "k2"),
    ];
    let rows = list_devices(Some(ds));
    let paths: Vec<&str> = rows.iter().map(|r| r.path.as_str()).collect();
    assert_eq!(paths, vec!["k1", "k2", "hp", "stinger"]);
    assert_eq!(rows[0].vid, "0x0951");
    assert_eq!(rows[0].pid, "0x1718");
    assert_eq!(rows[0].usage, 3);
    assert_eq!(rows[0].usage_page, 0xFF00);
    assert_eq!(rows[0].manufacturer, "");
    assert_eq!(rows[0].product, "");
    assert_eq!(rows[2].manufacturer, "HP");
    assert_eq!(rows[2].product, "HyperX Cloud II Wireless");
    assert_eq!(rows[3].vid, "0x03F0");
    assert_eq!(rows[3].pid, "0x0D93");
}

#[test]
fn list_devices_path_is_lossy_utf8() {
    let mut d = dev(0x03F0, 0x0696, 1, 1, "");
    d.path = vec![b'/', b'd', 0xFF, b'x'];
    let rows = list_devices(Some(vec![d]));
    assert_eq!(rows.len(), 1);
    assert_eq!(rows[0].path, "/d\u{FFFD}x");
}

#[test]
fn chosen_headset_heads_the_table() {
    let make = || {
        vec![
            dev(0x03F0, 0x0D93, 1, 1, "stinger"),
            dev(0x03F0, 0x018B, 1, 1, "hp-a"),
            dev(0x03F0, 0x018B, 2, 1, "hp-b"),
        ]
    };
    let ds = make();
    let chosen = select_device(&ds).unwrap();
    assert_eq!(chosen, 2);
    let rows = list_devices(Some(make()));
    assert!(!rows.is_empty());
    assert_eq!(rows[0].vid, format!("0x{:04X}", ds[chosen].vendor_id));
    assert_eq!(rows[0].pid, format!("0x{:04X}", ds[chosen].product_id));
    let none = vec![dev(0x1234, 0x0001, 1, 1, "x")];
    assert_eq!(select_device(&none), None);
    assert!(list_devices(Some(none)).is_empty());
}
