use headset_battery::devices::HidDeviceInfo;
use headset_battery::reading::{
    device_label, reading_for_level, BatteryRead, BatteryReading, HidAction, HidEvent,
};

fn kingston() -> HidDeviceInfo {
    HidDeviceInfo {
        vendor_id: 0x0951,
        product_id: 0x1718,
        usage: 1,
        usage_page: 0xFF00,
        manufacturer: Some("Kingston".to_string()),
        product: Some("HyperX Cloud II Wireless".to_string()),
        path: b"/dev/hidraw3".to_vec(),
    }
}

fn hp_core() -> HidDeviceInfo {
    HidDeviceInfo {
        vendor_id: 0x03F0,
        product_id: 0x0995,
        usage: 1,
        usage_page: 0xFF00,
        manufacturer: Some("HP".to_string()),
        product: Some("HyperX Cloud II Core Wireless".to_string()),
        path: b"/dev/hidraw5".to_vec(),
    }
}

fn step(s: BatteryRead, e: HidEvent) -> (BatteryRead, HidAction) {
    assert!(s.expects(&e));
    s.step(e)
}

fn finished(a: HidAction) -> BatteryReading {
    match a {
        HidAction::Finish(r) => r,
        _ => panic!("the read should have finished"),
    }
}

#[test]
fn fail_reading() {
    let r = BatteryReading::fail("No headset device detected.", String::new());
    assert!(!r.success);
    assert_eq!(r.percent, 0);
    assert_eq!(r.message, "No headset device detected.");
    assert_eq!(r.label, "");
}

#[test]
fn levels() {
    let r = reading_for_level(0, "L".to_string());
    assert!(!r.success);
    assert_eq!(r.message, "Headset found but not active.");
    assert_eq!(r.label, "L");
    let r = reading_for_level(-1, "L".to_string());
    assert!(!r.success);
    assert_eq!(r.percent, 0);
    assert_eq!(r.message, "Battery N/A.");
    let r = reading_for_level(101, "L".to_string());
    assert_eq!(r.message, "Battery N/A.");
    let r = reading_for_level(100, "L".to_string());
    assert!(r.success);
    assert_eq!(r.percent, 100);
    assert_eq!(r.message, "");
    let r = reading_for_level(1, String::new());
    assert!(r.success);
    assert_eq!(r.percent, 1);
}

#[test]
fn label_is_trimmed() {
    assert_eq!(device_label(&kingston()), "Kingston HyperX Cloud II Wireless");
    let mut d = kingston();
    d.manufacturer = None;
    assert_eq!(device_label(&d), "HyperX Cloud II Wireless");
    d.product = None;
    assert_eq!(device_label(&d), "");
    d.manufacturer = Some("  HP\t".to_string());
    d.product = Some("Cloud\u{3000}".to_string());
    assert_eq!(device_label(&d), "HP\t Cloud");
}

#[test]
fn kingston_read_succeeds() {
    let (s, a) = BatteryRead::start();
    assert!(matches!(a, HidAction::Enumerate));
    let (s, a) = step(s, HidEvent::Enumerated(vec![kingston()]));
    match a {
        HidAction::Open(p) => assert_eq!(p, b"/dev/hidraw3".to_vec()),
        _ => panic!("expected open"),
    }
    let (s, a) = step(s, HidEvent::Opened);
    match a {
        HidAction::RequestInputReport(b) => {
            assert_eq!(b.len(), 160);
            assert_eq!(b[0], 6);
        },
        _ => panic!("expected an input report request"),
    }
    let (s, a) = step(s, HidEvent::InputReportRequested);
    match a {
        HidAction::Write(b) => {
            assert_eq!(b.len(), 52);
            assert_eq!(b[0], 0x06);
            assert_eq!(b[4], 0x9A);
            assert_eq!(b[15], 0x02);
        },
        _ => panic!("expected a write"),
    }
    let (s, a) = step(s, HidEvent::Written);
    match a {
        HidAction::Read { buffer, timeout_ms } => {
            assert_eq!(buffer, vec![0u8; 20]);
            assert_eq!(timeout_ms, 1000);
        },
        _ => panic!("expected a read"),
    }
    let mut answer = vec![0u8; 20];
    answer[7] = 64;
    let (s, a) = step(s, HidEvent::Received(answer));
    assert!(matches!(s, BatteryRead::Finished));
    let r = finished(a);
    assert!(r.success);
    assert_eq!(r.percent, 64);
    assert_eq!(r.message, "");
    assert_eq!(r.label, "Kingston HyperX Cloud II Wireless");
}

#[test]
fn hp_read_skips_priming() {
    let (s, _) = BatteryRead::start();
    let (s, _) = step(s, HidEvent::Enumerated(vec![hp_core()]));
    let (s, a) = step(s, HidEvent::Opened);
    match a {
        HidAction::Write(b) => {
            assert_eq!(b[0], 0x66);
            assert_eq!(b[1], 0x89);
        },
        _ => panic!("expected a write"),
    }
    let (s, _) = step(s, HidEvent::Written);
    let mut answer = vec![0u8; 20];
    answer[4] = 37;
    let (_, a) = step(s, HidEvent::Received(answer));
    let r = finished(a);
    assert!(r.success);
    assert_eq!(r.percent, 37);
    assert_eq!(r.label, "HP HyperX Cloud II Core Wireless");
}

#[test]
fn init_failure() {
    let (s, _) = BatteryRead::start();
    let (s, a) = step(s, HidEvent::EnumerationFailed("no backend".to_string()));
    assert!(matches!(s, BatteryRead::Finished));
    let r = finished(a);
    assert!(!r.success);
    assert_eq!(r.message, "HID init failed: no backend");
    assert_eq!(r.label, "");
}

#[test]
fn no_device() {
    let (s, _) = BatteryRead::start();
    let mut other = kingston();
    other.vendor_id = 0x1234;
    let (_, a) = step(s, HidEvent::Enumerated(vec![other]));
    let r = finished(a);
    assert_eq!(r.message, "No headset device detected.");
    assert_eq!(r.label, "");
}

#[test]
fn open_failure_keeps_label() {
    let (s, _) = BatteryRead::start();
    let (s, _) = step(s, HidEvent::Enumerated(vec![hp_core()]));
    let (_, a) = step(s, HidEvent::OpenFailed);
    let r = finished(a);
    assert!(!r.success);
    assert_eq!(r.message, "Could not connect to headset.");
    assert_eq!(r.label, "HP HyperX Cloud II Core Wireless");
}

#[test]
fn write_failure_is_no_level() {
    let (s, _) = BatteryRead::start();
    let (s, _) = step(s, HidEvent::Enumerated(vec![hp_core()]));
    let (s, _) = step(s, HidEvent::Opened);
    let (_, a) = step(s, HidEvent::WriteFailed);
    let r = finished(a);
    assert_eq!(r.message, "Battery N/A.");
    assert_eq!(r.percent, 0);
}

#[test]
fn zero_level_is_inactive_and_large_level_invalid() {
    for (byte, msg) in [(0u8, "Headset found but not active."), (101u8, "Battery N/A.")] {
        let (s, _) = BatteryRead::start();
        let (s, _) = step(s, HidEvent::Enumerated(vec![hp_core()]));
        let (s, _) = step(s, HidEvent::Opened);
        let (s, _) = step(s, HidEvent::Written);
        let mut answer = vec![0u8; 20];
        answer[4] = byte;
        let (_, a) = step(s, HidEvent::Received(answer));
        let r = finished(a);
        assert!(!r.success);
        assert_eq!(r.message, msg);
    }
}

#[test]
fn answer_has_the_buffer_length() {
    let (s, _) = BatteryRead::start();
    let (s, _) = step(s, HidEvent::Enumerated(vec![hp_core()]));
    let (s, _) = step(s, HidEvent::Opened);
    let (s, _) = step(s, HidEvent::Written);
    // an answer is read into the 20-byte buffer of the read action, so a
    // shorter one is no answer to it
    assert!(!s.expects(&HidEvent::Received(vec![50, 50])));
    assert!(s.expects(&HidEvent::Received(vec![0u8; 20])));
}

#[test]
fn phases_expect_their_events() {
    let (s, _) = BatteryRead::start();
    assert!(s.expects(&HidEvent::Enumerated(Vec::new())));
    assert!(!s.expects(&HidEvent::Opened));
    assert!(!BatteryRead::Finished.expects(&HidEvent::Written));
}
