use headset_battery::protocol::{
    battery_level, battery_request, headset_model, input_report_buffer, request_for,
    request_for_model, HeadsetModel, ANSWER_LEN, INPUT_REPORT_LEN, REPORT_LEN,
};

fn report_with(bytes: &[(usize, u8)]) -> Vec<u8> {
    let mut r = vec![0u8; 52];
    for &(i, b) in bytes {
        r[i] = b;
    }
    r
}

#[test]
fn model_from_upper_case_names() {
    assert_eq!(headset_model("HP", "HYPERX CLOUD II CORE WIRELESS"), HeadsetModel::HpCloudIICore);
    assert_eq!(headset_model("HP INC.", "HYPERX CLOUD II WIRELESS"), HeadsetModel::HpCloudIIWireless);
    assert_eq!(
        headset_model("HP", "HYPERX CLOUD STINGER 2 WIRELESS"),
        HeadsetModel::HpCloudIIWireless
    );
    assert_eq!(headset_model("HP", "HYPERX CLOUD ALPHA WIRELESS"), HeadsetModel::HpCloudAlphaWireless);
    assert_eq!(headset_model("HP", "SOMETHING ELSE"), HeadsetModel::HpOther);
    assert_eq!(headset_model("KINGSTON", "HYPERX CLOUD II WIRELESS"), HeadsetModel::Kingston);
    assert_eq!(headset_model("", ""), HeadsetModel::Kingston);
    // the comparison is case-sensitive at this level
    assert_eq!(headset_model("hp", "cloud ii core"), HeadsetModel::Kingston);
}

#[test]
fn hp_cloud_ii_core_request() {
    let r = request_for("HP", "HYPERX CLOUD II CORE WIRELESS");
    assert!(!r.prime_input_report);
    assert_eq!(r.report, report_with(&[(0, 0x66), (1, 0x89)]));
    assert_eq!(r.battery_index, 4);
}

#[test]
fn hp_cloud_ii_wireless_request() {
    let r = request_for("HP", "HYPERX CLOUD II WIRELESS");
    assert!(!r.prime_input_report);
    assert_eq!(r.report, report_with(&[(0, 0x06), (1, 0xFF), (2, 0xBB), (3, 0x02)]));
    assert_eq!(r.battery_index, 7);
}

#[test]
fn hp_cloud_alpha_request() {
    let r = request_for("HP", "HYPERX CLOUD ALPHA WIRELESS");
    assert!(!r.prime_input_report);
    assert_eq!(r.report, report_with(&[(0, 0x21), (1, 0xBB), (2, 0x0B)]));
    assert_eq!(r.battery_index, 3);
}

#[test]
fn hp_unknown_product_request() {
    let r = request_for_model(HeadsetModel::HpOther);
    assert!(!r.prime_input_report);
    assert_eq!(r.report, vec![0u8; 52]);
    assert_eq!(r.battery_index, 7);
}

#[test]
fn kingston_request() {
    let r = request_for("KINGSTON", "HYPERX CLOUD II WIRELESS");
    assert!(r.prime_input_report);
    assert_eq!(
        r.report,
        report_with(&[
            (0, 0x06),
            (2, 0x02),
            (4, 0x9A),
            (7, 0x68),
            (8, 0x4A),
            (9, 0x8E),
            (10, 0x0A),
            (14, 0xBB),
            (15, 0x02)
        ])
    );
    assert_eq!(r.battery_index, 7);
}

#[test]
fn battery_request_compares_in_upper_case() {
    let r = battery_request("hp", "HyperX Cloud II Core Wireless");
    assert_eq!(r.battery_index, 4);
    assert_eq!(r.report[0], 0x66);
    let r = battery_request("Hp Inc.", "HyperX Cloud ﬆinger 2 Wireless");
    assert_eq!(r.battery_index, 7);
    assert_eq!(r.report[1], 0xFF);
    let r = battery_request("Kingston", "HyperX Cloud II Wireless");
    assert!(r.prime_input_report);
}

#[test]
fn report_sizes() {
    assert_eq!(REPORT_LEN, 52);
    assert_eq!(ANSWER_LEN, 20);
    let b = input_report_buffer();
    assert_eq!(b.len(), INPUT_REPORT_LEN);
    assert_eq!(b.len(), 160);
    assert_eq!(b[0], 6);
    assert!(b[1..].iter().all(|&x| x == 0));
}

#[test]
fn level_from_answer() {
    let mut answer = [0u8; 20];
    answer[7] = 85;
    answer[3] = 200;
    assert_eq!(battery_level(&answer, 7), 85);
    assert_eq!(battery_level(&answer, 3), 200);
    assert_eq!(battery_level(&answer, 0), 0);
    assert_eq!(battery_level(&answer, 20), -1);
    assert_eq!(battery_level(&[], 0), -1);
}
