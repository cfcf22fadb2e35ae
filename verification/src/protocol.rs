//! The battery query of each supported headset: which output report is written,
//! whether an input report is requested first, and where the level is read.

use vstd::prelude::*;
use crate::text::{contains, contains_text};

verus! {

/// Length of the output report written to the headset.
pub const REPORT_LEN: usize = 52;

/// Length of the buffer that the answer is read into.
pub const ANSWER_LEN: usize = 20;

/// Length of the input report requested from a Kingston headset before writing.
pub const INPUT_REPORT_LEN: usize = 160;

/// Report id of that input report.
pub const INPUT_REPORT_ID: u8 = 6;

/// How long a read of the answer waits, in milliseconds.
pub const READ_TIMEOUT_MS: i32 = 1000;

/// What `str::to_uppercase` gives for the characters `s`.
pub uninterp spec fn uppercase(s: Seq<char>) -> Seq<char>;

/// Calls `str::to_uppercase`, the Unicode upper-case mapping of the text. The
/// contract claims only that the result is a function of the text alone; the
/// Unicode case tables that decide it are left unsaid.
#[verifier::external_body]
pub(crate) fn to_uppercase_text(s: &str) -> (r: String)
    ensures
        r@ == uppercase(s@),
{
    s.to_uppercase()
}

/// The headset families that differ in their battery query.
#[derive(Clone, Copy, PartialEq, Eq, Structural, Debug)]
pub enum HeadsetModel {
    HpCloudIICore,
    HpCloudIIWireless,
    HpCloudAlphaWireless,
    HpOther,
    Kingston,
}

/// The family of a headset, from its upper-cased manufacturer and product names.
pub open spec fn model_of(manufacturer: Seq<char>, product: Seq<char>) -> HeadsetModel {
    if contains(manufacturer, "HP"@) {
        if contains(product, "CLOUD II CORE"@) {
            HeadsetModel::HpCloudIICore
        } else if contains(product, "CLOUD II WIRELESS"@) || contains(
            product,
            "CLOUD STINGER 2 WIRELESS"@,
        ) {
            HeadsetModel::HpCloudIIWireless
        } else if contains(product, "CLOUD ALPHA WIRELESS"@) {
            HeadsetModel::HpCloudAlphaWireless
        } else {
            HeadsetModel::HpOther
        }
    } else {
        HeadsetModel::Kingston
    }
}

/// Byte `i` of the output report that asks a headset of family `m` for its level.
pub open spec fn report_byte(m: HeadsetModel, i: int) -> u8 {
    match m {
        HeadsetModel::HpCloudIICore => if i == 0 {
            0x66u8
        } else if i == 1 {
            0x89u8
        } else {
            0u8
        },
        HeadsetModel::HpCloudIIWireless => if i == 0 {
            0x06u8
        } else if i == 1 {
            0xFFu8
        } else if i == 2 {
            0xBBu8
        } else if i == 3 {
            0x02u8
        } else {
            0u8
        },
        HeadsetModel::HpCloudAlphaWireless => if i == 0 {
            0x21u8
        } else if i == 1 {
            0xBBu8
        } else if i == 2 {
            0x0Bu8
        } else {
            0u8
        },
        HeadsetModel::HpOther => 0u8,
        HeadsetModel::Kingston => if i == 0 {
            0x06u8
        } else if i == 2 {
            0x02u8
        } else if i == 4 {
            0x9Au8
        } else if i == 7 {
            0x68u8
        } else if i == 8 {
            0x4Au8
        } else if i == 9 {
            0x8Eu8
        } else if i == 10 {
            0x0Au8
        } else if i == 14 {
            0xBBu8
        } else if i == 15 {
            0x02u8
        } else {
            0u8
        },
    }
}

/// The output report that asks a headset of family `m` for its level.
pub open spec fn report_bytes(m: HeadsetModel) -> Seq<u8> {
    Seq::new(REPORT_LEN as nat, |i: int| report_byte(m, i))
}

/// Where in the answer a headset of family `m` puts its level.
pub open spec fn level_index(m: HeadsetModel) -> usize {
    match m {
        HeadsetModel::HpCloudIICore => 4,
        HeadsetModel::HpCloudAlphaWireless => 3,
        _ => 7,
    }
}

/// The input report requested from a Kingston headset before the write:
/// all zero but its report id.
pub open spec fn input_report_bytes() -> Seq<u8> {
    Seq::new(INPUT_REPORT_LEN as nat, |i: int| if i == 0 { INPUT_REPORT_ID } else { 0u8 })
}

/// The battery query for one headset.
pub struct BatteryRequest {
    /// Whether an input report is requested before the output report is written.
    pub prime_input_report: bool,
    /// The output report.
    pub report: Vec<u8>,
    /// Where the level stands in the answer.
    pub battery_index: usize,
}

/// `r` is the query of a headset of family `m`.
pub open spec fn is_request_for(r: BatteryRequest, m: HeadsetModel) -> bool {
    &&& r.prime_input_report == (m == HeadsetModel::Kingston)
    &&& r.report@ == report_bytes(m)
    &&& r.battery_index == level_index(m)
}

fn zeros(n: usize) -> (r: Vec<u8>)
    ensures
        r@ == Seq::new(n as nat, |i: int| 0u8),
{
    let mut r: Vec<u8> = Vec::new();
    let mut i: usize = 0;
    while i < n
        invariant
            i <= n,
            r@ == Seq::new(i as nat, |j: int| 0u8),
        decreases n - i,
    {
        r.push(0u8);
        i += 1;
        assert(r@ =~= Seq::new(i as nat, |j: int| 0u8));
    }
    r
}

/// The family of a headset from its upper-cased manufacturer and product names.
pub fn headset_model(manufacturer: &str, product: &str) -> (m: HeadsetModel)
    ensures
        m == model_of(manufacturer@, product@),
{
    if contains_text(manufacturer, "HP") {
        if contains_text(product, "CLOUD II CORE") {
            HeadsetModel::HpCloudIICore
        } else if contains_text(product, "CLOUD II WIRELESS") || contains_text(
            product,
            "CLOUD STINGER 2 WIRELESS",
        ) {
            HeadsetModel::HpCloudIIWireless
        } else if contains_text(product, "CLOUD ALPHA WIRELESS") {
            HeadsetModel::HpCloudAlphaWireless
        } else {
            HeadsetModel::HpOther
        }
    } else {
        HeadsetModel::Kingston
    }
}

/// The battery query of a headset of family `m`.
pub fn request_for_model(m: HeadsetModel) -> (r: BatteryRequest)
    ensures
        is_request_for(r, m),
{
    let mut report = zeros(REPORT_LEN);
    let battery_index: usize;
    match m {
        HeadsetModel::HpCloudIICore => {
            report.set(0, 0x66);
            report.set(1, 0x89);
            battery_index = 4;
        },
        HeadsetModel::HpCloudIIWireless => {
            report.set(0, 0x06);
            report.set(1, 0xFF);
            report.set(2, 0xBB);
            report.set(3, 0x02);
            battery_index = 7;
        },
        HeadsetModel::HpCloudAlphaWireless => {
            report.set(0, 0x21);
            report.set(1, 0xBB);
            report.set(2, 0x0B);
            battery_index = 3;
        },
        HeadsetModel::HpOther => {
            battery_index = 7;
        },
        HeadsetModel::Kingston => {
            report.set(0, 0x06);
            report.set(2, 0x02);
            report.set(4, 0x9A);
            report.set(7, 0x68);
            report.set(8, 0x4A);
            report.set(9, 0x8E);
            report.set(10, 0x0A);
            report.set(14, 0xBB);
            report.set(15, 0x02);
            battery_index = 7;
        },
    }
    assert(report@ =~= report_bytes(m));
    BatteryRequest {
        prime_input_report: match m {
            HeadsetModel::Kingston => true,
            _ => false,
        },
        report,
        battery_index,
    }
}

/// The battery query for a headset with these upper-cased manufacturer and
/// product names.
pub fn request_for(manufacturer_upper: &str, product_upper: &str) -> (r: BatteryRequest)
    ensures
        is_request_for(r, model_of(manufacturer_upper@, product_upper@)),
{
    let m = headset_model(manufacturer_upper, product_upper);
    request_for_model(m)
}

/// The battery query for a headset with these manufacturer and product names,
/// which are compared in upper case.
pub fn battery_request(manufacturer: &str, product: &str) -> (r: BatteryRequest)
    ensures
        is_request_for(r, model_of(uppercase(manufacturer@), uppercase(product@))),
{
    let man = to_uppercase_text(manufacturer);
    let prod = to_uppercase_text(product);
    request_for(man.as_str(), prod.as_str())
}

/// The input report to request from a Kingston headset before the write.
pub fn input_report_buffer() -> (r: Vec<u8>)
    ensures
        r@ == input_report_bytes(),
{
    let mut r = zeros(INPUT_REPORT_LEN);
    r.set(0, INPUT_REPORT_ID);
    assert(r@ =~= input_report_bytes());
    r
}

/// The buffer an answer is read into: zero bytes, as many as an answer holds.
pub open spec fn answer_bytes() -> Seq<u8> {
    Seq::new(ANSWER_LEN as nat, |i: int| 0u8)
}

/// The buffer an answer is read into: zero bytes, as many as an answer holds.
pub fn answer_buffer() -> (r: Vec<u8>)
    ensures
        r@ == answer_bytes(),
{
    zeros(ANSWER_LEN)
}

/// The level read from an answer: the byte at `index`, or -1 when the answer is
/// too short to hold it.
pub open spec fn level_in(answer: Seq<u8>, index: usize) -> int {
    if index < answer.len() {
        answer[index as int] as int
    } else {
        -1
    }
}

/// The level read from an answer: the byte at `index`, or -1 when the answer is
/// too short to hold it.
pub fn battery_level(answer: &[u8], index: usize) -> (r: i32)
    ensures
        r == level_in(answer@, index),
{
    if index >= answer.len() {
        -1
    } else {
        answer[index] as i32
    }
}

} // verus!
