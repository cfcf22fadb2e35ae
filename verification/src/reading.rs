//! A battery reading and the steps that lead to it: enumerate the HID
//! interfaces, open the chosen headset, ask it for its level and read the answer.

use vstd::prelude::*;
use crate::devices::{
    clone_or_empty, has_pair, is_first_present, is_preferred, select_device, supported_pairs,
    text_or_empty, HidDeviceInfo,
};
use crate::protocol::{
    battery_level, battery_request, input_report_buffer, input_report_bytes, is_request_for,
    model_of, uppercase, answer_buffer, answer_bytes, level_index, report_bytes, BatteryRequest,
    HeadsetModel, ANSWER_LEN, INPUT_REPORT_ID, INPUT_REPORT_LEN, READ_TIMEOUT_MS,
};
use crate::text::{chars_of, trim, trim_is_idempotent, trimmed};

verus! {

/// The outcome of one attempt to read the headset's battery.
pub struct BatteryReading {
    pub success: bool,
    pub percent: i32,
    pub message: String,
    pub label: String,
}

impl BatteryReading {
    /// A failed reading with this message and device label.
    pub fn fail(message: &str, label: String) -> (r: Self)
        ensures
            !r.success,
            r.percent == 0,
            r.message@ == message@,
            r.label == label,
    {
        BatteryReading { success: false, percent: 0, message: String::from_str(message), label }
    }
}

/// `r` is a failed reading with this message and label.
pub open spec fn is_failure(r: BatteryReading, message: Seq<char>, label: Seq<char>) -> bool {
    &&& !r.success
    &&& r.percent == 0
    &&& r.message@ == message
    &&& r.label@ == label
}

/// `r` is the reading for the level `level` reported by the headset labelled `label`:
/// 0 means the headset is not active, a value outside 0..=100 is no valid level,
/// anything else is the charge in percent.
pub open spec fn is_reading_of_level(r: BatteryReading, level: int, label: Seq<char>) -> bool {
    if level == 0 {
        is_failure(r, "Headset found but not active."@, label)
    } else if level < 0 || level > 100 {
        is_failure(r, "Battery N/A."@, label)
    } else {
        &&& r.success
        &&& r.percent == level
        &&& r.message@ == Seq::<char>::empty()
        &&& r.label@ == label
    }
}

/// A reading holds together: a success carries a percentage from 1 to 100 and no
/// message, a failure carries 0.
pub open spec fn is_consistent(r: BatteryReading) -> bool {
    &&& r.success ==> 1 <= r.percent <= 100 && r.message@.len() == 0
    &&& !r.success ==> r.percent == 0
}

/// The reading for the level reported by the headset labelled `label`.
pub fn reading_for_level(level: i32, label: String) -> (r: BatteryReading)
    ensures
        is_reading_of_level(r, level as int, label@),
        is_consistent(r),
        r.label == label,
        r.success <==> 1 <= level <= 100,
        r.success ==> r.percent == level,
{
    if level == 0 {
        return BatteryReading::fail("Headset found but not active.", label);
    }
    if level < 0 || level > 100 {
        return BatteryReading::fail("Battery N/A.", label);
    }
    BatteryReading { success: true, percent: level, message: String::new(), label }
}

/// A reading for a level names the headset it was given, succeeds exactly for a
/// level from 1 to 100 and then reports that level, and otherwise reports 0 with
/// a message.
pub proof fn level_reading_law(r: BatteryReading, level: int, label: Seq<char>)
    requires
        is_reading_of_level(r, level, label),
    ensures
        r.label@ == label,
        r.success <==> 1 <= level <= 100,
        r.success ==> r.percent == level,
        !r.success ==> r.percent == 0 && r.message@.len() > 0,
{
    reveal_strlit("Headset found but not active.");
    reveal_strlit("Battery N/A.");
}

/// The label of a headset: manufacturer and product separated by a space,
/// without leading or trailing white space.
pub open spec fn label_of(d: HidDeviceInfo) -> Seq<char> {
    trim(text_or_empty(d.manufacturer) + seq![' '] + text_or_empty(d.product))
}

/// The label of a headset: manufacturer and product separated by a space,
/// without leading or trailing white space.
pub fn device_label(d: &HidDeviceInfo) -> (r: String)
    ensures
        r@ == label_of(*d),
{
    let man = clone_or_empty(&d.manufacturer);
    let prod = clone_or_empty(&d.product);
    let mut cs = chars_of(man.as_str());
    cs.push(' ');
    let pc = chars_of(prod.as_str());
    let ghost head = cs@;
    let mut i: usize = 0;
    while i < pc.len()
        invariant
            i <= pc.len(),
            cs@ == head + pc@.subrange(0, i as int),
        decreases pc.len() - i,
    {
        cs.push(pc[i]);
        i += 1;
        assert(cs@ =~= head + pc@.subrange(0, i as int));
    }
    assert(pc@.subrange(0, pc@.len() as int) =~= pc@);
    assert(cs@ =~= man@ + seq![' '] + prod@);
    trimmed(&cs)
}

/// What the outside world reports back after an action.
pub enum HidEvent {
    /// The HID interfaces present.
    Enumerated(Vec<HidDeviceInfo>),
    /// The HID library could not start; the text of its error.
    EnumerationFailed(String),
    Opened,
    OpenFailed,
    /// The input report was requested; whether that succeeded does not matter.
    InputReportRequested,
    Written,
    WriteFailed,
    /// The buffer of the `Read` action after the read, zero where nothing was read.
    Received(Vec<u8>),
}

/// What the outside world is asked to do next.
pub enum HidAction {
    /// Start the HID library and list the interfaces present.
    Enumerate,
    /// Open the interface at this path.
    Open(Vec<u8>),
    /// Request an input report into this buffer; its first byte is the report id.
    RequestInputReport(Vec<u8>),
    /// Write this output report.
    Write(Vec<u8>),
    /// Read an answer into this buffer, waiting at most `timeout_ms`.
    Read { buffer: Vec<u8>, timeout_ms: i32 },
    /// The reading is done.
    Finish(BatteryReading),
}

/// Where a battery read stands.
pub enum BatteryRead {
    Enumerating,
    Opening { label: String, manufacturer: String, product: String },
    Priming { label: String, request: BatteryRequest },
    Writing { label: String, request: BatteryRequest },
    Reading { label: String, request: BatteryRequest },
    Finished,
}

/// How far a read has come; every step moves it forward.
pub open spec fn progress(s: BatteryRead) -> int {
    match s {
        BatteryRead::Enumerating => 0,
        BatteryRead::Opening { .. } => 1,
        BatteryRead::Priming { .. } => 2,
        BatteryRead::Writing { .. } => 3,
        BatteryRead::Reading { .. } => 4,
        BatteryRead::Finished => 5,
    }
}

/// A phase that holds a query holds the query of some headset family.
pub open spec fn holds_known_query(s: BatteryRead) -> bool {
    match s {
        BatteryRead::Priming { request, .. } => exists|m: HeadsetModel| #[trigger] is_request_for(request, m),
        BatteryRead::Writing { request, .. } => exists|m: HeadsetModel| #[trigger] is_request_for(request, m),
        BatteryRead::Reading { request, .. } => exists|m: HeadsetModel| #[trigger] is_request_for(request, m),
        _ => true,
    }
}

/// The label a phase carries is already trimmed.
pub open spec fn label_is_trimmed(s: BatteryRead) -> bool {
    match s {
        BatteryRead::Opening { label, .. } => label@ == trim(label@),
        BatteryRead::Priming { label, .. } => label@ == trim(label@),
        BatteryRead::Writing { label, .. } => label@ == trim(label@),
        BatteryRead::Reading { label, .. } => label@ == trim(label@),
        _ => true,
    }
}

/// A reading that ends a read: consistent, a failure always says why, and the
/// label has no surrounding white space.
pub open spec fn is_final_reading(r: BatteryReading) -> bool {
    &&& is_consistent(r)
    &&& !r.success ==> r.message@.len() > 0
    &&& r.label@ == trim(r.label@)
}

/// The event that each phase waits for.
pub open spec fn awaits(s: BatteryRead, e: HidEvent) -> bool {
    match s {
        BatteryRead::Enumerating => e is Enumerated || e is EnumerationFailed,
        BatteryRead::Opening { .. } => e is Opened || e is OpenFailed,
        BatteryRead::Priming { .. } => e is InputReportRequested,
        BatteryRead::Writing { .. } => e is Written || e is WriteFailed,
        BatteryRead::Reading { .. } => e matches HidEvent::Received(answer) && answer@.len()
            == ANSWER_LEN,
        BatteryRead::Finished => false,
    }
}

/// The phase after the headset has been opened: the query of its family, with an
/// input report requested first for a Kingston headset.
pub open spec fn after_open(
    label: Seq<char>,
    m: HeadsetModel,
    post: BatteryRead,
    a: HidAction,
) -> bool {
    if m == HeadsetModel::Kingston {
        &&& post matches BatteryRead::Priming { label: l, request: q }
        &&& l@ == label && is_request_for(q, m)
        &&& a matches HidAction::RequestInputReport(b) && b@ == input_report_bytes()
    } else {
        &&& post matches BatteryRead::Writing { label: l, request: q }
        &&& l@ == label && is_request_for(q, m)
        &&& a matches HidAction::Write(b) && b@ == q.report@
    }
}

/// The step from `pre` on event `e` to `post` with action `a`.
pub open spec fn is_step(pre: BatteryRead, e: HidEvent, post: BatteryRead, a: HidAction) -> bool {
    match pre {
        BatteryRead::Enumerating => match e {
            HidEvent::EnumerationFailed(msg) => {
                &&& post is Finished
                &&& a matches HidAction::Finish(r) && is_failure(
                    r,
                    "HID init failed: "@ + msg@,
                    Seq::empty(),
                )
            },
            HidEvent::Enumerated(ds) => if forall|k: int|
                0 <= k < supported_pairs().len() ==> !has_pair(
                    ds@,
                    #[trigger] supported_pairs()[k],
                ) {
                &&& post is Finished
                &&& a matches HidAction::Finish(r) && is_failure(
                    r,
                    "No headset device detected."@,
                    Seq::empty(),
                )
            } else {
                exists|k: int, i: int|
                    {
                        &&& is_first_present(ds@, k)
                        &&& #[trigger] is_preferred(ds@, supported_pairs()[k], i)
                        &&& post matches BatteryRead::Opening { label, manufacturer, product }
                        &&& label@ == label_of(ds@[i])
                        &&& manufacturer@ == text_or_empty(ds@[i].manufacturer)
                        &&& product@ == text_or_empty(ds@[i].product)
                        &&& a matches HidAction::Open(path) && path@ == ds@[i].path@
                    }
            },
            _ => false,
        },
        BatteryRead::Opening { label, manufacturer, product } => match e {
            HidEvent::OpenFailed => {
                &&& post is Finished
                &&& a matches HidAction::Finish(r) && is_failure(
                    r,
                    "Could not connect to headset."@,
                    label@,
                )
            },
            HidEvent::Opened => after_open(
                label@,
                model_of(uppercase(manufacturer@), uppercase(product@)),
                post,
                a,
            ),
            _ => false,
        },
        BatteryRead::Priming { label, request } => match e {
            HidEvent::InputReportRequested => {
                &&& post matches BatteryRead::Writing { label: l, request: q }
                &&& l == label && q == request
                &&& a matches HidAction::Write(b) && b@ == request.report@
            },
            _ => false,
        },
        BatteryRead::Writing { label, request } => match e {
            HidEvent::Written => {
                &&& post matches BatteryRead::Reading { label: l, request: q }
                &&& l == label && q == request
                &&& a matches HidAction::Read { buffer, timeout_ms }
                &&& buffer@ == answer_bytes() && timeout_ms == READ_TIMEOUT_MS
            },
            HidEvent::WriteFailed => {
                &&& post is Finished
                &&& a matches HidAction::Finish(r) && is_reading_of_level(r, -1, label@)
            },
            _ => false,
        },
        BatteryRead::Reading { label, request } => match e {
            HidEvent::Received(answer) => {
                &&& post is Finished
                &&& request.battery_index < answer@.len()
                &&& a matches HidAction::Finish(r) && is_reading_of_level(
                    r,
                    answer@[request.battery_index as int] as int,
                    label@,
                )
            },
            _ => false,
        },
        BatteryRead::Finished => false,
    }
}

/// Once the headset is open, an input report is requested first exactly when it
/// is a Kingston; any other headset is sent the output report of its family at once.
pub proof fn only_kingston_is_primed(
    label: String,
    manufacturer: String,
    product: String,
    post: BatteryRead,
    a: HidAction,
)
    requires
        is_step(BatteryRead::Opening { label, manufacturer, product }, HidEvent::Opened, post, a),
    ensures
        (a is RequestInputReport) <==> model_of(uppercase(manufacturer@), uppercase(product@))
            == HeadsetModel::Kingston,
        (a is RequestInputReport) <==> post is Priming,
        model_of(uppercase(manufacturer@), uppercase(product@)) != HeadsetModel::Kingston ==> (
        a matches HidAction::Write(b) && b@ == report_bytes(
            model_of(uppercase(manufacturer@), uppercase(product@)),
        )),
        a matches HidAction::RequestInputReport(b) ==> b@.len() == INPUT_REPORT_LEN && b@[0]
            == INPUT_REPORT_ID,
{
}

/// Once a headset has been chosen, every reading that ends the read carries its label.
pub proof fn readings_name_the_chosen_headset(
    pre: BatteryRead,
    e: HidEvent,
    post: BatteryRead,
    r: BatteryReading,
)
    requires
        is_step(pre, e, post, HidAction::Finish(r)),
    ensures
        pre matches BatteryRead::Opening { label, .. } ==> r.label@ == label@,
        pre matches BatteryRead::Writing { label, .. } ==> r.label@ == label@,
        pre matches BatteryRead::Reading { label, .. } ==> r.label@ == label@,
        pre is Enumerating ==> r.label@.len() == 0,
{
    match pre {
        BatteryRead::Writing { label, .. } => {
            level_reading_law(r, -1, label@);
        },
        BatteryRead::Reading { label, request } => {
            if let HidEvent::Received(answer) = e {
                level_reading_law(r, answer@[request.battery_index as int] as int, label@);
            }
        },
        _ => {},
    }
}

impl BatteryRead {
    /// A read starts by enumerating the HID interfaces.
    pub fn start() -> (r: (BatteryRead, HidAction))
        ensures
            r.0 is Enumerating,
            r.1 is Enumerate,
            holds_known_query(r.0),
            label_is_trimmed(r.0),
    {
        (BatteryRead::Enumerating, HidAction::Enumerate)
    }

    /// Whether this phase waits for `e`.
    pub fn expects(&self, e: &HidEvent) -> (r: bool)
        ensures
            r == awaits(*self, *e),
    {
        match self {
            BatteryRead::Enumerating => match e {
                HidEvent::Enumerated(_) | HidEvent::EnumerationFailed(_) => true,
                _ => false,
            },
            BatteryRead::Opening { .. } => match e {
                HidEvent::Opened | HidEvent::OpenFailed => true,
                _ => false,
            },
            BatteryRead::Priming { .. } => match e {
                HidEvent::InputReportRequested => true,
                _ => false,
            },
            BatteryRead::Writing { .. } => match e {
                HidEvent::Written | HidEvent::WriteFailed => true,
                _ => false,
            },
            BatteryRead::Reading { .. } => match e {
                HidEvent::Received(answer) => answer.len() == ANSWER_LEN,
                _ => false,
            },
            BatteryRead::Finished => false,
        }
    }

    /// The next phase and action once `e` has happened.
    pub fn step(self, e: HidEvent) -> (r: (BatteryRead, HidAction))
        requires
            awaits(self, e),
            holds_known_query(self),
            label_is_trimmed(self),
        ensures
            is_step(self, e, r.0, r.1),
            holds_known_query(r.0),
            label_is_trimmed(r.0),
            r.1 matches HidAction::Finish(reading) ==> is_final_reading(reading),
            progress(r.0) > progress(self),
            r.0 is Finished <==> r.1 is Finish,
            r.1 matches HidAction::Finish(reading) ==> is_consistent(reading),
            r.1 matches HidAction::Write(b) ==> b@.len() == crate::protocol::REPORT_LEN,
    {
        match self {
            BatteryRead::Enumerating => step_enumerating(e),
            BatteryRead::Opening { label, manufacturer, product } => step_opening(
                label,
                manufacturer,
                product,
                e,
            ),
            BatteryRead::Priming { label, request } => step_priming(label, request, e),
            BatteryRead::Writing { label, request } => step_writing(label, request, e),
            BatteryRead::Reading { label, request } => step_reading(label, request, e),
            BatteryRead::Finished => {
                assert(false);
                (BatteryRead::Finished, HidAction::Enumerate)
            },
        }
    }
}

/// Everything a step from `pre` on `e` to `post` with `a` guarantees.
spec fn is_sound_step(pre: BatteryRead, e: HidEvent, post: BatteryRead, a: HidAction) -> bool {
    &&& is_step(pre, e, post, a)
    &&& holds_known_query(post)
    &&& label_is_trimmed(post)
    &&& a matches HidAction::Finish(reading) ==> is_final_reading(reading)
    &&& progress(post) > progress(pre)
    &&& post is Finished <==> a is Finish
    &&& a matches HidAction::Write(b) ==> b@.len() == crate::protocol::REPORT_LEN
}

proof fn reveal_messages()
    ensures
        "HID init failed: "@.len() > 0,
        "No headset device detected."@.len() > 0,
        "Could not connect to headset."@.len() > 0,
        "Headset found but not active."@.len() > 0,
        "Battery N/A."@.len() > 0,
{
    reveal_strlit("HID init failed: ");
    reveal_strlit("No headset device detected.");
    reveal_strlit("Could not connect to headset.");
    reveal_strlit("Headset found but not active.");
    reveal_strlit("Battery N/A.");
}

fn step_enumerating(e: HidEvent) -> (r: (BatteryRead, HidAction))
    requires
        awaits(BatteryRead::Enumerating, e),
    ensures
        is_sound_step(BatteryRead::Enumerating, e, r.0, r.1),
{
    proof {
        reveal_messages();
    }
    match e {
        HidEvent::EnumerationFailed(msg) => {
            let mut text = String::from_str("HID init failed: ");
            text.append(msg.as_str());
            let r = BatteryReading::fail(text.as_str(), String::new());
            (BatteryRead::Finished, HidAction::Finish(r))
        },
        HidEvent::Enumerated(ds) => match select_device(&ds) {
            None => {
                let r = BatteryReading::fail("No headset device detected.", String::new());
                (BatteryRead::Finished, HidAction::Finish(r))
            },
            Some(i) => {
                let d = &ds[i];
                let label = device_label(d);
                proof {
                    trim_is_idempotent(
                        text_or_empty(d.manufacturer) + seq![' '] + text_or_empty(d.product),
                    );
                }
                let manufacturer = clone_or_empty(&d.manufacturer);
                let product = clone_or_empty(&d.product);
                let path = d.path.clone();
                assert(path@ =~= ds@[i as int].path@);
                let post = BatteryRead::Opening { label, manufacturer, product };
                let a = HidAction::Open(path);
                proof {
                    let k = choose|k: int|
                        is_first_present(ds@, k) && is_preferred(
                            ds@,
                            supported_pairs()[k],
                            i as int,
                        );
                    assert(is_preferred(ds@, supported_pairs()[k], i as int));
                }
                (post, a)
            },
        },
        _ => {
            assert(false);
            (BatteryRead::Finished, HidAction::Enumerate)
        },
    }
}

fn step_opening(label: String, manufacturer: String, product: String, e: HidEvent) -> (r: (
    BatteryRead,
    HidAction,
))
    requires
        awaits(BatteryRead::Opening { label, manufacturer, product }, e),
        label@ == trim(label@),
    ensures
        is_sound_step(BatteryRead::Opening { label, manufacturer, product }, e, r.0, r.1),
{
    proof {
        reveal_messages();
    }
    match e {
        HidEvent::OpenFailed => {
            let r = BatteryReading::fail("Could not connect to headset.", label);
            (BatteryRead::Finished, HidAction::Finish(r))
        },
        HidEvent::Opened => {
            let request = battery_request(manufacturer.as_str(), product.as_str());
            let ghost m = model_of(uppercase(manufacturer@), uppercase(product@));
            let ghost text = label@;
            assert(is_request_for(request, m));
            if request.prime_input_report {
                let b = input_report_buffer();
                let post = BatteryRead::Priming { label, request };
                let a = HidAction::RequestInputReport(b);
                assert(post->Priming_request == request);
                assert(holds_known_query(post));
                assert(after_open(text, m, post, a));
                (post, a)
            } else {
                let b = request.report.clone();
                assert(b@ =~= request.report@);
                let post = BatteryRead::Writing { label, request };
                let a = HidAction::Write(b);
                assert(post->Writing_request == request);
                assert(holds_known_query(post));
                assert(after_open(text, m, post, a));
                (post, a)
            }
        },
        _ => {
            assert(false);
            (BatteryRead::Finished, HidAction::Enumerate)
        },
    }
}

fn step_priming(label: String, request: BatteryRequest, e: HidEvent) -> (r: (BatteryRead, HidAction))
    requires
        awaits(BatteryRead::Priming { label, request }, e),
        holds_known_query(BatteryRead::Priming { label, request }),
        label@ == trim(label@),
    ensures
        is_sound_step(BatteryRead::Priming { label, request }, e, r.0, r.1),
{
    let b = request.report.clone();
    assert(b@ =~= request.report@);
    proof {
        let m = choose|m: HeadsetModel| is_request_for(request, m);
        assert(is_request_for(request, m));
    }
    (BatteryRead::Writing { label, request }, HidAction::Write(b))
}

fn step_writing(label: String, request: BatteryRequest, e: HidEvent) -> (r: (BatteryRead, HidAction))
    requires
        awaits(BatteryRead::Writing { label, request }, e),
        holds_known_query(BatteryRead::Writing { label, request }),
        label@ == trim(label@),
    ensures
        is_sound_step(BatteryRead::Writing { label, request }, e, r.0, r.1),
{
    proof {
        reveal_messages();
    }
    match e {
        HidEvent::Written => {
            let buffer = answer_buffer();
            proof {
                let m = choose|m: HeadsetModel| is_request_for(request, m);
                assert(is_request_for(request, m));
            }
            (
                BatteryRead::Reading { label, request },
                HidAction::Read { buffer, timeout_ms: READ_TIMEOUT_MS },
            )
        },
        HidEvent::WriteFailed => {
            let r = reading_for_level(-1, label);
            (BatteryRead::Finished, HidAction::Finish(r))
        },
        _ => {
            assert(false);
            (BatteryRead::Finished, HidAction::Enumerate)
        },
    }
}

fn step_reading(label: String, request: BatteryRequest, e: HidEvent) -> (r: (BatteryRead, HidAction))
    requires
        awaits(BatteryRead::Reading { label, request }, e),
        holds_known_query(BatteryRead::Reading { label, request }),
        label@ == trim(label@),
    ensures
        is_sound_step(BatteryRead::Reading { label, request }, e, r.0, r.1),
{
    proof {
        reveal_messages();
    }
    match e {
        HidEvent::Received(answer) => {
            proof {
                let m = choose|m: HeadsetModel| is_request_for(request, m);
                assert(request.battery_index == level_index(m));
            }
            let level = battery_level(answer.as_slice(), request.battery_index);
            let r = reading_for_level(level, label);
            (BatteryRead::Finished, HidAction::Finish(r))
        },
        _ => {
            assert(false);
            (BatteryRead::Finished, HidAction::Enumerate)
        },
    }
}

} // verus!
