//! The supported headsets, how one of them is chosen among the HID interfaces
//! present, and the rows of the diagnostics table.

use vstd::prelude::*;
use crate::text::{text_from_utf8_lossy, utf8_lossy};

verus! {

/// What the logic reads of one enumerated HID interface.
pub struct HidDeviceInfo {
    pub vendor_id: u16,
    pub product_id: u16,
    pub usage: u16,
    pub usage_page: u16,
    pub manufacturer: Option<String>,
    pub product: Option<String>,
    /// The platform path of the interface, as bytes without the final NUL.
    pub path: Vec<u8>,
}

/// The supported (vendor id, product id) pairs, in priority order.
pub open spec fn supported_pairs() -> Seq<(u16, u16)> {
    seq![
        (0x0951u16, 0x1718u16),
        (0x03F0u16, 0x018Bu16),
        (0x03F0u16, 0x0995u16),
        (0x03F0u16, 0x098Du16),
        (0x03F0u16, 0x0696u16),
        (0x03F0u16, 0x0D93u16),
    ]
}

/// The supported (vendor id, product id) pairs, in priority order:
/// Kingston Cloud II Wireless, HP Cloud II Wireless, HP Cloud II Core Wireless,
/// HP Cloud Alpha Wireless, HP Cloud II Wireless (variant B), HP Cloud Stinger 2 Wireless.
pub fn supported_devices() -> (r: Vec<(u16, u16)>)
    ensures
        r@ == supported_pairs(),
{
    let r = vec![
        (0x0951u16, 0x1718u16),
        (0x03F0u16, 0x018Bu16),
        (0x03F0u16, 0x0995u16),
        (0x03F0u16, 0x098Du16),
        (0x03F0u16, 0x0696u16),
        (0x03F0u16, 0x0D93u16),
    ];
    assert(r@ =~= supported_pairs());
    r
}

pub open spec fn is_pair(d: HidDeviceInfo, p: (u16, u16)) -> bool {
    d.vendor_id == p.0 && d.product_id == p.1
}

pub open spec fn has_pair(ds: Seq<HidDeviceInfo>, p: (u16, u16)) -> bool {
    exists|i: int| 0 <= i < ds.len() && #[trigger] is_pair(ds[i], p)
}

/// `a` ranks no higher than `b`: by usage, then by usage page.
pub open spec fn ranks_below_or_eq(a: HidDeviceInfo, b: HidDeviceInfo) -> bool {
    a.usage < b.usage || (a.usage == b.usage && a.usage_page <= b.usage_page)
}

/// `i` is the interface chosen for pair `p`: it has the pair, no interface of the
/// pair ranks higher, and every later one of the pair ranks strictly lower
/// (among equals the last one wins).
pub open spec fn is_preferred(ds: Seq<HidDeviceInfo>, p: (u16, u16), i: int) -> bool {
    &&& 0 <= i < ds.len()
    &&& is_pair(ds[i], p)
    &&& forall|j: int|
        0 <= j < ds.len() && #[trigger] is_pair(ds[j], p) ==> ranks_below_or_eq(ds[j], ds[i])
    &&& forall|j: int|
        i < j < ds.len() && #[trigger] is_pair(ds[j], p) ==> !ranks_below_or_eq(ds[i], ds[j])
}

/// The chosen interface of a pair has the pair's ids and ranks highest among the
/// pair's interfaces: no other has a higher usage, none with the same usage has a
/// higher usage page, and none after it ties with it on both.
pub proof fn chosen_interface_ranks_highest(ds: Seq<HidDeviceInfo>, p: (u16, u16), i: int)
    requires
        is_preferred(ds, p, i),
    ensures
        0 <= i < ds.len(),
        ds[i].vendor_id == p.0 && ds[i].product_id == p.1,
        forall|j: int|
            0 <= j < ds.len() && (#[trigger] ds[j]).vendor_id == p.0 && ds[j].product_id == p.1
                ==> ds[j].usage <= ds[i].usage,
        forall|j: int|
            0 <= j < ds.len() && (#[trigger] ds[j]).vendor_id == p.0 && ds[j].product_id == p.1
                && ds[j].usage == ds[i].usage ==> ds[j].usage_page <= ds[i].usage_page,
        forall|j: int|
            i < j < ds.len() && (#[trigger] ds[j]).vendor_id == p.0 && ds[j].product_id == p.1
                ==> ds[j].usage < ds[i].usage || ds[j].usage_page < ds[i].usage_page,
{
    assert forall|j: int|
        0 <= j < ds.len() && (#[trigger] ds[j]).vendor_id == p.0 && ds[j].product_id
            == p.1 implies ds[j].usage <= ds[i].usage && (ds[j].usage == ds[i].usage
        ==> ds[j].usage_page <= ds[i].usage_page) by {
        assert(is_pair(ds[j], p));
    }
    assert forall|j: int|
        i < j < ds.len() && (#[trigger] ds[j]).vendor_id == p.0 && ds[j].product_id
            == p.1 implies ds[j].usage < ds[i].usage || ds[j].usage_page < ds[i].usage_page by {
        assert(is_pair(ds[j], p));
    }
}

/// `k` is the first supported pair of which some interface is present.
pub open spec fn is_first_present(ds: Seq<HidDeviceInfo>, k: int) -> bool {
    &&& 0 <= k < supported_pairs().len()
    &&& has_pair(ds, supported_pairs()[k])
    &&& forall|k2: int| 0 <= k2 < k ==> !has_pair(ds, #[trigger] supported_pairs()[k2])
}

/// The interface with the highest (usage, usage page) among those of pair `p`,
/// the last one among equals; `None` when no interface has the pair.
fn best_of_pair(devices: &Vec<HidDeviceInfo>, p: (u16, u16)) -> (r: Option<usize>)
    ensures
        r is None <==> !has_pair(devices@, p),
        r matches Some(i) ==> is_preferred(devices@, p, i as int),
{
    let mut best: Option<usize> = None;
    let mut i: usize = 0;
    while i < devices.len()
        invariant
            i <= devices.len(),
            best is None <==> (forall|j: int| 0 <= j < i ==> !#[trigger] is_pair(devices@[j], p)),
            best matches Some(b) ==> {
                &&& b < i
                &&& is_pair(devices@[b as int], p)
                &&& forall|j: int|
                    0 <= j < i && #[trigger] is_pair(devices@[j], p) ==> ranks_below_or_eq(
                        devices@[j],
                        devices@[b as int],
                    )
                &&& forall|j: int|
                    b < j < i && #[trigger] is_pair(devices@[j], p) ==> !ranks_below_or_eq(
                        devices@[b as int],
                        devices@[j],
                    )
            },
        decreases devices.len() - i,
    {
        let info = &devices[i];
        if info.vendor_id == p.0 && info.product_id == p.1 {
            match best {
                None => {
                    best = Some(i);
                },
                Some(b) => {
                    let cur = &devices[b];
                    if info.usage > cur.usage || (info.usage == cur.usage && info.usage_page
                        >= cur.usage_page) {
                        best = Some(i);
                    }
                },
            }
        }
        proof {
            if let Some(b) = best {
                assert(is_pair(devices@[b as int], p));
            }
        }
        i += 1;
    }
    proof {
        if best is None {
            assert forall|j: int| 0 <= j < devices@.len() implies !#[trigger] is_pair(devices@[j], p) by {}
        } else {
            let b = best->0;
            assert(is_pair(devices@[b as int], p));
        }
    }
    best
}

/// Picks the first supported pair that has any interface present, then the
/// interface of that pair with the highest usage and usage page.
pub fn select_device(devices: &Vec<HidDeviceInfo>) -> (r: Option<usize>)
    ensures
        r is None <==> (forall|k: int|
            0 <= k < supported_pairs().len() ==> !has_pair(devices@, #[trigger] supported_pairs()[k])),
        r matches Some(i) ==> exists|k: int|
            is_first_present(devices@, k) && is_preferred(devices@, supported_pairs()[k], i as int),
{
    let pairs = supported_devices();
    let mut k: usize = 0;
    while k < pairs.len()
        invariant
            pairs@ == supported_pairs(),
            k <= pairs.len(),
            forall|k2: int| 0 <= k2 < k ==> !has_pair(devices@, #[trigger] supported_pairs()[k2]),
        decreases pairs.len() - k,
    {
        let found = best_of_pair(devices, pairs[k]);
        if let Some(i) = found {
            assert(is_first_present(devices@, k as int));
            return Some(i);
        }
        k += 1;
    }
    None
}

/// One row of the diagnostics table.
pub struct DeviceRow {
    pub vid: String,
    pub pid: String,
    pub usage: i32,
    pub usage_page: i32,
    pub manufacturer: String,
    pub product: String,
    pub path: String,
}

/// The upper-case hexadecimal digit of `d` (below 16).
pub open spec fn hex_digit(d: int) -> char {
    if d < 10 {
        (48 + d) as char
    } else {
        (55 + d) as char
    }
}

/// `v` as `0x` and four upper-case hexadecimal digits, as the format `0x{:04X}` prints it.
pub open spec fn hex_id(v: u16) -> Seq<char> {
    seq![
        '0',
        'x',
        hex_digit(v as int / 4096),
        hex_digit((v as int / 256) % 16),
        hex_digit((v as int / 16) % 16),
        hex_digit(v as int % 16),
    ]
}

fn hex_digit_char(d: u16) -> (c: char)
    requires
        d < 16,
    ensures
        c == hex_digit(d as int),
{
    if d < 10 {
        ((48 + d) as u8) as char
    } else {
        ((55 + d) as u8) as char
    }
}

/// `v` written as `0x` followed by four upper-case hexadecimal digits.
pub fn format_hex_id(v: u16) -> (r: String)
    ensures
        r@ == hex_id(v),
{
    let mut r = String::new();
    r.push('0');
    r.push('x');
    r.push(hex_digit_char(v / 4096));
    r.push(hex_digit_char((v / 256) % 16));
    r.push(hex_digit_char((v / 16) % 16));
    r.push(hex_digit_char(v % 16));
    assert(r@ =~= hex_id(v));
    r
}

/// The text of an optional string, empty when absent.
pub open spec fn text_or_empty(s: Option<String>) -> Seq<char> {
    match s {
        Some(t) => t@,
        None => Seq::empty(),
    }
}

pub fn clone_or_empty(s: &Option<String>) -> (r: String)
    ensures
        r@ == text_or_empty(*s),
{
    match s {
        Some(t) => t.clone(),
        None => String::new(),
    }
}

/// `row` is the diagnostics row of interface `d`.
pub open spec fn is_row_of(row: DeviceRow, d: HidDeviceInfo) -> bool {
    &&& row.vid@ == hex_id(d.vendor_id)
    &&& row.pid@ == hex_id(d.product_id)
    &&& row.usage == d.usage as i32
    &&& row.usage_page == d.usage_page as i32
    &&& row.manufacturer@ == text_or_empty(d.manufacturer)
    &&& row.product@ == text_or_empty(d.product)
    &&& row.path@ == utf8_lossy(d.path@)
    &&& vstd::utf8::valid_utf8(d.path@) ==> row.path@ == vstd::utf8::decode_utf8(d.path@)
}

/// The diagnostics row of one interface.
pub fn device_row(d: &HidDeviceInfo) -> (r: DeviceRow)
    ensures
        is_row_of(r, *d),
{
    DeviceRow {
        vid: format_hex_id(d.vendor_id),
        pid: format_hex_id(d.product_id),
        usage: d.usage as i32,
        usage_page: d.usage_page as i32,
        manufacturer: clone_or_empty(&d.manufacturer),
        product: clone_or_empty(&d.product),
        path: text_from_utf8_lossy(d.path.as_slice()),
    }
}

pub open spec fn pair_filter(p: (u16, u16)) -> spec_fn(HidDeviceInfo) -> bool {
    |d: HidDeviceInfo| is_pair(d, p)
}

/// The interfaces of each of the first `k` supported pairs, pair by pair in
/// priority order, each pair's interfaces in enumeration order.
pub open spec fn listed_upto(ds: Seq<HidDeviceInfo>, k: int) -> Seq<HidDeviceInfo> {
    supported_pairs().take(k).map_values(|p: (u16, u16)| ds.filter(pair_filter(p))).flatten()
}

proof fn listed_upto_next(ds: Seq<HidDeviceInfo>, k: int)
    requires
        0 <= k < supported_pairs().len(),
    ensures
        listed_upto(ds, k + 1) == listed_upto(ds, k) + ds.filter(pair_filter(supported_pairs()[k])),
{
    let p = supported_pairs()[k];
    let f = |q: (u16, u16)| ds.filter(pair_filter(q));
    assert(supported_pairs().take(k + 1) =~= supported_pairs().take(k).push(p));
    assert(supported_pairs().take(k + 1).map_values(f) =~= supported_pairs().take(k).map_values(
        f,
    ).push(f(p)));
    supported_pairs().take(k).map_values(f).lemma_flatten_push(f(p));
}

proof fn pair_filter_nonempty(ds: Seq<HidDeviceInfo>, p: (u16, u16))
    ensures
        has_pair(ds, p) <==> ds.filter(pair_filter(p)).len() > 0,
        ds.filter(pair_filter(p)).len() > 0 ==> is_pair(ds.filter(pair_filter(p))[0], p),
{
    let f = ds.filter(pair_filter(p));
    if has_pair(ds, p) {
        let i = choose|i: int| 0 <= i < ds.len() && #[trigger] is_pair(ds[i], p);
        ds.lemma_filter_contains(pair_filter(p), i);
        assert(f.contains(ds[i]));
    }
    if f.len() > 0 {
        ds.lemma_filter_pred(pair_filter(p), 0);
        assert(f.contains(f[0]));
        ds.lemma_filter_contains_rev(pair_filter(p), f[0]);
        let j = choose|j: int| 0 <= j < ds.len() && ds[j] == f[0];
        assert(is_pair(ds[j], p));
    }
}

proof fn listed_prefix(ds: Seq<HidDeviceInfo>, k: int)
    requires
        0 <= k <= supported_pairs().len(),
    ensures
        (forall|k2: int| 0 <= k2 < k ==> !has_pair(ds, #[trigger] supported_pairs()[k2]))
            ==> listed_upto(ds, k).len() == 0,
        forall|k0: int|
            0 <= k0 < k && #[trigger] is_first_present(ds, k0) ==> {
                &&& listed_upto(ds, k).len() > 0
                &&& is_pair(listed_upto(ds, k)[0], supported_pairs()[k0])
            },
    decreases k,
{
    if k == 0 {
        assert(supported_pairs().take(0).map_values(
            |p: (u16, u16)| ds.filter(pair_filter(p)),
        ) =~= Seq::<Seq<HidDeviceInfo>>::empty());
    } else {
        let j = k - 1;
        listed_prefix(ds, j);
        listed_upto_next(ds, j);
        pair_filter_nonempty(ds, supported_pairs()[j]);
        let before = listed_upto(ds, j);
        let part = ds.filter(pair_filter(supported_pairs()[j]));
        assert forall|k0: int|
            0 <= k0 < k && #[trigger] is_first_present(ds, k0) implies {
                &&& listed_upto(ds, k).len() > 0
                &&& is_pair(listed_upto(ds, k)[0], supported_pairs()[k0])
            } by {
            if k0 < j {
                assert(listed_upto(ds, k)[0] == before[0]);
            } else {
                assert(listed_upto(ds, k) =~= part);
            }
        }
    }
}

proof fn some_pair_is_first(ds: Seq<HidDeviceInfo>, k1: int)
    requires
        0 <= k1 < supported_pairs().len(),
        has_pair(ds, supported_pairs()[k1]),
    ensures
        exists|k0: int| #[trigger] is_first_present(ds, k0),
    decreases k1,
{
    if forall|k2: int| 0 <= k2 < k1 ==> !has_pair(ds, #[trigger] supported_pairs()[k2]) {
        assert(is_first_present(ds, k1));
    } else {
        let k2 = choose|k2: int| 0 <= k2 < k1 && has_pair(ds, #[trigger] supported_pairs()[k2]);
        some_pair_is_first(ds, k2);
    }
}

/// The chosen headset heads the diagnostics table: over the same interfaces, a
/// headset is chosen exactly when the table has rows, and then the first row
/// carries the vendor and product ids of the chosen interface.
pub proof fn chosen_headset_heads_the_list(ds: Seq<HidDeviceInfo>, rows: Seq<DeviceRow>)
    requires
        rows.len() == listed_devices(ds).len(),
        forall|t: int| 0 <= t < rows.len() ==> is_row_of(#[trigger] rows[t], listed_devices(ds)[t]),
    ensures
        (exists|k: int| 0 <= k < supported_pairs().len() && has_pair(ds, #[trigger] supported_pairs()[k]))
            <==> rows.len() > 0,
        forall|k: int, i: int|
            is_first_present(ds, k) && #[trigger] is_preferred(ds, supported_pairs()[k], i) ==> {
                &&& rows.len() > 0
                &&& rows[0].vid@ == hex_id(ds[i].vendor_id)
                &&& rows[0].pid@ == hex_id(ds[i].product_id)
            },
{
    let n = supported_pairs().len() as int;
    listed_prefix(ds, n);
    if exists|k: int| 0 <= k < supported_pairs().len() && has_pair(ds, #[trigger] supported_pairs()[k]) {
        let k1 = choose|k: int| 0 <= k < supported_pairs().len() && has_pair(ds, #[trigger] supported_pairs()[k]);
        some_pair_is_first(ds, k1);
        let k0 = choose|k0: int| #[trigger] is_first_present(ds, k0);
        assert(listed_upto(ds, n).len() > 0);
    }
    assert forall|k: int, i: int|
        is_first_present(ds, k) && #[trigger] is_preferred(ds, supported_pairs()[k], i) implies {
            &&& rows.len() > 0
            &&& rows[0].vid@ == hex_id(ds[i].vendor_id)
            &&& rows[0].pid@ == hex_id(ds[i].product_id)
        } by {
        assert(is_pair(listed_upto(ds, n)[0], supported_pairs()[k]));
        assert(is_row_of(rows[0], listed_devices(ds)[0]));
    }
}

/// The interfaces of the supported headsets, pair by pair in priority order.
pub open spec fn listed_devices(ds: Seq<HidDeviceInfo>) -> Seq<HidDeviceInfo> {
    listed_upto(ds, supported_pairs().len() as int)
}

/// The diagnostics table: one row for each interface of a supported headset,
/// grouped by supported pair in priority order; no rows when enumeration failed.
pub fn list_devices(enumerated: Option<Vec<HidDeviceInfo>>) -> (rows: Vec<DeviceRow>)
    ensures
        enumerated is None ==> rows@.len() == 0,
        enumerated matches Some(ds) ==> {
            &&& rows@.len() == listed_devices(ds@).len()
            &&& forall|i: int|
                0 <= i < rows@.len() ==> is_row_of(#[trigger] rows@[i], listed_devices(ds@)[i])
        },
{
    let mut rows: Vec<DeviceRow> = Vec::new();
    let devices = match enumerated {
        None => {
            return rows;
        },
        Some(ds) => ds,
    };
    let pairs = supported_devices();
    let mut k: usize = 0;
    while k < pairs.len()
        invariant
            pairs@ == supported_pairs(),
            k <= pairs.len(),
            rows@.len() == listed_upto(devices@, k as int).len(),
            forall|t: int|
                0 <= t < rows@.len() ==> is_row_of(
                    #[trigger] rows@[t],
                    listed_upto(devices@, k as int)[t],
                ),
        decreases pairs.len() - k,
    {
        let p = pairs[k];
        let ghost before = listed_upto(devices@, k as int);
        let mut i: usize = 0;
        while i < devices.len()
            invariant
                pairs@ == supported_pairs(),
                k < pairs.len(),
                p == supported_pairs()[k as int],
                i <= devices.len(),
                before == listed_upto(devices@, k as int),
                rows@.len() == (before + devices@.take(i as int).filter(pair_filter(p))).len(),
                forall|t: int|
                    0 <= t < rows@.len() ==> is_row_of(
                        #[trigger] rows@[t],
                        (before + devices@.take(i as int).filter(pair_filter(p)))[t],
                    ),
            decreases devices.len() - i,
        {
            proof {
                assert(devices@.take(i + 1) =~= devices@.take(i as int).push(devices@[i as int]));
                devices@.take(i as int).lemma_filter_push(devices@[i as int], pair_filter(p));
            }
            if devices[i].vendor_id == p.0 && devices[i].product_id == p.1 {
                let row = device_row(&devices[i]);
                rows.push(row);
            }
            i += 1;
        }
        proof {
            assert(devices@.take(devices@.len() as int) =~= devices@);
            listed_upto_next(devices@, k as int);
        }
        k += 1;
    }
    rows
}

} // verus!
