//! The licence: a one-time unlock and a seven-day trial bought through the App
//! Store, cached locally as a small JSON document.

use vstd::prelude::*;

verus! {

/// Product id of the paid one-time unlock.
pub const UNLOCK_ID: &'static str = "com.eeriegoesd.headset-battery-widget.unlock";

/// Product id of the free purchase that starts the trial.
pub const TRIAL_ID: &'static str = "com.eeriegoesd.headset-battery-widget.trial";

/// Product type of both purchases.
pub const PRODUCT_TYPE: &'static str = "inapp";

/// The licence state: whether the unlock is owned, and when the trial began in
/// milliseconds since the Unix epoch (0 when it has not begun).
#[derive(Clone, Copy, PartialEq, Eq, Structural, Debug)]
pub struct License {
    pub owned: bool,
    pub trial_start_ms: i64,
}

/// What the store reports of one product.
#[derive(Clone, Copy, PartialEq, Eq, Structural, Debug)]
pub struct ProductStatus {
    pub is_owned: bool,
    /// When it was bought, in milliseconds since the Unix epoch.
    pub purchase_time: Option<i64>,
}

/// No unlock and no trial.
pub open spec fn no_license() -> License {
    License { owned: false, trial_start_ms: 0 }
}

/// The decimal digit `d` (below 10).
pub open spec fn digit_char(d: int) -> char {
    (48 + d) as char
}

/// The decimal digits of `n`, without leading zeros.
pub open spec fn digits(n: nat) -> Seq<char>
    decreases n,
{
    if n < 10 {
        seq![digit_char(n as int)]
    } else {
        digits(n / 10).push(digit_char((n % 10) as int))
    }
}

/// `n` in decimal, with a leading minus sign when negative, as `{}` prints it.
pub open spec fn decimal(n: int) -> Seq<char> {
    if n < 0 {
        seq!['-'] + digits((-n) as nat)
    } else {
        digits(n as nat)
    }
}

/// `true` or `false`, as `{}` prints a `bool`.
pub open spec fn bool_text(b: bool) -> Seq<char> {
    if b {
        "true"@
    } else {
        "false"@
    }
}

fn push_digits(s: &mut String, n: u64)
    ensures
        final(s)@ == old(s)@ + digits(n as nat),
    decreases n,
{
    if n >= 10 {
        push_digits(s, n / 10);
    }
    let d = (n % 10) as u8;
    s.push((48u8 + d) as char);
    assert(final(s)@ =~= old(s)@ + digits(n as nat));
}

/// Appends `n` in decimal to `s`.
pub fn push_decimal(s: &mut String, n: i64)
    ensures
        final(s)@ == old(s)@ + decimal(n as int),
{
    if n < 0 {
        s.push('-');
        let m: u64 = (0i128 - n as i128) as u64;
        push_digits(s, m);
        assert(final(s)@ =~= old(s)@ + decimal(n as int));
    } else {
        push_digits(s, n as u64);
    }
}

/// The JSON document that caches a licence.
pub open spec fn license_json_text(l: License) -> Seq<char> {
    "{\"owned\":"@ + bool_text(l.owned) + ",\"trialStartMs\":"@ + decimal(l.trial_start_ms as int)
        + "}"@
}

/// The JSON document that caches a licence, `{"owned":B,"trialStartMs":N}`;
/// the licence status is reported to the interface in the same form.
pub fn license_json(l: License) -> (r: String)
    ensures
        r@ == license_json_text(l),
{
    let mut r = String::from_str("{\"owned\":");
    if l.owned {
        r.append("true");
    } else {
        r.append("false");
    }
    r.append(",\"trialStartMs\":");
    push_decimal(&mut r, l.trial_start_ms);
    r.append("}");
    r
}

#[verifier::external_type_specification]
#[verifier::external_body]
pub struct ExJsonValue(serde_json::Value);

/// Whether `serde_json::from_str` accepts the text as a JSON value.
pub uninterp spec fn json_parses(text: Seq<char>) -> bool;

/// The members of the JSON object written in `text`, by key, each read as
/// `as_bool` and as `as_i64` read it; no members when the text holds no object.
pub uninterp spec fn json_text_members(text: Seq<char>) -> Map<Seq<char>, (Option<bool>, Option<i64>)>;

/// The members of a JSON value that is an object, by key, each read as
/// `as_bool` and as `as_i64` read it; no members when the value is no object.
pub uninterp spec fn json_members(v: serde_json::Value) -> Map<Seq<char>, (Option<bool>, Option<i64>)>;

/// A JSON value read as `as_bool` and as `as_i64` read it.
pub uninterp spec fn json_scalar(v: serde_json::Value) -> (Option<bool>, Option<i64>);

/// Calls `serde_json::from_str::<Value>`. The contract claims that whether it
/// succeeds, and the members of the object it builds, depend on the text alone;
/// and that the object text `{"owned":B,"trialStartMs":N}` that the cache is
/// written as parses, with `owned` the boolean `B` and `trialStartMs` the
/// integer `N` (any `i64` in decimal, as serde_json reads integers).
#[verifier::external_body]
fn parse_json(text: &str) -> (r: Option<serde_json::Value>)
    ensures
        r is Some <==> json_parses(text@),
        r matches Some(v) ==> json_members(v) == json_text_members(text@),
        forall|l: License|
            #[trigger] license_json_text(l) == text@ ==> r is Some && json_members(
                r->0,
            ).dom().contains("owned"@) && json_members(r->0)["owned"@].0 == Some(l.owned)
                && json_members(r->0).dom().contains("trialStartMs"@) && json_members(
                r->0,
            )["trialStartMs"@].1 == Some(l.trial_start_ms),
{
    serde_json::from_str::<serde_json::Value>(text).ok()
}

/// Calls `serde_json::Value::get` with a string key. As its source shows, it
/// gives the member of an object under that key, and `None` when the key is
/// missing or the value is no object.
#[verifier::external_body]
fn json_member<'a>(v: &'a serde_json::Value, key: &str) -> (r: Option<&'a serde_json::Value>)
    ensures
        r is Some <==> json_members(*v).dom().contains(key@),
        r matches Some(m) ==> json_scalar(*m) == json_members(*v)[key@],
{
    v.get(key)
}

/// Calls `serde_json::Value::as_bool`: the boolean the value holds, if it is one.
#[verifier::external_body]
fn json_as_bool(v: &serde_json::Value) -> (r: Option<bool>)
    ensures
        r == json_scalar(*v).0,
{
    v.as_bool()
}

/// Calls `serde_json::Value::as_i64`: the integer the value holds, if it is one
/// that fits an `i64`.
#[verifier::external_body]
fn json_as_i64(v: &serde_json::Value) -> (r: Option<i64>)
    ensures
        r == json_scalar(*v).1,
{
    v.as_i64()
}

/// The licence read from the members of the cached object: `owned` counts when
/// it is the boolean `true`, `trialStartMs` when it is an integer; otherwise not
/// owned, and no trial.
pub open spec fn license_of_members(ms: Map<Seq<char>, (Option<bool>, Option<i64>)>) -> License {
    License {
        owned: ms.dom().contains("owned"@) && ms["owned"@].0 == Some(true),
        trial_start_ms: if ms.dom().contains("trialStartMs"@) && ms["trialStartMs"@].1 is Some {
            ms["trialStartMs"@].1->0
        } else {
            0
        },
    }
}

/// The licence cached in a JSON text.
pub open spec fn license_of_text(text: Seq<char>) -> License {
    if json_parses(text) {
        license_of_members(json_text_members(text))
    } else {
        no_license()
    }
}

/// The licence from the cached fields: a missing or mistyped field counts as
/// not owned, and as no trial.
pub fn license_from_fields(owned: Option<bool>, trial_start_ms: Option<i64>) -> (r: License)
    ensures
        r.owned == (owned == Some(true)),
        r.trial_start_ms == match trial_start_ms {
            Some(t) => t,
            None => 0,
        },
{
    License {
        owned: match owned {
            Some(b) => b,
            None => false,
        },
        trial_start_ms: match trial_start_ms {
            Some(t) => t,
            None => 0,
        },
    }
}

/// The licence cached in a JSON text: the boolean member `owned` and the integer
/// member `trialStartMs`; no licence when the text is no JSON. A text written by
/// `license_json` gives back the licence it was written from.
pub fn license_from_text(text: &str) -> (r: License)
    ensures
        r == license_of_text(text@),
        forall|l: License| #[trigger] license_json_text(l) == text@ ==> r == l,
{
    match parse_json(text) {
        None => License { owned: false, trial_start_ms: 0 },
        Some(v) => {
            let owned = match json_member(&v, "owned") {
                Some(x) => json_as_bool(x),
                None => None,
            };
            let trial = match json_member(&v, "trialStartMs") {
                Some(x) => json_as_i64(x),
                None => None,
            };
            license_from_fields(owned, trial)
        },
    }
}

/// The cached licence, from the cache file's contents; no licence when the file
/// could not be read.
pub fn license_from_file(contents: Option<String>) -> (r: License)
    ensures
        contents is None ==> r == no_license(),
        contents matches Some(t) ==> r == license_of_text(t@),
        contents matches Some(t) ==> forall|l: License|
            #[trigger] license_json_text(l) == t@ ==> r == l,
{
    match contents {
        None => License { owned: false, trial_start_ms: 0 },
        Some(t) => license_from_text(t.as_str()),
    }
}

/// The trial start that a trial status reports: its purchase time, when the
/// trial is owned and the time is known.
pub open spec fn owned_trial_start(trial: Option<ProductStatus>) -> Option<i64> {
    match trial {
        Some(st) => if st.is_owned {
            st.purchase_time
        } else {
            None
        },
        None => None,
    }
}

/// The licence after asking the store: the unlock status decides ownership and
/// an owned trial its start; what the store did not answer keeps its cached value.
pub open spec fn refreshed(
    cached: License,
    unlock: Option<ProductStatus>,
    trial: Option<ProductStatus>,
) -> License {
    License {
        owned: match unlock {
            Some(st) => st.is_owned,
            None => cached.owned,
        },
        trial_start_ms: match owned_trial_start(trial) {
            Some(t) => t,
            None => cached.trial_start_ms,
        },
    }
}

/// When the store answers neither status request, the cached licence stands.
pub proof fn refresh_without_answers_keeps_cache(cached: License)
    ensures
        refreshed(cached, None, None) == cached,
{
}

/// An owned unlock reported by the store is owned after the refresh, whatever
/// was cached; a trial status never changes ownership.
pub proof fn unlock_status_decides_ownership(
    cached: License,
    unlock: ProductStatus,
    trial: Option<ProductStatus>,
)
    ensures
        refreshed(cached, Some(unlock), trial).owned == unlock.is_owned,
        refreshed(cached, None, trial).owned == cached.owned,
{
}

/// The licence after asking the store for the unlock and trial status; `None`
/// stands for a status request that failed.
pub fn refresh_license(
    cached: License,
    unlock: Option<ProductStatus>,
    trial: Option<ProductStatus>,
) -> (r: License)
    ensures
        r == refreshed(cached, unlock, trial),
{
    let mut l = cached;
    if let Some(st) = unlock {
        l.owned = st.is_owned;
    }
    if let Some(st) = trial {
        if st.is_owned {
            if let Some(pt) = st.purchase_time {
                l.trial_start_ms = pt;
            }
        }
    }
    l
}

/// The licence after restoring purchases: what a refresh that starts from no
/// licence gives.
pub fn restored_license(unlock: Option<ProductStatus>, trial: Option<ProductStatus>) -> (r:
    License)
    ensures
        r == refreshed(no_license(), unlock, trial),
        r.owned == match unlock {
            Some(st) => st.is_owned,
            None => false,
        },
        r.trial_start_ms == match owned_trial_start(trial) {
            Some(t) => t,
            None => 0,
        },
{
    let mut owned = false;
    if let Some(st) = unlock {
        owned = st.is_owned;
    }
    let mut trial_start: i64 = 0;
    if let Some(st) = trial {
        if st.is_owned {
            if let Some(pt) = st.purchase_time {
                trial_start = pt;
            }
        }
    }
    License { owned, trial_start_ms: trial_start }
}

/// The start of a trial that was just bought: the purchase time the store
/// reports, else the current time.
pub fn trial_start(now_ms: i64, trial: Option<ProductStatus>) -> (r: i64)
    ensures
        r == match trial {
            Some(st) => match st.purchase_time {
                Some(t) => t,
                None => now_ms,
            },
            None => now_ms,
        },
{
    match trial {
        Some(st) => match st.purchase_time {
            Some(t) => t,
            None => now_ms,
        },
        None => now_ms,
    }
}

/// The licence to cache after the trial was bought: ownership unchanged, the
/// trial begun at `start`.
pub fn license_with_trial(cached: License, start: i64) -> (r: License)
    ensures
        r.owned == cached.owned,
        r.trial_start_ms == start,
{
    License { owned: cached.owned, trial_start_ms: start }
}

/// After the unlock was bought: whether it is owned according to the store (a
/// failed status request counts as not owned), and the licence to cache, which
/// is written only when it is owned.
pub fn after_unlock_purchase(cached: License, unlock: Option<ProductStatus>) -> (r: (
    bool,
    Option<License>,
))
    ensures
        r.0 == match unlock {
            Some(st) => st.is_owned,
            None => false,
        },
        r.0 ==> r.1 == Some(License { owned: true, trial_start_ms: cached.trial_start_ms }),
        !r.0 ==> r.1 is None,
{
    let owned = match unlock {
        Some(st) => st.is_owned,
        None => false,
    };
    if owned {
        (true, Some(License { owned: true, trial_start_ms: cached.trial_start_ms }))
    } else {
        (false, None)
    }
}

/// The price text of the unlock: the formatted price of the first product
/// returned, empty when the store did not answer, returned nothing, or gave no price.
pub fn unlock_price(products: Option<Vec<Option<String>>>) -> (r: String)
    ensures
        match products {
            Some(ps) if ps@.len() > 0 => match ps@[0] {
                Some(p) => r@ == p@,
                None => r@ == Seq::<char>::empty(),
            },
            _ => r@ == Seq::<char>::empty(),
        },
{
    match products {
        Some(ps) => {
            if ps.len() > 0 {
                match &ps[0] {
                    Some(p) => p.clone(),
                    None => String::new(),
                }
            } else {
                String::new()
            }
        },
        None => String::new(),
    }
}

#[verifier::external_type_specification]
#[verifier::external_body]
pub struct ExSystemTime(std::time::SystemTime);

/// Calls `SystemTime::now`. Nothing is claimed of the result: it is the clock.
#[verifier::external_body]
fn system_now() -> std::time::SystemTime {
    std::time::SystemTime::now()
}

/// Calls `SystemTime::duration_since` with the Unix epoch; `None` when the time
/// lies before it. Nothing is claimed of the result, the time being opaque here.
#[verifier::external_body]
fn since_unix_epoch(t: &std::time::SystemTime) -> Option<core::time::Duration> {
    t.duration_since(std::time::UNIX_EPOCH).ok()
}

/// Calls `Duration::as_millis`. Nothing is claimed of the result, the duration
/// being opaque here.
#[verifier::external_body]
fn whole_millis(d: &core::time::Duration) -> u128 {
    d.as_millis()
}

/// Milliseconds since the Unix epoch as an `i64` (truncated as `as` does), 0 when
/// the clock stands before the epoch.
pub fn millis_as_i64(millis: Option<u128>) -> (r: i64)
    ensures
        r == match millis {
            Some(m) => m as i64,
            None => 0i64,
        },
{
    match millis {
        Some(m) => m as i64,
        None => 0,
    }
}

/// The current time in milliseconds since the Unix epoch, 0 when the clock
/// stands before the epoch.
pub fn now_ms() -> i64 {
    let t = system_now();
    let millis = match since_unix_epoch(&t) {
        Some(d) => Some(whole_millis(&d)),
        None => None,
    };
    millis_as_i64(millis)
}

} // verus!
