//! Timestamp normalization of JSON payloads.
//!
//! Responses are serialized as JSON trees whose timestamp fields — object
//! entries under a key ending in `At` — carry RFC-3339 strings in the
//! service's timezone. Before a payload is handed back, every such string
//! that parses as a timestamp is rewritten into the machine's local
//! timezone: the rewritten string denotes exactly the same instant,
//! written with nine fraction digits and a `Z` or whole-minute offset.
//! Which offset that is depends on the machine, so the contracts pin the
//! instant and the shape of the rewrite, not its text. Everything else in
//! the tree is kept as it is.

use vstd::prelude::*;

verus! {

/// A JSON value. Numbers are carried through opaquely; object entries keep
/// their order.
#[derive(Debug, PartialEq)]
pub enum JsonValue {
    Null,
    Bool(bool),
    Num(serde_json::Number),
    Str(String),
    Arr(Vec<JsonValue>),
    Obj(Vec<(String, JsonValue)>),
}

#[verifier::external_type_specification]
#[verifier::external_body]
pub struct ExNumber(serde_json::Number);

/// Whether a string parses as an RFC-3339 timestamp of the service.
pub uninterp spec fn rfc3339_parses(s: Seq<char>) -> bool;

/// The instant an RFC-3339 string denotes, in nanoseconds since the Unix
/// epoch, as chrono's RFC-3339 parser reads it: a function of the
/// characters alone, meaningful for strings that parser accepts.
pub uninterp spec fn rfc3339_instant(s: Seq<char>) -> int;

/// Every instant a parsed timestamp can denote lies within a day of the
/// four-digit civil year range, in seconds since the Unix epoch.
pub const TIMESTAMP_SECS_MIN: i64 = -62_167_305_600;

/// Upper end of the same range.
pub const TIMESTAMP_SECS_MAX: i64 = 253_402_387_199;

/// The instant and sub-second part of a parsed timestamp.
#[derive(Debug, PartialEq, Eq)]
pub struct TimestampParts {
    /// Whole seconds since the Unix epoch, rounded toward minus infinity.
    pub secs: i64,
    /// Nanoseconds past `secs`; may exceed one second during a leap second.
    pub nanos: u32,
}

/// Relies on `FromStr` for `atrium_api::types::string::Datetime`, which
/// accepts exactly the RFC-3339 timestamps of the service — a four-digit
/// year and an offset within a day, checked by a fixed pattern and chrono's
/// parser, a function of the characters alone — and on chrono's `timestamp`
/// and `timestamp_subsec_nanos`, which give the accepted instant exactly.
#[verifier::external_body]
fn parse_timestamp(s: &str) -> (r: Option<TimestampParts>)
    ensures
        r is Some <==> rfc3339_parses(s@),
        r matches Some(p) ==> p.secs * 1_000_000_000 + p.nanos == rfc3339_instant(s@)
            && TIMESTAMP_SECS_MIN <= p.secs <= TIMESTAMP_SECS_MAX && p.nanos < 2_000_000_000,
{
    match s.parse::<atrium_api::types::string::Datetime>() {
        Ok(dt) => Some(TimestampParts {
            secs: dt.as_ref().timestamp(),
            nanos: dt.as_ref().timestamp_subsec_nanos(),
        }),
        Err(_) => None,
    }
}

/// Relies on chrono's `Local` timezone lookup; what offset the machine uses
/// at an instant is machine state, so nothing is assumed of the result but
/// the bound `FixedOffset` guarantees of every offset it holds. An unusable
/// timezone environment falls back to UTC inside chrono.
#[verifier::external_body]
fn local_offset_at(secs: i64) -> (r: i32)
    requires
        TIMESTAMP_SECS_MIN <= secs <= TIMESTAMP_SECS_MAX,
    ensures
        -86_400 < r < 86_400,
{
    let utc = chrono::DateTime::from_timestamp(secs, 0).expect("within the stated range");
    utc.with_timezone(&chrono::Local).offset().local_minus_utc()
}

/// Relies on chrono's `DateTime::from_timestamp`, `with_timezone` (which
/// changes the representation, never the instant) and `to_rfc3339_opts`
/// with nanosecond seconds: the result renders exactly the given instant at
/// the given offset, with nine fraction digits and a `Z` or `+HH:MM` /
/// `-HH:MM` tail — written unrounded because the offset is whole minutes —
/// so chrono's parser reads the same instant back.
#[verifier::external_body]
fn format_timestamp_at(secs: i64, nanos: u32, offset_secs: i32) -> (r: String)
    requires
        TIMESTAMP_SECS_MIN <= secs <= TIMESTAMP_SECS_MAX,
        nanos < 2_000_000_000,
        -86_400 < offset_secs < 86_400,
        offset_secs as int % 60 == 0,
    ensures
        rfc3339_instant(r@) == secs * 1_000_000_000 + nanos,
        localized_timestamp_shape(r@),
{
    let utc = chrono::DateTime::from_timestamp(secs, nanos).expect("within the stated range");
    let offset = chrono::FixedOffset::east_opt(offset_secs).expect("within the stated range");
    utc.with_timezone(&offset).to_rfc3339_opts(chrono::SecondsFormat::Nanos, true)
}

/// Relies on `Clone` for `serde_json::Number`: the clone equals the
/// original.
#[verifier::external_body]
fn clone_number(n: &serde_json::Number) -> (r: serde_json::Number)
    ensures
        r == *n,
{
    n.clone()
}

/// A decimal digit.
pub open spec fn decimal_digit(c: char) -> bool {
    '0' <= c && c <= '9'
}

/// The shape every rewritten timestamp has: seconds written with exactly
/// nine fraction digits, then `Z` or a `+HH:MM` / `-HH:MM` offset.
pub open spec fn localized_timestamp_shape(s: Seq<char>) -> bool {
    let n = s.len() as int;
    (n >= 11 && s[n - 1] == 'Z' && s[n - 11] == '.' && (forall|k: int|
        n - 10 <= k < n - 1 ==> decimal_digit(s[k]))) || (n >= 16 && (s[n - 6] == '+' || s[n - 6]
        == '-') && decimal_digit(s[n - 5]) && decimal_digit(s[n - 4]) && s[n - 3] == ':'
        && decimal_digit(s[n - 2]) && decimal_digit(s[n - 1]) && s[n - 16] == '.' && (forall|k: int|
        n - 15 <= k < n - 6 ==> decimal_digit(s[k])))
}

/// Snap an offset to the whole minute toward zero, staying within the range
/// a timezone offset can take.
fn snap_offset_minutes(off: i32) -> (r: i32)
    requires
        -86_400 < off < 86_400,
    ensures
        r as int % 60 == 0,
        -86_400 < r < 86_400,
{
    let magnitude: u32 = if off >= 0 {
        off as u32
    } else {
        (-off) as u32
    };
    let snapped: u32 = (magnitude / 60) * 60;
    if off >= 0 {
        snapped as i32
    } else {
        -(snapped as i32)
    }
}

/// Rewrite one RFC-3339 timestamp into the machine's local timezone.
///
/// Succeeds exactly on the strings that parse as timestamps; the rewritten
/// string denotes the same instant, with nine fraction digits and a `Z` or
/// whole-minute offset.
pub fn localize_timestamp(s: &str) -> (r: Option<String>)
    ensures
        r is Some <==> rfc3339_parses(s@),
        r matches Some(t) ==> rfc3339_instant(t@) == rfc3339_instant(s@)
            && localized_timestamp_shape(t@),
{
    let parts = match parse_timestamp(s) {
        Some(p) => p,
        None => {
            return None;
        },
    };
    let offset = snap_offset_minutes(local_offset_at(parts.secs));
    Some(format_timestamp_at(parts.secs, parts.nanos, offset))
}

/// Whether a key names a timestamp field: it ends in `At`.
pub open spec fn key_marks_timestamp(k: Seq<char>) -> bool {
    k.len() >= 2 && k[k.len() - 2] == 'A' && k[k.len() - 1] == 't'
}

/// Whether a key names a timestamp field: it ends in `At`.
pub fn is_timestamp_key(k: &str) -> (r: bool)
    ensures
        r == key_marks_timestamp(k@),
{
    let n = k.unicode_len();
    n >= 2 && k.get_char(n - 2) == 'A' && k.get_char(n - 1) == 't'
}

/// How a normalized tree `b` relates to the original `a`: same shape, same
/// keys in the same order, every value unchanged, except that an object
/// entry under a timestamp key whose string value parses is rewritten to a
/// string denoting the same instant in the localized shape.
pub open spec fn normalized(a: JsonValue, b: JsonValue) -> bool
    decreases a, 0int,
{
    match a {
        JsonValue::Null => b == JsonValue::Null,
        JsonValue::Bool(x) => b == JsonValue::Bool(x),
        JsonValue::Num(n) => b == JsonValue::Num(n),
        JsonValue::Str(s) => b == JsonValue::Str(s),
        JsonValue::Arr(xs) => b matches JsonValue::Arr(ys) && ys.len() == xs.len() && (forall|
            i: int,
        |
            0 <= i < xs.len() ==> normalized(xs[i], #[trigger] ys[i])),
        JsonValue::Obj(fs) => b matches JsonValue::Obj(gs) && gs.len() == fs.len() && (forall|
            i: int,
        |
            0 <= i < fs.len() ==> (#[trigger] gs[i]).0 == fs[i].0 && entry_normalized(
                fs[i].0@,
                fs[i].1,
                gs[i].1,
            )),
    }
}

/// How a normalized object entry relates to the original: a parsing
/// timestamp string under a timestamp key becomes a string of the same
/// instant in the localized shape; any other value is kept normalized.
pub open spec fn entry_normalized(k: Seq<char>, v: JsonValue, w: JsonValue) -> bool
    decreases v, 1int,
{
    if key_marks_timestamp(k) && (v matches JsonValue::Str(s) && rfc3339_parses(s@)) {
        w matches JsonValue::Str(t) && rfc3339_instant(t@) == rfc3339_instant(v->Str_0@)
            && localized_timestamp_shape(t@)
    } else {
        normalized(v, w)
    }
}

/// Rewrite every timestamp field of a JSON tree into the local timezone,
/// keeping everything else as it is.
pub fn convert_datetime(v: &JsonValue) -> (r: JsonValue)
    ensures
        normalized(*v, r),
    decreases v, 0int,
{
    match v {
        JsonValue::Null => JsonValue::Null,
        JsonValue::Bool(x) => JsonValue::Bool(*x),
        JsonValue::Num(n) => JsonValue::Num(clone_number(n)),
        JsonValue::Str(s) => JsonValue::Str(s.clone()),
        JsonValue::Arr(xs) => JsonValue::Arr(convert_array(xs)),
        JsonValue::Obj(fs) => JsonValue::Obj(convert_fields(fs)),
    }
}

/// Rewrite the elements of an array, in place order.
fn convert_array(xs: &Vec<JsonValue>) -> (r: Vec<JsonValue>)
    ensures
        r@.len() == xs@.len(),
        forall|i: int| 0 <= i < xs@.len() ==> normalized(xs@[i], #[trigger] r@[i]),
    decreases xs, 0int,
{
    let mut out: Vec<JsonValue> = Vec::new();
    let mut i: usize = 0;
    while i < xs.len()
        invariant
            i <= xs@.len(),
            out@.len() == i,
            forall|j: int| 0 <= j < i ==> normalized(xs@[j], #[trigger] out@[j]),
        decreases xs@.len() - i,
    {
        out.push(convert_datetime(&xs[i]));
        i = i + 1;
    }
    out
}

/// Rewrite the entries of an object, keeping keys and their order.
fn convert_fields(fs: &Vec<(String, JsonValue)>) -> (r: Vec<(String, JsonValue)>)
    ensures
        r@.len() == fs@.len(),
        forall|i: int|
            0 <= i < fs@.len() ==> (#[trigger] r@[i]).0 == fs@[i].0 && entry_normalized(
                fs@[i].0@,
                fs@[i].1,
                r@[i].1,
            ),
    decreases fs, 0int,
{
    let mut out: Vec<(String, JsonValue)> = Vec::new();
    let mut i: usize = 0;
    while i < fs.len()
        invariant
            i <= fs@.len(),
            out@.len() == i,
            forall|j: int|
                0 <= j < i ==> (#[trigger] out@[j]).0 == fs@[j].0 && entry_normalized(
                    fs@[j].0@,
                    fs@[j].1,
                    out@[j].1,
                ),
        decreases fs@.len() - i,
    {
        let key = fs[i].0.clone();
        let value = convert_entry(&fs[i].0, &fs[i].1);
        out.push((key, value));
        i = i + 1;
    }
    out
}

/// Rewrite one object entry: a parsing timestamp string under a timestamp
/// key goes to the local timezone; anything else is rewritten recursively.
fn convert_entry(k: &String, v: &JsonValue) -> (w: JsonValue)
    ensures
        entry_normalized(k@, *v, w),
    decreases v, 1int,
{
    if is_timestamp_key(k.as_str()) {
        if let JsonValue::Str(s) = v {
            return match localize_timestamp(s.as_str()) {
                Some(t) => JsonValue::Str(t),
                None => JsonValue::Str(s.clone()),
            };
        }
    }
    convert_datetime(v)
}

} // verus!
