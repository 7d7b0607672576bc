//! Instants as plain values, and the calls into `chrono` that parse, format
//! and subtract them.
//!
//! Time enters as evidence: every instant here comes from a caller-supplied
//! string or from a clock reading that the caller hands in.
use vstd::prelude::*;

verus! {

/// An instant in UTC: whole non-leap seconds since 1970-01-01T00:00:00Z and
/// the nanoseconds past that second (at or above one billion only inside a
/// leap second).
#[derive(Debug, Clone, Copy, PartialEq, Eq, Structural)]
pub struct Timestamp {
    pub secs: i64,
    pub nanos: u32,
}

/// Earliest second that `chrono` represents (January 1 of the proleptic
/// year -262143, 00:00:00).
pub const MIN_SECS: i64 = -8334601228800i64;

/// Latest second that `chrono` represents (December 31 of the year 262142,
/// 23:59:59).
pub const MAX_SECS: i64 = 8210266876799i64;

/// The instants that `chrono::DateTime::<Utc>::from_timestamp` accepts: a
/// second inside the calendar range, and a nanosecond part below two billion
/// that only exceeds one billion in the last second of a minute.
pub open spec fn representable(t: Timestamp) -> bool {
    &&& MIN_SECS <= t.secs <= MAX_SECS
    &&& t.nanos < 2_000_000_000
    &&& (t.nanos >= 1_000_000_000 ==> t.secs % 60 == 59)
}

/// `a` is at or before `b`.
pub open spec fn ts_le(a: Timestamp, b: Timestamp) -> bool {
    a.secs < b.secs || (a.secs == b.secs && a.nanos <= b.nanos)
}

/// Whether `a` is at or after `b`.
pub fn at_or_after(a: Timestamp, b: Timestamp) -> (r: bool)
    ensures
        r == ts_le(b, a),
{
    b.secs < a.secs || (b.secs == a.secs && b.nanos <= a.nanos)
}

/// The instant `minutes` minutes after `t` (before it, for a negative count),
/// for an instant outside a leap second.
pub open spec fn spec_shift_minutes(t: Timestamp, minutes: int) -> Timestamp {
    Timestamp { secs: (t.secs + minutes * 60) as i64, nanos: t.nanos }
}

/// The instant `minutes` minutes after `t`.
pub fn shift_minutes(t: Timestamp, minutes: i64) -> (r: Timestamp)
    requires
        -1_000_000 <= minutes <= 1_000_000,
        MIN_SECS <= t.secs + minutes * 60 <= MAX_SECS,
    ensures
        r == spec_shift_minutes(t, minutes as int),
{
    Timestamp { secs: t.secs + minutes * 60, nanos: t.nanos }
}

/// What `chrono::DateTime::parse_from_rfc3339` makes of a string: `None` when
/// it refuses it, else the parsed instant as (seconds since the epoch,
/// nanoseconds past that second), both taken in UTC.
pub uninterp spec fn spec_parse_rfc3339(s: Seq<char>) -> Option<(i64, u32)>;

/// Integer division rounded toward zero, as Rust's `/` divides (`b > 0`).
pub open spec fn div_toward_zero(a: int, b: int) -> int {
    if a >= 0 {
        a / b
    } else {
        -((-a) / b)
    }
}

/// Whole minutes from `earlier` to `later`, as
/// `(later - earlier).num_minutes()` computes them over `chrono::DateTime<Utc>`
/// (arguments: later seconds, later nanoseconds, earlier seconds, earlier
/// nanoseconds). The difference is the whole days between the two dates plus
/// the difference of the times of day, where a leap second still to be
/// crossed counts one more second; it is then truncated toward zero to whole
/// seconds and to whole minutes.
pub open spec fn spec_minutes_between(ls: i64, ln: u32, es: i64, en: u32) -> i64 {
    let day_l = ls / 86400;
    let day_e = es / 86400;
    let tod_l = ls % 86400;
    let tod_e = es % 86400;
    let tod = if tod_l > tod_e && en >= 1_000_000_000 {
        tod_l - tod_e + 1
    } else if tod_l < tod_e && ln >= 1_000_000_000 {
        tod_l - tod_e - 1
    } else {
        tod_l - tod_e
    };
    let frac = ln - en;
    let secs = (day_l - day_e) * 86400 + tod + frac / 1_000_000_000;
    let nanos = frac % 1_000_000_000;
    let whole = if secs < 0 && nanos > 0 {
        secs + 1
    } else {
        secs
    };
    div_toward_zero(whole, 60) as i64
}

/// The text `chrono` formats for an instant with the pattern
/// `%Y-%m-%dT%H:%M:%SZ` (arguments: seconds, nanoseconds).
pub uninterp spec fn spec_format_utc_seconds(secs: i64, nanos: u32) -> Seq<char>;

/// The text `chrono::DateTime::<Utc>::to_rfc3339` gives for an instant
/// (arguments: seconds, nanoseconds).
pub uninterp spec fn spec_format_rfc3339(secs: i64, nanos: u32) -> Seq<char>;

/// The instant of a parse result.
pub open spec fn parsed_instant(s: Seq<char>) -> Option<Timestamp> {
    match spec_parse_rfc3339(s) {
        Some(p) => Some(Timestamp { secs: p.0, nanos: p.1 }),
        None => None,
    }
}

/// Calls `chrono::DateTime::parse_from_rfc3339` and reads the result with
/// `timestamp` and `timestamp_subsec_nanos`, which count in UTC whatever the
/// parsed offset. The contract names the
/// result, and adds what chrono documents: a parsed instant round-trips
/// through `DateTime::from_timestamp`, so it is representable.
#[verifier::external_body]
fn chrono_parse_rfc3339(s: &str) -> (r: Option<(i64, u32)>)
    ensures
        r == spec_parse_rfc3339(s@),
        r matches Some(p) ==> representable(Timestamp { secs: p.0, nanos: p.1 }),
{
    match chrono::DateTime::parse_from_rfc3339(s) {
        Ok(dt) => Some((dt.timestamp(), dt.timestamp_subsec_nanos())),
        Err(_) => None,
    }
}

/// Parses an RFC 3339 timestamp; `None` when chrono refuses it.
pub fn parse_ts(s: &str) -> (r: Option<Timestamp>)
    ensures
        r == parsed_instant(s@),
        r matches Some(t) ==> representable(t),
{
    match chrono_parse_rfc3339(s) {
        Some(p) => Some(Timestamp { secs: p.0, nanos: p.1 }),
        None => None,
    }
}

/// Calls `(later - earlier).num_minutes()` on the two instants rebuilt with
/// `chrono::DateTime::from_timestamp`, which accepts every representable
/// instant. The contract states the count as chrono computes it (see
/// [`spec_minutes_between`]).
#[verifier::external_body]
pub(crate) fn minutes_between(later: Timestamp, earlier: Timestamp) -> (r: i64)
    requires
        representable(later),
        representable(earlier),
    ensures
        r == spec_minutes_between(later.secs, later.nanos, earlier.secs, earlier.nanos),
{
    let l = chrono::DateTime::from_timestamp(later.secs, later.nanos).unwrap();
    let e = chrono::DateTime::from_timestamp(earlier.secs, earlier.nanos).unwrap();
    (l - e).num_minutes()
}

/// An instant in the years 0000 to 9999, which `%Y` writes as four digits.
pub open spec fn four_digit_year(t: Timestamp) -> bool {
    -62167219200 <= t.secs <= 253402300799
}

/// Formats an instant with chrono's `%Y-%m-%dT%H:%M:%SZ` pattern, rebuilding
/// it with `chrono::DateTime::from_timestamp`, which accepts every
/// representable instant. The contract names the result, and adds what the
/// two sides of chrono show: in a four-digit year and outside a leap second
/// the text is `YYYY-MM-DDTHH:MM:SSZ`, which `parse_from_rfc3339` reads back
/// as the same second with no fraction.
#[verifier::external_body]
pub(crate) fn format_utc_seconds(t: Timestamp) -> (r: String)
    requires
        representable(t),
    ensures
        r@ == spec_format_utc_seconds(t.secs, t.nanos),
        four_digit_year(t) && t.nanos < 1_000_000_000 ==> spec_parse_rfc3339(r@) == Some(
            (t.secs, 0u32),
        ),
{
    let dt = chrono::DateTime::from_timestamp(t.secs, t.nanos).unwrap();
    dt.format("%Y-%m-%dT%H:%M:%SZ").to_string()
}

/// Formats an instant with chrono's `to_rfc3339`, rebuilding it with
/// `chrono::DateTime::from_timestamp`, which accepts every representable
/// instant. The contract names the result.
#[verifier::external_body]
pub(crate) fn format_rfc3339(t: Timestamp) -> (r: String)
    requires
        representable(t),
    ensures
        r@ == spec_format_rfc3339(t.secs, t.nanos),
{
    let dt = chrono::DateTime::from_timestamp(t.secs, t.nanos).unwrap();
    dt.to_rfc3339()
}

} // verus!
