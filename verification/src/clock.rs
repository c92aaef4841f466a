//! Time as microseconds since the Unix epoch, and the chrono calls that
//! read the clock and convert to and from the RFC 3339 text stored in the
//! database.

use vstd::prelude::*;

verus! {

/// Microseconds of `chrono::DateTime::<Utc>::MIN_UTC`, midnight of
/// `NaiveDate::MIN` (-262143-01-01, 262144 BCE).
pub const MIN_MICROS: i64 = -8334601228800000000;

/// Microseconds of `chrono::DateTime::<Utc>::MAX_UTC` (+262142-12-31
/// 23:59:59.999999).
pub const MAX_MICROS: i64 = 8210266876799999999;

pub const MICROS_PER_SEC: i64 = 1_000_000;

/// Largest whole-second magnitude a `chrono::TimeDelta` holds
/// (`i64::MAX / 1000`).
pub const MAX_DELTA_SECS: i64 = 9_223_372_036_854_775;

/// Whether `t` microseconds is an instant chrono can represent.
pub open spec fn representable(t: int) -> bool {
    MIN_MICROS <= t <= MAX_MICROS
}

/// Whether `t` can come out of parsing a text: an instant chrono can
/// represent, or one up to a second past the last one (a leap second,
/// `:60`, on chrono's last day is kept as a second of overflow in the
/// nanoseconds, and `timestamp_micros` counts it).
pub open spec fn parsable_instant(t: int) -> bool {
    MIN_MICROS <= t <= MAX_MICROS + MICROS_PER_SEC
}

/// What `str::parse::<chrono::DateTime<Utc>>` gives for a text: the instant
/// in microseconds (sub-microsecond digits dropped), or the parse error's
/// message.
pub uninterp spec fn datetime_parsed(s: Seq<char>) -> Result<i64, Seq<char>>;

/// The current instant: `chrono::Utc::now()` in microseconds. The value
/// depends on the clock; only that chrono can represent it is stated.
#[verifier::external_body]
pub(crate) fn now_micros() -> (t: i64)
    ensures
        representable(t as int),
{
    chrono::Utc::now().timestamp_micros()
}

/// `s.parse::<chrono::DateTime<chrono::Utc>>()`, converted to microseconds;
/// the error is the chrono `ParseError` message. The result is named, and
/// what is stated beyond the name is the range a parsed instant lies in:
/// the parsed date is one chrono holds and the time of day is below
/// 24:00:01 (second 60 with up to 999 999 999 further nanoseconds).
#[verifier::external_body]
pub(crate) fn parse_timestamp(s: &str) -> (r: Result<i64, String>)
    ensures
        match r {
            Ok(t) => datetime_parsed(s@) == Ok::<i64, Seq<char>>(t) && parsable_instant(t as int),
            Err(m) => datetime_parsed(s@) == Err::<i64, Seq<char>>(m@),
        },
{
    match s.parse::<chrono::DateTime<chrono::Utc>>() {
        Ok(d) => Ok(d.timestamp_micros()),
        Err(e) => Err(e.to_string()),
    }
}

/// What `chrono::DateTime::<Utc>::to_rfc3339` writes for the instant `t`.
pub uninterp spec fn rfc3339_text(t: i64) -> Seq<char>;

/// `chrono::DateTime::<Utc>::to_rfc3339` of the instant `t`. Stated beyond
/// the name: the text parses back to `t`. `to_rfc3339` writes years outside
/// 0..=9999 with an explicit sign and the fraction to the nanosecond, and
/// chrono's `FromStr` (its relaxed RFC 3339 parser) reads signed years and
/// the fraction back; `t` has no leap second, as `from_timestamp_micros`
/// never makes one.
#[verifier::external_body]
pub(crate) fn format_timestamp(t: i64) -> (r: String)
    requires
        representable(t as int),
    ensures
        r@ == rfc3339_text(t),
        (datetime_parsed(r@) == Ok::<i64, Seq<char>>(t)),
{
    chrono::DateTime::<chrono::Utc>::from_timestamp_micros(t).unwrap().to_rfc3339()
}

/// `t` plus `secs` whole seconds, as `t + chrono::Duration::seconds(secs)`
/// computes it when neither the delta nor the sum leaves chrono's range.
pub open spec fn plus_seconds(t: int, secs: int) -> int {
    t + secs * MICROS_PER_SEC
}

/// Whether `t + chrono::Duration::seconds(secs)` is defined (chrono panics
/// otherwise): the delta fits a `TimeDelta` and the sum is an instant.
pub open spec fn can_add_seconds(t: int, secs: int) -> bool {
    &&& -MAX_DELTA_SECS <= secs <= MAX_DELTA_SECS
    &&& representable(plus_seconds(t, secs))
}

/// `DateTime::<Utc>::from_timestamp_micros(t)?.checked_add_signed(
/// TimeDelta::try_seconds(secs)?)` in microseconds: `None` when the delta
/// is not a `TimeDelta` (`try_seconds`) or the sum leaves chrono's range
/// (`checked_add_signed`).
#[verifier::external_body]
pub(crate) fn checked_add_seconds(t: i64, secs: i64) -> (r: Option<i64>)
    requires
        representable(t as int),
    ensures
        r == (if can_add_seconds(t as int, secs as int) {
            Some(plus_seconds(t as int, secs as int) as i64)
        } else {
            None::<i64>
        }),
{
    let d = match chrono::DateTime::<chrono::Utc>::from_timestamp_micros(t) {
        Some(d) => d,
        None => return None,
    };
    let delta = match chrono::TimeDelta::try_seconds(secs) {
        Some(delta) => delta,
        None => return None,
    };
    match d.checked_add_signed(delta) {
        Some(x) => Some(x.timestamp_micros()),
        None => None,
    }
}

/// `DateTime::<Utc>::from_timestamp_micros(t)?.checked_sub_signed(
/// TimeDelta::try_seconds(secs)?)` in microseconds: `None` when the
/// difference leaves chrono's range.
#[verifier::external_body]
pub(crate) fn checked_sub_seconds(t: i64, secs: i64) -> (r: Option<i64>)
    requires
        representable(t as int),
        0 <= secs <= MAX_DELTA_SECS,
    ensures
        r == (if representable(t - secs * MICROS_PER_SEC) {
            Some((t - secs * MICROS_PER_SEC) as i64)
        } else {
            None::<i64>
        }),
{
    let d = match chrono::DateTime::<chrono::Utc>::from_timestamp_micros(t) {
        Some(d) => d,
        None => return None,
    };
    let delta = match chrono::TimeDelta::try_seconds(secs) {
        Some(delta) => delta,
        None => return None,
    };
    match d.checked_sub_signed(delta) {
        Some(x) => Some(x.timestamp_micros()),
        None => None,
    }
}

/// `t + chrono::Duration::seconds(secs)` on microsecond instants, where
/// it does not panic.
pub fn add_seconds(t: i64, secs: i64) -> (r: i64)
    requires
        representable(t as int),
        can_add_seconds(t as int, secs as int),
    ensures
        r == plus_seconds(t as int, secs as int),
{
    match checked_add_seconds(t, secs) {
        Some(r) => r,
        None => t,
    }
}

} // verus!
