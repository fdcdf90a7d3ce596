//! The system clock, and the date and time texts of a report.

use chrono::{DateTime, Utc};
use std::time::{SystemTime, UNIX_EPOCH};
use vstd::prelude::*;

verus! {

/// A reading of the system clock: its distance from the UNIX epoch, and on
/// which side of the epoch it lies.
#[derive(Debug, Clone, Copy)]
pub struct ClockReading {
    pub before_epoch: bool,
    pub seconds: u64,
    pub nanos: u32,
}

/// Reads the clock with `std::time::SystemTime::now` and measures it from
/// the epoch with `SystemTime::duration_since` (a time before the epoch
/// comes back as the error's duration). `Duration::subsec_nanos` documents
/// its value to lie below one billion; nothing else is stated, since the
/// value is the clock's.
#[verifier::external_body]
pub fn read_clock() -> (r: ClockReading)
    ensures
        r.nanos < 1_000_000_000,
{
    match SystemTime::now().duration_since(UNIX_EPOCH) {
        Ok(d) => ClockReading { before_epoch: false, seconds: d.as_secs(), nanos: d.subsec_nanos() },
        Err(e) => ClockReading {
            before_epoch: true,
            seconds: e.duration().as_secs(),
            nanos: e.duration().subsec_nanos(),
        },
    }
}

/// The reading as a UNIX timestamp: whole seconds rounded down, and the
/// nanoseconds past them.
pub open spec fn unix_time(r: ClockReading) -> (int, nat) {
    if !r.before_epoch {
        (r.seconds as int, r.nanos as nat)
    } else if r.nanos == 0 {
        (-(r.seconds as int), 0)
    } else {
        (-(r.seconds as int) - 1, (1_000_000_000 - r.nanos) as nat)
    }
}

/// Whole seconds since the epoch, rounded down.
pub fn unix_seconds(r: &ClockReading) -> (s: i128)
    ensures
        s == unix_time(*r).0,
        -0x1_0000_0000_0000_0001 <= s <= 0xffff_ffff_ffff_ffff,
{
    if !r.before_epoch {
        r.seconds as i128
    } else if r.nanos == 0 {
        -(r.seconds as i128)
    } else {
        -(r.seconds as i128) - 1
    }
}

/// The timestamp falls in the years 0 to 9999.
pub open spec fn in_four_digit_years(secs: int) -> bool {
    -62167219200 <= secs < 253402300800
}

/// An ASCII decimal digit.
pub open spec fn is_digit(c: char) -> bool {
    '0' <= c && c <= '9'
}

/// The RFC 3339 text of a UTC time in the years 0 to 9999:
/// "YYYY-MM-DDTHH:MM:SS", an optional fraction, and "+00:00".
pub open spec fn is_rfc3339_utc(s: Seq<char>) -> bool {
    &&& s.len() >= 25
    &&& forall|i: int|
        0 <= i < 19 ==> if i == 4 || i == 7 {
            #[trigger] s[i] == '-'
        } else if i == 10 {
            s[i] == 'T'
        } else if i == 13 || i == 16 {
            s[i] == ':'
        } else {
            is_digit(s[i])
        }
    &&& s.subrange(s.len() - 6, s.len() as int) == "+00:00"@
}

/// Eight ASCII digits: "YYYYMMDD".
pub open spec fn is_compact_date(s: Seq<char>) -> bool {
    s.len() == 8 && forall|i: int| 0 <= i < 8 ==> is_digit(#[trigger] s[i])
}

/// What chrono writes for a timestamp with `DateTime::to_rfc3339`, or `None`
/// when `DateTime::from_timestamp` refuses the timestamp.
pub uninterp spec fn chrono_rfc3339(secs: int, nanos: nat) -> Option<Seq<char>>;

/// What chrono writes for a timestamp with `format("%Y%m%d")`, or `None`
/// when `DateTime::from_timestamp` refuses the timestamp.
pub uninterp spec fn chrono_compact_date(secs: int, nanos: nat) -> Option<Seq<char>>;

/// `chrono::DateTime::<Utc>::from_timestamp(secs, nanos)` (which returns
/// `None` out of range) and `DateTime::to_rfc3339` (AutoSi seconds, "+00:00"
/// offset; for years 0 to 9999 the year has four digits, see
/// `write_rfc3339` in chrono's format/formatting.rs). The result is named;
/// its shape is stated for timestamps in the years 0 to 9999.
#[verifier::external_body]
fn rfc3339_at(secs: i64, nanos: u32) -> (res: Option<String>)
    ensures
        res.deep_view() == chrono_rfc3339(secs as int, nanos as nat),
        in_four_digit_years(secs as int) && nanos < 1_000_000_000 ==> res is Some && is_rfc3339_utc(res.unwrap()@),
{
    match DateTime::<Utc>::from_timestamp(secs, nanos) {
        Some(d) => Some(d.to_rfc3339()),
        None => None,
    }
}

/// `chrono::DateTime::<Utc>::from_timestamp(secs, nanos)` and
/// `format("%Y%m%d")` (for years 0 to 9999, `%Y` writes four digits and
/// `%m`, `%d` two). The result is named; its shape is stated for timestamps
/// in the years 0 to 9999.
#[verifier::external_body]
fn compact_date_at(secs: i64, nanos: u32) -> (res: Option<String>)
    ensures
        res.deep_view() == chrono_compact_date(secs as int, nanos as nat),
        in_four_digit_years(secs as int) && nanos < 1_000_000_000 ==> res is Some && is_compact_date(res.unwrap()@),
{
    match DateTime::<Utc>::from_timestamp(secs, nanos) {
        Some(d) => Some(d.format("%Y%m%d").to_string()),
        None => None,
    }
}

/// The date and time texts of a clock reading: the compact date "YYYYMMDD"
/// and the RFC 3339 time; `None` when chrono cannot represent the reading.
pub open spec fn report_time_texts(r: ClockReading) -> Option<(Seq<char>, Seq<char>)> {
    let (secs, nanos) = unix_time(r);
    if i64::MIN <= secs <= i64::MAX {
        match (chrono_compact_date(secs, nanos), chrono_rfc3339(secs, nanos)) {
            (Some(date), Some(time)) => Some((date, time)),
            _ => None,
        }
    } else {
        None
    }
}

/// The compact date and the RFC 3339 time of a clock reading.
pub fn time_texts(r: &ClockReading) -> (res: Option<(String, String)>)
    requires
        r.nanos < 1_000_000_000,
    ensures
        match res {
            Some((date, time)) => report_time_texts(*r) == Some((date@, time@)),
            None => report_time_texts(*r) is None,
        },
        in_four_digit_years(unix_time(*r).0) ==> (res matches Some((date, time)) && is_compact_date(date@)
            && is_rfc3339_utc(time@)),
{
    let secs = unix_seconds(r);
    if secs < i64::MIN as i128 || secs > i64::MAX as i128 {
        return None;
    }
    let nanos: u32 = if !r.before_epoch || r.nanos == 0 {
        r.nanos
    } else {
        1_000_000_000 - r.nanos
    };
    let date = compact_date_at(secs as i64, nanos);
    let time = rfc3339_at(secs as i64, nanos);
    match (date, time) {
        (Some(d), Some(t)) => Some((d, t)),
        _ => None,
    }
}

} // verus!
