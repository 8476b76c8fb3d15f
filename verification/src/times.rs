//! Timestamps, modelled as milliseconds since the Unix epoch, and the
//! calendar dates derived from them.

use chrono::Datelike;
use vstd::prelude::*;

verus! {

/// Earliest file modification time (milliseconds since the Unix epoch) for
/// which a calendar date is derived: 0001-01-01T00:00:00Z.
pub const MIN_DATED_MILLIS: i64 = -62_135_596_800_000;

/// Latest file modification time (milliseconds since the Unix epoch) for
/// which a calendar date is derived: 9999-12-31T23:59:59.999Z.
pub const MAX_DATED_MILLIS: i64 = 253_402_300_799_999;

/// Whether an instant lies in the range for which a calendar date is
/// derived when a stale local file is renamed.
pub open spec fn datable(ms: int) -> bool {
    MIN_DATED_MILLIS <= ms <= MAX_DATED_MILLIS
}

/// What chrono's RFC 3339 parser makes of a string: the parsed instant in
/// milliseconds since the Unix epoch, or `None` when the string is not a
/// valid RFC 3339 date-and-time.  A function of the string alone.
pub uninterp spec fn rfc3339_millis_of(s: Seq<char>) -> Option<i64>;

/// Relies on chrono's `DateTime::parse_from_rfc3339` (with
/// `timestamp_millis` reading the parsed instant out): the outcome is a
/// function of the input string alone.
#[verifier::external_body]
fn parse_rfc3339_millis(s: &str) -> (r: Option<i64>)
    ensures
        r == rfc3339_millis_of(s@),
{
    match chrono::DateTime::parse_from_rfc3339(s) {
        Ok(dt) => Some(dt.timestamp_millis()),
        Err(_) => None,
    }
}

/// The instant a remote listing's RFC 3339 timestamp denotes, in
/// milliseconds since the Unix epoch, or `None` when the string does not
/// parse.
pub fn parse_time(time: &str) -> (r: Option<i64>)
    ensures
        r == rfc3339_millis_of(time@),
{
    parse_rfc3339_millis(time)
}

/// Relies on chrono's `DateTime::from_timestamp_millis` (documented to
/// accept at least the years 1 through 9999) and the conversion to the
/// machine's local time zone, with `Datelike` reading year, month and day:
/// the date depends on that time zone, so only the documented field ranges
/// are stated, plus success on the documented input range.
#[verifier::external_body]
pub(crate) fn local_date_of_millis(ms: i64) -> (r: Option<(i64, u8, u8)>)
    ensures
        match r {
            Some(d) => -0x8000_0000 <= d.0 <= 0x7fff_ffff && 1 <= d.1 <= 12 && 1 <= d.2 <= 31,
            None => true,
        },
        datable(ms as int) ==> r is Some,
{
    match chrono::DateTime::<chrono::Utc>::from_timestamp_millis(ms) {
        Some(utc) => {
            let local = chrono::DateTime::<chrono::Local>::from(utc);
            Some((local.year() as i64, local.month() as u8, local.day() as u8))
        },
        None => None,
    }
}

} // verus!
