//! Calendar dates on the US East Coast, computed with chrono. The East Coast
//! is taken as UTC minus five hours all year; instants are Unix timestamps in
//! whole seconds, and a span of hours or days is its number of seconds (chrono
//! documents `TimeDelta::hours(h)` and `TimeDelta::days(d)` as
//! `TimeDelta::seconds` of `h * 3600` and `d * 86400`). A date is found as
//! chrono writes the instant with the format `%Y-%m-%d` and reads it back.

use vstd::prelude::*;
use crate::error::{Error, ParseFailure};
use chrono::Datelike;
use chrono::format::ParseErrorKind;

verus! {

/// A day of the proleptic Gregorian calendar, as chrono's `NaiveDate` has it.
#[derive(PartialEq, Eq, Structural, Clone, Copy, Debug)]
pub struct CalendarDate {
    pub year: i32,
    /// `1..=12`
    pub month: u32,
    /// `1..=31`
    pub day: u32,
}

/// The first second that chrono represents: `-262143-01-01T00:00:00Z`, the
/// start of `NaiveDate::MIN` (chrono's `MIN_YEAR` is `(i32::MIN >> 13) + 1`).
pub open spec fn first_timestamp() -> int {
    FIRST_TIMESTAMP as int
}

/// The first second that chrono represents, as a Unix timestamp.
pub const FIRST_TIMESTAMP: i64 = -8334601228800i64;

/// The last second that chrono represents, as a Unix timestamp.
pub const LAST_TIMESTAMP: i64 = 8210266876799i64;

/// The last second that chrono represents: `+262142-12-31T23:59:59Z`, the end
/// of `NaiveDate::MAX` (chrono's `MAX_YEAR` is `(i32::MAX >> 13) - 1`).
pub open spec fn last_timestamp() -> int {
    LAST_TIMESTAMP as int
}

/// Whether chrono's `DateTime::<Utc>::from_timestamp(secs, 0)` gives a date
/// and time: it does for the seconds from the first day of `NaiveDate::MIN`
/// to the last day of `NaiveDate::MAX`.
pub open spec fn timestamp_in_range(secs: int) -> bool {
    first_timestamp() <= secs <= last_timestamp()
}

/// The text that chrono's `DateTime::<Utc>::format(fmt)` writes for the instant.
pub uninterp spec fn formatted_instant(secs: int, fmt: Seq<char>) -> Seq<char>;

/// The year, month and day that chrono's `NaiveDate::parse_from_str(text, fmt)`
/// reads, or the kind of its parse error.
pub uninterp spec fn parsed_date(text: Seq<char>, fmt: Seq<char>) -> Result<(int, int, int), ParseFailure>;

/// Calls `chrono::Utc::now()` and keeps its whole seconds (`timestamp()`);
/// dropping the fraction of a second moves no calendar date. Claims that the
/// instant is no earlier than 1970 (chrono takes the clock's duration since
/// the Unix epoch, and panics on a clock set earlier, which no `requires` can
/// exclude) and lies in chrono's range, as every `DateTime` does.
#[verifier::external_body]
fn utc_now_timestamp() -> (secs: i64)
    ensures
        0 <= secs <= last_timestamp(),
{
    chrono::Utc::now().timestamp()
}

/// Calls chrono's `DateTime::<Utc>::checked_sub_signed` with a `TimeDelta` of
/// `delta` seconds on the instant `secs`. Claims: a result exactly when both
/// the instant and the result lie in chrono's range, and then the result is
/// `secs - delta`. `TimeDelta::seconds` panics beyond `i64::MAX / 1000`
/// seconds, which `requires` excludes.
#[verifier::external_body]
fn checked_sub_signed(secs: i64, delta: i64) -> (r: Option<i64>)
    requires
        -(i64::MAX / 1000) <= delta <= i64::MAX / 1000,
    ensures
        r == (if timestamp_in_range(secs as int) && timestamp_in_range(secs - delta) {
            Some((secs - delta) as i64)
        } else {
            None
        }),
{
    match chrono::DateTime::from_timestamp(secs, 0) {
        Some(dt) => match dt.checked_sub_signed(chrono::TimeDelta::seconds(delta)) {
            Some(t) => Some(t.timestamp()),
            None => None,
        },
        None => None,
    }
}

/// Calls chrono's `DateTime::<Utc>::checked_add_signed` with a `TimeDelta` of
/// `delta` seconds on the instant `secs`. Claims as for `checked_sub_signed`,
/// with `secs + delta`.
#[verifier::external_body]
fn checked_add_signed(secs: i64, delta: i64) -> (r: Option<i64>)
    requires
        -(i64::MAX / 1000) <= delta <= i64::MAX / 1000,
    ensures
        r == (if timestamp_in_range(secs as int) && timestamp_in_range(secs + delta) {
            Some((secs + delta) as i64)
        } else {
            None
        }),
{
    match chrono::DateTime::from_timestamp(secs, 0) {
        Some(dt) => match dt.checked_add_signed(chrono::TimeDelta::seconds(delta)) {
            Some(t) => Some(t.timestamp()),
            None => None,
        },
        None => None,
    }
}

/// Calls chrono's `DateTime::<Utc>::format(fmt).to_string()` on the instant
/// `secs`. Claims: a text exactly when the instant lies in chrono's range,
/// and then the text is the named result. Only the format this library uses
/// is admitted, since `to_string` panics on a format chrono cannot write.
#[verifier::external_body]
fn format_instant(secs: i64, fmt: &str) -> (r: Option<String>)
    requires
        fmt@ == "%Y-%m-%d"@,
    ensures
        r is Some <==> timestamp_in_range(secs as int),
        r matches Some(s) ==> s@ == formatted_instant(secs as int, fmt@),
{
    match chrono::DateTime::from_timestamp(secs, 0) {
        Some(dt) => Some(dt.format(fmt).to_string()),
        None => None,
    }
}

/// Calls chrono's `NaiveDate::parse_from_str(text, fmt)` and hands out the
/// date's year, month and day, or the kind of the parse error (all that a
/// chrono `ParseError` holds). Claims that the result is the named one.
#[verifier::external_body]
fn parse_date(text: &str, fmt: &str) -> (r: Result<CalendarDate, ParseFailure>)
    ensures
        match r {
            Ok(d) => parsed_date(text@, fmt@) == Ok::<(int, int, int), ParseFailure>(
                (d.year as int, d.month as int, d.day as int),
            ),
            Err(f) => parsed_date(text@, fmt@) == Err::<(int, int, int), ParseFailure>(f),
        },
{
    match chrono::NaiveDate::parse_from_str(text, fmt) {
        Ok(d) => Ok(CalendarDate { year: d.year(), month: d.month(), day: d.day() }),
        Err(e) => Err(match e.kind() {
            ParseErrorKind::OutOfRange => ParseFailure::OutOfRange,
            ParseErrorKind::Impossible => ParseFailure::Impossible,
            ParseErrorKind::NotEnough => ParseFailure::NotEnough,
            ParseErrorKind::Invalid => ParseFailure::Invalid,
            ParseErrorKind::TooShort => ParseFailure::TooShort,
            ParseErrorKind::TooLong => ParseFailure::TooLong,
            ParseErrorKind::BadFormat => ParseFailure::BadFormat,
            _ => ParseFailure::Other,
        }),
    }
}

/// The format in which the date of an instant is written and read back.
pub open spec fn date_format() -> Seq<char> {
    "%Y-%m-%d"@
}

/// Five hours, the offset of the East Coast from UTC.
pub open spec fn east_coast_offset() -> int {
    18000int
}

/// The move of an instant by a number of days, into the past or the future.
pub open spec fn day_shift(days: int, past: bool) -> int {
    if past {
        -(days * 86400)
    } else {
        days * 86400
    }
}

/// The date that chrono reads back from the text it writes for `instant`, or
/// chrono's parse error.
pub open spec fn date_of(instant: int) -> Result<CalendarDate, Error> {
    match parsed_date(formatted_instant(instant, date_format()), date_format()) {
        Ok((y, m, d)) => Ok(CalendarDate { year: y as i32, month: m as u32, day: d as u32 }),
        Err(f) => Err(Error::ChronoError(f)),
    }
}

/// Today's East Coast date at the UTC instant `now`; a range error where
/// chrono cannot represent the instant or five hours before it.
pub open spec fn east_coast_today(now: int) -> Result<CalendarDate, Error> {
    let east = now - east_coast_offset();
    if timestamp_in_range(now) && timestamp_in_range(east) {
        date_of(east)
    } else {
        Err(Error::DateOutOfRange)
    }
}

/// The instant whose date is the East Coast date `days` days before (`past`)
/// or after today, at the UTC instant `now`.
pub open spec fn moved_instant(now: int, days: int, past: bool) -> int {
    now - east_coast_offset() + day_shift(days, past)
}

/// chrono represents the instant `now`, the East Coast instant five hours
/// before it, and that instant moved by `days` days.
pub open spec fn date_in_days_in_range(now: int, days: int, past: bool) -> bool {
    &&& timestamp_in_range(now)
    &&& timestamp_in_range(now - east_coast_offset())
    &&& timestamp_in_range(moved_instant(now, days, past))
}

/// The East Coast date `days` days before (`past`) or after today at the UTC
/// instant `now`; a range error where chrono cannot represent the instants.
pub open spec fn east_coast_date_in_days(now: int, days: int, past: bool) -> Result<CalendarDate, Error> {
    if date_in_days_in_range(now, days, past) {
        date_of(moved_instant(now, days, past))
    } else {
        Err(Error::DateOutOfRange)
    }
}

/// The number of days that chrono's `TimeDelta::days` accepts.
pub open spec fn days_in_delta_range(days: int) -> bool {
    -(i64::MAX / 1000) <= days * 86400 <= i64::MAX / 1000
}

/// The date of an instant, written by chrono and read back by chrono.
fn date_of_instant(instant: i64) -> (r: Result<CalendarDate, Error>)
    requires
        timestamp_in_range(instant as int),
    ensures
        r == date_of(instant as int),
{
    let fmt = "%Y-%m-%d";
    let text = format_instant(instant, fmt);
    match text {
        Some(t) => match parse_date(t.as_str(), fmt) {
            Ok(d) => Ok(d),
            Err(f) => Err(Error::ChronoError(f)),
        },
        None => Err(Error::DateOutOfRange),
    }
}

/// Today's date on the East Coast when the UTC instant is `now`. chrono
/// must represent `now` and the instant five hours before it (the original
/// unwraps chrono's subtraction there).
pub fn east_coast_date_today_at(now: i64) -> (r: Result<CalendarDate, Error>)
    requires
        timestamp_in_range(now as int),
        timestamp_in_range(now - east_coast_offset()),
    ensures
        r == date_of(now - east_coast_offset()),
{
    match checked_sub_signed(now, 5 * 3600) {
        Some(east) => date_of_instant(east),
        None => Err(Error::DateOutOfRange),
    }
}

/// Today's date on the East Coast: the date chrono reads back, or its parse
/// error; never a range error.
pub fn east_coast_date_today() -> (r: Result<CalendarDate, Error>)
    ensures
        exists|now: int| 0 <= now <= last_timestamp() && r == #[trigger] east_coast_today(now),
        !(r matches Err(Error::DateOutOfRange)),
{
    let now = utc_now_timestamp();
    let r = east_coast_date_today_at(now);
    assert(r == east_coast_today(now as int));
    r
}

/// The East Coast date `days` days before (`past`) or after (`!past`) today,
/// when the UTC instant is `now`. `days` must be a span chrono's `TimeDelta`
/// holds, and chrono must represent the instants involved (the original
/// unwraps chrono's arithmetic there).
pub fn east_coast_date_at(now: i64, days: i64, past: bool) -> (r: Result<CalendarDate, Error>)
    requires
        days_in_delta_range(days as int),
        date_in_days_in_range(now as int, days as int, past),
    ensures
        r == date_of(moved_instant(now as int, days as int, past)),
{
    let east = match checked_sub_signed(now, 5 * 3600) {
        Some(t) => t,
        None => {
            return Err(Error::DateOutOfRange);
        },
    };
    let delta = days * 86400;
    let moved = if past {
        checked_sub_signed(east, delta)
    } else {
        checked_add_signed(east, delta)
    };
    match moved {
        Some(t) => date_of_instant(t),
        None => Err(Error::DateOutOfRange),
    }
}

/// The East Coast date `days` days before (`past`) or after (`!past`) today.
/// Where the moved instant leaves chrono's range, on which the original
/// panics, the answer is `Err(Error::DateOutOfRange)`: the clock is read
/// here, so no `requires` can exclude those day counts.
pub fn east_coast_date_in_x_days(days: i64, past: bool) -> (r: Result<CalendarDate, Error>)
    requires
        days_in_delta_range(days as int),
    ensures
        exists|now: int|
            0 <= now <= last_timestamp() && r == #[trigger] east_coast_date_in_days(
                now,
                days as int,
                past,
            ),
{
    let now = utc_now_timestamp();
    let delta = days * 86400;
    let moved: i64 = if past {
        now - 18000 - delta
    } else {
        now - 18000 + delta
    };
    let r = if FIRST_TIMESTAMP <= moved && moved <= LAST_TIMESTAMP {
        east_coast_date_at(now, days, past)
    } else {
        Err(Error::DateOutOfRange)
    };
    assert(r == east_coast_date_in_days(now as int, days as int, past));
    r
}

} // verus!
