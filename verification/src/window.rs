//! The window of dates to ask the provider for.
//!
//! A window is either what the caller supplied, passed through untouched, or
//! the single day that it is right now on the property's own clock. The local
//! day follows the zone's offset from UTC at that very instant, as the time
//! zone database records it, so it stays right across daylight saving changes.

use vstd::prelude::*;
use chrono::{Offset, TimeZone};
use crate::calendar::{CivilDate, date_of_day_number, date_text, day_number_of};
use crate::calendar::{lemma_days_before_month_values, lemma_days_before_year_closed};

verus! {

/// The first and the last date of a query, as the provider receives them.
#[derive(Clone, Debug, PartialEq, Eq)]
pub struct DateWindow {
    pub start_date: String,
    pub end_date: String,
}

/// Mathematical value of a [`DateWindow`].
pub struct DateWindowView {
    pub start_date: Seq<char>,
    pub end_date: Seq<char>,
}

impl View for DateWindow {
    type V = DateWindowView;

    open spec fn view(&self) -> DateWindowView {
        DateWindowView { start_date: self.start_date@, end_date: self.end_date@ }
    }
}

/// Why the local day could not be resolved.
#[derive(Clone, Copy, Debug, PartialEq, Eq, Structural)]
pub enum ResolveError {
    /// The time zone database gives no offset for the zone identifier.
    UnknownZone,
    /// The instant, or the local date at it, has a year outside 0000 to 9999,
    /// so there is no `YYYY-MM-DD` for it.
    InstantOutOfRange,
}

/// 0000-01-01T00:00:00Z, in seconds since 1970-01-01T00:00:00Z.
pub const EARLIEST_INSTANT: i64 = -62_167_219_200;

/// 9999-12-31T23:59:59Z, in seconds since 1970-01-01T00:00:00Z.
pub const LATEST_INSTANT: i64 = 253_402_300_799;

/// The instant lies in the years 0000 to 9999 of UTC.
pub open spec fn instant_in_range(unix_seconds: i64) -> bool {
    EARLIEST_INSTANT <= unix_seconds <= LATEST_INSTANT
}

/// The offset from UTC, in seconds east, that the time zone database records
/// for `zone` at the instant `unix_seconds` (seconds since 1970-01-01T00:00:00Z);
/// `None` where the database gives none.
pub uninterp spec fn zone_utc_offset(zone: Seq<char>, unix_seconds: i64) -> Option<i32>;

/// Looks the zone's offset up in the IANA database that `chrono-tz` carries.
///
/// Trusted: the result is what `chrono_tz::Tz::offset_from_utc_datetime` gives
/// for the zone that `zone` names, at the instant, read as seconds east of
/// UTC. It is `None` where `Tz::from_str` rejects the identifier, or
/// `chrono::DateTime::from_timestamp` the instant, which it does not do to an
/// instant in range. The contract claims only that the same zone and instant
/// always give the same result.
#[verifier::external_body]
fn lookup_utc_offset(zone: &str, unix_seconds: i64) -> (offset: Option<i32>)
    requires
        instant_in_range(unix_seconds),
    ensures
        offset == zone_utc_offset(zone@, unix_seconds),
{
    let tz: chrono_tz::Tz = zone.parse().ok()?;
    let utc = chrono::DateTime::from_timestamp(unix_seconds, 0)?;
    Some(tz.offset_from_utc_datetime(&utc.naive_utc()).fix().local_minus_utc())
}

/// The text of an optional parameter: empty where it is absent.
pub open spec fn text_or_empty(text: Option<String>) -> Seq<char> {
    match text {
        Some(t) => t@,
        None => Seq::empty(),
    }
}

/// The number of the local day: whole days between 1970-01-01 and the wall
/// clock of a zone that is `utc_offset_seconds` east of UTC at the instant.
pub open spec fn local_day_number(unix_seconds: int, utc_offset_seconds: int) -> int {
    (unix_seconds + utc_offset_seconds) / 86_400
}

/// The calendar date on that wall clock.
pub open spec fn local_date(unix_seconds: int, utc_offset_seconds: int) -> CivilDate {
    date_of_day_number(local_day_number(unix_seconds, utc_offset_seconds))
}

/// The local day as text, given what the database said of the zone's offset.
pub open spec fn today_at_offset(unix_seconds: i64, offset: Option<i32>) -> Result<
    Seq<char>,
    ResolveError,
> {
    match offset {
        None => Err(ResolveError::UnknownZone),
        Some(seconds_east) => {
            let date = local_date(unix_seconds as int, seconds_east as int);
            if 0 <= date.year <= 9999 {
                Ok(date_text(date))
            } else {
                Err(ResolveError::InstantOutOfRange)
            }
        },
    }
}

/// The local day in `zone` as text: for an instant in range, by the offset
/// that the time zone database records for the zone at that very instant.
pub open spec fn today_in_zone(unix_seconds: i64, zone: Seq<char>) -> Result<
    Seq<char>,
    ResolveError,
> {
    if instant_in_range(unix_seconds) {
        today_at_offset(unix_seconds, zone_utc_offset(zone, unix_seconds))
    } else {
        Err(ResolveError::InstantOutOfRange)
    }
}

/// The range of instants begins with the year 0000 and ends with the year 9999.
pub proof fn lemma_instant_range_is_four_digit_years()
    ensures
        EARLIEST_INSTANT == 86_400 * day_number_of(0, 1, 1),
        LATEST_INSTANT + 1 == 86_400 * day_number_of(10_000, 1, 1),
{
    lemma_days_before_year_closed(0);
    lemma_days_before_year_closed(10_000);
    lemma_days_before_month_values(0);
    lemma_days_before_month_values(10_000);
}

/// The window that starts and ends on one date.
pub open spec fn single_day(date: Seq<char>) -> DateWindowView {
    DateWindowView { start_date: date, end_date: date }
}

/// `outcome` is the single-day window of `expected`, or its error.
pub open spec fn is_single_day(
    outcome: Result<DateWindow, ResolveError>,
    expected: Result<Seq<char>, ResolveError>,
) -> bool {
    match expected {
        Ok(date) => outcome matches Ok(window) && window@ == single_day(date),
        Err(error) => outcome == Err::<DateWindow, ResolveError>(error),
    }
}

/// Resolves the window of dates of a request.
pub struct DateWindowResolver;

impl DateWindowResolver {
    /// Passes the caller's dates through unchanged and unvalidated; an absent
    /// one becomes the empty text.
    pub fn resolve_explicit(start: Option<String>, end: Option<String>) -> (window: DateWindow)
        ensures
            window@.start_date == text_or_empty(start),
            window@.end_date == text_or_empty(end),
    {
        let start_date = match start {
            Some(text) => text,
            None => String::new(),
        };
        let end_date = match end {
            Some(text) => text,
            None => String::new(),
        };
        DateWindow { start_date, end_date }
    }

    /// The calendar date shown by a clock that is `utc_offset_seconds` east
    /// of UTC, at the instant `unix_seconds`.
    pub fn local_date(unix_seconds: i64, utc_offset_seconds: i32) -> (date: CivilDate)
        ensures
            date.valid(),
            date.day_number() == local_day_number(unix_seconds as int, utc_offset_seconds as int),
            date == local_date(unix_seconds as int, utc_offset_seconds as int),
    {
        let local_seconds: i128 = unix_seconds as i128 + utc_offset_seconds as i128;
        let day: i128 = local_seconds.checked_div_euclid(86_400).unwrap();
        CivilDate::from_day_number(day as i64)
    }

    /// The single-day window of the local date, given the offset that the
    /// time zone database returned for the zone at the instant.
    pub fn today_at_offset(unix_seconds: i64, offset: Option<i32>) -> (outcome: Result<
        DateWindow,
        ResolveError,
    >)
        ensures
            is_single_day(outcome, today_at_offset(unix_seconds, offset)),
            outcome matches Ok(window) ==> window@.start_date == window@.end_date,
    {
        match offset {
            None => Err(ResolveError::UnknownZone),
            Some(seconds_east) => {
                let date = Self::local_date(unix_seconds, seconds_east);
                match date.iso_text() {
                    Some(text) => {
                        let end_date = text.clone();
                        Ok(DateWindow { start_date: text, end_date })
                    },
                    None => Err(ResolveError::InstantOutOfRange),
                }
            },
        }
    }

    /// The window of the day that it is in `zone` at the instant
    /// `unix_seconds`: that date as both its start and its end.
    ///
    /// The date is the one on the zone's wall clock, by the offset that the
    /// time zone database records for that instant. The database is asked
    /// only about instants in range.
    pub fn resolve_local_today(unix_seconds: i64, zone: &str) -> (outcome: Result<
        DateWindow,
        ResolveError,
    >)
        ensures
            is_single_day(outcome, today_in_zone(unix_seconds, zone@)),
            outcome matches Ok(window) ==> window@.start_date == window@.end_date,
    {
        if unix_seconds < EARLIEST_INSTANT || unix_seconds > LATEST_INSTANT {
            return Err(ResolveError::InstantOutOfRange);
        }
        let offset = lookup_utc_offset(zone, unix_seconds);
        Self::today_at_offset(unix_seconds, offset)
    }
}

} // verus!
