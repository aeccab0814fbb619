//! Moments on the local clock, and the calendar work done on them.
//!
//! The calendar itself is `chrono`'s. This module holds the plain values the
//! triggers reason about, says in a few spec functions what those values mean
//! on the local clock, and wraps each `chrono` operation the triggers need.
//!
//! The wrappers at the end of the module are believed, not proved: each says
//! above its contract which operation it stands for and what it claims of it.
//! They rebuild `chrono`'s date-time from a [`LocalMoment`] and answer `None`
//! where there is none to rebuild. What zone the local clock is in is the
//! machine's business; `chrono` reads it where it needs it, and panics if the
//! zone data it finds cannot be searched or names an offset of a day or
//! more. No argument decides that, so no contract here can rule it out.
use vstd::prelude::*;
use chrono::{Datelike, TimeZone, Timelike};

verus! {

/// The first instant of `chrono`'s calendar, in epoch seconds: midnight UTC
/// on 1 January of the year -262143.
pub const MIN_EPOCH_SECONDS: i64 = -8_334_601_228_800;

/// The last instant of `chrono`'s calendar, in epoch seconds: the last second
/// UTC of 31 December of the year 262142.
pub const MAX_EPOCH_SECONDS: i64 = 8_210_266_876_799;

/// The instant lies on `chrono`'s calendar.
pub open spec fn on_calendar(epoch_seconds: int) -> bool {
    MIN_EPOCH_SECONDS <= epoch_seconds <= MAX_EPOCH_SECONDS
}

/// A moment as the local clock shows it: an instant, and how far the local
/// clock runs ahead of UTC at that instant.
#[derive(Clone, Copy, Debug, PartialEq, Eq, Structural)]
pub struct LocalMoment {
    /// Seconds since 1970-01-01T00:00:00 UTC, leap seconds not counted.
    pub epoch_seconds: i64,
    /// Seconds to add to UTC to get the local time.
    pub utc_offset: i32,
}

impl LocalMoment {
    /// The offset is one that a time zone can have: less than a day either
    /// way.
    pub open spec fn offset_in_range(self) -> bool {
        -86_400 < self.utc_offset < 86_400
    }

    /// The moment can be read on the calendar: its instant lies on it, and
    /// its offset is one that a time zone can have.
    pub open spec fn readable(self) -> bool {
        on_calendar(self.epoch_seconds as int) && self.offset_in_range()
    }

    /// Seconds the local clock has counted since its own 1970-01-01T00:00:00.
    pub open spec fn local_seconds(self) -> int {
        self.epoch_seconds + self.utc_offset
    }

    /// The local calendar day, counted from 1970-01-01 as day 0.
    pub open spec fn civil_day(self) -> int {
        self.local_seconds() / 86_400
    }

    /// Seconds since local midnight.
    pub open spec fn second_of_day(self) -> int {
        self.local_seconds() % 86_400
    }

    /// The hour the local clock shows, 0 to 23.
    pub open spec fn hour(self) -> int {
        self.second_of_day() / 3600
    }

    /// The minute the local clock shows, 0 to 59.
    pub open spec fn minute(self) -> int {
        (self.second_of_day() / 60) % 60
    }

    /// The second the local clock shows, 0 to 59.
    pub open spec fn second(self) -> int {
        self.second_of_day() % 60
    }

    /// The local day of the week, Sunday being 0. Day 0 was a Thursday.
    pub open spec fn weekday(self) -> int {
        (self.civil_day() + 4) % 7
    }

    /// Two moments that lie a whole number of days apart on the local clock
    /// show the same time of day, on calendar days that many apart. The
    /// instants lie that many times 86400 seconds apart only if the offset is
    /// the same at both: a change of offset in between, as at the start or
    /// the end of summer time, is taken up by the instants and not by the
    /// clock. A whole number of weeks apart, the weekday is the same too.
    pub proof fn lemma_whole_days_apart(self, later: LocalMoment, days: int)
        requires
            later.local_seconds() == self.local_seconds() + days * 86_400,
        ensures
            later.civil_day() == self.civil_day() + days,
            later.second_of_day() == self.second_of_day(),
            later.hour() == self.hour(),
            later.minute() == self.minute(),
            later.second() == self.second(),
            later.epoch_seconds - self.epoch_seconds == days * 86_400 - (later.utc_offset
                - self.utc_offset),
            days % 7 == 0 ==> later.weekday() == self.weekday(),
    {
    }
}

/// What the local time zone answers when asked for the local time of an
/// instant.
#[derive(Clone, Copy, Debug, PartialEq, Eq, Structural)]
pub enum LocalLookup {
    /// Exactly one local time.
    Single(LocalMoment),
    /// Two candidates, as around a clock change.
    Ambiguous(LocalMoment, LocalMoment),
    /// No local time at all.
    Missing,
}

impl LocalLookup {
    /// Every candidate is a reading of the instant `epoch_seconds`, at an
    /// offset that a time zone can have.
    pub open spec fn reads(self, epoch_seconds: int) -> bool {
        match self {
            LocalLookup::Single(only) => {
                &&& only.epoch_seconds == epoch_seconds
                &&& only.offset_in_range()
            },
            LocalLookup::Ambiguous(first, second) => {
                &&& first.epoch_seconds == epoch_seconds
                &&& first.offset_in_range()
                &&& second.epoch_seconds == epoch_seconds
                &&& second.offset_in_range()
            },
            LocalLookup::Missing => true,
        }
    }

    /// The candidate to go by: the only one, or of two the one with the
    /// earlier instant (the first, if they name the same instant).
    pub open spec fn earliest_spec(self) -> Option<LocalMoment> {
        match self {
            LocalLookup::Single(only) => Some(only),
            LocalLookup::Ambiguous(first, second) => {
                if first.epoch_seconds <= second.epoch_seconds {
                    Some(first)
                } else {
                    Some(second)
                }
            },
            LocalLookup::Missing => None,
        }
    }

    /// Settles a lookup on one moment, or on none if the zone had none.
    pub fn earliest(&self) -> (chosen: Option<LocalMoment>)
        ensures
            chosen == self.earliest_spec(),
    {
        match *self {
            LocalLookup::Single(only) => Some(only),
            LocalLookup::Ambiguous(first, second) => {
                if first.epoch_seconds <= second.epoch_seconds {
                    Some(first)
                } else {
                    Some(second)
                }
            },
            LocalLookup::Missing => None,
        }
    }
}

/// Whether the system clock stands at or after 1970, through
/// `std::time::SystemTime::elapsed` on `std::time::UNIX_EPOCH`.
///
/// Nothing is claimed of the answer: it is the clock's. The triggers ask
/// this before they read the clock through `chrono`, which panics on a clock
/// that stands before 1970.
#[verifier::external_body]
pub(crate) fn clock_is_past_epoch() -> (past: bool) {
    std::time::UNIX_EPOCH.elapsed().is_ok()
}

/// Reads the system clock in the local time zone, through
/// `chrono::Local::now`.
///
/// Claimed: the moment that comes back can be read on the calendar, as
/// every date-time that `chrono` makes can. Nothing else is claimed of it: it
/// is whatever the clock and the zone of this machine say. `chrono` panics
/// here if the system clock stands before 1970, which is why its callers ask
/// `clock_is_past_epoch` first.
#[verifier::external_body]
pub(crate) fn local_now() -> (now: LocalMoment)
    ensures
        now.readable(),
{
    let now = chrono::Local::now();
    LocalMoment { epoch_seconds: now.timestamp(), utc_offset: now.offset().local_minus_utc() }
}

/// Asks the local time zone for the local time of an instant, through
/// `chrono::TimeZone::timestamp_opt` on `chrono::Local`.
///
/// Claimed: nothing comes back exactly for an instant off the calendar; an
/// instant on it has one local time, never two; and what comes back is a
/// reading of the instant asked for, at an offset of less than a day. Which
/// offset that is, is the machine's business.
#[verifier::external_body]
pub(crate) fn local_lookup(epoch_seconds: i64) -> (found: LocalLookup)
    ensures
        found.reads(epoch_seconds as int),
        found is Missing <==> !on_calendar(epoch_seconds as int),
        !(found is Ambiguous),
{
    match chrono::Local.timestamp_opt(epoch_seconds, 0) {
        chrono::LocalResult::Single(a) => LocalLookup::Single(
            LocalMoment { epoch_seconds: a.timestamp(), utc_offset: a.offset().local_minus_utc() },
        ),
        chrono::LocalResult::Ambiguous(a, b) => LocalLookup::Ambiguous(
            LocalMoment { epoch_seconds: a.timestamp(), utc_offset: a.offset().local_minus_utc() },
            LocalMoment { epoch_seconds: b.timestamp(), utc_offset: b.offset().local_minus_utc() },
        ),
        chrono::LocalResult::None => LocalLookup::Missing,
    }
}

/// The local day of the week of a moment, Sunday being 0, through
/// `chrono::Datelike::weekday` and `chrono::Weekday::num_days_from_sunday`.
///
/// Claimed: a weekday comes back exactly for a moment that can be read on
/// the calendar, and is the weekday of the moment's local calendar day.
#[verifier::external_body]
pub(crate) fn weekday_of(moment: &LocalMoment) -> (weekday: Option<u32>)
    ensures
        weekday is Some <==> moment.readable(),
        weekday matches Some(w) ==> w == moment.weekday(),
{
    let utc = chrono::DateTime::from_timestamp(moment.epoch_seconds, 0)?.naive_utc();
    let zone = chrono::FixedOffset::east_opt(moment.utc_offset)?;
    let local = chrono::DateTime::<chrono::Local>::from_naive_utc_and_offset(utc, zone);
    Some(local.weekday().num_days_from_sunday())
}

/// The seconds since local midnight of a moment, through
/// `chrono::DateTime::time` and `chrono::Timelike::num_seconds_from_midnight`.
///
/// Claimed: a count comes back exactly for a moment that can be read on the
/// calendar, and is the moment's second of the local day.
#[verifier::external_body]
pub(crate) fn second_of_day_of(moment: &LocalMoment) -> (seconds: Option<u32>)
    ensures
        seconds is Some <==> moment.readable(),
        seconds matches Some(s) ==> s == moment.second_of_day(),
{
    let utc = chrono::DateTime::from_timestamp(moment.epoch_seconds, 0)?.naive_utc();
    let zone = chrono::FixedOffset::east_opt(moment.utc_offset)?;
    let local = chrono::DateTime::<chrono::Local>::from_naive_utc_and_offset(utc, zone);
    Some(local.time().num_seconds_from_midnight())
}

/// Moves a moment forward by whole calendar days on the local clock, through
/// `chrono::DateTime::checked_add_days`.
///
/// Claimed: a moment that comes back shows the same time of day, `days`
/// local calendar days later. Its offset is the one the zone has at that
/// local time, less than a day either way, so the instants need not lie
/// `days * 86400` seconds apart. None comes back for a moment that cannot be
/// read; `None` also comes back when the date runs off the calendar or the
/// zone has no single local time there.
#[verifier::external_body]
pub(crate) fn plus_days(moment: &LocalMoment, days: u64) -> (moved: Option<LocalMoment>)
    ensures
        moved matches Some(m) ==> {
            &&& moment.readable()
            &&& m.readable()
            &&& m.local_seconds() == moment.local_seconds() + days * 86_400
        },
{
    let utc = chrono::DateTime::from_timestamp(moment.epoch_seconds, 0)?.naive_utc();
    let zone = chrono::FixedOffset::east_opt(moment.utc_offset)?;
    let local = chrono::DateTime::<chrono::Local>::from_naive_utc_and_offset(utc, zone);
    let moved = local.checked_add_days(chrono::Days::new(days))?;
    Some(LocalMoment { epoch_seconds: moved.timestamp(), utc_offset: moved.offset().local_minus_utc() })
}

/// The moment at which the local clock shows a time of day, on the local
/// day a number of days after that of `moment`. The date is found by
/// `chrono::NaiveDateTime::checked_add_offset` and
/// `chrono::NaiveDate::checked_add_days`, the time is set by
/// `chrono::NaiveDate::and_hms_opt`, and the zone is asked through
/// `chrono::TimeZone::from_local_datetime` on `chrono::Local`.
///
/// Claimed: a moment that comes back can be read on the calendar, lies
/// `days` local calendar days after the day of `moment`, and shows the hour,
/// the minute and the second asked for; and none comes back for a moment
/// that cannot be read, an hour of 24 or more, or a minute or a second of 60
/// or more. `None` also comes back when the date runs off the calendar, or
/// the zone has not exactly one such local time.
#[verifier::external_body]
pub(crate) fn on_day_at(
    moment: &LocalMoment,
    days: u64,
    hour: u32,
    minute: u32,
    second: u32,
) -> (set: Option<LocalMoment>)
    ensures
        set matches Some(m) ==> {
            &&& moment.readable()
            &&& hour < 24
            &&& minute < 60
            &&& second < 60
            &&& m.readable()
            &&& m.civil_day() == moment.civil_day() + days
            &&& m.second_of_day() == hour * 3600 + minute * 60 + second
        },
{
    let utc = chrono::DateTime::from_timestamp(moment.epoch_seconds, 0)?.naive_utc();
    let zone = chrono::FixedOffset::east_opt(moment.utc_offset)?;
    let day = utc.checked_add_offset(zone)?.date().checked_add_days(chrono::Days::new(days))?;
    let set = chrono::Local.from_local_datetime(&day.and_hms_opt(hour, minute, second)?).single()?;
    Some(LocalMoment { epoch_seconds: set.timestamp(), utc_offset: set.offset().local_minus_utc() })
}

} // verus!
