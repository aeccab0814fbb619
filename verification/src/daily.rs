//! A trigger that fires at a fixed local time of day, once per cycle of days.
use vstd::prelude::*;
use crate::error::TriggerError;
use crate::local_time::{
    clock_is_past_epoch, local_lookup, local_now, on_calendar, on_day_at, plus_days,
    second_of_day_of, weekday_of, LocalLookup, LocalMoment,
};
use crate::log_file::LogFile;
use crate::schedule::{
    days_to_first_trigger, first_trigger_days, fold_time_of_day, folded_hour, folded_minute,
    lemma_first_trigger_opens_a_cycle, lemma_weeks_from_anchor, period_of,
};
use crate::trigger::Trigger;

verus! {

/// A trigger which rolls the log on a daily basis.
///
/// It keeps one threshold, an instant in epoch seconds. An evaluation before
/// the threshold changes nothing; one at or after it asks for a rotation and
/// moves the threshold one cycle of `skip_days + 1` calendar days on, keeping
/// the local time of day. A trigger whose calendar work has failed once
/// keeps the fault and never asks for a rotation again.
#[derive(Clone, Copy, Debug)]
pub struct DailyTrigger {
    next_seconds: i64,
    hour: u32,
    minute: u32,
    skip_days: u32,
    start_day_of_week: u32,
    fault: Option<TriggerError>,
}

impl DailyTrigger {
    /// The threshold: the instant, in epoch seconds, from which the next
    /// evaluation fires.
    pub closed spec fn spec_next_seconds(&self) -> i64 {
        self.next_seconds
    }

    /// The hour of the local time of day at which the trigger fires.
    pub closed spec fn spec_hour(&self) -> u32 {
        self.hour
    }

    /// The minute of the local time of day at which the trigger fires.
    pub closed spec fn spec_minute(&self) -> u32 {
        self.minute
    }

    /// The days left out between two rotations.
    pub closed spec fn spec_skip_days(&self) -> u32 {
        self.skip_days
    }

    /// The weekday on which the cycle is anchored, Sunday being 0.
    pub closed spec fn spec_start_day_of_week(&self) -> u32 {
        self.start_day_of_week
    }

    /// The fault that has put the trigger out of work, if one has.
    pub closed spec fn spec_fault(&self) -> Option<TriggerError> {
        self.fault
    }

    /// The same trigger, put out of work by `fault`.
    pub closed spec fn faulted_with(&self, fault: TriggerError) -> DailyTrigger {
        DailyTrigger {
            next_seconds: self.next_seconds,
            hour: self.hour,
            minute: self.minute,
            skip_days: self.skip_days,
            start_day_of_week: self.start_day_of_week,
            fault: Some(fault),
        }
    }

    /// The same trigger with its threshold at `next_seconds`.
    pub closed spec fn moved_to(&self, next_seconds: i64) -> DailyTrigger {
        DailyTrigger {
            next_seconds,
            hour: self.hour,
            minute: self.minute,
            skip_days: self.skip_days,
            start_day_of_week: self.start_day_of_week,
            fault: self.fault,
        }
    }

    /// `self` is `before` with its threshold moved to `next_seconds`: the
    /// schedule and the fault, if there is one, are those of `before`.
    pub open spec fn rescheduled_from(&self, before: &DailyTrigger, next_seconds: i64) -> bool {
        &&& *self == before.moved_to(next_seconds)
        &&& self.spec_next_seconds() == next_seconds
        &&& self.spec_fault() == before.spec_fault()
        &&& self.same_schedule(before)
    }

    /// `self` is `before`, put out of work by `fault`: it holds the fault, and
    /// its threshold and its schedule are those of `before`.
    pub open spec fn stopped_by(&self, before: &DailyTrigger, fault: TriggerError) -> bool {
        &&& *self == before.faulted_with(fault)
        &&& self.spec_fault() == Some(fault)
        &&& self.spec_next_seconds() == before.spec_next_seconds()
        &&& self.same_schedule(before)
    }

    /// What every trigger made by this module satisfies: its time of day is
    /// one that a day has, and its anchor is a weekday.
    #[verifier::type_invariant]
    pub open spec fn well_formed(&self) -> bool {
        &&& self.spec_hour() < 24
        &&& self.spec_minute() < 60
        &&& self.spec_start_day_of_week() < 7
    }

    /// The length of the cycle in days.
    pub open spec fn period(&self) -> int {
        period_of(self.spec_skip_days() as int)
    }

    /// The time of day at which the trigger fires, in seconds since local
    /// midnight.
    pub open spec fn time_of_day_seconds(&self) -> int {
        self.spec_hour() * 3600 + self.spec_minute() * 60
    }

    /// `other` has the same time of day, skipped days and anchor weekday.
    pub open spec fn same_schedule(&self, other: &DailyTrigger) -> bool {
        &&& self.spec_hour() == other.spec_hour()
        &&& self.spec_minute() == other.spec_minute()
        &&& self.spec_skip_days() == other.spec_skip_days()
        &&& self.spec_start_day_of_week() == other.spec_start_day_of_week()
    }

    /// The threshold as a local moment, if the local clock runs `utc_offset`
    /// seconds ahead of UTC at that instant.
    pub open spec fn threshold_read(&self, utc_offset: i32) -> LocalMoment {
        LocalMoment { epoch_seconds: self.spec_next_seconds(), utc_offset }
    }

    /// How many days after the local day of `now` the first trigger point
    /// of a trigger made at `now` lies.
    pub open spec fn days_ahead(&self, now: LocalMoment) -> int {
        days_to_first_trigger(
            now.weekday(),
            self.spec_start_day_of_week() as int,
            self.period(),
            now.second_of_day() < self.time_of_day_seconds(),
        )
    }

    /// `target` is the first trigger point for a trigger made at `now`: it
    /// shows the configured time of day on the minute, on the local day that
    /// lies as many days after today as the cycle asks for.
    pub open spec fn is_first_trigger_point(&self, now: LocalMoment, target: LocalMoment) -> bool {
        &&& target.readable()
        &&& target.civil_day() == now.civil_day() + self.days_ahead(now)
        &&& target.second_of_day() == self.time_of_day_seconds()
    }

    /// `point` is a possible first trigger point of `self` for the moment
    /// `now`, or the fault that kept it from being found.
    ///
    /// A moment that cannot be read on the calendar gives `UnreadableMoment`,
    /// and no other does. For one that can be read the local zone decides:
    /// either the point is the first trigger point, or the zone has not
    /// exactly one moment that shows the time of day on that day.
    pub open spec fn first_point_found(
        &self,
        now: LocalMoment,
        point: Result<LocalMoment, TriggerError>,
    ) -> bool {
        match point {
            Ok(target) => now.readable() && self.is_first_trigger_point(now, target),
            Err(fault) => fault == if now.readable() {
                TriggerError::TimeOfDayUnavailable
            } else {
                TriggerError::UnreadableMoment
            },
        }
    }

    /// `made` is a possible outcome of making a trigger at the moment `now`
    /// from the three configured numbers.
    ///
    /// No number is refused. A trigger that is made holds the folded time of
    /// day, the skipped days as given, the anchor weekday modulo 7, no fault,
    /// and as its threshold the instant of its first trigger point. A fault
    /// is the one that kept the first trigger point from being found.
    pub open spec fn constructed_at(
        now: LocalMoment,
        time_of_day: u32,
        skip_days: u32,
        start_day_of_week: u32,
        made: Result<DailyTrigger, TriggerError>,
    ) -> bool {
        match made {
            Ok(trigger) => {
                &&& now.readable()
                &&& trigger.well_formed()
                &&& trigger.spec_hour() == folded_hour(time_of_day as int)
                &&& trigger.spec_minute() == folded_minute(time_of_day as int)
                &&& trigger.spec_skip_days() == skip_days
                &&& trigger.spec_start_day_of_week() == start_day_of_week % 7
                &&& trigger.spec_fault() is None
                &&& exists|utc_offset: i32|
                    trigger.is_first_trigger_point(now, #[trigger] trigger.threshold_read(utc_offset))
            },
            Err(fault) => fault == if now.readable() {
                TriggerError::TimeOfDayUnavailable
            } else {
                TriggerError::UnreadableMoment
            },
        }
    }

    /// `made` is a possible outcome of making a trigger on the system clock:
    /// either the clock could not be read, or the trigger was made at the
    /// moment that the clock showed.
    pub open spec fn constructed_on_clock(
        time_of_day: u32,
        skip_days: u32,
        start_day_of_week: u32,
        made: Result<DailyTrigger, TriggerError>,
    ) -> bool {
        ||| made == Err::<DailyTrigger, TriggerError>(TriggerError::UnreadableMoment)
        ||| exists|now: LocalMoment|
            now.readable() && #[trigger] Self::constructed_at(
                now,
                time_of_day,
                skip_days,
                start_day_of_week,
                made,
            )
    }

    /// The threshold of `self`, read at offset `to`, shows the same local time
    /// of day as the threshold of `before`, read at offset `from`, one period
    /// of `before` later; and both offsets are such as a time zone can have.
    pub open spec fn moved_one_period(&self, before: &DailyTrigger, from: i32, to: i32) -> bool {
        &&& before.threshold_read(from).offset_in_range()
        &&& self.threshold_read(to).offset_in_range()
        &&& self.threshold_read(to).local_seconds() == before.threshold_read(from).local_seconds()
            + before.period() * 86_400
    }

    /// `answer` and `after` are the result of settling `self` on `moved`, what
    /// the calendar answered when asked for the threshold one period on.
    ///
    /// A trigger out of work answers its fault and stays as it is. One at
    /// work takes a moment whose instant is later than its threshold: that
    /// instant becomes the threshold, nothing else changes, and the moment is
    /// handed back. Where the calendar had no moment, or one that is not
    /// later, the fault is `DayShiftFailed`; it puts the trigger out of work
    /// and changes nothing else.
    pub open spec fn settled_from(
        &self,
        moved: Option<LocalMoment>,
        after: &DailyTrigger,
        answer: Result<LocalMoment, TriggerError>,
    ) -> bool {
        match self.spec_fault() {
            Some(standing) => {
                &&& answer == Err::<LocalMoment, TriggerError>(standing)
                &&& *after == *self
            },
            None => match moved {
                Some(next) if next.epoch_seconds > self.spec_next_seconds() => {
                    &&& answer == Ok::<LocalMoment, TriggerError>(next)
                    &&& after.rescheduled_from(self, next.epoch_seconds)
                },
                _ => {
                    &&& answer == Err::<LocalMoment, TriggerError>(TriggerError::DayShiftFailed)
                    &&& after.stopped_by(self, TriggerError::DayShiftFailed)
                },
            },
        }
    }

    /// `moved` and `after` are a possible result of moving the threshold of
    /// `self` on from the reading `found`.
    ///
    /// A trigger out of work answers its fault and stays as it is. For one
    /// at work, a lookup that found nothing is a fault. Else the calendar
    /// decides: either the threshold has become the instant of the moment
    /// handed back, which is later than the old threshold and shows the time
    /// of day of the reading gone by, one period of calendar days later; or
    /// the move failed. A fault puts the trigger out of work and changes
    /// nothing else.
    pub open spec fn advanced_from(
        &self,
        found: LocalLookup,
        after: &DailyTrigger,
        moved: Result<LocalMoment, TriggerError>,
    ) -> bool {
        match self.spec_fault() {
            Some(standing) => {
                &&& moved == Err::<LocalMoment, TriggerError>(standing)
                &&& *after == *self
            },
            None => match moved {
                Ok(next) => {
                    &&& found.earliest_spec() matches Some(last)
                    &&& next.local_seconds() == last.local_seconds() + self.period() * 86_400
                    &&& next.readable()
                    &&& next.epoch_seconds > self.spec_next_seconds()
                    &&& after.rescheduled_from(self, next.epoch_seconds)
                },
                Err(fault) => {
                    &&& after.stopped_by(self, fault)
                    &&& fault == if found.earliest_spec() is None {
                        TriggerError::UnreadableMoment
                    } else {
                        TriggerError::DayShiftFailed
                    }
                },
            },
        }
    }

    /// `outcome` and `after` are a possible result of evaluating `self` at the
    /// instant `now`.
    ///
    /// Before the threshold the answer is `Ok(false)` and nothing changes.
    /// From the threshold on, a trigger out of work answers its fault and
    /// stays as it is. One at work either answers `Ok(true)`, with the
    /// schedule as before and the threshold moved to a later instant that
    /// shows the same local time of day one period of calendar days on, for
    /// the offsets that the local zone gave to the old and the new
    /// threshold; or the calendar failed, which puts the trigger out of work
    /// and changes nothing else. A threshold that does not lie on the
    /// calendar always fails, with `UnreadableMoment`, and no other does
    /// with that fault.
    pub open spec fn evaluated_at(
        &self,
        now: i64,
        after: &DailyTrigger,
        outcome: Result<bool, TriggerError>,
    ) -> bool {
        if now < self.spec_next_seconds() {
            &&& outcome == Ok::<bool, TriggerError>(false)
            &&& *after == *self
        } else {
            match self.spec_fault() {
                Some(standing) => {
                    &&& outcome == Err::<bool, TriggerError>(standing)
                    &&& *after == *self
                },
                None => match outcome {
                    Ok(fired) => {
                        &&& fired
                        &&& on_calendar(self.spec_next_seconds() as int)
                        &&& after.rescheduled_from(self, after.spec_next_seconds())
                        &&& after.spec_next_seconds() > self.spec_next_seconds()
                        &&& exists|from: i32, to: i32| #[trigger]
                            after.moved_one_period(self, from, to)
                    },
                    Err(fault) => {
                        &&& after.stopped_by(self, fault)
                        &&& fault == if on_calendar(self.spec_next_seconds() as int) {
                            TriggerError::DayShiftFailed
                        } else {
                            TriggerError::UnreadableMoment
                        }
                    },
                },
            }
        }
    }

    /// `outcome` and `after` are a possible result of an evaluation for which
    /// the system clock could not be read: a trigger at work is put out of
    /// work by `UnreadableMoment`, and one out of work answers its fault and
    /// stays as it is.
    pub open spec fn clock_failed(
        &self,
        after: &DailyTrigger,
        outcome: Result<bool, TriggerError>,
    ) -> bool {
        match self.spec_fault() {
            Some(standing) => {
                &&& outcome == Err::<bool, TriggerError>(standing)
                &&& *after == *self
            },
            None => {
                &&& outcome == Err::<bool, TriggerError>(TriggerError::UnreadableMoment)
                &&& after.stopped_by(self, TriggerError::UnreadableMoment)
            },
        }
    }

    /// Computes the first trigger point for a trigger made at `now`: the
    /// moment that shows the configured time of day on the first day on
    /// which the cycle lets the trigger fire.
    ///
    /// Only the day counts of `now`, and whether its time of day is before
    /// the configured one. That the clock time of `now` may not exist on the
    /// day of the point does not matter.
    pub fn first_trigger_point(&self, now: LocalMoment) -> (point: Result<LocalMoment, TriggerError>)
        ensures
            self.first_point_found(now, point),
    {
        proof {
            use_type_invariant(self);
        }
        let now_day_of_week: u32 = match weekday_of(&now) {
            Some(weekday) => weekday,
            None => {
                return Err(TriggerError::UnreadableMoment);
            },
        };
        let now_second_of_day: u32 = match second_of_day_of(&now) {
            Some(seconds) => seconds,
            None => {
                return Err(TriggerError::UnreadableMoment);
            },
        };
        let before_time_of_day = now_second_of_day < self.hour * 3600 + self.minute * 60;
        let days_ahead: u64 = first_trigger_days(
            now_day_of_week,
            self.start_day_of_week,
            self.skip_days,
            before_time_of_day,
        );
        match on_day_at(&now, days_ahead, self.hour, self.minute, 0) {
            Some(target) => Ok(target),
            None => Err(TriggerError::TimeOfDayUnavailable),
        }
    }

    /// Makes a trigger as of the moment `now`: folds the time of day, reduces
    /// the anchor weekday modulo 7, and sets the threshold to the first
    /// trigger point after `now`.
    pub fn new_at(
        now: LocalMoment,
        time_of_day: u32,
        skip_days: u32,
        start_day_of_week: u32,
    ) -> (made: Result<DailyTrigger, TriggerError>)
        ensures
            Self::constructed_at(now, time_of_day, skip_days, start_day_of_week, made),
    {
        let (hour, minute) = fold_time_of_day(time_of_day);
        let mut result = DailyTrigger {
            next_seconds: 0,
            hour,
            minute,
            skip_days,
            start_day_of_week: start_day_of_week % 7,
            fault: None,
        };
        match result.first_trigger_point(now) {
            Ok(target) => {
                result.next_seconds = target.epoch_seconds;
                assert(result.threshold_read(target.utc_offset) == target);
                Ok(result)
            },
            Err(fault) => Err(fault),
        }
    }

    /// Returns a new trigger which rolls the log on a daily schedule, made as
    /// of the current local time.
    ///
    /// `time_of_day` is an `HHMM` number, folded rather than refused;
    /// `skip_days` is the number of days left out between rotations;
    /// `start_day_of_week` anchors the cycle, Sunday being 0, taken modulo 7.
    pub fn new(time_of_day: u32, skip_days: u32, start_day_of_week: u32) -> (made: Result<
        DailyTrigger,
        TriggerError,
    >)
        ensures
            Self::constructed_on_clock(time_of_day, skip_days, start_day_of_week, made),
    {
        if !clock_is_past_epoch() {
            return Err(TriggerError::UnreadableMoment);
        }
        let now = local_now();
        Self::new_at(now, time_of_day, skip_days, start_day_of_week)
    }

    /// Settles the trigger on `moved`, what the calendar answered when asked
    /// for the threshold one period on: takes the moment's instant for the
    /// new threshold if it is later than the old one, and reports
    /// `DayShiftFailed` if there is no moment or it is not later.
    pub fn settle(&mut self, moved: Option<LocalMoment>) -> (answer: Result<
        LocalMoment,
        TriggerError,
    >)
        ensures
            old(self).settled_from(moved, final(self), answer),
    {
        proof {
            use_type_invariant(&*self);
        }
        match self.fault {
            Some(standing) => {
                return Err(standing);
            },
            None => {},
        }
        match moved {
            Some(next) => {
                if next.epoch_seconds > self.next_seconds {
                    self.next_seconds = next.epoch_seconds;
                    return Ok(next);
                }
            },
            None => {},
        }
        self.fault = Some(TriggerError::DayShiftFailed);
        Err(TriggerError::DayShiftFailed)
    }

    /// Moves the threshold one period on from `found`, what the local zone
    /// answered for the current threshold, and hands back the new threshold
    /// as a local moment.
    ///
    /// Of two readings it goes by the earlier. From there it asks the
    /// calendar for the moment one period on, in calendar days and not in
    /// seconds, so that the new threshold shows the same time of day whatever
    /// the offset has become; and settles on what the calendar answers.
    pub fn advance(&mut self, found: LocalLookup) -> (moved: Result<LocalMoment, TriggerError>)
        ensures
            old(self).advanced_from(found, final(self), moved),
    {
        proof {
            use_type_invariant(&*self);
        }
        match self.fault {
            Some(standing) => {
                return Err(standing);
            },
            None => {},
        }
        let last = match found.earliest() {
            Some(moment) => moment,
            None => {
                self.fault = Some(TriggerError::UnreadableMoment);
                return Err(TriggerError::UnreadableMoment);
            },
        };
        let period: u64 = self.skip_days as u64 + 1;
        let answered = plus_days(&last, period);
        self.settle(answered)
    }

    /// Evaluates the trigger at the instant `now`, in epoch seconds.
    ///
    /// Before the threshold it answers `Ok(false)` and changes nothing. From
    /// the threshold on it reads the threshold on the local clock and moves
    /// it one period on; a trigger out of work answers its fault instead.
    pub fn evaluate_at(&mut self, now: i64) -> (rotate: Result<bool, TriggerError>)
        ensures
            old(self).evaluated_at(now, final(self), rotate),
    {
        let next = self.next_seconds;
        if now < next {
            return Ok(false);
        }
        match self.fault {
            Some(standing) => {
                return Err(standing);
            },
            None => {},
        }
        let found = local_lookup(next);
        match self.advance(found) {
            Ok(moved) => {
                assert(self.moved_one_period(
                    old(self),
                    found.earliest_spec().unwrap().utc_offset,
                    moved.utc_offset,
                ));
                Ok(true)
            },
            Err(fault) => Err(fault),
        }
    }

    /// The threshold, in epoch seconds.
    pub fn next_seconds(&self) -> (seconds: i64)
        ensures
            seconds == self.spec_next_seconds(),
    {
        self.next_seconds
    }

    /// The hour of the time of day at which the trigger fires.
    pub fn hour(&self) -> (hour: u32)
        ensures
            hour == self.spec_hour(),
            hour < 24,
    {
        proof {
            use_type_invariant(self);
        }
        self.hour
    }

    /// The minute of the time of day at which the trigger fires.
    pub fn minute(&self) -> (minute: u32)
        ensures
            minute == self.spec_minute(),
            minute < 60,
    {
        proof {
            use_type_invariant(self);
        }
        self.minute
    }

    /// The days left out between two rotations.
    pub fn skip_days(&self) -> (days: u32)
        ensures
            days == self.spec_skip_days(),
    {
        self.skip_days
    }

    /// The weekday on which the cycle is anchored, Sunday being 0.
    pub fn start_day_of_week(&self) -> (weekday: u32)
        ensures
            weekday == self.spec_start_day_of_week(),
            weekday < 7,
    {
        proof {
            use_type_invariant(self);
        }
        self.start_day_of_week
    }

    /// The fault that has put the trigger out of work, if one has.
    pub fn fault(&self) -> (fault: Option<TriggerError>)
        ensures
            fault == self.spec_fault(),
    {
        self.fault
    }

    /// The same trigger with another threshold, for a caller that keeps the
    /// threshold in a cell of its own.
    pub fn with_next_seconds(self, next_seconds: i64) -> (moved: DailyTrigger)
        ensures
            moved.rescheduled_from(&self, next_seconds),
    {
        proof {
            use_type_invariant(&self);
        }
        DailyTrigger {
            next_seconds,
            hour: self.hour,
            minute: self.minute,
            skip_days: self.skip_days,
            start_day_of_week: self.start_day_of_week,
            fault: self.fault,
        }
    }

    /// The same trigger put out of work by `fault`, for a caller that keeps
    /// the fault in a cell of its own.
    pub fn with_fault(self, fault: TriggerError) -> (stopped: DailyTrigger)
        ensures
            stopped.stopped_by(&self, fault),
    {
        proof {
            use_type_invariant(&self);
        }
        DailyTrigger {
            next_seconds: self.next_seconds,
            hour: self.hour,
            minute: self.minute,
            skip_days: self.skip_days,
            start_day_of_week: self.start_day_of_week,
            fault: Some(fault),
        }
    }

    /// Putting a trigger out of work records the fault and leaves the
    /// threshold and the schedule as they were.
    pub proof fn lemma_fault_changes_nothing_else(&self, fault: TriggerError)
        ensures
            self.faulted_with(fault).spec_fault() == Some(fault),
            self.faulted_with(fault).spec_next_seconds() == self.spec_next_seconds(),
            self.faulted_with(fault).same_schedule(self),
    {
    }

    /// A first trigger point lies ahead of `now` on the local clock, shows
    /// the configured hour and minute at second 0, and is at most one period
    /// of days away.
    pub proof fn lemma_first_trigger_point_is_ahead(&self, now: LocalMoment, target: LocalMoment)
        requires
            self.well_formed(),
            self.is_first_trigger_point(now, target),
        ensures
            target.local_seconds() > now.local_seconds(),
            target.civil_day() <= now.civil_day() + self.period(),
            target.hour() == self.spec_hour(),
            target.minute() == self.spec_minute(),
            target.second() == 0,
    {
        let days = self.days_ahead(now);
        let before_time_of_day = now.second_of_day() < self.time_of_day_seconds();
        lemma_first_trigger_opens_a_cycle(
            now.weekday(),
            self.spec_start_day_of_week() as int,
            self.period(),
            before_time_of_day,
        );
        assert(0 <= days <= self.period());
        assert(days == 0 ==> before_time_of_day);
        let hour = self.spec_hour() as int;
        let minute = self.spec_minute() as int;
        let shown = target.second_of_day();
        assert(shown == hour * 3600 + minute * 60);
        assert(shown / 3600 == hour && (shown / 60) % 60 == minute && shown % 60 == 0) by {
            assert(0 <= hour < 24 && 0 <= minute < 60);
            assert(shown / 60 == hour * 60 + minute);
        }
        let here = now.local_seconds();
        let there = target.local_seconds();
        assert(here == 86_400 * now.civil_day() + now.second_of_day());
        assert(there == 86_400 * target.civil_day() + shown);
        assert(0 <= now.second_of_day() < 86_400);
        assert(target.civil_day() == now.civil_day() + days);
    }

    /// With a period of whole weeks the trigger keeps to the anchor weekday:
    /// the first trigger point falls on it.
    pub proof fn lemma_weekly_cycle_starts_on_anchor(&self, now: LocalMoment, target: LocalMoment)
        requires
            self.well_formed(),
            self.period() % 7 == 0,
            self.is_first_trigger_point(now, target),
        ensures
            target.weekday() == self.spec_start_day_of_week(),
    {
        let start = self.spec_start_day_of_week() as int;
        let days = self.days_ahead(now);
        lemma_first_trigger_opens_a_cycle(
            now.weekday(),
            start,
            self.period(),
            now.second_of_day() < self.time_of_day_seconds(),
        );
        assert((now.weekday() + days - start) % 7 == 0);
        lemma_weeks_from_anchor(now.weekday(), days, start);
        assert((now.weekday() + days) % 7 == start);
        let today = now.civil_day();
        assert(target.civil_day() == today + days);
        assert(now.weekday() == (today + 4) % 7);
        assert(target.weekday() == (today + days + 4) % 7);
        assert((today + days + 4) % 7 == ((today + 4) % 7 + days) % 7) by {
            let weeks = (today + 4) / 7;
            assert(today + 4 == 7 * weeks + (today + 4) % 7);
            assert(today + days + 4 == 7 * weeks + ((today + 4) % 7 + days));
        }
    }

    /// A threshold that has moved one period on shows the time of day it
    /// showed before, exactly that many calendar days later. The instant has
    /// moved by the period give or take the change of offset, which is less
    /// than two days; where the offset has not changed, by the period
    /// exactly. With a period of whole weeks the weekday is kept too.
    pub proof fn lemma_moved_threshold_keeps_clock(
        &self,
        before: &DailyTrigger,
        from: i32,
        to: i32,
    )
        requires
            self.moved_one_period(before, from, to),
        ensures
            self.spec_next_seconds() > before.spec_next_seconds() + (before.period() - 2) * 86_400,
            self.spec_next_seconds() < before.spec_next_seconds() + (before.period() + 2) * 86_400,
            from == to ==> self.spec_next_seconds() == before.spec_next_seconds() + before.period()
                * 86_400,
            self.threshold_read(to).civil_day() == before.threshold_read(from).civil_day()
                + before.period(),
            self.threshold_read(to).second_of_day() == before.threshold_read(from).second_of_day(),
            before.period() % 7 == 0 ==> self.threshold_read(to).weekday() == before.threshold_read(
                from,
            ).weekday(),
    {
        before.threshold_read(from).lemma_whole_days_apart(
            self.threshold_read(to),
            before.period(),
        );
    }

    /// The threshold never goes back: whatever an evaluation answers, the
    /// threshold after it is the one before it or a later one, and it is a
    /// later one exactly where the answer is `Ok(true)`.
    pub proof fn lemma_threshold_never_goes_back(
        &self,
        now: i64,
        after: &DailyTrigger,
        outcome: Result<bool, TriggerError>,
    )
        requires
            self.evaluated_at(now, after, outcome),
        ensures
            after.spec_next_seconds() >= self.spec_next_seconds(),
            after.spec_next_seconds() > self.spec_next_seconds() <==> outcome == Ok::<
                bool,
                TriggerError,
            >(true),
            after.same_schedule(self),
    {
    }

    /// A trigger out of work stays out of work: it never asks for a rotation
    /// and never changes. Before the threshold it answers `Ok(false)`, from
    /// the threshold on the fault that stopped it. And an evaluation that
    /// reports a fault leaves the trigger out of work by that fault.
    pub proof fn lemma_fault_stands(
        &self,
        now: i64,
        after: &DailyTrigger,
        outcome: Result<bool, TriggerError>,
    )
        requires
            self.evaluated_at(now, after, outcome),
        ensures
            self.spec_fault() matches Some(standing) ==> {
                &&& *after == *self
                &&& outcome == if now < self.spec_next_seconds() {
                    Ok::<bool, TriggerError>(false)
                } else {
                    Err::<bool, TriggerError>(standing)
                }
            },
            outcome matches Err(fault) ==> after.spec_fault() == Some(fault),
            outcome is Ok ==> after.spec_fault() == self.spec_fault(),
    {
    }

    /// Evaluations before the threshold are idle: however often they are
    /// made, each answers `Ok(false)` and the trigger stays as it was.
    pub proof fn lemma_idle_before_threshold(
        &self,
        first: i64,
        between: &DailyTrigger,
        first_outcome: Result<bool, TriggerError>,
        second: i64,
        after: &DailyTrigger,
        second_outcome: Result<bool, TriggerError>,
    )
        requires
            first < self.spec_next_seconds(),
            second < self.spec_next_seconds(),
            self.evaluated_at(first, between, first_outcome),
            between.evaluated_at(second, after, second_outcome),
        ensures
            first_outcome == Ok::<bool, TriggerError>(false),
            second_outcome == Ok::<bool, TriggerError>(false),
            *between == *self,
            *after == *self,
    {
    }

    /// A threshold fires once: after an evaluation that fired, an evaluation
    /// at an instant before the new threshold answers `Ok(false)` and leaves
    /// the new threshold in place.
    pub proof fn lemma_fires_once(
        &self,
        first: i64,
        between: &DailyTrigger,
        first_outcome: Result<bool, TriggerError>,
        second: i64,
        after: &DailyTrigger,
        second_outcome: Result<bool, TriggerError>,
    )
        requires
            self.evaluated_at(first, between, first_outcome),
            first_outcome == Ok::<bool, TriggerError>(true),
            between.evaluated_at(second, after, second_outcome),
            second < between.spec_next_seconds(),
        ensures
            first >= self.spec_next_seconds(),
            second_outcome == Ok::<bool, TriggerError>(false),
            *after == *between,
    {
    }
}

impl Trigger for DailyTrigger {
    /// An evaluation is one at some instant, the one the system clock
    /// showed; or the clock could not be read.
    open spec fn answers(&self, after: &Self, rotate: Result<bool, TriggerError>) -> bool {
        ||| exists|now: i64| #[trigger] self.evaluated_at(now, after, rotate)
        ||| self.clock_failed(after, rotate)
    }

    /// Evaluates the trigger at the current instant of the system clock.
    fn trigger(&mut self, file: &LogFile) -> (rotate: Result<bool, TriggerError>) {
        proof {
            use_type_invariant(&*self);
        }
        if !clock_is_past_epoch() {
            match self.fault {
                Some(standing) => {
                    return Err(standing);
                },
                None => {
                    self.fault = Some(TriggerError::UnreadableMoment);
                    return Err(TriggerError::UnreadableMoment);
                },
            }
        }
        let now = local_now();
        let rotate = self.evaluate_at(now.epoch_seconds);
        rotate
    }
}

/// Configuration for the daily trigger.
#[derive(Clone, Copy, Debug, PartialEq, Eq, Hash, Structural)]
pub struct DailyTriggerConfig {
    /// The time to rotate at, as an `HHMM` number such as 0 or 1430.
    pub time_of_day: u32,
    /// The number of days to skip between rotations; 0 rotates every day.
    pub skip_days: u32,
    /// The day of the week, Sunday being 0, on which the cycle starts.
    pub start_day_of_week: u32,
}

impl Default for DailyTriggerConfig {
    /// Midnight, every day, anchored on Sunday.
    fn default() -> (config: Self)
        ensures
            config.time_of_day == 0,
            config.skip_days == 0,
            config.start_day_of_week == 0,
    {
        DailyTriggerConfig { time_of_day: 0, skip_days: 0, start_day_of_week: 0 }
    }
}

/// Makes a [`DailyTrigger`] from its configuration.
#[derive(Clone, Copy, Debug, PartialEq, Eq, Hash, Structural)]
pub struct DailyTriggerDeserializer;

impl DailyTriggerDeserializer {
    /// Makes the trigger that `config` describes, as of the current local
    /// time. No configuration is refused.
    pub fn deserialize(&self, config: DailyTriggerConfig) -> (made: Result<
        DailyTrigger,
        TriggerError,
    >)
        ensures
            DailyTrigger::constructed_on_clock(
                config.time_of_day,
                config.skip_days,
                config.start_day_of_week,
                made,
            ),
    {
        DailyTrigger::new(config.time_of_day, config.skip_days, config.start_day_of_week)
    }
}

impl Default for DailyTriggerDeserializer {
    fn default() -> (made: Self)
        ensures
            made == DailyTriggerDeserializer,
    {
        DailyTriggerDeserializer
    }
}

} // verus!
