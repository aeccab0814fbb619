//! The arithmetic of a daily rotation cycle.
//!
//! A cycle is `skip_days + 1` days long and is anchored on a day of the week.
//! Everything here is plain integer work: folding a configured `HHMM` number
//! into an hour and a minute, and counting the days from today to the first
//! day on which the trigger may fire.
use vstd::prelude::*;
use vstd::arithmetic::div_mod::{
    lemma_fundamental_div_mod, lemma_mod_division_less_than_divisor, lemma_mod_multiples_basic,
    lemma_small_mod,
};

verus! {

/// The hour that an `HHMM` number folds to: the hundreds taken modulo 24,
/// plus the hour that 60 or more minutes carry over, and the sum taken
/// modulo 24 once more, so that 23 and a carry give 0.
pub open spec fn folded_hour(time_of_day: int) -> int {
    ((time_of_day / 100) % 24 + (time_of_day % 100) / 60) % 24
}

/// The minute that an `HHMM` number folds to: the last two digits modulo 60.
pub open spec fn folded_minute(time_of_day: int) -> int {
    (time_of_day % 100) % 60
}

/// The length of a cycle in days.
pub open spec fn period_of(skip_days: int) -> int {
    skip_days + 1
}

/// How many days of the current cycle lie behind a day with the given
/// weekday: the days since the anchor weekday last came round, modulo the
/// period. Weekdays count from Sunday as 0.
pub open spec fn days_into_cycle(weekday: int, start_day_of_week: int, period: int) -> int {
    ((weekday - start_day_of_week) % 7) % period
}

/// How many days ahead of today the first trigger point lies: none if today
/// opens a cycle and the time of day is still to come, else the days left in
/// the cycle.
pub open spec fn days_to_first_trigger(
    weekday: int,
    start_day_of_week: int,
    period: int,
    before_time_of_day: bool,
) -> int {
    if days_into_cycle(weekday, start_day_of_week, period) == 0 && before_time_of_day {
        0
    } else {
        period - days_into_cycle(weekday, start_day_of_week, period)
    }
}

/// Folds an `HHMM` number into an hour and a minute. Nothing is rejected:
/// hours of 24 and more wrap around, minutes of 60 and more carry one hour
/// over, and an hour that the carry brings to 24 wraps to 0. What comes out
/// is always a time of day.
pub fn fold_time_of_day(time_of_day: u32) -> (folded: (u32, u32))
    ensures
        folded.0 == folded_hour(time_of_day as int),
        folded.1 == folded_minute(time_of_day as int),
        folded.0 < 24,
        folded.1 < 60,
{
    let hours: u32 = ((time_of_day / 100) % 24 + (time_of_day % 100) / 60) % 24;
    let minutes: u32 = (time_of_day % 100) % 60;
    (hours, minutes)
}

/// Counts the days from today to the first trigger point, for today's weekday,
/// the anchor weekday, the days skipped between rotations, and whether the
/// time of day is still to come today. Weekdays are taken modulo 7.
pub fn first_trigger_days(
    weekday: u32,
    start_day_of_week: u32,
    skip_days: u32,
    before_time_of_day: bool,
) -> (days: u64)
    ensures
        days == days_to_first_trigger(
            weekday as int,
            start_day_of_week as int,
            period_of(skip_days as int),
            before_time_of_day,
        ),
{
    let today: u32 = weekday % 7;
    let start: u32 = start_day_of_week % 7;
    let since_start: u32 = if today >= start {
        today - start
    } else {
        today + 7 - start
    };
    let period: u64 = skip_days as u64 + 1;
    let into_cycle: u64 = since_start as u64 % period;
    if into_cycle == 0 && before_time_of_day {
        0
    } else {
        period - into_cycle
    }
}

/// Folding always gives a time of day; it leaves one that is written as
/// such as it is; and the minutes 60 to 99 of an hour that wraps to 23 fold
/// into hour 0.
pub proof fn lemma_folding(time_of_day: int)
    requires
        0 <= time_of_day,
    ensures
        0 <= folded_hour(time_of_day) < 24,
        0 <= folded_minute(time_of_day) < 60,
        (time_of_day / 100 < 24 && time_of_day % 100 < 60) ==> folded_hour(time_of_day) * 100
            + folded_minute(time_of_day) == time_of_day,
        ((time_of_day / 100) % 24 == 23 && time_of_day % 100 >= 60) ==> folded_hour(time_of_day)
            == 0,
{
}

/// The first trigger point opens a cycle. Counted from the day on which the
/// anchor weekday last came round, it lies a whole number of periods on; it
/// is today only if today opens a cycle and the time of day is still to
/// come; and it is never further off than one period. Where the period is a
/// whole number of weeks, the day is one of the anchor weekday.
pub proof fn lemma_first_trigger_opens_a_cycle(
    weekday: int,
    start_day_of_week: int,
    period: int,
    before_time_of_day: bool,
)
    requires
        period >= 1,
    ensures
        0 <= days_to_first_trigger(weekday, start_day_of_week, period, before_time_of_day)
            <= period,
        days_to_first_trigger(weekday, start_day_of_week, period, before_time_of_day) == 0 <==> (
        before_time_of_day && days_into_cycle(weekday, start_day_of_week, period) == 0),
        ((weekday - start_day_of_week) % 7 + days_to_first_trigger(
            weekday,
            start_day_of_week,
            period,
            before_time_of_day,
        )) % period == 0,
        period % 7 == 0 ==> (weekday + days_to_first_trigger(
            weekday,
            start_day_of_week,
            period,
            before_time_of_day,
        ) - start_day_of_week) % 7 == 0,
{
    let since_start = (weekday - start_day_of_week) % 7;
    let into_cycle = since_start % period;
    let days = days_to_first_trigger(weekday, start_day_of_week, period, before_time_of_day);
    lemma_mod_division_less_than_divisor(since_start, period);
    lemma_fundamental_div_mod(since_start, period);
    let periods = if days == 0 {
        since_start / period
    } else {
        since_start / period + 1
    };
    assert(since_start + days == periods * period) by (nonlinear_arith)
        requires
            since_start == period * (since_start / period) + into_cycle,
            days == 0 && into_cycle == 0 && periods == since_start / period || days == period
                - into_cycle && periods == since_start / period + 1,
    ;
    lemma_mod_multiples_basic(periods, period);
    if period % 7 == 0 {
        lemma_small_mod(since_start as nat, period as nat);
    }
}

/// A day with weekday `weekday`, followed `days` later by a day that lies a
/// whole number of weeks after the anchor weekday, is followed there by a day
/// of the anchor weekday.
pub proof fn lemma_weeks_from_anchor(weekday: int, days: int, start_day_of_week: int)
    requires
        0 <= start_day_of_week < 7,
        (weekday + days - start_day_of_week) % 7 == 0,
    ensures
        (weekday + days) % 7 == start_day_of_week,
{
    let weeks = (weekday + days - start_day_of_week) / 7;
    assert(weekday + days - start_day_of_week == 7 * weeks);
    assert(weekday + days == 7 * weeks + start_day_of_week);
}

} // verus!
