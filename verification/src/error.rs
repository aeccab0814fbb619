//! The faults a trigger can report.
use vstd::prelude::*;

verus! {

/// A fault of the clock or the calendar that keeps a trigger from scheduling.
///
/// None of these is a routine outcome: "not yet due" is `Ok(false)`. None is
/// tied to the numbers a trigger is configured with: those are folded, never
/// refused.
#[derive(Clone, Copy, Debug, PartialEq, Eq, Structural)]
pub enum TriggerError {
    /// The clock could not be read, or a moment does not lie on the calendar.
    UnreadableMoment,
    /// Moving a threshold on by whole days gave no single valid local time,
    /// or none later than the threshold.
    DayShiftFailed,
    /// The local zone has not exactly one moment that shows the time of day
    /// on the day asked for.
    TimeOfDayUnavailable,
}

} // verus!
