//! The question every rotation strategy answers.
use vstd::prelude::*;
use crate::error::TriggerError;
use crate::log_file::LogFile;

verus! {

/// A rotation strategy.
///
/// It is asked once per append, before the record is written. The only state
/// an evaluation may change is the strategy's own.
pub trait Trigger {
    /// Whether the answer `rotate`, with the strategy left as `after`, is one
    /// that an evaluation in the state `self` may give. Each strategy says
    /// here what its evaluation does.
    spec fn answers(&self, after: &Self, rotate: Result<bool, TriggerError>) -> bool;

    /// Decides whether the log must be rotated before the next record is
    /// appended to `file`. `Ok(true)` asks for a rotation, `Ok(false)` lets
    /// the append go ahead, and an error reports a fault that keeps the
    /// strategy from deciding.
    fn trigger(&mut self, file: &LogFile) -> (rotate: Result<bool, TriggerError>)
        ensures
            old(self).answers(final(self), rotate),
    ;
}

} // verus!
