//! The file a trigger is asked about.
use vstd::prelude::*;

verus! {

/// What the appender knows of the log file it is about to write to.
///
/// The triggers of this crate take it because every rotation strategy does;
/// neither of them reads it.
pub struct LogFile {
    /// Where the file lives.
    pub path: String,
    /// How many bytes the appender believes it holds.
    pub len: u64,
}

} // verus!
