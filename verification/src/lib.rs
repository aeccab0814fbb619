//! Rotation triggers for a rolling log file.
//!
//! A trigger is asked before every append whether the log must be rotated
//! first. Two strategies live here: [`client::ClientTrigger`], a latch that a
//! client arms and the next append consumes, and [`daily::DailyTrigger`],
//! which fires at a fixed local time of day once per cycle of days.
//!
//! Every trigger owns its state and is driven through `&mut self`; the
//! contracts say exactly how one call changes that state.
pub mod client;
pub mod daily;
pub mod error;
pub mod local_time;
pub mod log_file;
pub mod schedule;
pub mod trigger;
