//! A personal punch-clock: an append-only timesheet log of `in:`/`out:`
//! records, reconstructed into working intervals and aggregated into
//! per-day worked-hours totals.

pub mod clock;
pub mod errors;
pub mod intervals;
pub mod record;
pub mod report;
pub mod text;
pub mod timestamp;
pub mod wallclock;
