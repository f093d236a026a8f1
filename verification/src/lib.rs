//! Scan orchestration core: classifies filesystem events, filters candidate
//! paths by existence and extension, and aggregates per-job scan outcomes.
//!
//! The surrounding process supplies the filesystem walk or watch stream, the
//! worker pool and the detection capability; this crate holds the decisions
//! they drive: which paths become scan jobs, what each job outcome means, and
//! the run totals.

pub mod counters;
pub mod dispatch;
pub mod event;
pub mod filter;
pub mod result;
