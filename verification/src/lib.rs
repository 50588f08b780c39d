//! Tracking of background jobs whose completion must be observed.
//!
//! A job is represented by a pair: the [`JobToken`] travels with the work and
//! its destruction is the completion signal; the [`ConcurrentJob`] stays with
//! the owner, who has to see the job complete, or abandon it, before letting
//! the handle go. [`Jobs`] collects handles and waits for all of them.
pub mod job;
pub mod jobs;
pub mod laws;
pub mod multiplex;
pub mod signal;

pub use crate::job::ConcurrentJob;
pub use crate::job::Disposal;
pub use crate::job::JobState;
pub use crate::job::JobToken;
pub use crate::jobs::Jobs;
pub use crate::signal::Signal;
