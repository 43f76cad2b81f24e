//! A supervisor for a fixed set of concurrent jobs with coordinated graceful
//! shutdown.
//!
//! A run spawns one task for each job, keeps the identities of the spawned
//! jobs in a registry, waits for the first shutdown request or for the jobs
//! to end, requests the cancellation of every handle once if a shutdown was
//! observed, and then awaits every handle and records one terminal status
//! for each job: completed, cancelled or failed.
//!
//! The supervisor itself performs nothing. It is a state machine: a driver
//! reports an [`protocol::Event`], the supervisor answers with the
//! [`protocol::Action`] to perform next. Scheduling, signals and waiting are
//! the driver's part; which job is spawned, cancelled or awaited, when, and
//! what is recorded for it are the supervisor's.
//!
//! - [`job`]: jobs and the texts they produce;
//! - [`status`]: how a task ended and the terminal status recorded for it;
//! - [`join`]: from tokio's account of a task's end to an outcome;
//! - [`protocol`]: phases, events and actions;
//! - [`model`]: the state machine over mathematical values;
//! - [`supervisor`]: the executable supervisor, which follows the model;
//! - [`laws`]: what holds of every state and every transition;
//! - [`trace`]: what holds of the actions of every run;
//! - [`text`]: decimal numerals.

pub mod job;
pub mod join;
pub mod laws;
pub mod model;
pub mod protocol;
pub mod status;
pub mod supervisor;
pub mod text;
pub mod trace;
