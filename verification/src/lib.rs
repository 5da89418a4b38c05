//! Verified core of a deployment runner's job witness.
//!
//! The crate decides; a driver around it performs. `job` holds the witness of
//! one job: which log entries and which persistence statements a job's
//! lifecycle calls for, in which order, and what each failure means. `auth`
//! issues and checks the bearer token that guards job creation. `text`
//! holds the string building that both rest on.

pub mod auth;
pub mod job;
pub mod outside;
pub mod text;
