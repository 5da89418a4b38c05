//! The witness of one job and the records it keeps.
//!
//! A job runs from `Started` to `Succeeded` or `Failed`. Its witness writes
//! an append-only log and keeps the job's record in a store, but touches
//! neither itself: it hands out one `Action` at a time and is told how each
//! went. `witness` holds that state machine, `protocol` what passes between
//! it and its driver, `log` the log's name and lines, `laws` what holds of
//! every run.

pub mod laws;
pub mod log;
pub mod protocol;
pub mod witness;

pub use log::create_log_name;
pub use protocol::{Action, Outcome, Query, Step};
pub use witness::{Phase, Witness};

use vstd::prelude::*;

verus! {

/// Where a job stands.
#[derive(Clone, Copy, Debug, PartialEq, Eq, Structural)]
pub enum JobStatus {
    Started,
    Succeeded,
    Failed,
}

/// The token that stands for a status in the store and on the wire.
pub open spec fn status_label(status: JobStatus) -> Seq<char> {
    match status {
        JobStatus::Started => "started"@,
        JobStatus::Succeeded => "succeeded"@,
        JobStatus::Failed => "failed"@,
    }
}

impl JobStatus {
    /// The lower-case token of this status.
    pub fn label(&self) -> (token: &'static str)
        ensures
            token@ == status_label(*self),
    {
        match self {
            JobStatus::Started => "started",
            JobStatus::Succeeded => "succeeded",
            JobStatus::Failed => "failed",
        }
    }

    /// Whether a job with this status has come to its end.
    pub fn is_terminal(&self) -> (terminal: bool)
        ensures
            terminal == (*self != JobStatus::Started),
    {
        match self {
            JobStatus::Started => false,
            _ => true,
        }
    }
}

/// What goes wrong with a job. Nothing is retried: each is handed to the
/// caller as it arises.
#[derive(Clone, Copy, Debug, PartialEq, Eq, Structural)]
pub enum SubiloError {
    /// The log directory could not be created.
    CreateLogDir,
    /// The log file could not be created.
    CreateLogFile,
    /// An entry could not be appended to the log.
    WriteLogFile,
    /// The project's commands could not be serialized.
    ParseProjectCommands,
    /// The persistence channel could not be reached.
    DatabaseActor,
    /// The store turned the statement down.
    DatabaseQuery,
}

/// The project that a job deploys: its name, the description that opens the
/// log, and its commands.
pub struct Project {
    pub name: String,
    pub description: String,
    pub commands: Vec<String>,
}

/// A job as the store holds it. `commands` is the serialized command list.
#[derive(Debug)]
pub struct Job {
    pub id: String,
    pub name: String,
    pub status: JobStatus,
    pub project: String,
    pub started_at: String,
    pub ended_at: String,
    pub commands: String,
}

/// A job without its commands, for listings.
#[derive(Debug)]
pub struct PartialJob {
    pub id: String,
    pub name: String,
    pub status: JobStatus,
    pub project: String,
    pub started_at: String,
    pub ended_at: String,
}

/// The content of a `Job`.
pub struct JobView {
    pub id: Seq<char>,
    pub name: Seq<char>,
    pub status: JobStatus,
    pub project: Seq<char>,
    pub started_at: Seq<char>,
    pub ended_at: Seq<char>,
    pub commands: Seq<char>,
}

/// The content of a `PartialJob`.
pub struct PartialJobView {
    pub id: Seq<char>,
    pub name: Seq<char>,
    pub status: JobStatus,
    pub project: Seq<char>,
    pub started_at: Seq<char>,
    pub ended_at: Seq<char>,
}

impl JobView {
    /// A record bears an end time exactly when its job has ended.
    pub open spec fn well_formed(self) -> bool {
        (self.status == JobStatus::Started) == (self.ended_at.len() == 0)
    }

    /// The record without its commands.
    pub open spec fn summary(self) -> PartialJobView {
        PartialJobView {
            id: self.id,
            name: self.name,
            status: self.status,
            project: self.project,
            started_at: self.started_at,
            ended_at: self.ended_at,
        }
    }
}

impl PartialJobView {
    /// A summary bears an end time exactly when its job has ended.
    pub open spec fn well_formed(self) -> bool {
        (self.status == JobStatus::Started) == (self.ended_at.len() == 0)
    }
}

impl View for Job {
    type V = JobView;

    open spec fn view(&self) -> JobView {
        JobView {
            id: self.id@,
            name: self.name@,
            status: self.status,
            project: self.project@,
            started_at: self.started_at@,
            ended_at: self.ended_at@,
            commands: self.commands@,
        }
    }
}

impl View for PartialJob {
    type V = PartialJobView;

    open spec fn view(&self) -> PartialJobView {
        PartialJobView {
            id: self.id@,
            name: self.name@,
            status: self.status,
            project: self.project@,
            started_at: self.started_at@,
            ended_at: self.ended_at@,
        }
    }
}

impl Job {
    /// The summary of this job: every field but the commands.
    pub fn summary(&self) -> (partial: PartialJob)
        ensures
            partial@ == self@.summary(),
            self@.well_formed() == partial@.well_formed(),
    {
        PartialJob {
            id: self.id.clone(),
            name: self.name.clone(),
            status: self.status,
            project: self.project.clone(),
            started_at: self.started_at.clone(),
            ended_at: self.ended_at.clone(),
        }
    }
}

} // verus!
