//! The witness: one job's log and status, from its start to its end.
//!
//! A witness performs nothing. Each of its operations answers with a `Step`:
//! an action for the driver, or the end of the operation. The driver reports
//! each action's outcome through `settle` until the operation ends. Start-up
//! is the first operation, begun by `new`; while it runs, and after it has
//! failed, every report is refused, and so is every report after the job has
//! ended.

use crate::job::laws::advance_keeps_well_formed;
use crate::job::log::{
    command_entry, command_line, failure_entry, failure_line, log_file_name, log_name_in,
};
use crate::job::protocol::{Action, ActionView, Outcome, Query, Step, StepView};
use crate::job::{status_label, Job, JobStatus, JobView, Project, SubiloError};
use crate::outside::{
    commands_json, commands_to_json, expand_tilde, expands_to, fresh_id, is_id_char,
    is_utc_stamp, now,
};
use crate::text::{text_of, texts};
use vstd::prelude::*;

verus! {

/// What a witness is waiting for.
#[derive(Clone, Copy, Debug, PartialEq, Eq, Structural)]
pub enum Phase {
    /// Start-up: the log directory is being created.
    CreatingLogDir,
    /// Start-up: the log file is being created.
    CreatingLogFile,
    /// Start-up: the project's description is being written to the log.
    WritingDescription,
    /// Start-up: the job is being inserted into the store.
    InsertingJob,
    /// The job runs; the next report is awaited.
    Ready,
    /// A command's entry is being written to the log.
    WritingCommand,
    /// A failure's entry is being written to the log.
    WritingFailure,
    /// The store is being told that the job succeeded.
    MarkingSucceeded,
    /// The store is being told that the job failed.
    MarkingFailed,
    /// The job has ended and the store knows it.
    Closed,
    /// Start-up failed; there is no job.
    Aborted,
}

/// The witness of one job.
pub struct Witness {
    id: String,
    name: String,
    project: String,
    description: String,
    commands: Option<String>,
    log_dir: String,
    log_path: String,
    log: Ghost<Seq<char>>,
    status: JobStatus,
    started_at: String,
    ended_at: String,
    phase: Phase,
    in_flight: String,
}

/// The content of a `Witness`.
pub struct WitnessView {
    /// The job's identifier.
    pub id: Seq<char>,
    /// The job's name.
    pub name: Seq<char>,
    /// The name of the project that the job deploys.
    pub project: Seq<char>,
    /// The project's description.
    pub description: Seq<char>,
    /// The project's commands, serialized; `None` where that failed.
    pub commands: Option<Seq<char>>,
    /// The directory of the log.
    pub log_dir: Seq<char>,
    /// The path of the log.
    pub log_path: Seq<char>,
    /// Everything this witness has appended to the log, in order.
    pub log: Seq<char>,
    /// The status that the store holds.
    pub status: JobStatus,
    /// The start time that the store holds; empty before the job is inserted.
    pub started_at: Seq<char>,
    /// The end time that the store holds; empty until the job has ended.
    pub ended_at: Seq<char>,
    /// What the witness is waiting for.
    pub phase: Phase,
    /// The log entry that is being written, or the end time that is being
    /// stored; empty where neither is under way.
    pub in_flight: Seq<char>,
}

/// The parameters of the statement that inserts the job, in order.
pub open spec fn insert_params(w: WitnessView, commands: Seq<char>, stamp: Seq<char>) -> Seq<
    Seq<char>,
> {
    seq![w.id, w.name, status_label(JobStatus::Started), w.project, commands, stamp]
}

/// The parameters of the statement that ends the job, in order.
pub open spec fn update_params(w: WitnessView, status: JobStatus, stamp: Seq<char>) -> Seq<
    Seq<char>,
> {
    seq![w.id, status_label(status), stamp]
}

/// The witness of a job that is about to start.
pub open spec fn starting(
    id: Seq<char>,
    name: Seq<char>,
    project: Seq<char>,
    description: Seq<char>,
    commands: Option<Seq<char>>,
    log_dir: Seq<char>,
) -> WitnessView {
    WitnessView {
        id,
        name,
        project,
        description,
        commands,
        log_dir,
        log_path: log_file_name(name, log_dir),
        log: Seq::empty(),
        status: JobStatus::Started,
        started_at: Seq::empty(),
        ended_at: Seq::empty(),
        phase: Phase::CreatingLogDir,
        in_flight: Seq::empty(),
    }
}

/// The first action of every job: create the log's directory.
pub open spec fn first_action(w: WitnessView) -> ActionView {
    ActionView::CreateLogDir { path: w.log_dir }
}

/// A witness that has given up on start-up.
pub open spec fn aborted(w: WitnessView) -> WitnessView {
    WitnessView { phase: Phase::Aborted, in_flight: Seq::empty(), ..w }
}

/// A witness that is back to awaiting reports, its store untouched.
pub open spec fn resumed(w: WitnessView) -> WitnessView {
    WitnessView { phase: Phase::Ready, in_flight: Seq::empty(), ..w }
}

/// A witness whose entry in flight has reached the log.
pub open spec fn written(w: WitnessView) -> WitnessView {
    WitnessView { log: w.log + w.in_flight, in_flight: Seq::empty(), ..w }
}

/// Whether the witness reads the clock when told `outcome`: a time is about
/// to be stored.
pub open spec fn records_time(w: WitnessView, outcome: Outcome) -> bool {
    &&& outcome == Outcome::Done
    &&& (w.phase == Phase::WritingDescription || w.phase == Phase::WritingFailure)
}

/// What a witness makes of the outcome of its last action, `stamp` being the
/// time at which it is told: its next state and its answer.
///
/// Each start-up action that fails ends start-up with the error of its kind;
/// so does a command list that could not be serialized, once the description
/// is written. A failed write of an entry, or a failed update, fails the
/// report and leaves the job running. An update follows the entry it comes
/// with, never the other way round. An outcome that does not fit what was
/// asked for is refused, and so is an empty time where one is to be stored.
pub open spec fn advance_spec(w: WitnessView, outcome: Outcome, stamp: Seq<char>) -> (
    WitnessView,
    StepView,
) {
    if records_time(w, outcome) && stamp.len() == 0 {
        (w, StepView::Refused)
    } else {
        settled(w, outcome, stamp)
    }
}

/// What `advance_spec` makes of an outcome once the time is known to be fit
/// for storing.
pub open spec fn settled(w: WitnessView, outcome: Outcome, stamp: Seq<char>) -> (
    WitnessView,
    StepView,
) {
    match (w.phase, outcome) {
        (Phase::CreatingLogDir, Outcome::Done) => (
            WitnessView { phase: Phase::CreatingLogFile, ..w },
            StepView::Perform(ActionView::CreateLogFile { path: w.log_path }),
        ),
        (Phase::CreatingLogDir, Outcome::Failed) => (
            aborted(w),
            StepView::Failed(SubiloError::CreateLogDir),
        ),
        (Phase::CreatingLogFile, Outcome::Done) => (
            WitnessView { phase: Phase::WritingDescription, in_flight: w.description, ..w },
            StepView::Perform(ActionView::AppendLog { text: w.description }),
        ),
        (Phase::CreatingLogFile, Outcome::Failed) => (
            aborted(w),
            StepView::Failed(SubiloError::CreateLogFile),
        ),
        (Phase::WritingDescription, Outcome::Done) => match w.commands {
            Some(commands) => (
                WitnessView { phase: Phase::InsertingJob, started_at: stamp, ..written(w) },
                StepView::Perform(
                    ActionView::Execute {
                        query: Query::InsertJob,
                        params: insert_params(w, commands, stamp),
                    },
                ),
            ),
            None => (aborted(written(w)), StepView::Failed(SubiloError::ParseProjectCommands)),
        },
        (Phase::WritingDescription, Outcome::Failed) => (
            aborted(w),
            StepView::Failed(SubiloError::WriteLogFile),
        ),
        (Phase::InsertingJob, Outcome::Done) => (resumed(w), StepView::Finished),
        (Phase::InsertingJob, Outcome::Unreachable) => (
            aborted(w),
            StepView::Failed(SubiloError::DatabaseActor),
        ),
        (Phase::InsertingJob, Outcome::Rejected) => (
            aborted(w),
            StepView::Failed(SubiloError::DatabaseQuery),
        ),
        (Phase::WritingCommand, Outcome::Done) => (resumed(written(w)), StepView::Finished),
        (Phase::WritingCommand, Outcome::Failed) => (
            resumed(w),
            StepView::Failed(SubiloError::WriteLogFile),
        ),
        (Phase::WritingFailure, Outcome::Done) => (
            WitnessView { phase: Phase::MarkingFailed, in_flight: stamp, ..written(w) },
            StepView::Perform(
                ActionView::Execute {
                    query: Query::UpdateJob,
                    params: update_params(w, JobStatus::Failed, stamp),
                },
            ),
        ),
        (Phase::WritingFailure, Outcome::Failed) => (
            resumed(w),
            StepView::Failed(SubiloError::WriteLogFile),
        ),
        (Phase::MarkingSucceeded, Outcome::Done) => (
            WitnessView {
                phase: Phase::Closed,
                status: JobStatus::Succeeded,
                ended_at: w.in_flight,
                in_flight: Seq::empty(),
                ..w
            },
            StepView::Finished,
        ),
        (Phase::MarkingFailed, Outcome::Done) => (
            WitnessView {
                phase: Phase::Closed,
                status: JobStatus::Failed,
                ended_at: w.in_flight,
                in_flight: Seq::empty(),
                ..w
            },
            StepView::Finished,
        ),
        (Phase::MarkingSucceeded, Outcome::Unreachable) => (
            resumed(w),
            StepView::Failed(SubiloError::DatabaseActor),
        ),
        (Phase::MarkingFailed, Outcome::Unreachable) => (
            resumed(w),
            StepView::Failed(SubiloError::DatabaseActor),
        ),
        (Phase::MarkingSucceeded, Outcome::Rejected) => (
            resumed(w),
            StepView::Failed(SubiloError::DatabaseQuery),
        ),
        (Phase::MarkingFailed, Outcome::Rejected) => (
            resumed(w),
            StepView::Failed(SubiloError::DatabaseQuery),
        ),
        _ => (w, StepView::Refused),
    }
}

/// What a witness makes of the report of a command that is about to run:
/// while the job runs, the command's entry goes to the log.
pub open spec fn report_command_spec(w: WitnessView, command: Seq<char>) -> (
    WitnessView,
    StepView,
) {
    if w.phase == Phase::Ready {
        (
            WitnessView { phase: Phase::WritingCommand, in_flight: command_line(command), ..w },
            StepView::Perform(ActionView::AppendLog { text: command_line(command) }),
        )
    } else {
        (w, StepView::Refused)
    }
}

/// What a witness makes of the report that the job succeeded at `stamp`:
/// while the job runs, the store is told; nothing goes to the log. An empty
/// time is refused.
pub open spec fn report_success_spec(w: WitnessView, stamp: Seq<char>) -> (WitnessView, StepView) {
    if w.phase == Phase::Ready && stamp.len() > 0 {
        (
            WitnessView { phase: Phase::MarkingSucceeded, in_flight: stamp, ..w },
            StepView::Perform(
                ActionView::Execute {
                    query: Query::UpdateJob,
                    params: update_params(w, JobStatus::Succeeded, stamp),
                },
            ),
        )
    } else {
        (w, StepView::Refused)
    }
}

/// What a witness makes of the report that the job failed, `entry` being what
/// the log is to say of it: while the job runs, the entry goes to the log;
/// the store is told once it is written.
pub open spec fn report_failure_spec(w: WitnessView, entry: Seq<char>) -> (WitnessView, StepView) {
    if w.phase == Phase::Ready {
        (
            WitnessView { phase: Phase::WritingFailure, in_flight: entry, ..w },
            StepView::Perform(ActionView::AppendLog { text: entry }),
        )
    } else {
        (w, StepView::Refused)
    }
}

impl WitnessView {
    /// What every witness keeps true of itself.
    ///
    /// The log lies where the job's name and directory put it. The store's
    /// record bears an end time exactly when the job has ended, and the
    /// witness is closed exactly then. The log is empty until the description
    /// is written and opens with it ever after. A job that was inserted has
    /// its commands serialized and bears a start time. What is in flight is
    /// what the phase calls for.
    pub open spec fn well_formed(self) -> bool {
        &&& self.log_path == log_file_name(self.name, self.log_dir)
        &&& (self.phase == Phase::InsertingJob || self.is_running_or_closed())
            ==> self.commands is Some && self.started_at.len() > 0
        &&& (self.status == JobStatus::Started) == (self.ended_at.len() == 0)
        &&& (self.phase == Phase::Closed) == (self.status != JobStatus::Started)
        &&& match self.phase {
            Phase::CreatingLogDir | Phase::CreatingLogFile => {
                self.log.len() == 0 && self.in_flight.len() == 0
            },
            Phase::WritingDescription => self.log.len() == 0 && self.in_flight == self.description,
            Phase::Aborted => self.in_flight.len() == 0,
            Phase::InsertingJob | Phase::Ready | Phase::Closed => {
                self.description.is_prefix_of(self.log) && self.in_flight.len() == 0
            },
            Phase::WritingCommand | Phase::WritingFailure => self.description.is_prefix_of(
                self.log,
            ),
            Phase::MarkingSucceeded | Phase::MarkingFailed => {
                self.description.is_prefix_of(self.log) && self.in_flight.len() > 0
            },
        }
    }

    /// Whether the store holds the job: start-up is through.
    pub open spec fn is_running_or_closed(self) -> bool {
        match self.phase {
            Phase::CreatingLogDir
            | Phase::CreatingLogFile
            | Phase::WritingDescription
            | Phase::InsertingJob
            | Phase::Aborted => false,
            _ => true,
        }
    }

    /// The job's record as the store holds it.
    pub open spec fn record(self) -> JobView {
        JobView {
            id: self.id,
            name: self.name,
            status: self.status,
            project: self.project,
            started_at: self.started_at,
            ended_at: self.ended_at,
            commands: match self.commands {
                Some(commands) => commands,
                None => Seq::empty(),
            },
        }
    }
}

impl View for Witness {
    type V = WitnessView;

    closed spec fn view(&self) -> WitnessView {
        WitnessView {
            id: self.id@,
            name: self.name@,
            project: self.project@,
            description: self.description@,
            commands: text_of(self.commands),
            log_dir: self.log_dir@,
            log_path: self.log_path@,
            log: self.log@,
            status: self.status,
            started_at: self.started_at@,
            ended_at: self.ended_at@,
            phase: self.phase,
            in_flight: self.in_flight@,
        }
    }
}

impl Witness {
    /// The witness of a job that is about to start, from what `new` draws
    /// from outside: the job's identifier, the log's directory with any home
    /// shorthand expanded, and the project's commands, serialized, or `None`
    /// where that failed. With it comes the first action.
    pub fn assemble(
        id: String,
        job_name: String,
        project: Project,
        log_dir: String,
        commands: Option<String>,
    ) -> (start: (Witness, Action))
        ensures
            start.0@ == starting(
                id@,
                job_name@,
                project.name@,
                project.description@,
                text_of(commands),
                log_dir@,
            ),
            start.0@.well_formed(),
            start.1@ == first_action(start.0@),
    {
        let log_path = log_name_in(job_name.as_str(), log_dir.as_str());
        let action = Action::CreateLogDir { path: log_dir.clone() };
        let witness = Witness {
            id,
            name: job_name,
            project: project.name,
            description: project.description,
            commands,
            log_dir,
            log_path,
            log: Ghost(Seq::empty()),
            status: JobStatus::Started,
            started_at: String::new(),
            ended_at: String::new(),
            phase: Phase::CreatingLogDir,
            in_flight: String::new(),
        };
        (witness, action)
    }

    /// Begins the job `job_name` that deploys `project`, its log to lie under
    /// `logs_dir`, and answers with the witness and its first action.
    ///
    /// The witness gets a fresh identifier. A home shorthand that leads
    /// `logs_dir` is expanded. The project's commands are serialized at once;
    /// if that fails, start-up fails with `ParseProjectCommands` when it
    /// comes to insert the job.
    pub fn new(job_name: String, project: Project, logs_dir: &str) -> (start: (Witness, Action))
        ensures
            start.0@ == starting(
                start.0@.id,
                job_name@,
                project.name@,
                project.description@,
                commands_json(texts(project.commands@)),
                start.0@.log_dir,
            ),
            expands_to(logs_dir@, start.0@.log_dir),
            start.0@.id.len() == 21,
            forall|i: int| 0 <= i < start.0@.id.len() ==> is_id_char(#[trigger] start.0@.id[i]),
            start.0@.well_formed(),
            start.1@ == first_action(start.0@),
    {
        let log_dir = expand_tilde(logs_dir);
        let id = fresh_id();
        let commands = match commands_to_json(&project.commands) {
            Ok(json) => Some(json),
            Err(_) => None,
        };
        Witness::assemble(id, job_name, project, log_dir, commands)
    }

    /// The job's identifier.
    pub fn id(&self) -> (id: &str)
        ensures
            id@ == self@.id,
    {
        self.id.as_str()
    }

    /// The job's name.
    pub fn name(&self) -> (name: &str)
        ensures
            name@ == self@.name,
    {
        self.name.as_str()
    }

    /// The path of the job's log.
    pub fn log_path(&self) -> (path: &str)
        ensures
            path@ == self@.log_path,
    {
        self.log_path.as_str()
    }

    /// The status that the store holds.
    pub fn status(&self) -> (status: JobStatus)
        ensures
            status == self@.status,
    {
        self.status
    }

    /// What the witness is waiting for.
    pub fn phase(&self) -> (phase: Phase)
        ensures
            phase == self@.phase,
    {
        self.phase
    }

    /// The job's record as the store holds it, once start-up is through.
    pub fn record(&self) -> (record: Option<Job>)
        ensures
            match record {
                Some(job) => self@.is_running_or_closed() && job@ == self@.record(),
                None => !self@.is_running_or_closed(),
            },
            self@.well_formed() ==> (record matches Some(job) ==> job@.well_formed()),
    {
        match self.phase {
            Phase::CreatingLogDir
            | Phase::CreatingLogFile
            | Phase::WritingDescription
            | Phase::InsertingJob
            | Phase::Aborted => None,
            _ => Some(
                Job {
                    id: self.id.clone(),
                    name: self.name.clone(),
                    status: self.status,
                    project: self.project.clone(),
                    started_at: self.started_at.clone(),
                    ended_at: self.ended_at.clone(),
                    commands: match &self.commands {
                        Some(commands) => commands.clone(),
                        None => String::new(),
                    },
                },
            ),
        }
    }

    fn insert_statement(&self, commands: &String, stamp: &str) -> (action: Action)
        ensures
            action@ == (ActionView::Execute {
                query: Query::InsertJob,
                params: insert_params(self@, commands@, stamp@),
            }),
    {
        let mut params: Vec<String> = Vec::new();
        params.push(self.id.clone());
        params.push(self.name.clone());
        params.push(JobStatus::Started.label().to_owned());
        params.push(self.project.clone());
        params.push(commands.clone());
        params.push(stamp.to_owned());
        assert(texts(params@) =~= insert_params(self@, commands@, stamp@));
        Action::Execute { query: Query::InsertJob, params }
    }

    fn update_statement(&self, status: JobStatus, stamp: &str) -> (action: Action)
        ensures
            action@ == (ActionView::Execute {
                query: Query::UpdateJob,
                params: update_params(self@, status, stamp@),
            }),
    {
        let mut params: Vec<String> = Vec::new();
        params.push(self.id.clone());
        params.push(status.label().to_owned());
        params.push(stamp.to_owned());
        assert(texts(params@) =~= update_params(self@, status, stamp@));
        Action::Execute { query: Query::UpdateJob, params }
    }

    fn abort(&mut self, error: SubiloError) -> (step: Step)
        ensures
            final(self)@ == aborted(old(self)@),
            step@ == StepView::Failed(error),
    {
        self.phase = Phase::Aborted;
        self.in_flight = String::new();
        Step::Failed(error)
    }

    fn resume(&mut self, step: Step) -> (same: Step)
        ensures
            final(self)@ == resumed(old(self)@),
            same == step,
    {
        self.phase = Phase::Ready;
        self.in_flight = String::new();
        step
    }

    fn commit_entry(&mut self)
        ensures
            final(self)@ == written(old(self)@),
    {
        self.log = Ghost(self.log@ + self.in_flight@);
        self.in_flight = String::new();
    }

    fn close(&mut self, status: JobStatus) -> (step: Step)
        ensures
            final(self)@ == (WitnessView {
                phase: Phase::Closed,
                status,
                ended_at: old(self)@.in_flight,
                in_flight: Seq::empty(),
                ..old(self)@
            }),
            step@ == StepView::Finished,
    {
        self.ended_at = self.in_flight.clone();
        self.in_flight = String::new();
        self.status = status;
        self.phase = Phase::Closed;
        Step::Finished
    }

    /// Takes the outcome of the last action, `stamp` being the present time
    /// as it is to be stored, and answers with the next step. Where a time is
    /// to be stored, an empty one is refused.
    pub fn advance(&mut self, outcome: Outcome, stamp: &str) -> (step: Step)
        ensures
            (final(self)@, step@) == advance_spec(old(self)@, outcome, stamp@),
            old(self)@.well_formed() ==> final(self)@.well_formed(),
    {
        proof {
            if old(self)@.well_formed() {
                advance_keeps_well_formed(old(self)@, outcome, stamp@);
            }
        }
        if self.reads_clock(outcome) && stamp.is_empty() {
            return Step::Refused;
        }
        match (self.phase, outcome) {
            (Phase::CreatingLogDir, Outcome::Done) => {
                self.phase = Phase::CreatingLogFile;
                Step::Perform(Action::CreateLogFile { path: self.log_path.clone() })
            },
            (Phase::CreatingLogDir, Outcome::Failed) => self.abort(SubiloError::CreateLogDir),
            (Phase::CreatingLogFile, Outcome::Done) => {
                self.phase = Phase::WritingDescription;
                self.in_flight = self.description.clone();
                Step::Perform(Action::AppendLog { text: self.description.clone() })
            },
            (Phase::CreatingLogFile, Outcome::Failed) => self.abort(SubiloError::CreateLogFile),
            (Phase::WritingDescription, Outcome::Done) => {
                let serialized = self.commands.clone();
                match serialized {
                    Some(commands) => {
                        let action = self.insert_statement(&commands, stamp);
                        self.commit_entry();
                        self.started_at = stamp.to_owned();
                        self.phase = Phase::InsertingJob;
                        Step::Perform(action)
                    },
                    None => {
                        self.commit_entry();
                        self.abort(SubiloError::ParseProjectCommands)
                    },
                }
            },
            (Phase::WritingDescription, Outcome::Failed) => self.abort(SubiloError::WriteLogFile),
            (Phase::InsertingJob, Outcome::Done) => self.resume(Step::Finished),
            (Phase::InsertingJob, Outcome::Unreachable) => self.abort(SubiloError::DatabaseActor),
            (Phase::InsertingJob, Outcome::Rejected) => self.abort(SubiloError::DatabaseQuery),
            (Phase::WritingCommand, Outcome::Done) => {
                self.commit_entry();
                self.resume(Step::Finished)
            },
            (Phase::WritingCommand, Outcome::Failed) => self.resume(
                Step::Failed(SubiloError::WriteLogFile),
            ),
            (Phase::WritingFailure, Outcome::Done) => {
                let action = self.update_statement(JobStatus::Failed, stamp);
                self.commit_entry();
                self.in_flight = stamp.to_owned();
                self.phase = Phase::MarkingFailed;
                Step::Perform(action)
            },
            (Phase::WritingFailure, Outcome::Failed) => self.resume(
                Step::Failed(SubiloError::WriteLogFile),
            ),
            (Phase::MarkingSucceeded, Outcome::Done) => self.close(JobStatus::Succeeded),
            (Phase::MarkingFailed, Outcome::Done) => self.close(JobStatus::Failed),
            (Phase::MarkingSucceeded, Outcome::Unreachable) => self.resume(
                Step::Failed(SubiloError::DatabaseActor),
            ),
            (Phase::MarkingFailed, Outcome::Unreachable) => self.resume(
                Step::Failed(SubiloError::DatabaseActor),
            ),
            (Phase::MarkingSucceeded, Outcome::Rejected) => self.resume(
                Step::Failed(SubiloError::DatabaseQuery),
            ),
            (Phase::MarkingFailed, Outcome::Rejected) => self.resume(
                Step::Failed(SubiloError::DatabaseQuery),
            ),
            _ => Step::Refused,
        }
    }

    /// Whether `settle` reads the clock when told `outcome`.
    pub fn reads_clock(&self, outcome: Outcome) -> (reads: bool)
        ensures
            reads == records_time(self@, outcome),
    {
        match (self.phase, outcome) {
            (Phase::WritingDescription, Outcome::Done) => true,
            (Phase::WritingFailure, Outcome::Done) => true,
            _ => false,
        }
    }

    /// Takes the outcome of the last action and answers with the next step.
    /// Where a time is to be stored, it is the present time by this
    /// machine's clock, in RFC 3339 with milliseconds, in UTC.
    pub fn settle(&mut self, outcome: Outcome) -> (step: Step)
        ensures
            !records_time(old(self)@, outcome) ==> (final(self)@, step@) == advance_spec(
                old(self)@,
                outcome,
                Seq::empty(),
            ),
            records_time(old(self)@, outcome) ==> exists|stamp: Seq<char>|
                is_utc_stamp(stamp) && (final(self)@, step@) == #[trigger] advance_spec(
                    old(self)@,
                    outcome,
                    stamp,
                ),
            old(self)@.well_formed() ==> final(self)@.well_formed(),
    {
        if self.reads_clock(outcome) {
            let stamp = now();
            self.advance(outcome, stamp.as_str())
        } else {
            self.advance(outcome, "")
        }
    }

    /// Reports that `command` is about to run.
    pub fn report_command(&mut self, command: &str) -> (step: Step)
        ensures
            (final(self)@, step@) == report_command_spec(old(self)@, command@),
            old(self)@.well_formed() ==> final(self)@.well_formed(),
    {
        match self.phase {
            Phase::Ready => {
                let line = command_entry(command);
                self.in_flight = line.clone();
                self.phase = Phase::WritingCommand;
                Step::Perform(Action::AppendLog { text: line })
            },
            _ => Step::Refused,
        }
    }

    /// Reports that the job succeeded at the time `ended_at`, which is
    /// refused where it is empty.
    pub fn report_command_success_at(&mut self, ended_at: &str) -> (step: Step)
        ensures
            (final(self)@, step@) == report_success_spec(old(self)@, ended_at@),
            old(self)@.well_formed() ==> final(self)@.well_formed(),
    {
        if ended_at.is_empty() {
            return Step::Refused;
        }
        match self.phase {
            Phase::Ready => {
                let action = self.update_statement(JobStatus::Succeeded, ended_at);
                self.in_flight = ended_at.to_owned();
                self.phase = Phase::MarkingSucceeded;
                Step::Perform(action)
            },
            _ => Step::Refused,
        }
    }

    /// Reports that the job succeeded now, by this machine's clock, the time
    /// in RFC 3339 with milliseconds, in UTC.
    pub fn report_command_success(&mut self) -> (step: Step)
        ensures
            exists|stamp: Seq<char>|
                is_utc_stamp(stamp) && (final(self)@, step@) == #[trigger] report_success_spec(
                    old(self)@,
                    stamp,
                ),
            old(self)@.well_formed() ==> final(self)@.well_formed(),
    {
        let stamp = now();
        self.report_command_success_at(stamp.as_str())
    }

    /// Reports that the job's process failed with the exit code `status_code`,
    /// or that a signal ended it where there is none.
    pub fn report_command_error_by_code(&mut self, status_code: Option<i32>) -> (step: Step)
        ensures
            (final(self)@, step@) == report_failure_spec(old(self)@, failure_line(status_code)),
            old(self)@.well_formed() ==> final(self)@.well_formed(),
    {
        match self.phase {
            Phase::Ready => {
                let line = failure_entry(status_code);
                self.in_flight = line.clone();
                self.phase = Phase::WritingFailure;
                Step::Perform(Action::AppendLog { text: line })
            },
            _ => Step::Refused,
        }
    }

    /// Reports that the job could not be run, `error` being the runner's
    /// description of what went wrong. It goes to the log as it stands.
    pub fn report_command_error(&mut self, error: &str) -> (step: Step)
        ensures
            (final(self)@, step@) == report_failure_spec(old(self)@, error@),
            old(self)@.well_formed() ==> final(self)@.well_formed(),
    {
        match self.phase {
            Phase::Ready => {
                self.in_flight = error.to_owned();
                self.phase = Phase::WritingFailure;
                Step::Perform(Action::AppendLog { text: error.to_owned() })
            },
            _ => Step::Refused,
        }
    }
}

} // verus!
