//! What holds of every run of a witness.
//!
//! The laws speak of the witness's content and of the functions that say what
//! each operation makes of it, which are the ones that the operations'
//! contracts name.

use crate::job::log::{command_line, failure_line, log_file_name};
use crate::job::protocol::{ActionView, Outcome, Query, StepView};
use crate::job::witness::{
    advance_spec, first_action, insert_params, report_command_spec,
    report_failure_spec, report_success_spec, starting, update_params, Phase, WitnessView,
};
use crate::job::{JobStatus, SubiloError};
use vstd::prelude::*;

verus! {

/// The witness after an action that was done, at the time `stamp`.
pub open spec fn done(w: WitnessView, stamp: Seq<char>) -> WitnessView {
    advance_spec(w, Outcome::Done, stamp).0
}

/// The witness after a start-up in which every action was done, the job
/// inserted with the start time `stamp`.
pub open spec fn started(w: WitnessView, stamp: Seq<char>) -> WitnessView {
    done(done(done(done(w, stamp), stamp), stamp), stamp)
}

/// The witness after the report of `command`, its entry written.
pub open spec fn command_done(w: WitnessView, command: Seq<char>) -> WitnessView {
    done(report_command_spec(w, command).0, Seq::empty())
}

/// The witness after the reports of `commands`, in order, each entry written.
pub open spec fn commands_done(w: WitnessView, commands: Seq<Seq<char>>) -> WitnessView
    decreases commands.len(),
{
    if commands.len() == 0 {
        w
    } else {
        command_done(commands_done(w, commands.drop_last()), commands.last())
    }
}

/// The entries of `commands`, one after the other.
pub open spec fn command_lines(commands: Seq<Seq<char>>) -> Seq<char>
    decreases commands.len(),
{
    if commands.len() == 0 {
        Seq::empty()
    } else {
        command_lines(commands.drop_last()) + command_line(commands.last())
    }
}

/// The witness after the report of success at `stamp`, the store updated.
pub open spec fn success_done(w: WitnessView, stamp: Seq<char>) -> WitnessView {
    done(report_success_spec(w, stamp).0, Seq::empty())
}

/// The witness after the report of a failure with the log entry `entry`, the
/// entry written at `stamp` and the store updated.
pub open spec fn failure_done(w: WitnessView, entry: Seq<char>, stamp: Seq<char>) -> WitnessView {
    done(done(report_failure_spec(w, entry).0, stamp), Seq::empty())
}

/// A witness that is about to start is well formed.
pub proof fn starting_is_well_formed(
    id: Seq<char>,
    name: Seq<char>,
    project: Seq<char>,
    description: Seq<char>,
    commands: Option<Seq<char>>,
    log_dir: Seq<char>,
)
    ensures
        starting(id, name, project, description, commands, log_dir).well_formed(),
{
}

/// Whatever outcome a well-formed witness is told, and whatever the time, it
/// stays well formed.
pub proof fn advance_keeps_well_formed(w: WitnessView, outcome: Outcome, stamp: Seq<char>)
    requires
        w.well_formed(),
    ensures
        advance_spec(w, outcome, stamp).0.well_formed(),
{
    assert(w.description.is_prefix_of(w.log) ==> w.description.is_prefix_of(w.log + w.in_flight));
    if w.phase == Phase::WritingDescription {
        assert(w.log + w.in_flight =~= w.description);
    }
}

/// Whatever is reported to a well-formed witness, it stays well formed.
pub proof fn reports_keep_well_formed(
    w: WitnessView,
    command: Seq<char>,
    entry: Seq<char>,
    stamp: Seq<char>,
)
    requires
        w.well_formed(),
    ensures
        report_command_spec(w, command).0.well_formed(),
        report_failure_spec(w, entry).0.well_formed(),
        report_success_spec(w, stamp).0.well_formed(),
{
}

/// A start-up in which every action is done asks, in this order, for the
/// log's directory, for the log's file at `{dir}/{name}.log`, for the
/// project's description as the log's first entry, and for the job to be
/// inserted as started. After it the log holds the description and nothing
/// else, and the witness awaits reports.
pub proof fn start_writes_the_description_first(
    id: Seq<char>,
    name: Seq<char>,
    project: Seq<char>,
    description: Seq<char>,
    commands: Seq<char>,
    log_dir: Seq<char>,
    stamp: Seq<char>,
)
    requires
        stamp.len() > 0,
    ensures
        ({
            let w0 = starting(id, name, project, description, Some(commands), log_dir);
            let (w1, s1) = advance_spec(w0, Outcome::Done, stamp);
            let (w2, s2) = advance_spec(w1, Outcome::Done, stamp);
            let (w3, s3) = advance_spec(w2, Outcome::Done, stamp);
            let (w4, s4) = advance_spec(w3, Outcome::Done, stamp);
            &&& first_action(w0) == (ActionView::CreateLogDir { path: log_dir })
            &&& s1 == StepView::Perform(
                ActionView::CreateLogFile { path: log_file_name(name, log_dir) },
            )
            &&& s2 == StepView::Perform(ActionView::AppendLog { text: description })
            &&& s3 == StepView::Perform(
                ActionView::Execute {
                    query: Query::InsertJob,
                    params: insert_params(w0, commands, stamp),
                },
            )
            &&& s4 == StepView::Finished
            &&& w4 == started(w0, stamp)
            &&& w4.phase == Phase::Ready
            &&& w4.log == description
            &&& w4.log_path == log_file_name(name, log_dir)
            &&& w4.status == JobStatus::Started
            &&& w4.started_at == stamp
            &&& w4.ended_at.len() == 0
        }),
{
    let w0 = starting(id, name, project, description, Some(commands), log_dir);
    let w2 = done(done(w0, stamp), stamp);
    assert(w2.log + w2.in_flight =~= description);
}

/// Reporting commands to a running job writes their entries to the log in
/// the order of the reports, and changes nothing else.
pub proof fn commands_are_logged_in_order(w: WitnessView, commands: Seq<Seq<char>>)
    requires
        w.phase == Phase::Ready,
        w.in_flight.len() == 0,
    ensures
        commands_done(w, commands) == (WitnessView {
            log: w.log + command_lines(commands),
            ..w
        }),
    decreases commands.len(),
{
    if commands.len() == 0 {
        assert(w.log + command_lines(commands) =~= w.log);
    } else {
        commands_are_logged_in_order(w, commands.drop_last());
        let before = commands_done(w, commands.drop_last());
        assert(command_done(before, commands.last()).log =~= w.log + command_lines(commands));
        assert(command_done(before, commands.last()).in_flight =~= w.in_flight);
    }
}

/// A job that starts, runs `commands` and succeeds at `ended_at` leaves a
/// log that holds the description and then the commands' entries, in order,
/// and a record that says `succeeded` and bears `ended_at` as its end time.
pub proof fn a_successful_job(
    w0: WitnessView,
    started_at: Seq<char>,
    commands: Seq<Seq<char>>,
    ended_at: Seq<char>,
)
    requires
        w0 == starting(w0.id, w0.name, w0.project, w0.description, w0.commands, w0.log_dir),
        w0.commands is Some,
        started_at.len() > 0,
        ended_at.len() > 0,
    ensures
        ({
            let end = success_done(commands_done(started(w0, started_at), commands), ended_at);
            &&& end.log == w0.description + command_lines(commands)
            &&& end.status == JobStatus::Succeeded
            &&& end.phase == Phase::Closed
            &&& end.started_at == started_at
            &&& end.ended_at == ended_at
            &&& end.record().well_formed()
            &&& report_success_spec(
                commands_done(started(w0, started_at), commands),
                ended_at,
            ).1 == StepView::Perform(
                ActionView::Execute {
                    query: Query::UpdateJob,
                    params: update_params(w0, JobStatus::Succeeded, ended_at),
                },
            )
        }),
{
    start_writes_the_description_first(
        w0.id,
        w0.name,
        w0.project,
        w0.description,
        w0.commands->0,
        w0.log_dir,
        started_at,
    );
    commands_are_logged_in_order(started(w0, started_at), commands);
}

/// A running job that is reported as failed gets the failure's entry at the
/// end of its log and then `failed` with an end time in its record: the
/// entry for an exit code where there is one, for a signal where there is
/// none.
pub proof fn a_failure_by_code(w: WitnessView, code: Option<i32>, stamp: Seq<char>)
    requires
        w.phase == Phase::Ready,
        stamp.len() > 0,
    ensures
        ({
            let end = failure_done(w, failure_line(code), stamp);
            &&& end.log == w.log + failure_line(code)
            &&& end.status == JobStatus::Failed
            &&& end.phase == Phase::Closed
            &&& end.ended_at == stamp
        }),
{
}

/// Once a job has ended, its witness refuses every report and every outcome,
/// and nothing about it changes.
pub proof fn nothing_follows_the_end(
    w: WitnessView,
    command: Seq<char>,
    entry: Seq<char>,
    stamp: Seq<char>,
    outcome: Outcome,
)
    requires
        w.phase == Phase::Closed,
    ensures
        report_command_spec(w, command) == (w, StepView::Refused),
        report_success_spec(w, stamp) == (w, StepView::Refused),
        report_failure_spec(w, entry) == (w, StepView::Refused),
        advance_spec(w, outcome, stamp) == (w, StepView::Refused),
{
}

/// The same holds of a witness whose start-up failed: there is no job to
/// report on.
pub proof fn nothing_follows_a_failed_start(
    w: WitnessView,
    command: Seq<char>,
    entry: Seq<char>,
    stamp: Seq<char>,
    outcome: Outcome,
)
    requires
        w.phase == Phase::Aborted,
    ensures
        report_command_spec(w, command) == (w, StepView::Refused),
        report_success_spec(w, stamp) == (w, StepView::Refused),
        report_failure_spec(w, entry) == (w, StepView::Refused),
        advance_spec(w, outcome, stamp) == (w, StepView::Refused),
{
}

/// The log only grows: what it held before an operation, it holds at its
/// beginning after. So whoever reads the log while the job runs reads the
/// beginning of what it will hold in the end.
pub proof fn the_log_only_grows(
    w: WitnessView,
    command: Seq<char>,
    entry: Seq<char>,
    stamp: Seq<char>,
    outcome: Outcome,
)
    ensures
        w.log.is_prefix_of(advance_spec(w, outcome, stamp).0.log),
        report_command_spec(w, command).0.log == w.log,
        report_success_spec(w, stamp).0.log == w.log,
        report_failure_spec(w, entry).0.log == w.log,
{
    assert(w.log.is_prefix_of(w.log + w.in_flight));
    assert(w.log.is_prefix_of(w.log));
}

/// The store is told that a job failed only once the failure's entry is in
/// the log, and that a job ended only while it runs.
pub proof fn an_update_follows_its_entry(w: WitnessView, outcome: Outcome, stamp: Seq<char>)
    requires
        advance_spec(w, outcome, stamp).1 matches StepView::Perform(
            ActionView::Execute { query: Query::UpdateJob, .. },
        ),
    ensures
        w.phase == Phase::WritingFailure,
        outcome == Outcome::Done,
        advance_spec(w, outcome, stamp).0.log == w.log + w.in_flight,
        advance_spec(w, outcome, stamp).1 == StepView::Perform(
            ActionView::Execute {
                query: Query::UpdateJob,
                params: update_params(w, JobStatus::Failed, stamp),
            },
        ),
{
}

/// A start-up that fails has failed for good: the witness is aborted, the
/// store holds no job, and the log holds what it held.
pub proof fn a_failed_start_is_aborted(w: WitnessView, outcome: Outcome, stamp: Seq<char>)
    requires
        !w.is_running_or_closed(),
        advance_spec(w, outcome, stamp).1 is Failed,
    ensures
        advance_spec(w, outcome, stamp).0.phase == Phase::Aborted,
        !advance_spec(w, outcome, stamp).0.is_running_or_closed(),
        advance_spec(w, outcome, stamp).0.status == w.status,
        w.phase != Phase::WritingDescription ==> advance_spec(w, outcome, stamp).0.log == w.log,
{
}

/// A report that fails rolls nothing back: the job runs on, its record is
/// what the store last took, and the log holds whatever reached it.
pub proof fn a_failed_report_leaves_the_job_running(
    w: WitnessView,
    outcome: Outcome,
    stamp: Seq<char>,
)
    requires
        w.is_running_or_closed(),
        advance_spec(w, outcome, stamp).1 is Failed,
    ensures
        advance_spec(w, outcome, stamp).0.phase == Phase::Ready,
        advance_spec(w, outcome, stamp).0.record() == w.record(),
        advance_spec(w, outcome, stamp).0.log == w.log,
{
}

/// Each error has one cause: the action that failed, and for the store the
/// way in which it failed.
pub proof fn each_error_has_its_cause(w: WitnessView, outcome: Outcome, stamp: Seq<char>)
    ensures
        match advance_spec(w, outcome, stamp).1 {
            StepView::Failed(SubiloError::CreateLogDir) => {
                w.phase == Phase::CreatingLogDir && outcome == Outcome::Failed
            },
            StepView::Failed(SubiloError::CreateLogFile) => {
                w.phase == Phase::CreatingLogFile && outcome == Outcome::Failed
            },
            StepView::Failed(SubiloError::WriteLogFile) => {
                &&& outcome == Outcome::Failed
                &&& (w.phase == Phase::WritingDescription || w.phase == Phase::WritingCommand
                    || w.phase == Phase::WritingFailure)
            },
            StepView::Failed(SubiloError::ParseProjectCommands) => {
                w.phase == Phase::WritingDescription && outcome == Outcome::Done
                    && w.commands is None
            },
            StepView::Failed(SubiloError::DatabaseActor) => {
                &&& outcome == Outcome::Unreachable
                &&& (w.phase == Phase::InsertingJob || w.phase == Phase::MarkingSucceeded
                    || w.phase == Phase::MarkingFailed)
            },
            StepView::Failed(SubiloError::DatabaseQuery) => {
                &&& outcome == Outcome::Rejected
                &&& (w.phase == Phase::InsertingJob || w.phase == Phase::MarkingSucceeded
                    || w.phase == Phase::MarkingFailed)
            },
            _ => true,
        },
{
}

/// The record changes its status only when the store has taken the update,
/// and then to the status that was reported.
pub proof fn the_status_follows_the_store(w: WitnessView, outcome: Outcome, stamp: Seq<char>)
    requires
        advance_spec(w, outcome, stamp).0.status != w.status,
    ensures
        outcome == Outcome::Done,
        w.phase == Phase::MarkingSucceeded || w.phase == Phase::MarkingFailed,
        advance_spec(w, outcome, stamp).0.phase == Phase::Closed,
        w.phase == Phase::MarkingSucceeded ==> advance_spec(w, outcome, stamp).0.status
            == JobStatus::Succeeded,
        w.phase == Phase::MarkingFailed ==> advance_spec(w, outcome, stamp).0.status
            == JobStatus::Failed,
{
}

} // verus!
