//! What passes between a witness and its driver.
//!
//! The witness hands out an `Action`; the driver performs it and reports an
//! `Outcome`; the witness answers with the next `Step`.

use crate::job::SubiloError;
use crate::text::texts;
use vstd::prelude::*;

verus! {

/// The statements that the store knows.
#[derive(Clone, Copy, Debug, PartialEq, Eq, Structural)]
pub enum Query {
    /// Insert a job: id, name, status, project, commands, start time.
    InsertJob,
    /// Update a job: id, status, end time.
    UpdateJob,
}

/// One thing for the driver to do.
#[derive(Debug, PartialEq, Eq)]
pub enum Action {
    /// Create the directory `path` and its parents, if they are not there.
    CreateLogDir { path: String },
    /// Create the file `path` for appending, emptying one that is there.
    CreateLogFile { path: String },
    /// Append `text` to the log.
    AppendLog { text: String },
    /// Send a statement with its parameters, in order, through the
    /// persistence channel.
    Execute { query: Query, params: Vec<String> },
}

/// The content of an `Action`.
pub enum ActionView {
    CreateLogDir { path: Seq<char> },
    CreateLogFile { path: Seq<char> },
    AppendLog { text: Seq<char> },
    Execute { query: Query, params: Seq<Seq<char>> },
}

impl View for Action {
    type V = ActionView;

    open spec fn view(&self) -> ActionView {
        match self {
            Action::CreateLogDir { path } => ActionView::CreateLogDir { path: path@ },
            Action::CreateLogFile { path } => ActionView::CreateLogFile { path: path@ },
            Action::AppendLog { text } => ActionView::AppendLog { text: text@ },
            Action::Execute { query, params } => ActionView::Execute {
                query: *query,
                params: texts(params@),
            },
        }
    }
}

/// How an action went.
#[derive(Clone, Copy, Debug, PartialEq, Eq, Structural)]
pub enum Outcome {
    /// It was done.
    Done,
    /// The file system refused it.
    Failed,
    /// The persistence channel was closed or could not be reached.
    Unreachable,
    /// The channel took the statement and the store turned it down.
    Rejected,
}

/// The witness's answer to a report or an outcome.
#[derive(Debug, PartialEq, Eq)]
pub enum Step {
    /// Do this next, and report how it went.
    Perform(Action),
    /// The operation is complete.
    Finished,
    /// The operation has failed.
    Failed(SubiloError),
    /// The witness cannot take this now; nothing has changed.
    Refused,
}

/// The content of a `Step`.
pub enum StepView {
    Perform(ActionView),
    Finished,
    Failed(SubiloError),
    Refused,
}

impl View for Step {
    type V = StepView;

    open spec fn view(&self) -> StepView {
        match self {
            Step::Perform(action) => StepView::Perform(action@),
            Step::Finished => StepView::Finished,
            Step::Failed(error) => StepView::Failed(*error),
            Step::Refused => StepView::Refused,
        }
    }
}

} // verus!
