//! Failures of the store, and how a statement's outcome becomes one.

use vstd::prelude::*;

verus! {

/// The extended result code with which SQLite refuses a row that would break
/// a `UNIQUE` constraint.
pub const UNIQUE_VIOLATION: i32 = 2067;

/// What the engine reported when it refused a statement: its extended result
/// code, where it gave one, and its message.
#[derive(Debug)]
pub struct SqlFailure {
    pub code: Option<i32>,
    pub message: String,
}

/// What a `SqlFailure` stands for in contracts.
pub struct SqlFailureView {
    pub code: Option<int>,
    pub message: Seq<char>,
}

impl View for SqlFailure {
    type V = SqlFailureView;

    open spec fn view(&self) -> SqlFailureView {
        SqlFailureView {
            code: match self.code {
                Some(code) => Some(code as int),
                None => None,
            },
            message: self.message@,
        }
    }
}

/// Why an operation on the store failed.
#[derive(Debug)]
pub enum StoreError {
    /// The table could not be made ready for use.
    StorageUnavailable { message: String },
    /// The task is already in the table.
    DuplicateTask { task: String, message: String },
    /// The task could not be stored for any other reason.
    InsertFailure { task: String, message: String },
    /// The engine refused to mark a task as done.
    UpdateFailure { message: String },
}

/// What a `StoreError` stands for in contracts: the same cases, with their
/// texts as sequences of characters.
pub enum StoreErrorView {
    StorageUnavailable { message: Seq<char> },
    DuplicateTask { task: Seq<char>, message: Seq<char> },
    InsertFailure { task: Seq<char>, message: Seq<char> },
    UpdateFailure { message: Seq<char> },
}

impl View for StoreError {
    type V = StoreErrorView;

    open spec fn view(&self) -> StoreErrorView {
        match self {
            StoreError::StorageUnavailable { message } => StoreErrorView::StorageUnavailable {
                message: message@,
            },
            StoreError::DuplicateTask { task, message } => StoreErrorView::DuplicateTask {
                task: task@,
                message: message@,
            },
            StoreError::InsertFailure { task, message } => StoreErrorView::InsertFailure {
                task: task@,
                message: message@,
            },
            StoreError::UpdateFailure { message } => StoreErrorView::UpdateFailure {
                message: message@,
            },
        }
    }
}

/// The view of an operation's result.
pub open spec fn result_view(result: Result<(), StoreError>) -> Result<(), StoreErrorView> {
    match result {
        Ok(_) => Ok(()),
        Err(error) => Err(error@),
    }
}

/// The view of a statement's outcome: the number of rows it changed, or the
/// failure the engine reported.
pub open spec fn outcome_view(outcome: Result<usize, SqlFailure>) -> Result<int, SqlFailureView> {
    match outcome {
        Ok(changed) => Ok(changed as int),
        Err(failure) => Err(failure@),
    }
}

/// Creating the table succeeds whenever the statement does; any failure
/// means that the storage cannot be used.
pub open spec fn initialize_result(outcome: Result<int, SqlFailureView>) -> Result<
    (),
    StoreErrorView,
> {
    match outcome {
        Ok(_) => Ok(()),
        Err(failure) => Err(StoreErrorView::StorageUnavailable { message: failure.message }),
    }
}

/// Adding a task succeeds whenever the insert does. A refusal with the code
/// of a broken `UNIQUE` constraint means that the task is stored already.
pub open spec fn insert_result(task: Seq<char>, outcome: Result<int, SqlFailureView>) -> Result<
    (),
    StoreErrorView,
> {
    match outcome {
        Ok(_) => Ok(()),
        Err(failure) => if failure.code == Some(UNIQUE_VIOLATION as int) {
            Err(StoreErrorView::DuplicateTask { task, message: failure.message })
        } else {
            Err(StoreErrorView::InsertFailure { task, message: failure.message })
        },
    }
}

/// Marking a task as done succeeds whenever the update does, however many
/// rows it changed: that no row matched is no failure.
pub open spec fn update_result(outcome: Result<int, SqlFailureView>) -> Result<
    (),
    StoreErrorView,
> {
    match outcome {
        Ok(_) => Ok(()),
        Err(failure) => Err(StoreErrorView::UpdateFailure { message: failure.message }),
    }
}

/// An insert that the engine refuses for a broken `UNIQUE` constraint is
/// signalled as a duplicate of the task, whatever the message says.
pub proof fn unique_refusal_signals_duplicate(task: Seq<char>, message: Seq<char>)
    ensures
        insert_result(
            task,
            Err(SqlFailureView { code: Some(UNIQUE_VIOLATION as int), message }),
        ) == Err::<(), StoreErrorView>(StoreErrorView::DuplicateTask { task, message }),
{
}

/// An update that the engine has run is a success, however many rows it
/// changed: one that changed none gives no signal of a failure.
pub proof fn update_without_match_is_silent(changed: int)
    ensures
        update_result(Ok(changed)) == Ok::<(), StoreErrorView>(()),
        update_result(Ok(0)) == Ok::<(), StoreErrorView>(()),
{
}

/// The text shown to the user for a failure.
pub open spec fn error_text(error: StoreErrorView) -> Seq<char> {
    match error {
        StoreErrorView::StorageUnavailable { message } => "Failed to initialize database: "@
            + message,
        StoreErrorView::DuplicateTask { task, message } => "Failed to add todo '"@ + task + "': "@
            + message,
        StoreErrorView::InsertFailure { task, message } => "Failed to add todo '"@ + task + "': "@
            + message,
        StoreErrorView::UpdateFailure { message } => "Failed to mark todo as done: "@ + message,
    }
}

/// The result of creating the table, from the outcome of its statement.
pub fn settle_initialize(outcome: Result<usize, SqlFailure>) -> (result: Result<(), StoreError>)
    ensures
        result_view(result) == initialize_result(outcome_view(outcome)),
{
    match outcome {
        Ok(_) => Ok(()),
        Err(failure) => Err(StoreError::StorageUnavailable { message: failure.message }),
    }
}

/// The result of adding `task`, from the outcome of its insert.
pub fn settle_insert(task: &str, outcome: Result<usize, SqlFailure>) -> (result: Result<
    (),
    StoreError,
>)
    ensures
        result_view(result) == insert_result(task@, outcome_view(outcome)),
{
    match outcome {
        Ok(_) => Ok(()),
        Err(failure) => {
            let duplicate = match failure.code {
                Some(code) => code == UNIQUE_VIOLATION,
                None => false,
            };
            if duplicate {
                Err(StoreError::DuplicateTask { task: task.to_owned(), message: failure.message })
            } else {
                Err(StoreError::InsertFailure { task: task.to_owned(), message: failure.message })
            }
        },
    }
}

/// The result of marking a task as done, from the outcome of its update.
pub fn settle_update(outcome: Result<usize, SqlFailure>) -> (result: Result<(), StoreError>)
    ensures
        result_view(result) == update_result(outcome_view(outcome)),
{
    match outcome {
        Ok(_) => Ok(()),
        Err(failure) => Err(StoreError::UpdateFailure { message: failure.message }),
    }
}

impl StoreError {
    /// The text shown to the user for this failure.
    pub fn to_text(&self) -> (text: String)
        ensures
            text@ == error_text(self@),
    {
        match self {
            StoreError::StorageUnavailable { message } => {
                let mut text = String::from_str("Failed to initialize database: ");
                text.append(message.as_str());
                text
            },
            StoreError::DuplicateTask { task, message } => add_failure_text(
                task.as_str(),
                message.as_str(),
            ),
            StoreError::InsertFailure { task, message } => add_failure_text(
                task.as_str(),
                message.as_str(),
            ),
            StoreError::UpdateFailure { message } => {
                let mut text = String::from_str("Failed to mark todo as done: ");
                text.append(message.as_str());
                text
            },
        }
    }
}

fn add_failure_text(task: &str, message: &str) -> (text: String)
    ensures
        text@ == "Failed to add todo '"@ + task@ + "': "@ + message@,
{
    let mut text = String::from_str("Failed to add todo '");
    text.append(task);
    text.append("': ");
    text.append(message);
    text
}

} // verus!
