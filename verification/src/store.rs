//! The operations on the todo table: creating it, adding a task, marking a
//! task as done, and listing.
//!
//! Each operation hands one statement to the engine and settles what comes
//! back. What the engine does with the statement is not known here; what is
//! made of its answer is.

use vstd::prelude::*;
use crate::engine::{
    execute_plain, execute_text, execute_text_int, plain_outcome, prepare, query_items,
    sql_failure,
};
use crate::error::{
    settle_initialize, settle_insert, settle_update, SqlFailure, StoreError, StoreErrorView,
};
use crate::item::{TodoItem, TodoItemView};
use crate::listing::{is_listing, line_views, list_rows, Listing};
use crate::render::render_lines;

verus! {

/// Creates the todo table unless it is there already.
pub const CREATE_TABLE_SQL: &'static str =
    "CREATE TABLE IF NOT EXISTS todo (id INTEGER PRIMARY KEY, task TEXT NOT NULL UNIQUE, done INTEGER NOT NULL)";

/// Stores a task with its completion flag; the table assigns the id.
pub const INSERT_SQL: &'static str = "INSERT INTO todo (task, done) VALUES (?1, ?2)";

/// Marks the row with the given task as done.
pub const MARK_DONE_SQL: &'static str = "UPDATE todo SET done = 1 WHERE task = ?1";

/// Reads every row of the table.
pub const SELECT_SQL: &'static str = "SELECT id, task, done FROM todo";

/// The number stored for a completion flag.
pub open spec fn flag_of(done: bool) -> int {
    if done {
        1
    } else {
        0
    }
}

/// An attempt to add `task` either succeeded or failed as a failure to add
/// `task` itself.
pub open spec fn refuses_only(result: Result<(), StoreError>, task: Seq<char>) -> bool {
    match result {
        Ok(_) => true,
        Err(error) => match error@ {
            StoreErrorView::DuplicateTask { task: refused, .. } => refused == task,
            StoreErrorView::InsertFailure { task: refused, .. } => refused == task,
            _ => false,
        },
    }
}

/// The number stored for a completion flag: 1 for done, 0 for pending.
pub fn done_flag(done: bool) -> (flag: i32)
    ensures
        flag == flag_of(done),
{
    if done {
        1
    } else {
        0
    }
}

/// Makes sure that the todo table exists. A table that is there already is
/// left as it is. Whatever the engine answers, the only failure is
/// `StorageUnavailable`: see `initialize_result`.
pub fn initialize_database(conn: &rusqlite::Connection) -> (result: Result<(), StoreError>)
    ensures
        result matches Err(error) ==> error is StorageUnavailable,
{
    settle_initialize(plain_outcome(execute_plain(conn, CREATE_TABLE_SQL)))
}

/// Stores `task` as a new pending item. Whatever the engine answers, a
/// failure names `task`, as a duplicate or as one that could not be stored:
/// see `insert_result`.
pub fn add_todo(conn: &rusqlite::Connection, task: &str) -> (result: Result<(), StoreError>)
    ensures
        refuses_only(result, task@),
{
    let item = TodoItem::new(task.to_owned());
    let flag = done_flag(item.done);
    let outcome = execute_text_int(conn, INSERT_SQL, item.task.as_str(), flag);
    settle_insert(task, plain_outcome(outcome))
}

/// Marks the item whose task is exactly `task` as done. That no item has
/// such a task is no failure. Whatever the engine answers, the only failure
/// is `UpdateFailure`: see `update_result`.
pub fn mark_done(conn: &rusqlite::Connection, task: &str) -> (result: Result<(), StoreError>)
    ensures
        result matches Err(error) ==> error is UpdateFailure,
{
    settle_update(plain_outcome(execute_text(conn, MARK_DONE_SQL, task)))
}

/// Reads the table and lists it. Whatever the engine hands out, the lines
/// are in ascending order of id: they show the rows that were read before
/// the first failure, see `list_rows`. Where the statement itself fails,
/// there are no lines.
pub fn list_items(conn: &rusqlite::Connection) -> (listing: Listing)
    ensures
        is_listing(line_views(listing.lines@)),
{
    match prepare(conn, SELECT_SQL) {
        Ok(mut statement) => match query_items(&mut statement) {
            Ok(rows) => {
                let (lines, stopped) = list_rows(&rows);
                let failure = match stopped {
                    Some(at) => match &rows[at] {
                        Ok(_) => None,
                        Err(error) => Some(sql_failure(error)),
                    },
                    None => None,
                };
                Listing { lines, failure }
            },
            Err(error) => empty_listing(sql_failure(&error)),
        },
        Err(error) => empty_listing(sql_failure(&error)),
    }
}

fn empty_listing(failure: SqlFailure) -> (listing: Listing)
    ensures
        listing.lines@.len() == 0,
        listing.failure == Some(failure),
        is_listing(line_views(listing.lines@)),
{
    let listing = Listing { lines: Vec::new(), failure: Some(failure) };
    proof {
        let nothing = Seq::<TodoItemView>::empty();
        assert(line_views(listing.lines@) =~= render_lines(nothing));
    }
    listing
}

} // verus!
