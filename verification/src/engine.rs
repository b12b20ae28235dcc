//! The calls into `rusqlite`. Everything marked `external_body` in this
//! module is taken on trust; nothing of it is proved. None of these
//! contracts claims anything of what the engine answers, since that depends
//! on the database behind the connection.
//!
//! `rusqlite` prepares a text that holds several statements one inside the
//! other, as deep as there are statements. Each call that takes a statement
//! therefore admits one text only: the single statement that it is for.

use vstd::prelude::*;
use crate::error::SqlFailure;
use crate::item::TodoItem;
use crate::store::{CREATE_TABLE_SQL, INSERT_SQL, MARK_DONE_SQL, SELECT_SQL};

verus! {

/// `rusqlite::Connection`: an open database. Nothing is known of what it
/// holds.
#[verifier::external_type_specification]
#[verifier::external_body]
pub struct ExConnection(rusqlite::Connection);

/// `rusqlite::Statement`: a statement that a connection has prepared.
#[verifier::external_type_specification]
#[verifier::external_body]
pub struct ExStatement<'conn>(rusqlite::Statement<'conn>);

/// `rusqlite::Error`: whatever went wrong in a call into the engine.
#[verifier::external_type_specification]
#[verifier::external_body]
pub struct ExSqlError(rusqlite::Error);

/// `rusqlite::Connection::execute` for a statement without parameters: it
/// prepares the statement and runs it, and gives the number of rows changed
/// or the engine's failure. It is for the statement that creates the table,
/// and admits no other text. Nothing is claimed of the outcome.
#[verifier::external_body]
pub(crate) fn execute_plain(conn: &rusqlite::Connection, sql: &str) -> (outcome: Result<
    usize,
    rusqlite::Error,
>)
    requires
        sql@ == CREATE_TABLE_SQL@,
{
    conn.execute(sql, ())
}

/// `rusqlite::Connection::execute` for a statement with one parameter, bound
/// as text. It is for the statement that marks a task as done, and admits no
/// other text. Nothing is claimed of the outcome.
#[verifier::external_body]
pub(crate) fn execute_text(conn: &rusqlite::Connection, sql: &str, text: &str) -> (outcome:
    Result<usize, rusqlite::Error>)
    requires
        sql@ == MARK_DONE_SQL@,
{
    conn.execute(sql, (text,))
}

/// `rusqlite::Connection::execute` for a statement with two parameters, the
/// first bound as text and the second as an integer. It is for the statement
/// that stores a task, and admits no other text. Nothing is claimed of the
/// outcome.
#[verifier::external_body]
pub(crate) fn execute_text_int(
    conn: &rusqlite::Connection,
    sql: &str,
    text: &str,
    number: i32,
) -> (outcome: Result<usize, rusqlite::Error>)
    requires
        sql@ == INSERT_SQL@,
{
    conn.execute(sql, (text, number))
}

/// `rusqlite::Connection::prepare`: the prepared statement, or the engine's
/// failure. It is for the statement that reads the table, and admits no
/// other text. Nothing is claimed of the outcome.
#[verifier::external_body]
pub(crate) fn prepare<'conn>(conn: &'conn rusqlite::Connection, sql: &str) -> (statement:
    Result<rusqlite::Statement<'conn>, rusqlite::Error>)
    requires
        sql@ == SELECT_SQL@,
{
    conn.prepare(sql)
}

/// `rusqlite::Statement::query_map` without parameters, with every row read
/// by `rusqlite::Row::get` as an item: the id from the first column, the
/// task from the second, the completion flag from the third. The rows come
/// in the order in which the engine hands them out, a row that could not be
/// read as its failure. Nothing is claimed of them.
#[verifier::external_body]
pub(crate) fn query_items(statement: &mut rusqlite::Statement<'_>) -> (rows: Result<
    Vec<Result<TodoItem, rusqlite::Error>>,
    rusqlite::Error,
>) {
    let rows = statement.query_map(
        (),
        |row| Ok(TodoItem { id: row.get(0)?, task: row.get(1)?, done: row.get(2)? }),
    )?;
    Ok(rows.collect())
}

/// `rusqlite::Error::sqlite_extended_error_code`: the extended result code
/// where the failure is one that SQLite itself reported. Nothing is claimed
/// of the code.
#[verifier::external_body]
pub(crate) fn extended_code(error: &rusqlite::Error) -> (code: Option<i32>) {
    error.sqlite_extended_error_code()
}

/// `failure` carries the message of `error`: the text that `error` gives
/// when it is written out with `to_string`.
pub open spec fn carries_message_of(failure: SqlFailure, error: &rusqlite::Error) -> bool {
    vstd::string::to_string_from_display_ensures::<rusqlite::Error>(error, failure.message)
}

/// The code and the message of a failure, as plain values. The message is
/// the failure's own text; nothing is stated of the code, which comes from
/// `extended_code`.
pub(crate) fn sql_failure(error: &rusqlite::Error) -> (failure: SqlFailure)
    ensures
        carries_message_of(failure, error),
{
    SqlFailure { code: extended_code(error), message: error.to_string() }
}

/// The outcome of a statement, with its failure as plain values: the number
/// of rows changed as it came, or the failure with the message of the
/// engine's.
pub(crate) fn plain_outcome(outcome: Result<usize, rusqlite::Error>) -> (plain: Result<
    usize,
    SqlFailure,
>)
    ensures
        match outcome {
            Ok(changed) => plain == Ok::<usize, SqlFailure>(changed),
            Err(error) => plain matches Err(failure) && carries_message_of(failure, &error),
        },
{
    match outcome {
        Ok(changed) => Ok(changed),
        Err(error) => Err(sql_failure(&error)),
    }
}

} // verus!
