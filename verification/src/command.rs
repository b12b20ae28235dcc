//! The commands of the todo list and what running one shows.

use vstd::prelude::*;
use crate::error::{error_text, result_view, StoreError, StoreErrorView};
use crate::listing::{is_listing, line_views};
use crate::store::{add_todo, initialize_database, list_items, mark_done, refuses_only};

verus! {

/// A parsed command line.
pub struct Cli {
    pub command: Option<Commands>,
}

/// The subcommands. Without one, the list is shown and nothing else
/// happens.
pub enum Commands {
    /// Add each of the tasks.
    Add { todo: Option<Vec<String>> },
    /// Mark each of the tasks as done.
    Done { todo: Option<Vec<String>> },
}

/// The text of each task.
pub open spec fn task_views(tasks: Seq<String>) -> Seq<Seq<char>> {
    tasks.map_values(|task: String| task@)
}

/// The view of each result.
pub open spec fn result_views(results: Seq<Result<(), StoreError>>) -> Seq<
    Result<(), StoreErrorView>,
> {
    results.map_values(|result: Result<(), StoreError>| result_view(result))
}

/// The lines that report the failures among `results`: one line for each
/// failure, in the order of the results; nothing for a success.
pub open spec fn report_lines(results: Seq<Result<(), StoreErrorView>>) -> Seq<Seq<char>>
    decreases results.len(),
{
    if results.len() == 0 {
        Seq::empty()
    } else {
        let before = report_lines(results.drop_last());
        match results.last() {
            Ok(_) => before,
            Err(error) => before.push(error_text(error)),
        }
    }
}

/// `results` are the results of adding `tasks` one by one: as many as there
/// are tasks, each a success or a failure to add the task at its position.
pub open spec fn results_of_adding(
    results: Seq<Result<(), StoreError>>,
    tasks: Seq<Seq<char>>,
) -> bool {
    &&& results.len() == tasks.len()
    &&& forall|k: int| 0 <= k < results.len() ==> refuses_only(#[trigger] results[k], tasks[k])
}

/// `lines` report the tasks among `tasks` that could not be added.
pub open spec fn is_report_of_adding(lines: Seq<Seq<char>>, tasks: Seq<Seq<char>>) -> bool {
    exists|results: Seq<Result<(), StoreError>>|
        results_of_adding(results, tasks) && lines == report_lines(#[trigger] result_views(results))
}

/// The tasks that a command names.
pub open spec fn named_tasks(todo: Option<Vec<String>>) -> Seq<Seq<char>> {
    match todo {
        Some(tasks) => task_views(tasks@),
        None => Seq::empty(),
    }
}

/// What a run of `cli` shows when it comes to its end.
pub open spec fn shown_by(cli: Cli, lines: Seq<Seq<char>>) -> bool {
    match cli.command {
        Some(Commands::Add { todo }) => exists|report: Seq<Seq<char>>, listing: Seq<Seq<char>>|
            #![trigger is_report_of_adding(report, named_tasks(todo)), is_listing(listing)]
            is_report_of_adding(report, named_tasks(todo)) && is_listing(listing) && lines == report
                + listing,
        Some(Commands::Done { todo }) => is_listing(lines),
        None => is_listing(lines),
    }
}

/// A run of `cli` may be cut short by a failure to mark a task: it names
/// tasks to mark as done.
pub open spec fn marks_tasks(cli: Cli) -> bool {
    cli.command matches Some(Commands::Done { todo }) && named_tasks(todo).len() > 0
}

/// Adds the tasks one by one. A task that cannot be added does not keep the
/// later ones from being tried.
pub fn add_each(conn: &rusqlite::Connection, tasks: &Vec<String>) -> (results: Vec<
    Result<(), StoreError>,
>)
    ensures
        results_of_adding(results@, task_views(tasks@)),
{
    let mut results: Vec<Result<(), StoreError>> = Vec::new();
    let mut next: usize = 0;
    while next < tasks.len()
        invariant
            next <= tasks.len(),
            results.len() == next,
            forall|k: int|
                0 <= k < next ==> refuses_only(#[trigger] results[k], task_views(tasks@)[k]),
        decreases tasks.len() - next,
    {
        let result = add_todo(conn, tasks[next].as_str());
        results.push(result);
        next += 1;
    }
    results
}

/// Marks the tasks as done one by one, and stops at the first that the
/// engine refuses.
pub fn mark_each(conn: &rusqlite::Connection, tasks: &Vec<String>) -> (result: Result<
    (),
    StoreError,
>)
    ensures
        result matches Err(error) ==> error is UpdateFailure && tasks.len() > 0,
{
    let mut next: usize = 0;
    while next < tasks.len()
        invariant
            next <= tasks.len(),
        decreases tasks.len() - next,
    {
        match mark_done(conn, tasks[next].as_str()) {
            Ok(_) => {},
            Err(error) => {
                return Err(error);
            },
        }
        next += 1;
    }
    Ok(())
}

/// Writes one line for each failure among `results`, in their order.
pub fn failure_report(results: &Vec<Result<(), StoreError>>) -> (lines: Vec<String>)
    ensures
        line_views(lines@) == report_lines(result_views(results@)),
{
    let mut lines: Vec<String> = Vec::new();
    let mut next: usize = 0;
    while next < results.len()
        invariant
            next <= results.len(),
            line_views(lines@) == report_lines(result_views(results@.take(next as int))),
        decreases results.len() - next,
    {
        let ghost before = lines@;
        proof {
            let seen = result_views(results@.take(next as int + 1));
            assert(seen.drop_last() =~= result_views(results@.take(next as int)));
            assert(seen.last() == result_view(results[next as int]));
        }
        match &results[next] {
            Ok(_) => {},
            Err(error) => {
                let line = error.to_text();
                lines.push(line);
                assert(line_views(lines@) =~= line_views(before).push(line@));
            },
        }
        next += 1;
    }
    assert(results@.take(next as int) =~= results@);
    lines
}

/// Runs one command against the database behind `conn` and returns what it
/// shows, line by line.
///
/// The table is created first where it is missing. `Add` tries every task
/// and reports those that could not be added; `Done` marks every task and
/// gives up at the first that the engine refuses; without a command nothing
/// is changed. Every run that comes to its end closes with the list, shown
/// once: a run without a command shows the list and nothing else. A failure
/// to read the table cuts the list short and is not reported.
pub fn parse_command(conn: &rusqlite::Connection, cli: Cli) -> (result: Result<
    Vec<String>,
    StoreError,
>)
    ensures
        match result {
            Ok(lines) => shown_by(cli, line_views(lines@)),
            Err(error) => error is StorageUnavailable || (error is UpdateFailure && marks_tasks(
                cli,
            )),
        },
{
    match initialize_database(conn) {
        Ok(_) => {},
        Err(error) => {
            return Err(error);
        },
    }
    let mut lines: Vec<String> = Vec::new();
    match &cli.command {
        Some(Commands::Add { todo }) => {
            if let Some(tasks) = todo {
                let results = add_each(conn, tasks);
                lines = failure_report(&results);
            }
        },
        Some(Commands::Done { todo }) => {
            if let Some(tasks) = todo {
                match mark_each(conn, tasks) {
                    Ok(_) => {},
                    Err(error) => {
                        return Err(error);
                    },
                }
            }
        },
        None => {},
    }
    let ghost first = line_views(lines@);
    let mut last = list_items(conn).lines;
    let ghost second = line_views(last@);
    lines.append(&mut last);
    proof {
        assert(line_views(lines@) =~= first + second);
        match cli.command {
            Some(Commands::Add { todo }) => {
                if todo is None {
                    let nothing = Seq::<Result<(), StoreError>>::empty();
                    assert(results_of_adding(nothing, named_tasks(todo)));
                    assert(first =~= report_lines(result_views(nothing)));
                }
                assert(is_report_of_adding(first, named_tasks(todo)));
            },
            Some(Commands::Done { todo }) => {
                assert(first + second =~= second);
            },
            None => {
                assert(first + second =~= second);
            },
        }
    }
    Ok(lines)
}

} // verus!
