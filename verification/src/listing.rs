//! The listing: every readable row as a line of text, in ascending order of
//! id.

use vstd::prelude::*;
use crate::error::SqlFailure;
use crate::item::{item_views, marked_done, TodoItem, TodoItemView};
use crate::order::{
    ascending_by_id, order_after_change, order_after_greater_id, ordered_by_id,
    ordered_by_id_sorts, sort_by_id,
};
use crate::render::{
    done_line_is_struck, pending_line_is_plain, render_item, render_line, render_lines,
    signed_decimal, strike_off, strike_on,
};

verus! {

/// What a listing shows: the lines, and the failure that cut the reading of
/// the rows short, if one did.
#[derive(Debug)]
pub struct Listing {
    pub lines: Vec<String>,
    pub failure: Option<SqlFailure>,
}

/// The text of each line.
pub open spec fn line_views(lines: Seq<String>) -> Seq<Seq<char>> {
    lines.map_values(|line: String| line@)
}

/// The lines of a listing of `items`: one line per item, ordered by id.
pub open spec fn listing_lines(items: Seq<TodoItemView>) -> Seq<Seq<char>> {
    render_lines(ordered_by_id(items))
}

/// The lines are those of a listing: the rendering, line by line, of some
/// items in ascending order of id.
pub open spec fn is_listing(lines: Seq<Seq<char>>) -> bool {
    exists|items: Seq<TodoItemView>|
        ascending_by_id(items) && lines == #[trigger] render_lines(items)
}

/// Every row before position `upto` was read without failure.
pub open spec fn readable_upto<E>(rows: Seq<Result<TodoItem, E>>, upto: int) -> bool {
    forall|k: int| 0 <= k < upto ==> (#[trigger] rows[k]) is Ok
}

/// The items of the rows before position `upto`, in the same order.
pub open spec fn items_upto<E>(rows: Seq<Result<TodoItem, E>>, upto: int) -> Seq<TodoItemView> {
    Seq::new(upto as nat, |k: int| rows[k]->Ok_0@)
}

/// The rows that came before the first failure, and the position of that
/// failure. Rows behind a failure are left out.
pub fn leading_items<E>(rows: &Vec<Result<TodoItem, E>>) -> (found: (Vec<TodoItem>, Option<usize>))
    ensures
        match found.1 {
            Some(at) => at < rows.len() && rows[at as int] is Err && found.0.len() == at,
            None => found.0.len() == rows.len(),
        },
        readable_upto(rows@, found.0.len() as int),
        item_views(found.0@) == items_upto(rows@, found.0.len() as int),
{
    let mut items: Vec<TodoItem> = Vec::new();
    let mut next: usize = 0;
    while next < rows.len()
        invariant
            next <= rows.len(),
            items.len() == next,
            readable_upto(rows@, next as int),
            item_views(items@) == items_upto(rows@, next as int),
        decreases rows.len() - next,
    {
        match &rows[next] {
            Ok(item) => {
                let ghost before = items@;
                let copy = item.duplicate();
                items.push(copy);
                proof {
                    assert(rows@[next as int] == Ok::<TodoItem, E>(*item));
                    assert(items@ == before.push(copy));
                    let shown = item_views(items@);
                    let wanted = items_upto(rows@, next as int + 1);
                    assert(shown.len() == wanted.len());
                    assert forall|k: int| 0 <= k < shown.len() implies shown[k] == wanted[k] by {
                        if k < next {
                            assert(items@[k] == before[k]);
                            assert(item_views(before)[k] == items_upto(rows@, next as int)[k]);
                        }
                    }
                    assert(shown =~= wanted);
                }
            },
            Err(_) => {
                return (items, Some(next));
            },
        }
        next += 1;
    }
    (items, None)
}

/// Writes the lines for `items`, one per item in the order given.
pub fn render_items(items: &Vec<TodoItem>) -> (lines: Vec<String>)
    ensures
        line_views(lines@) == render_lines(item_views(items@)),
{
    let mut lines: Vec<String> = Vec::new();
    let mut next: usize = 0;
    while next < items.len()
        invariant
            next <= items.len(),
            lines.len() == next,
            line_views(lines@) == render_lines(item_views(items@.take(next as int))),
        decreases items.len() - next,
    {
        let ghost before = lines@;
        let line = render_item(&items[next]);
        lines.push(line);
        proof {
            assert(lines@ == before.push(line));
            let shown = line_views(lines@);
            let wanted = render_lines(item_views(items@.take(next as int + 1)));
            assert(shown.len() == wanted.len());
            assert forall|k: int| 0 <= k < shown.len() implies shown[k] == wanted[k] by {
                if k < next {
                    assert(lines@[k] == before[k]);
                    assert(line_views(before)[k] == render_lines(
                        item_views(items@.take(next as int)),
                    )[k]);
                }
            }
            assert(shown =~= wanted);
        }
        next += 1;
    }
    assert(items@.take(next as int) =~= items@);
    lines
}

/// Writes the listing of `items`: one line per item, ordered by id.
pub fn list_lines(items: &Vec<TodoItem>) -> (lines: Vec<String>)
    ensures
        line_views(lines@) == listing_lines(item_views(items@)),
{
    let sorted = sort_by_id(items);
    render_items(&sorted)
}

/// Lists the rows that came before the first failure, and gives the
/// position of that failure. Rows behind a failure are not shown.
pub fn list_rows<E>(rows: &Vec<Result<TodoItem, E>>) -> (found: (Vec<String>, Option<usize>))
    ensures
        match found.1 {
            Some(at) => at < rows.len() && rows[at as int] is Err && readable_upto(
                rows@,
                at as int,
            ) && line_views(found.0@) == listing_lines(items_upto(rows@, at as int)),
            None => readable_upto(rows@, rows.len() as int) && line_views(found.0@)
                == listing_lines(items_upto(rows@, rows.len() as int)),
        },
        is_listing(line_views(found.0@)),
{
    let (items, stopped) = leading_items(rows);
    let lines = list_lines(&items);
    proof {
        ordered_by_id_sorts(item_views(items@));
        assert(line_views(lines@) == render_lines(ordered_by_id(item_views(items@))));
    }
    (lines, stopped)
}

/// A listing goes through the given items in ascending order of id, whether
/// they are done or not: it has one line for each item, and line by line it
/// is the rendering of a sequence that ascends by id and holds exactly the
/// items given.
pub proof fn listing_is_ascending(items: Seq<TodoItemView>)
    ensures
        is_listing(listing_lines(items)),
        ascending_by_id(ordered_by_id(items)),
        ordered_by_id(items).to_multiset() == items.to_multiset(),
        listing_lines(items).len() == items.len(),
        forall|k: int|
            0 <= k < items.len() ==> #[trigger] listing_lines(items)[k] == render_line(
                ordered_by_id(items)[k],
            ),
{
    ordered_by_id_sorts(items);
}

/// Where a row is added whose id is greater than every id in `rows`, the
/// listing gains exactly one line: the line of the added row, which comes
/// last. Every other line stays as and where it was. For a pending row the
/// new line is its id, a colon and a space, and the task, with nothing
/// struck through.
pub proof fn added_row_is_listed_last(rows: Seq<TodoItemView>, added: TodoItemView)
    requires
        forall|k: int| 0 <= k < rows.len() ==> rows[k].id < added.id,
    ensures
        listing_lines(rows.push(added)) == listing_lines(rows).push(render_line(added)),
        !added.done ==> render_line(added) == signed_decimal(added.id) + seq![':', ' ']
            + added.task,
{
    order_after_greater_id(rows, added);
    assert(render_lines(ordered_by_id(rows).push(added)) =~= render_lines(
        ordered_by_id(rows),
    ).push(render_line(added)));
    if !added.done {
        pending_line_is_plain(added);
    }
}

/// Where the row at position `changed` is marked as done, the listing
/// changes in exactly one line, the line of that row, which is struck
/// through from then on and still begins with the id that the row had. Every
/// other line stays as and where it was. The position of the line is
/// returned.
pub proof fn marked_row_is_struck_in_place(rows: Seq<TodoItemView>, changed: int) -> (at: int)
    requires
        0 <= changed < rows.len(),
    ensures
        0 <= at < rows.len(),
        listing_lines(rows).len() == rows.len(),
        listing_lines(rows)[at] == render_line(rows[changed]),
        listing_lines(rows.update(changed, marked_done(rows[changed]))) == listing_lines(
            rows,
        ).update(at, render_line(marked_done(rows[changed]))),
        render_line(marked_done(rows[changed])) == signed_decimal(rows[changed].id) + seq![
            ':',
            ' ',
        ] + strike_on() + rows[changed].task + strike_off(),
{
    let into = marked_done(rows[changed]);
    let at = order_after_change(rows, changed, into);
    assert(render_lines(ordered_by_id(rows).update(at, into)) =~= render_lines(
        ordered_by_id(rows),
    ).update(at, render_line(into)));
    done_line_is_struck(into);
    at
}

} // verus!
