//! A single todo item and its mathematical view.

use vstd::prelude::*;

verus! {

/// One row of the todo table.
#[derive(Debug)]
pub struct TodoItem {
    pub id: i32,
    pub task: String,
    pub done: bool,
}

/// What a `TodoItem` stands for in contracts: its id as an integer, its task
/// as a sequence of characters, and its completion flag.
pub struct TodoItemView {
    pub id: int,
    pub task: Seq<char>,
    pub done: bool,
}

impl View for TodoItem {
    type V = TodoItemView;

    open spec fn view(&self) -> TodoItemView {
        TodoItemView { id: self.id as int, task: self.task@, done: self.done }
    }
}

/// The view of an item that has just been created from `task` and has not
/// been stored yet.
pub open spec fn fresh_item(task: Seq<char>) -> TodoItemView {
    TodoItemView { id: 0, task, done: false }
}

/// The view of an item once it has been marked as done: nothing but the
/// completion flag differs.
pub open spec fn marked_done(item: TodoItemView) -> TodoItemView {
    TodoItemView { done: true, ..item }
}

/// The views of a sequence of items, in the same order.
pub open spec fn item_views(items: Seq<TodoItem>) -> Seq<TodoItemView> {
    items.map_values(|item: TodoItem| item@)
}

impl TodoItem {
    /// A pending item that has not been stored yet. It carries the id `0`
    /// until the table assigns one.
    pub fn new(task: String) -> (item: TodoItem)
        ensures
            item@ == fresh_item(task@),
    {
        TodoItem { id: 0, task, done: false }
    }

    /// An independent copy of this item.
    pub fn duplicate(&self) -> (copy: TodoItem)
        ensures
            copy@ == self@,
    {
        TodoItem { id: self.id, task: self.task.clone(), done: self.done }
    }
}

} // verus!
