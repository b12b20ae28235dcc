use todo_list::item::TodoItem;
use todo_list::listing::{leading_items, list_lines, list_rows, render_items};
use todo_list::order::{insert_by_id, sort_by_id};
use todo_list::render::{decimal_string, render_item};

fn item(id: i32, task: &str, done: bool) -> TodoItem {
    TodoItem { id, task: task.to_string(), done }
}

fn ids(items: &Vec<TodoItem>) -> Vec<i32> {
    items.iter().map(|item| item.id).collect()
}

fn tasks(items: &Vec<TodoItem>) -> Vec<String> {
    items.iter().map(|item| item.task.clone()).collect()
}

#[test]
fn new_item_is_pending_and_unnumbered() {
    let fresh = TodoItem::new("buy milk".to_string());
    assert_eq!(fresh.id, 0);
    assert_eq!(fresh.task, "buy milk");
    assert!(!fresh.done);
}

#[test]
fn new_item_keeps_an_empty_task() {
    let fresh = TodoItem::new(String::new());
    assert_eq!(fresh.id, 0);
    assert_eq!(fresh.task, "");
    assert!(!fresh.done);
}

#[test]
fn duplicate_copies_every_field() {
    let original = item(7, "water plants", true);
    let copy = original.duplicate();
    assert_eq!(copy.id, 7);
    assert_eq!(copy.task, "water plants");
    assert!(copy.done);
}

#[test]
fn decimal_of_small_numbers() {
    assert_eq!(decimal_string(0), "0");
    assert_eq!(decimal_string(7), "7");
    assert_eq!(decimal_string(9), "9");
    assert_eq!(decimal_string(10), "10");
    assert_eq!(decimal_string(42), "42");
    assert_eq!(decimal_string(100), "100");
    assert_eq!(decimal_string(1234567890), "1234567890");
}

#[test]
fn decimal_of_negative_numbers() {
    assert_eq!(decimal_string(-1), "-1");
    assert_eq!(decimal_string(-10), "-10");
    assert_eq!(decimal_string(-305), "-305");
}

#[test]
fn decimal_at_the_limits() {
    assert_eq!(decimal_string(i32::MAX), "2147483647");
    assert_eq!(decimal_string(i32::MIN), "-2147483648");
}

#[test]
fn decimal_agrees_with_the_standard_formatting() {
    let samples = [0, 1, -1, 9, 10, 11, 99, 100, 101, 999, 1000, 65535, -65536, 20260101];
    for sample in samples {
        assert_eq!(decimal_string(sample), format!("{}", sample));
    }
}

#[test]
fn pending_item_is_rendered_plainly() {
    assert_eq!(render_item(&item(1, "buy milk", false)), "1: buy milk");
}

#[test]
fn done_item_is_rendered_struck_through() {
    assert_eq!(render_item(&item(1, "buy milk", true)), "1: \x1B[9mbuy milk\x1B[0m");
}

#[test]
fn rendering_keeps_the_task_as_it_is() {
    assert_eq!(render_item(&item(12, "  Two  spaces ", false)), "12:   Two  spaces ");
    assert_eq!(render_item(&item(3, "", false)), "3: ");
    assert_eq!(render_item(&item(3, "", true)), "3: \x1B[9m\x1B[0m");
    assert_eq!(render_item(&item(4, "caf\u{e9} \u{2713}", true)), "4: \x1B[9mcaf\u{e9} \u{2713}\x1B[0m");
}

#[test]
fn render_items_keeps_the_order_given() {
    let items = vec![item(3, "c", false), item(1, "a", true), item(2, "b", false)];
    assert_eq!(render_items(&items), vec!["3: c", "1: \x1B[9ma\x1B[0m", "2: b"]);
    assert!(render_items(&Vec::new()).is_empty());
}

#[test]
fn insert_by_id_goes_behind_equal_ids() {
    let mut sorted = vec![item(1, "a", false), item(3, "c", false), item(3, "d", false), item(5, "e", false)];
    insert_by_id(&mut sorted, item(3, "new", false));
    assert_eq!(tasks(&sorted), vec!["a", "c", "d", "new", "e"]);
    insert_by_id(&mut sorted, item(0, "first", false));
    assert_eq!(tasks(&sorted), vec!["first", "a", "c", "d", "new", "e"]);
    insert_by_id(&mut sorted, item(9, "last", false));
    assert_eq!(tasks(&sorted), vec!["first", "a", "c", "d", "new", "e", "last"]);
    let mut empty: Vec<TodoItem> = Vec::new();
    insert_by_id(&mut empty, item(4, "only", true));
    assert_eq!(ids(&empty), vec![4]);
}

#[test]
fn sort_by_id_orders_and_keeps_every_item() {
    let items = vec![item(5, "e", true), item(2, "b", false), item(9, "i", false), item(1, "a", true), item(2, "b again", true)];
    let sorted = sort_by_id(&items);
    assert_eq!(ids(&sorted), vec![1, 2, 2, 5, 9]);
    assert_eq!(tasks(&sorted), vec!["a", "b", "b again", "e", "i"]);
    assert_eq!(sorted.iter().map(|item| item.done).collect::<Vec<bool>>(), vec![true, false, true, true, false]);
    assert_eq!(ids(&items), vec![5, 2, 9, 1, 2]);
}

#[test]
fn sort_by_id_leaves_ascending_items_alone() {
    let items = vec![item(-4, "m", false), item(1, "a", true), item(2, "b", false), item(30, "z", true)];
    let sorted = sort_by_id(&items);
    assert_eq!(ids(&sorted), vec![-4, 1, 2, 30]);
    assert_eq!(tasks(&sorted), vec!["m", "a", "b", "z"]);
    assert!(sort_by_id(&Vec::new()).is_empty());
}

#[test]
fn listing_is_ascending_whatever_the_done_state() {
    let items = vec![item(3, "c", true), item(1, "a", false), item(4, "d", false), item(2, "b", true)];
    assert_eq!(
        list_lines(&items),
        vec!["1: a", "2: \x1B[9mb\x1B[0m", "3: \x1B[9mc\x1B[0m", "4: d"]
    );
    let flipped = vec![item(3, "c", false), item(1, "a", true), item(4, "d", true), item(2, "b", false)];
    assert_eq!(
        list_lines(&flipped),
        vec!["1: \x1B[9ma\x1B[0m", "2: b", "3: c", "4: \x1B[9md\x1B[0m"]
    );
}

#[test]
fn leading_items_takes_every_readable_row() {
    let rows: Vec<Result<TodoItem, String>> = vec![Ok(item(1, "a", false)), Ok(item(2, "b", true))];
    let (items, stopped) = leading_items(&rows);
    assert_eq!(stopped, None);
    assert_eq!(ids(&items), vec![1, 2]);
    assert_eq!(tasks(&items), vec!["a", "b"]);
    let none: Vec<Result<TodoItem, String>> = Vec::new();
    let (items, stopped) = leading_items(&none);
    assert!(items.is_empty());
    assert_eq!(stopped, None);
}

#[test]
fn leading_items_stops_at_the_first_failure() {
    let rows: Vec<Result<TodoItem, String>> = vec![
        Ok(item(1, "a", false)),
        Ok(item(2, "b", true)),
        Err("unreadable".to_string()),
        Ok(item(4, "d", false)),
        Err("again".to_string()),
    ];
    let (items, stopped) = leading_items(&rows);
    assert_eq!(stopped, Some(2));
    assert_eq!(ids(&items), vec![1, 2]);
    let failing: Vec<Result<TodoItem, String>> = vec![Err("at once".to_string()), Ok(item(1, "a", false))];
    let (items, stopped) = leading_items(&failing);
    assert_eq!(stopped, Some(0));
    assert!(items.is_empty());
}

#[test]
fn list_rows_shows_every_readable_row_in_order() {
    let rows: Vec<Result<TodoItem, String>> =
        vec![Ok(item(2, "b", true)), Ok(item(1, "a", false)), Ok(item(3, "c", false))];
    let (lines, stopped) = list_rows(&rows);
    assert_eq!(lines, vec!["1: a", "2: \x1B[9mb\x1B[0m", "3: c"]);
    assert_eq!(stopped, None);
    let none: Vec<Result<TodoItem, String>> = Vec::new();
    let (lines, stopped) = list_rows(&none);
    assert!(lines.is_empty());
    assert_eq!(stopped, None);
}

#[test]
fn list_rows_leaves_out_what_follows_a_failure() {
    let rows: Vec<Result<TodoItem, String>> = vec![
        Ok(item(4, "d", false)),
        Ok(item(2, "b", false)),
        Err("unreadable".to_string()),
        Ok(item(1, "a", false)),
    ];
    let (lines, stopped) = list_rows(&rows);
    assert_eq!(lines, vec!["2: b", "4: d"]);
    assert_eq!(stopped, Some(2));
}

#[test]
fn added_row_with_a_greater_id_is_listed_last() {
    let mut rows = vec![item(3, "c", true), item(1, "a", false), item(2, "b", false)];
    let before = list_lines(&rows);
    rows.push(item(4, "buy milk", false));
    let after = list_lines(&rows);
    assert_eq!(after.len(), before.len() + 1);
    assert_eq!(after[..before.len()], before[..]);
    assert_eq!(after[before.len()], "4: buy milk");
}

#[test]
fn marking_a_row_changes_its_line_alone() {
    let mut rows = vec![item(3, "c", false), item(1, "a", false), item(2, "buy milk", false)];
    let before = list_lines(&rows);
    assert_eq!(before, vec!["1: a", "2: buy milk", "3: c"]);
    rows[2].done = true;
    let after = list_lines(&rows);
    assert_eq!(after, vec!["1: a", "2: \x1B[9mbuy milk\x1B[0m", "3: c"]);
}
