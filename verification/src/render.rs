//! How an item is written as one line of text.

use vstd::prelude::*;
use crate::item::{TodoItem, TodoItemView};

verus! {

/// The character for a single decimal digit.
pub open spec fn digit_char(d: int) -> char {
    if d == 0 {
        '0'
    } else if d == 1 {
        '1'
    } else if d == 2 {
        '2'
    } else if d == 3 {
        '3'
    } else if d == 4 {
        '4'
    } else if d == 5 {
        '5'
    } else if d == 6 {
        '6'
    } else if d == 7 {
        '7'
    } else if d == 8 {
        '8'
    } else {
        '9'
    }
}

/// The decimal digits of a natural number, most significant first, without
/// leading zeros.
pub open spec fn decimal(n: nat) -> Seq<char>
    decreases n,
{
    if n < 10 {
        seq![digit_char(n as int)]
    } else {
        decimal(n / 10).push(digit_char((n % 10) as int))
    }
}

/// The decimal form of an integer: a minus sign in front of the digits of a
/// negative number.
pub open spec fn signed_decimal(i: int) -> Seq<char> {
    if i < 0 {
        seq!['-'] + decimal((-i) as nat)
    } else {
        decimal(i as nat)
    }
}

/// The escape sequence that switches strikethrough on.
pub open spec fn strike_on() -> Seq<char> {
    seq!['\x1B', '[', '9', 'm']
}

/// The escape sequence that resets the text attributes.
pub open spec fn strike_off() -> Seq<char> {
    seq!['\x1B', '[', '0', 'm']
}

/// The line shown for an item: its id, a colon and a space, then the task,
/// struck through when the item is done.
pub open spec fn render_line(item: TodoItemView) -> Seq<char> {
    let shown = if item.done {
        strike_on() + item.task + strike_off()
    } else {
        item.task
    };
    signed_decimal(item.id) + seq![':', ' '] + shown
}

/// The lines shown for a sequence of items, one per item, in the same order.
pub open spec fn render_lines(items: Seq<TodoItemView>) -> Seq<Seq<char>> {
    items.map_values(|item: TodoItemView| render_line(item))
}

/// The character with which both escape sequences begin.
pub open spec fn escape() -> char {
    '\x1B'
}

proof fn lemma_decimal_is_plain(n: nat)
    ensures
        !decimal(n).contains(escape()),
    decreases n,
{
    if n >= 10 {
        lemma_decimal_is_plain(n / 10);
        let front = decimal(n / 10);
        let last = digit_char((n % 10) as int);
        assert forall|k: int| 0 <= k < front.push(last).len() implies front.push(last)[k]
            != escape() by {
            if k < front.len() {
                assert(front.contains(front[k]));
            }
        }
    }
}

/// A pending item is shown plainly: its id, a colon and a space, then the
/// task as it is. Unless the task itself holds an escape character, the
/// line holds none, so nothing in it is struck through.
pub proof fn pending_line_is_plain(item: TodoItemView)
    requires
        !item.done,
    ensures
        render_line(item) == signed_decimal(item.id) + seq![':', ' '] + item.task,
        !item.task.contains(escape()) ==> !render_line(item).contains(escape()),
{
    let number = signed_decimal(item.id);
    let line = render_line(item);
    if !item.task.contains(escape()) {
        lemma_decimal_is_plain(vstd::math::abs(item.id) as nat);
        assert forall|k: int| 0 <= k < line.len() implies line[k] != escape() by {
            if k < number.len() {
                if item.id < 0 && k > 0 {
                    assert(decimal((-item.id) as nat).contains(number[k]));
                } else if item.id >= 0 {
                    assert(decimal(item.id as nat).contains(number[k]));
                }
            } else if k >= number.len() + 2 {
                assert(item.task.contains(line[k]));
            }
        }
    }
}

/// A done item is shown struck through: its id, a colon and a space, then
/// the task between the sequence that switches strikethrough on and the one
/// that resets it. The id stands in front as it does for the pending item.
pub proof fn done_line_is_struck(item: TodoItemView)
    requires
        item.done,
    ensures
        render_line(item) == signed_decimal(item.id) + seq![':', ' '] + strike_on() + item.task
            + strike_off(),
        (signed_decimal(item.id) + seq![':', ' ']).is_prefix_of(render_line(item)),
        (signed_decimal(item.id) + seq![':', ' ']).is_prefix_of(
            render_line(TodoItemView { done: false, ..item }),
        ),
{
    let head = signed_decimal(item.id) + seq![':', ' '];
    let pending = TodoItemView { done: false, ..item };
    assert(render_line(item) =~= head + (strike_on() + item.task + strike_off()));
    assert(render_line(item) =~= signed_decimal(item.id) + seq![':', ' '] + strike_on()
        + item.task + strike_off());
    assert(render_line(pending) =~= head + item.task);
    assert(head =~= render_line(item).subrange(0, head.len() as int));
    assert(head =~= render_line(pending).subrange(0, head.len() as int));
}

fn digit_str(d: u64) -> (s: &'static str)
    requires
        d < 10,
    ensures
        s@ == seq![digit_char(d as int)],
{
    proof {
        reveal_strlit("0");
        reveal_strlit("1");
        reveal_strlit("2");
        reveal_strlit("3");
        reveal_strlit("4");
        reveal_strlit("5");
        reveal_strlit("6");
        reveal_strlit("7");
        reveal_strlit("8");
        reveal_strlit("9");
    }
    let s = if d == 0 {
        "0"
    } else if d == 1 {
        "1"
    } else if d == 2 {
        "2"
    } else if d == 3 {
        "3"
    } else if d == 4 {
        "4"
    } else if d == 5 {
        "5"
    } else if d == 6 {
        "6"
    } else if d == 7 {
        "7"
    } else if d == 8 {
        "8"
    } else {
        "9"
    };
    assert(s@ =~= seq![digit_char(d as int)]);
    s
}

fn append_decimal(out: &mut String, n: u64)
    ensures
        final(out)@ == old(out)@ + decimal(n as nat),
    decreases n,
{
    if n >= 10 {
        append_decimal(out, n / 10);
    }
    out.append(digit_str(n % 10));
    assert(final(out)@ =~= old(out)@ + decimal(n as nat));
}

/// Writes an id in decimal.
pub fn decimal_string(id: i32) -> (text: String)
    ensures
        text@ == signed_decimal(id as int),
{
    let wide: i64 = id as i64;
    let mut text = String::new();
    if wide < 0 {
        proof {
            reveal_strlit("-");
        }
        text.append("-");
        append_decimal(&mut text, (0 - wide) as u64);
    } else {
        append_decimal(&mut text, wide as u64);
    }
    assert(text@ =~= signed_decimal(id as int));
    text
}

/// Writes the line for one item.
pub fn render_item(item: &TodoItem) -> (line: String)
    ensures
        line@ == render_line(item@),
{
    proof {
        reveal_strlit(": ");
        reveal_strlit("\x1B[9m");
        reveal_strlit("\x1B[0m");
    }
    let mut line = decimal_string(item.id);
    line.append(": ");
    if item.done {
        line.append("\x1B[9m");
        line.append(item.task.as_str());
        line.append("\x1B[0m");
    } else {
        line.append(item.task.as_str());
    }
    assert(line@ =~= render_line(item@));
    line
}

} // verus!
