//! The order in which items are listed: ascending by id.

use vstd::prelude::*;
use crate::item::{item_views, TodoItem, TodoItemView};

verus! {

/// No item stands before one with a smaller id.
pub open spec fn ascending_by_id(items: Seq<TodoItemView>) -> bool {
    forall|i: int, j: int| 0 <= i < j < items.len() ==> items[i].id <= items[j].id
}

/// `items` with `item` put behind the last item whose id is not greater.
pub open spec fn place_by_id(items: Seq<TodoItemView>, item: TodoItemView) -> Seq<TodoItemView>
    decreases items.len(),
{
    if items.len() == 0 || items.last().id <= item.id {
        items.push(item)
    } else {
        place_by_id(items.drop_last(), item).push(items.last())
    }
}

/// `items` rearranged so that ids ascend; items with equal ids keep the
/// order in which they came.
pub open spec fn ordered_by_id(items: Seq<TodoItemView>) -> Seq<TodoItemView>
    decreases items.len(),
{
    if items.len() == 0 {
        items
    } else {
        place_by_id(ordered_by_id(items.drop_last()), items.last())
    }
}

proof fn lemma_place_is_insert(items: Seq<TodoItemView>, item: TodoItemView, at: int)
    requires
        0 <= at <= items.len(),
        at == 0 || items[at - 1].id <= item.id,
        forall|k: int| at <= k < items.len() ==> items[k].id > item.id,
    ensures
        place_by_id(items, item) == items.insert(at, item),
    decreases items.len(),
{
    if at == items.len() {
        assert(items.push(item) =~= items.insert(at, item));
    } else {
        lemma_place_is_insert(items.drop_last(), item, at);
        assert(items.drop_last().insert(at, item).push(items.last()) =~= items.insert(at, item));
    }
}

proof fn lemma_place_keeps_ascending(items: Seq<TodoItemView>, item: TodoItemView)
    requires
        ascending_by_id(items),
    ensures
        ascending_by_id(place_by_id(items, item)),
        place_by_id(items, item).len() == items.len() + 1,
        place_by_id(items, item).to_multiset() == items.to_multiset().insert(item),
    decreases items.len(),
{
    broadcast use vstd::seq_lib::group_to_multiset_ensures;

    if items.len() == 0 || items.last().id <= item.id {
    } else {
        let front = items.drop_last();
        lemma_place_keeps_ascending(front, item);
        let placed = place_by_id(front, item);
        assert(items =~= front.push(items.last()));
        assert forall|k: int| 0 <= k < placed.len() implies placed[k].id <= items.last().id by {
            assert(placed.to_multiset().count(placed[k]) > 0);
            if placed[k] != item {
                assert(front.to_multiset().count(placed[k]) > 0);
                assert(front.contains(placed[k]));
            }
        }
    }
}

/// The ordered sequence ascends by id and holds exactly the items that were
/// given, each as often as it was given.
pub proof fn ordered_by_id_sorts(items: Seq<TodoItemView>)
    ensures
        ascending_by_id(ordered_by_id(items)),
        ordered_by_id(items).len() == items.len(),
        ordered_by_id(items).to_multiset() == items.to_multiset(),
    decreases items.len(),
{
    broadcast use vstd::seq_lib::group_to_multiset_ensures;

    if items.len() > 0 {
        ordered_by_id_sorts(items.drop_last());
        lemma_place_keeps_ascending(ordered_by_id(items.drop_last()), items.last());
        assert(items =~= items.drop_last().push(items.last()));
    }
}

/// Items that already ascend by id are left exactly as they are.
pub proof fn ordered_by_id_keeps_ascending(items: Seq<TodoItemView>)
    requires
        ascending_by_id(items),
    ensures
        ordered_by_id(items) == items,
    decreases items.len(),
{
    if items.len() > 0 {
        let front = items.drop_last();
        ordered_by_id_keeps_ascending(front);
        assert(front.len() > 0 ==> front.last() == items[items.len() - 2]);
        assert(front.push(items.last()) =~= items);
    }
}

proof fn lemma_place_grows_by_one(items: Seq<TodoItemView>, item: TodoItemView)
    ensures
        place_by_id(items, item).len() == items.len() + 1,
    decreases items.len(),
{
    if items.len() == 0 || items.last().id <= item.id {
    } else {
        lemma_place_grows_by_one(items.drop_last(), item);
    }
}

proof fn lemma_place_other_item(
    items: Seq<TodoItemView>,
    item: TodoItemView,
    other: TodoItemView,
) -> (at: int)
    requires
        item.id == other.id,
    ensures
        0 <= at <= items.len(),
        place_by_id(items, item).len() == items.len() + 1,
        place_by_id(items, item)[at] == item,
        place_by_id(items, other) == place_by_id(items, item).update(at, other),
    decreases items.len(),
{
    lemma_place_grows_by_one(items, item);
    if items.len() == 0 || items.last().id <= item.id {
        assert(items.push(other) =~= items.push(item).update(items.len() as int, other));
        items.len() as int
    } else {
        let front = items.drop_last();
        let at = lemma_place_other_item(front, item, other);
        assert(place_by_id(front, other).push(items.last()) =~= place_by_id(front, item).push(
            items.last(),
        ).update(at, other));
        at
    }
}

proof fn lemma_place_after_change(
    items: Seq<TodoItemView>,
    changed: int,
    into: TodoItemView,
    item: TodoItemView,
) -> (at: int)
    requires
        0 <= changed < items.len(),
        into.id == items[changed].id,
    ensures
        0 <= at <= items.len(),
        place_by_id(items, item).len() == items.len() + 1,
        place_by_id(items, item)[at] == items[changed],
        place_by_id(items.update(changed, into), item) == place_by_id(items, item).update(
            at,
            into,
        ),
    decreases items.len(),
{
    lemma_place_grows_by_one(items, item);
    let after = items.update(changed, into);
    if items.last().id <= item.id {
        assert(after.push(item) =~= items.push(item).update(changed, into));
        changed
    } else {
        let front = items.drop_last();
        lemma_place_grows_by_one(front, item);
        if changed == items.len() - 1 {
            assert(after.drop_last() =~= front);
            assert(place_by_id(front, item).push(into) =~= place_by_id(front, item).push(
                items.last(),
            ).update(items.len() as int, into));
            items.len() as int
        } else {
            assert(after.drop_last() =~= front.update(changed, into));
            let at = lemma_place_after_change(front, changed, into, item);
            assert(place_by_id(front.update(changed, into), item).push(items.last())
                =~= place_by_id(front, item).push(items.last()).update(at, into));
            at
        }
    }
}

/// Where one item is replaced by another with the same id, the ordered
/// sequence changes in one place only: there the replaced item stood, and
/// there the other stands now.
pub proof fn order_after_change(items: Seq<TodoItemView>, changed: int, into: TodoItemView) -> (at:
    int)
    requires
        0 <= changed < items.len(),
        into.id == items[changed].id,
    ensures
        0 <= at < items.len(),
        ordered_by_id(items).len() == items.len(),
        ordered_by_id(items)[at] == items[changed],
        ordered_by_id(items.update(changed, into)) == ordered_by_id(items).update(at, into),
    decreases items.len(),
{
    ordered_by_id_sorts(items);
    let front = items.drop_last();
    let after = items.update(changed, into);
    ordered_by_id_sorts(front);
    if changed == items.len() - 1 {
        assert(after.drop_last() =~= front);
        lemma_place_other_item(ordered_by_id(front), items.last(), into)
    } else {
        assert(after.drop_last() =~= front.update(changed, into));
        let before = order_after_change(front, changed, into);
        lemma_place_after_change(ordered_by_id(front), before, into, items.last())
    }
}

/// An item whose id is greater than every id in `items` is ordered behind
/// all of them, and they keep their places.
pub proof fn order_after_greater_id(items: Seq<TodoItemView>, item: TodoItemView)
    requires
        forall|k: int| 0 <= k < items.len() ==> items[k].id < item.id,
    ensures
        ordered_by_id(items.push(item)) == ordered_by_id(items).push(item),
{
    broadcast use vstd::seq_lib::group_to_multiset_ensures;

    let ordered = ordered_by_id(items);
    ordered_by_id_sorts(items);
    assert(items.push(item).drop_last() =~= items);
    if ordered.len() > 0 {
        let last = ordered.last();
        assert(ordered.to_multiset().count(last) > 0);
        assert(items.contains(last));
    }
}

/// Two sequences carry the same ids, position by position.
pub open spec fn same_ids(left: Seq<TodoItemView>, right: Seq<TodoItemView>) -> bool {
    &&& left.len() == right.len()
    &&& forall|k: int| 0 <= k < left.len() ==> left[k].id == right[k].id
}

proof fn lemma_place_goes_by_id(
    left: Seq<TodoItemView>,
    item: TodoItemView,
    right: Seq<TodoItemView>,
    other: TodoItemView,
)
    requires
        same_ids(left, right),
        item.id == other.id,
    ensures
        same_ids(place_by_id(left, item), place_by_id(right, other)),
    decreases left.len(),
{
    if left.len() == 0 || left.last().id <= item.id {
    } else {
        lemma_place_goes_by_id(left.drop_last(), item, right.drop_last(), other);
    }
}

/// The order goes by the ids alone: where two sequences carry the same ids,
/// position by position, their ordered forms do so too, whatever the tasks
/// are and whether they are done.
pub proof fn order_goes_by_id_alone(left: Seq<TodoItemView>, right: Seq<TodoItemView>)
    requires
        same_ids(left, right),
    ensures
        same_ids(ordered_by_id(left), ordered_by_id(right)),
    decreases left.len(),
{
    if left.len() > 0 {
        order_goes_by_id_alone(left.drop_last(), right.drop_last());
        lemma_place_goes_by_id(
            ordered_by_id(left.drop_last()),
            left.last(),
            ordered_by_id(right.drop_last()),
            right.last(),
        );
    }
}

/// Puts `item` into a vector that ascends by id, behind the last item whose
/// id is not greater.
pub fn insert_by_id(sorted: &mut Vec<TodoItem>, item: TodoItem)
    ensures
        item_views(final(sorted)@) == place_by_id(item_views(old(sorted)@), item@),
{
    let mut at: usize = sorted.len();
    while at > 0 && sorted[at - 1].id > item.id
        invariant
            at <= sorted.len(),
            forall|k: int| at <= k < sorted.len() ==> sorted[k].id > item.id,
        decreases at,
    {
        at -= 1;
    }
    proof {
        lemma_place_is_insert(item_views(sorted@), item@, at as int);
        assert(item_views(sorted@.insert(at as int, item)) =~= item_views(sorted@).insert(
            at as int,
            item@,
        ));
    }
    sorted.insert(at, item);
}

/// Copies the items into ascending order of id.
pub fn sort_by_id(items: &Vec<TodoItem>) -> (sorted: Vec<TodoItem>)
    ensures
        item_views(sorted@) == ordered_by_id(item_views(items@)),
{
    let mut sorted: Vec<TodoItem> = Vec::new();
    let mut next: usize = 0;
    while next < items.len()
        invariant
            next <= items.len(),
            item_views(sorted@) == ordered_by_id(item_views(items@.take(next as int))),
        decreases items.len() - next,
    {
        proof {
            let seen = item_views(items@.take(next as int + 1));
            assert(seen.drop_last() =~= item_views(items@.take(next as int)));
            assert(seen.last() == items[next as int]@);
        }
        insert_by_id(&mut sorted, items[next].duplicate());
        next += 1;
    }
    assert(items@.take(next as int) =~= items@);
    sorted
}

} // verus!
