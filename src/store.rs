use vstd::prelude::*;

use crate::types::{Draft, DraftView, Item, ItemView};

verus! {

/// The values of a sequence of items.
pub open spec fn tasks_view(v: Seq<Item>) -> Seq<ItemView> {
    v.map_values(|i: Item| i@)
}

/// Every title is non-empty and no two tasks share an id.
pub open spec fn tasks_wf(ts: Seq<ItemView>) -> bool {
    &&& forall|i: int| 0 <= i < ts.len() ==> #[trigger] ts[i].title.len() > 0
    &&& forall|i: int, j: int|
        0 <= i < ts.len() && 0 <= j < ts.len() && i != j ==> #[trigger] ts[i].id != #[trigger] ts[j].id
}

/// The largest id in the store, or 0 when it is empty.
pub open spec fn max_id(ts: Seq<ItemView>) -> nat
    decreases ts.len(),
{
    if ts.len() == 0 {
        0
    } else {
        let m = max_id(ts.drop_last());
        if ts.last().id > m {
            ts.last().id
        } else {
            m
        }
    }
}

/// The id that a new task gets: one past the largest, or 0 in an empty store.
pub open spec fn next_id(ts: Seq<ItemView>) -> nat {
    if ts.len() == 0 {
        0
    } else {
        max_id(ts) + 1
    }
}

/// Whether a new task can be created from `d`: its title is non-empty and the
/// fresh id fits a `usize`.
pub open spec fn can_create(ts: Seq<ItemView>, d: DraftView) -> bool {
    d.title.len() > 0 && next_id(ts) <= usize::MAX
}

/// The task that creation appends.
pub open spec fn created(ts: Seq<ItemView>, d: DraftView) -> ItemView {
    ItemView { id: next_id(ts), title: d.title, content: d.content }
}

/// The task at `i` with its title and content taken from `d`.
pub open spec fn edited(t: ItemView, d: DraftView) -> ItemView {
    ItemView { id: t.id, title: d.title, content: d.content }
}

/// Every id in the store is at most the largest one.
pub proof fn lemma_max_id_bounds(ts: Seq<ItemView>)
    ensures
        forall|i: int| 0 <= i < ts.len() ==> #[trigger] ts[i].id <= max_id(ts),
    decreases ts.len(),
{
    if ts.len() > 0 {
        lemma_max_id_bounds(ts.drop_last());
        assert forall|i: int| 0 <= i < ts.len() implies #[trigger] ts[i].id <= max_id(ts) by {
            if i < ts.len() - 1 {
                assert(ts[i] == ts.drop_last()[i]);
            }
        }
    }
}

/// The id that creation hands out is used by no task of the store.
pub proof fn lemma_next_id_fresh(ts: Seq<ItemView>)
    ensures
        forall|i: int| 0 <= i < ts.len() ==> #[trigger] ts[i].id < next_id(ts),
{
    lemma_max_id_bounds(ts);
}

/// Appending a task with the fresh id and a non-empty title keeps the store
/// well formed.
pub proof fn lemma_create_keeps_wf(ts: Seq<ItemView>, d: DraftView)
    requires
        tasks_wf(ts),
        d.title.len() > 0,
    ensures
        tasks_wf(ts.push(created(ts, d))),
{
    lemma_next_id_fresh(ts);
    let ns = ts.push(created(ts, d));
    assert forall|i: int| 0 <= i < ns.len() implies #[trigger] ns[i].title.len() > 0 by {
        if i < ts.len() {
            assert(ns[i] == ts[i]);
        }
    }
    assert forall|i: int, j: int|
        0 <= i < ns.len() && 0 <= j < ns.len() && i != j implies #[trigger] ns[i].id
        != #[trigger] ns[j].id by {
        if i < ts.len() && j < ts.len() {
            assert(ns[i] == ts[i] && ns[j] == ts[j]);
        } else if i < ts.len() {
            assert(ns[i] == ts[i]);
        } else {
            assert(ns[j] == ts[j]);
        }
    }
}

/// The largest id of `items`, or `None` when the store is empty.
fn largest_id(items: &Vec<Item>) -> (r: Option<usize>)
    ensures
        r is Some <==> items@.len() > 0,
        r is Some ==> r->Some_0 as nat == max_id(tasks_view(items@)),
{
    let ghost ts = tasks_view(items@);
    let mut best: usize = 0;
    let mut i: usize = 0;
    while i < items.len()
        invariant
            0 <= i <= items@.len(),
            ts == tasks_view(items@),
            best as nat == max_id(ts.subrange(0, i as int)),
        decreases items@.len() - i,
    {
        assert(ts.subrange(0, i as int + 1).drop_last() =~= ts.subrange(0, i as int));
        if items[i].id > best {
            best = items[i].id;
        }
        i = i + 1;
    }
    assert(ts.subrange(0, i as int) =~= ts);
    if items.len() == 0 {
        None
    } else {
        Some(best)
    }
}

/// Appends a task made from `draft` with an id one past the largest in the
/// store (0 in an empty store). Refused, with the store unchanged, when the
/// title is empty or no fresh id fits a `usize`.
pub fn create_task(items: &mut Vec<Item>, draft: Draft) -> (ok: bool)
    ensures
        ok == can_create(tasks_view(old(items)@), draft@),
        ok ==> tasks_view(final(items)@) == tasks_view(old(items)@).push(
            created(tasks_view(old(items)@), draft@),
        ),
        !ok ==> final(items)@ == old(items)@,
{
    let ghost ts = tasks_view(items@);
    let ghost dv = draft@;
    if draft.title.as_str().is_empty() {
        return false;
    }
    let id: usize = match largest_id(items) {
        None => 0,
        Some(m) => {
            if m == usize::MAX {
                return false;
            }
            m + 1
        },
    };
    items.push(Item { id, title: draft.title, content: draft.content });
    assert(tasks_view(items@) =~= ts.push(created(ts, dv)));
    true
}

/// Overwrites the title and content of the task at `index` with `draft`,
/// keeping its id. Refused, with the store unchanged, when `index` is out of
/// range or the title is empty.
pub fn edit_task(items: &mut Vec<Item>, index: usize, draft: Draft) -> (ok: bool)
    ensures
        ok == (index < old(items)@.len() && draft@.title.len() > 0),
        ok ==> tasks_view(final(items)@) == tasks_view(old(items)@).update(
            index as int,
            edited(old(items)@[index as int]@, draft@),
        ),
        !ok ==> final(items)@ == old(items)@,
{
    if index >= items.len() || draft.title.as_str().is_empty() {
        return false;
    }
    let ghost ts = tasks_view(items@);
    let ghost dv = draft@;
    let id = items[index].id;
    items.set(index, Item { id, title: draft.title, content: draft.content });
    assert(tasks_view(items@) =~= ts.update(index as int, edited(ts[index as int], dv)));
    true
}

/// Removes the task at `index`. Refused, with the store unchanged, when
/// `index` is out of range.
pub fn delete_task(items: &mut Vec<Item>, index: usize) -> (ok: bool)
    ensures
        ok == (index < old(items)@.len()),
        ok ==> tasks_view(final(items)@) == tasks_view(old(items)@).remove(index as int),
        !ok ==> final(items)@ == old(items)@,
{
    if index >= items.len() {
        return false;
    }
    let ghost ts = tasks_view(items@);
    let _removed = items.remove(index);
    assert(tasks_view(items@) =~= ts.remove(index as int));
    true
}

} // verus!
