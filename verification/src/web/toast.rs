//! The stack of toast messages: each gets the next id; a toast leaves when
//! its timer runs out or when it is closed, by its id.
use vstd::prelude::*;

use crate::web_core::fmt::{next_toast_id, ToastIdCounter, ToastKind};

verus! {

/// A toast message.
#[derive(Debug, Clone)]
pub struct ToastMsg {
    pub id: u64,
    pub kind: ToastKind,
    pub text: String,
}

/// The toasts on show, oldest first.
#[derive(Debug, Clone)]
pub struct ToastList {
    pub items: Vec<ToastMsg>,
}

/// The ids of `items`, in order.
pub open spec fn ids_of(items: Seq<ToastMsg>) -> Seq<u64> {
    items.map_values(|t: ToastMsg| t.id)
}

/// Every id on show is below `next`, the id that the counter hands out
/// next, and no two toasts share an id.
pub open spec fn ids_sound(items: Seq<ToastMsg>, next: nat) -> bool {
    &&& forall|i: int| 0 <= i < items.len() ==> (#[trigger] items[i]).id < next
    &&& ids_of(items).no_duplicates()
}

/// The toasts of `items` except the one with id `id`, in order.
pub open spec fn without(items: Seq<ToastMsg>, id: u64) -> Seq<ToastMsg>
    decreases items.len(),
{
    if items.len() == 0 {
        seq![]
    } else if items.last().id == id {
        without(items.drop_last(), id)
    } else {
        without(items.drop_last(), id).push(items.last())
    }
}

proof fn lemma_without_subset(items: Seq<ToastMsg>, id: u64)
    ensures
        forall|k: int|
            0 <= k < without(items, id).len() ==> items.contains(#[trigger] without(items, id)[k])
                && without(items, id)[k].id != id,
        without(items, id).len() <= items.len(),
    decreases items.len(),
{
    if items.len() > 0 {
        let pre = items.drop_last();
        lemma_without_subset(pre, id);
        let w = without(items, id);
        assert forall|k: int| 0 <= k < w.len() implies items.contains(#[trigger] w[k]) && w[k].id != id by {
            if items.last().id == id {
                let j = choose|j: int| 0 <= j < pre.len() && pre[j] == w[k];
                assert(items[j] == w[k]);
            } else if k < w.len() - 1 {
                let j = choose|j: int| 0 <= j < pre.len() && pre[j] == w[k];
                assert(items[j] == w[k]);
            } else {
                assert(items[items.len() - 1] == w[k]);
            }
        }
    }
}

impl ToastList {
    /// No toasts.
    pub fn new() -> (r: Self)
        ensures
            r.items@.len() == 0,
    {
        ToastList { items: Vec::new() }
    }

    /// Shows a toast of `kind` with `text`, with the counter's next id.
    pub fn push(&mut self, counter: &mut ToastIdCounter, kind: ToastKind, text: String) -> (id: u64)
        requires
            old(counter)@ < u64::MAX,
            ids_sound(old(self).items@, old(counter)@),
        ensures
            id == old(counter)@,
            final(counter)@ == old(counter)@ + 1,
            final(self).items@ == old(self).items@.push(ToastMsg { id, kind, text }),
            ids_sound(final(self).items@, final(counter)@),
    {
        let ghost before = self.items@;
        let id = next_toast_id(counter);
        self.items.push(ToastMsg { id, kind, text });
        proof {
            let after = self.items@;
            assert(ids_of(after) =~= ids_of(before).push(id));
            assert forall|a: int, b: int|
                0 <= a < ids_of(after).len() && 0 <= b < ids_of(after).len() && a != b implies ids_of(
                after,
            )[a] != ids_of(after)[b] by {
                if a < before.len() && b < before.len() {
                    assert(ids_of(after)[a] == ids_of(before)[a]);
                    assert(ids_of(after)[b] == ids_of(before)[b]);
                } else if a == before.len() {
                    assert(before[b].id < id);
                } else {
                    assert(before[a].id < id);
                }
            }
        }
        id
    }

    /// Removes the toast with id `id`, where one is on show.
    pub fn dismiss(&mut self, id: u64)
        ensures
            final(self).items@ == without(old(self).items@, id),
    {
        let ghost all = self.items@;
        let mut kept: Vec<ToastMsg> = Vec::new();
        let mut rest = Vec::new();
        std::mem::swap(&mut rest, &mut self.items);
        let ghost mut done: int = 0;
        assert(rest@ == all);
        while rest.len() > 0
            invariant
                0 <= done <= all.len(),
                rest@ == all.skip(done),
                kept@ == without(all.take(done), id),
            decreases rest.len(),
        {
            let t = rest.remove(0);
            proof {
                assert(all[done] == t);
                assert(all.skip(done + 1) =~= all.skip(done).drop_first());
                assert(all.take(done + 1).drop_last() =~= all.take(done));
                assert(all.take(done + 1).last() == t);
            }
            if t.id != id {
                kept.push(t);
            }
            proof {
                done = done + 1;
            }
        }
        assert(all.take(all.len() as int) =~= all);
        self.items = kept;
    }
}

/// Dismissing keeps the ids sound: the toast closed, the others stay.
pub proof fn lemma_dismiss_keeps_ids_sound(items: Seq<ToastMsg>, next: nat, id: u64)
    requires
        ids_sound(items, next),
    ensures
        ids_sound(without(items, id), next),
        forall|k: int| 0 <= k < without(items, id).len() ==> (#[trigger] without(items, id)[k]).id != id,
    decreases items.len(),
{
    lemma_without_subset(items, id);
    if items.len() > 0 {
        let pre = items.drop_last();
        assert(ids_of(pre) =~= ids_of(items).drop_last());
        assert(ids_sound(pre, next)) by {
            assert forall|i: int| 0 <= i < pre.len() implies (#[trigger] pre[i]).id < next by {
                assert(pre[i] == items[i]);
            }
            assert forall|a: int, b: int|
                0 <= a < ids_of(pre).len() && 0 <= b < ids_of(pre).len() && a != b implies ids_of(pre)[a]
                != ids_of(pre)[b] by {
                assert(ids_of(pre)[a] == ids_of(items)[a]);
                assert(ids_of(pre)[b] == ids_of(items)[b]);
            }
        }
        lemma_dismiss_keeps_ids_sound(pre, next, id);
        let w = without(items, id);
        if items.last().id != id {
            let wp = without(pre, id);
            assert(w == wp.push(items.last()));
            assert(ids_of(w) =~= ids_of(wp).push(items.last().id));
            assert forall|a: int, b: int|
                0 <= a < ids_of(w).len() && 0 <= b < ids_of(w).len() && a != b implies ids_of(w)[a]
                != ids_of(w)[b] by {
                if a < wp.len() && b < wp.len() {
                    assert(ids_of(w)[a] == ids_of(wp)[a]);
                    assert(ids_of(w)[b] == ids_of(wp)[b]);
                } else {
                    let other = if a == wp.len() {
                        b
                    } else {
                        a
                    };
                    lemma_without_subset(pre, id);
                    let j = choose|j: int| 0 <= j < pre.len() && pre[j] == wp[other];
                    assert(ids_of(items)[j] == pre[j].id);
                    assert(ids_of(items)[items.len() - 1] == items.last().id);
                    assert(ids_of(w)[other] == wp[other].id);
                }
            }
            assert forall|i: int| 0 <= i < w.len() implies (#[trigger] w[i]).id < next by {
                if i < wp.len() {
                    assert(w[i] == wp[i]);
                } else {
                    assert(w[i] == items[items.len() - 1]);
                }
            }
        }
    }
}

} // verus!
