//! In-memory ordered queue of transfers.

use vstd::prelude::*;

use crate::models::{Direction, FileProgress, ItemStatus, TransferItem, TransferItemView};

verus! {

/// In-memory ordered queue of transfers, shared by all three modes. `priority_order`
/// is assigned once at push time from a monotonic counter and never recomputed, so a
/// list rendered from a snapshot does not reorder as items complete.
pub struct Queue {
    items: Vec<TransferItem>,
    next_order: i64,
}

/// The item `push_new` appends: one queued file covering the whole transfer.
pub open spec fn new_item(
    id: u128,
    order: i64,
    direction: Direction,
    file_name: String,
    size: u64,
) -> TransferItemView {
    TransferItemView {
        id,
        priority_order: order,
        direction,
        files: seq![
            FileProgress {
                file_id: id,
                relative_path: file_name,
                size,
                bytes_done: 0,
                status: ItemStatus::Queued,
            },
        ],
        status: ItemStatus::Queued,
        bytes_total: size,
        bytes_done: 0,
    }
}

/// Every entry's priority order is its position in the queue, as it is in a queue
/// filled by `push_new` alone.
pub open spec fn orders_are_positions(entries: Seq<TransferItem>) -> bool {
    forall|i: int| 0 <= i < entries.len() ==> #[trigger] entries[i].priority_order == i
}

/// One step of a queue's history as far as priority orders go: existing entries keep
/// their orders, and an entry appended gets the count of entries before it.
pub open spec fn order_step(before: Seq<TransferItem>, after: Seq<TransferItem>) -> bool {
    &&& after.len() == before.len() || after.len() == before.len() + 1
    &&& forall|i: int| 0 <= i < before.len() ==> #[trigger] after[i].priority_order == before[i].priority_order
    &&& after.len() == before.len() + 1 ==> after[before.len() as int].priority_order == before.len()
}

/// `f` never changes the priority order of the item it is given.
pub open spec fn keeps_priority_order<F: FnOnce(TransferItem) -> TransferItem>(f: F) -> bool {
    forall|it: TransferItem, r: TransferItem| #[trigger] f.ensures((it,), r) ==> r.priority_order == it.priority_order
}

/// Priority orders are assigned once at push time and never recomputed: along any
/// history that starts from an empty queue and proceeds by `order_step`s (every
/// `push_new`, and every `update` whose closure keeps the order), each entry's order
/// is its position, so orders are distinct and increase along the queue.
pub proof fn lemma_orders_along_history(history: Seq<Seq<TransferItem>>)
    requires
        history.len() > 0,
        history[0].len() == 0,
        forall|k: int| 0 <= k < history.len() - 1 ==> #[trigger] order_step(history[k], history[k + 1]),
    ensures
        orders_are_positions(history.last()),
    decreases history.len(),
{
    if history.len() > 1 {
        let shorter = history.drop_last();
        assert forall|k: int| 0 <= k < shorter.len() - 1 implies #[trigger] order_step(shorter[k], shorter[k + 1]) by {
            assert(order_step(history[k], history[k + 1]));
        }
        lemma_orders_along_history(shorter);
        let k = history.len() - 2;
        assert(order_step(history[k], history[k + 1]));
        assert(shorter.last() == history[k]);
    }
}

/// The item a push appends keeps every argument of the push: its id, order,
/// direction and size, and a single queued file carrying the id, name and size, with
/// nothing done yet.
pub proof fn lemma_new_item_keeps_arguments(
    id: u128,
    order: i64,
    direction: Direction,
    file_name: String,
    size: u64,
)
    ensures
        new_item(id, order, direction, file_name, size).id == id,
        new_item(id, order, direction, file_name, size).priority_order == order,
        new_item(id, order, direction, file_name, size).direction == direction,
        new_item(id, order, direction, file_name, size).status == ItemStatus::Queued,
        new_item(id, order, direction, file_name, size).bytes_total == size,
        new_item(id, order, direction, file_name, size).bytes_done == 0,
        new_item(id, order, direction, file_name, size).files.len() == 1,
        new_item(id, order, direction, file_name, size).files[0].file_id == id,
        new_item(id, order, direction, file_name, size).files[0].relative_path == file_name,
        new_item(id, order, direction, file_name, size).files[0].size == size,
        new_item(id, order, direction, file_name, size).files[0].bytes_done == 0,
        new_item(id, order, direction, file_name, size).files[0].status == ItemStatus::Queued,
{
}

/// `j` is the position of the first entry of `entries` whose id is `id`.
pub open spec fn first_with_id(entries: Seq<TransferItem>, id: u128, j: int) -> bool {
    &&& 0 <= j < entries.len()
    &&& entries[j].id == id
    &&& forall|k: int| 0 <= k < j ==> entries[k].id != id
}

impl Queue {
    /// The entries, in the order in which they were pushed.
    pub closed spec fn entries(&self) -> Seq<TransferItem> {
        self.items@
    }

    /// The order that the next pushed item receives.
    pub closed spec fn next_order_spec(&self) -> i64 {
        self.next_order
    }

    /// The counter always equals the number of entries: items are never removed.
    pub closed spec fn wf(&self) -> bool {
        self.next_order == self.items@.len()
    }

    /// An empty queue whose first item gets order 0.
    pub fn new() -> (q: Self)
        ensures
            q.wf(),
            q.entries() == Seq::<TransferItem>::empty(),
            q.next_order_spec() == 0,
            orders_are_positions(q.entries()),
    {
        Queue { items: Vec::new(), next_order: 0 }
    }

    /// Number of entries.
    pub fn len(&self) -> (n: usize)
        requires
            self.wf(),
        ensures
            n == self.entries().len(),
            n == self.next_order_spec(),
    {
        self.items.len()
    }

    /// Appends a queued transfer of one file and returns the order it was given.
    pub fn push_new(&mut self, id: u128, direction: Direction, file_name: String, size: u64) -> (order: i64)
        requires
            old(self).wf(),
            old(self).entries().len() < i64::MAX,
        ensures
            final(self).wf(),
            order == old(self).next_order_spec(),
            order == old(self).entries().len(),
            final(self).next_order_spec() == order + 1,
            final(self).entries().len() == old(self).entries().len() + 1,
            final(self).entries().take(old(self).entries().len() as int) == old(self).entries(),
            final(self).entries().last()@ == new_item(id, order, direction, file_name, size),
            final(self).entries().last().id == id,
            final(self).entries().last().priority_order == order,
            final(self).entries().last().direction == direction,
            final(self).entries().last().status == ItemStatus::Queued,
            final(self).entries().last().bytes_total == size,
            final(self).entries().last().bytes_done == 0,
            final(self).entries().last().files@.len() == 1,
            final(self).entries().last().files@[0].file_id == id,
            final(self).entries().last().files@[0].relative_path == file_name,
            final(self).entries().last().files@[0].size == size,
            final(self).entries().last().files@[0].bytes_done == 0,
            final(self).entries().last().files@[0].status == ItemStatus::Queued,
            order_step(old(self).entries(), final(self).entries()),
            orders_are_positions(old(self).entries()) ==> orders_are_positions(final(self).entries()),
    {
        let order = self.next_order;
        self.next_order = self.next_order + 1;
        let mut files: Vec<FileProgress> = Vec::new();
        files.push(
            FileProgress {
                file_id: id,
                relative_path: file_name,
                size,
                bytes_done: 0,
                status: ItemStatus::Queued,
            },
        );
        let item = TransferItem {
            id,
            priority_order: order,
            direction,
            files,
            status: ItemStatus::Queued,
            bytes_total: size,
            bytes_done: 0,
        };
        let ghost before = self.items@;
        self.items.push(item);
        assert(self.items@.take(before.len() as int) =~= before);
        assert(self.items@.last()@.files =~= new_item(id, order, direction, file_name, size).files);
        order
    }

    /// Replaces the first entry whose id is `id` by what `f` makes of it; leaves the
    /// queue unchanged when no entry has that id.
    pub fn update<F: FnOnce(TransferItem) -> TransferItem>(&mut self, id: u128, f: F)
        requires
            old(self).wf(),
            forall|j: int| #[trigger] first_with_id(old(self).entries(), id, j) ==> f.requires(
                (old(self).entries()[j],),
            ),
        ensures
            final(self).wf(),
            final(self).next_order_spec() == old(self).next_order_spec(),
            keeps_priority_order(f) ==> order_step(old(self).entries(), final(self).entries()),
            keeps_priority_order(f) && orders_are_positions(old(self).entries())
                ==> orders_are_positions(final(self).entries()),
            (forall|k: int| 0 <= k < old(self).entries().len() ==> old(self).entries()[k].id != id)
                ==> final(self).entries() == old(self).entries(),
            forall|j: int| #[trigger] first_with_id(old(self).entries(), id, j) ==> {
                &&& f.ensures((old(self).entries()[j],), final(self).entries()[j])
                &&& final(self).entries() == old(self).entries().update(j, final(self).entries()[j])
            },
    {
        let mut i: usize = 0;
        while i < self.items.len()
            invariant
                self.wf(),
                self.items@ == old(self).items@,
                self.next_order == old(self).next_order,
                i <= self.items@.len(),
                forall|k: int| 0 <= k < i ==> self.items@[k].id != id,
                forall|j: int| #[trigger] first_with_id(old(self).entries(), id, j) ==> f.requires(
                    (old(self).entries()[j],),
                ),
            decreases self.items.len() - i,
        {
            if self.items[i].id == id {
                let ghost before = self.items@;
                assert(first_with_id(old(self).entries(), id, i as int));
                let item = self.items.remove(i);
                let updated = f(item);
                self.items.insert(i, updated);
                assert(self.items@ =~= before.update(i as int, updated));
                assert(first_with_id(before, id, i as int));
                assert forall|j: int| #[trigger] first_with_id(before, id, j) implies j == i by {
                    if j < i {
                    } else if j > i {
                        assert(before[i as int].id == id);
                    }
                }
                return;
            }
            i += 1;
        }
    }

    /// A copy of every entry, in queue order.
    pub fn snapshot(&self) -> (items: Vec<TransferItem>)
        ensures
            items@.len() == self.entries().len(),
            forall|i: int| 0 <= i < items@.len() ==> #[trigger] items@[i]@ == self.entries()[i]@,
    {
        let items = self.items.clone();
        assert forall|i: int| 0 <= i < items@.len() implies #[trigger] items@[i]@ == self.entries()[i]@ by {
            assert(cloned::<TransferItem>(self.items@[i], items@[i]));
        }
        items
    }
}

impl Default for Queue {
    fn default() -> (q: Self)
        ensures
            q.wf(),
            q.entries() == Seq::<TransferItem>::empty(),
            q.next_order_spec() == 0,
            orders_are_positions(q.entries()),
    {
        Self::new()
    }
}

} // verus!
