//! A bounded first-in first-out queue that never blocks its producer: an item
//! offered to a full queue is dropped.
use vstd::prelude::*;
use std::collections::VecDeque;

verus! {

/// The contents after `item` is offered to a queue holding `contents`.
pub open spec fn offer<T>(contents: Seq<T>, capacity: nat, item: T) -> Seq<T> {
    if contents.len() < capacity {
        contents.push(item)
    } else {
        contents
    }
}

/// The contents after each of `items` is offered in turn.
pub open spec fn offer_all<T>(contents: Seq<T>, capacity: nat, items: Seq<T>) -> Seq<T>
    decreases items.len(),
{
    if items.len() == 0 {
        contents
    } else {
        offer(offer_all(contents, capacity, items.drop_last()), capacity, items.last())
    }
}

pub struct BoundedQueue<T> {
    items: VecDeque<T>,
    capacity: usize,
}

impl<T> View for BoundedQueue<T> {
    type V = Seq<T>;

    closed spec fn view(&self) -> Seq<T> {
        self.items@
    }
}

impl<T> BoundedQueue<T> {
    pub closed spec fn spec_capacity(&self) -> nat {
        self.capacity as nat
    }

    pub open spec fn wf(&self) -> bool {
        self@.len() <= self.spec_capacity()
    }

    pub fn new(capacity: usize) -> (q: BoundedQueue<T>)
        ensures
            q.wf(),
            q@ == Seq::<T>::empty(),
            q.spec_capacity() == capacity,
    {
        BoundedQueue { items: VecDeque::new(), capacity }
    }

    pub fn capacity(&self) -> (r: usize)
        ensures
            r == self.spec_capacity(),
    {
        self.capacity
    }

    pub fn len(&self) -> (r: usize)
        ensures
            r == self@.len(),
    {
        self.items.len()
    }

    pub fn is_full(&self) -> (r: bool)
        requires
            self.wf(),
        ensures
            r == (self@.len() >= self.spec_capacity()),
    {
        self.items.len() >= self.capacity
    }

    /// Appends `item` if there is room and tells whether it was kept; on a
    /// full queue the item is dropped and the contents stay as they were.
    pub fn push(&mut self, item: T) -> (kept: bool)
        requires
            old(self).wf(),
        ensures
            final(self).wf(),
            final(self).spec_capacity() == old(self).spec_capacity(),
            kept == (old(self)@.len() < old(self).spec_capacity()),
            final(self)@ == offer(old(self)@, old(self).spec_capacity(), item),
    {
        if self.items.len() < self.capacity {
            self.items.push_back(item);
            true
        } else {
            false
        }
    }

    /// Removes and returns the oldest item.
    pub fn pop(&mut self) -> (r: Option<T>)
        requires
            old(self).wf(),
        ensures
            final(self).wf(),
            final(self).spec_capacity() == old(self).spec_capacity(),
            old(self)@.len() == 0 ==> r is None && final(self)@ == old(self)@,
            old(self)@.len() > 0 ==> r == Some(old(self)@[0]) && final(self)@ == old(self)@.drop_first(),
    {
        self.items.pop_front()
    }
}

/// Offering items one by one to an empty queue keeps exactly the first
/// `capacity` of them, in the order they came.
pub proof fn lemma_offer_all_keeps_prefix<T>(capacity: nat, items: Seq<T>)
    ensures
        offer_all(Seq::<T>::empty(), capacity, items) == items.take(
            if items.len() < capacity { items.len() as int } else { capacity as int },
        ),
    decreases items.len(),
{
    if items.len() > 0 {
        let init = items.drop_last();
        lemma_offer_all_keeps_prefix(capacity, init);
        if init.len() < capacity {
            assert(items.take(items.len() as int) =~= init.take(init.len() as int).push(items.last()));
        } else {
            assert(items.take(capacity as int) =~= init.take(capacity as int));
        }
    }
}

/// With `capacity + 1` items offered to an empty queue, the first `capacity`
/// stay in order and exactly the last one is dropped.
pub proof fn lemma_overflow_drops_last<T>(capacity: nat, items: Seq<T>)
    requires
        items.len() == capacity + 1,
    ensures
        offer_all(Seq::<T>::empty(), capacity, items) == items.drop_last(),
{
    lemma_offer_all_keeps_prefix(capacity, items);
    assert(items.take(capacity as int) =~= items.drop_last());
}

} // verus!
