use vstd::prelude::*;

use std::collections::VecDeque;

use crate::rng::random_index;

verus! {

/// The contents of a memory of capacity `capacity` holding `items`, after
/// `item` is remembered: the new item comes first, then the old ones in
/// order, and whatever no longer fits (the oldest) is dropped.
pub open spec fn remembered<T>(items: Seq<T>, item: T, capacity: nat) -> Seq<T> {
    let all = seq![item].add(items);
    if all.len() <= capacity {
        all
    } else {
        all.take(capacity as int)
    }
}

/// A bounded experience-replay memory: the most recent experience first,
/// never more than its capacity.
pub struct ReplayMemory<T> {
    items: VecDeque<T>,
    capacity: usize,
}

impl<T> View for ReplayMemory<T> {
    type V = Seq<T>;

    closed spec fn view(&self) -> Seq<T> {
        self.items@
    }
}

impl<T> ReplayMemory<T> {
    #[verifier::type_invariant]
    spec fn bounded(self) -> bool {
        self.items.len() <= self.capacity
    }

    /// The most experiences this memory keeps.
    pub closed spec fn limit(&self) -> nat {
        self.capacity as nat
    }

    /// An empty memory that keeps at most `capacity` experiences.
    pub fn new(capacity: usize) -> (memory: Self)
        ensures
            memory@ == Seq::<T>::empty(),
            memory.limit() == capacity,
    {
        ReplayMemory { items: VecDeque::new(), capacity }
    }

    /// The most experiences this memory keeps.
    pub fn capacity(&self) -> (capacity: usize)
        ensures
            capacity == self.limit(),
    {
        self.capacity
    }

    /// The number of experiences held.
    pub fn len(&self) -> (len: usize)
        ensures
            len == self@.len(),
            len <= self.limit(),
    {
        proof {
            use_type_invariant(self);
        }
        self.items.len()
    }

    /// Whether no experience is held.
    pub fn is_empty(&self) -> (empty: bool)
        ensures
            empty == (self@.len() == 0),
    {
        self.items.len() == 0
    }

    /// The experience at `index`, counted from the most recent one.
    pub fn get(&self, index: usize) -> (item: Option<&T>)
        ensures
            index < self@.len() ==> item == Some(&self@[index as int]),
            index >= self@.len() ==> item is None,
    {
        if index < self.items.len() {
            Some(&self.items[index])
        } else {
            None
        }
    }

    /// Remembers `item` as the most recent experience, forgetting the oldest
    /// one when the memory is full.
    pub fn remember(&mut self, item: T)
        ensures
            final(self)@ == remembered(old(self)@, item, old(self).limit()),
            final(self).limit() == old(self).limit(),
    {
        proof {
            use_type_invariant(&*self);
        }
        let mut items: VecDeque<T> = VecDeque::new();
        std::mem::swap(&mut items, &mut self.items);
        items.push_front(item);
        items.truncate(self.capacity);
        assert(items@ =~= remembered(old(self)@, item, old(self).limit()));
        self.items = items;
    }

    /// Forgets every experience.
    pub fn clear(&mut self)
        ensures
            final(self)@ == Seq::<T>::empty(),
            final(self).limit() == old(self).limit(),
    {
        self.items = VecDeque::new();
    }

    /// Draws `count` positions of held experiences, each uniformly at random
    /// and independently of the others (a batch sampled with replacement).
    pub fn sample_indices(&self, count: usize) -> (indices: Vec<usize>)
        requires
            self@.len() > 0,
        ensures
            indices@.len() == count,
            forall|i: int| 0 <= i < count ==> indices@[i] < self@.len(),
    {
        let len = self.items.len();
        let mut indices: Vec<usize> = Vec::new();
        let mut drawn: usize = 0;
        while drawn < count
            invariant
                len == self@.len(),
                len > 0,
                drawn <= count,
                indices@.len() == drawn,
                forall|i: int| 0 <= i < drawn ==> indices@[i] < len,
            decreases count - drawn,
        {
            let index = random_index(len);
            indices.push(index);
            drawn = drawn + 1;
        }
        indices
    }
}


/// Remembering an experience never lets the memory exceed its capacity; when
/// the capacity allows any experience at all, the new one comes first and
/// the earlier ones follow in their old order, only the oldest being dropped
/// when the memory was full.
pub proof fn lemma_remember_order<T>(items: Seq<T>, item: T, capacity: nat)
    requires
        items.len() <= capacity,
    ensures
        remembered(items, item, capacity).len() <= capacity,
        capacity > 0 ==> remembered(items, item, capacity)[0] == item,
        capacity > 0 ==> remembered(items, item, capacity).len() == if items.len() < capacity {
            items.len() + 1
        } else {
            capacity
        },
        forall|i: int|
            1 <= i < remembered(items, item, capacity).len() ==> #[trigger] remembered(
                items,
                item,
                capacity,
            )[i] == items[i - 1],
{
}

} // verus!
