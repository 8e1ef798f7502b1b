use vstd::prelude::*;

verus! {

/// A collection of recorded experiences, in the order they were recorded.
pub struct TankDataset<T> {
    pub dataset: Vec<T>,
}

impl<T> TankDataset<T> {
    /// An empty dataset.
    pub fn new() -> (ds: Self)
        ensures
            ds.dataset@ == Seq::<T>::empty(),
    {
        TankDataset { dataset: Vec::new() }
    }

    /// Appends an experience.
    pub fn add(&mut self, item: T)
        ensures
            final(self).dataset@ == old(self).dataset@.push(item),
    {
        self.dataset.push(item);
    }

    /// The number of experiences.
    pub fn len(&self) -> (len: usize)
        ensures
            len == self.dataset@.len(),
    {
        self.dataset.len()
    }

    /// The experience at `index`, if there is one.
    pub fn get(&self, index: usize) -> (item: Option<&T>)
        ensures
            index < self.dataset@.len() ==> item == Some(&self.dataset@[index as int]),
            index >= self.dataset@.len() ==> item is None,
    {
        if index < self.dataset.len() {
            Some(&self.dataset[index])
        } else {
            None
        }
    }

    /// Splits the dataset into its first `mid` experiences and the rest.
    pub fn split_at(self, mid: usize) -> (parts: (Self, Self))
        requires
            mid <= self.dataset@.len(),
        ensures
            parts.0.dataset@ == self.dataset@.take(mid as int),
            parts.1.dataset@ == self.dataset@.skip(mid as int),
    {
        let mut first = self.dataset;
        let second = first.split_off(mid);
        (TankDataset { dataset: first }, TankDataset { dataset: second })
    }
}


/// Splitting a dataset loses and reorders nothing: the two parts, put back
/// together, give the dataset, and the first part has exactly `mid` experiences.
pub proof fn lemma_split_parts<T>(items: Seq<T>, mid: int)
    requires
        0 <= mid <= items.len(),
    ensures
        items.take(mid) + items.skip(mid) == items,
        items.take(mid).len() == mid,
{
    assert(items.take(mid) + items.skip(mid) =~= items);
}

} // verus!
