//! Latest-value cells: single-slot, single-writer, multi-reader. Reading
//! always yields the most recently published value; a reader can also ask
//! whether anything changed since it last looked.

use vstd::prelude::*;

verus! {

/// A single-slot broadcast of the latest value, with a version counter that
/// lets readers detect changes.
pub struct LatestCell<T> {
    value: Option<T>,
    version: u64,
}

impl<T> LatestCell<T> {
    /// The value most recently published, if any.
    pub closed spec fn value(&self) -> Option<T> {
        self.value
    }

    /// How many publications have happened.
    pub closed spec fn version(&self) -> u64 {
        self.version
    }

    /// An empty cell: nothing published yet.
    pub fn new() -> (c: LatestCell<T>)
        ensures
            c.value() == None::<T>,
            c.version() == 0,
    {
        LatestCell { value: None, version: 0 }
    }

    /// Replaces the slot with `v`; readers from now on see `v` and notice
    /// the change.
    pub fn publish(&mut self, v: T)
        requires
            old(self).version() < u64::MAX,
        ensures
            final(self).value() == Some(v),
            final(self).version() == old(self).version() + 1,
    {
        self.value = Some(v);
        self.version = self.version + 1;
    }

    /// The current value; never blocks the writer, never observes a torn
    /// value.
    pub fn get(&self) -> (r: &Option<T>)
        ensures
            *r == self.value(),
    {
        &self.value
    }
}

/// A reader's bookmark into a [`LatestCell`]: remembers the last version it
/// acknowledged.
pub struct CellReader {
    seen: u64,
}

impl CellReader {
    /// The version this reader acknowledged last.
    pub closed spec fn seen(&self) -> u64 {
        self.seen
    }

    /// A fresh reader that has acknowledged nothing.
    pub fn new() -> (r: CellReader)
        ensures
            r.seen() == 0,
    {
        CellReader { seen: 0 }
    }

    /// Whether the cell was published to since this reader last `read`.
    pub fn changed<T>(&self, cell: &LatestCell<T>) -> (r: bool)
        ensures
            r == (cell.version() > self.seen()),
    {
        cell.version_word() > self.seen
    }

    /// The current value, acknowledging everything published so far.
    pub fn read<'a, T>(&mut self, cell: &'a LatestCell<T>) -> (r: &'a Option<T>)
        ensures
            *r == cell.value(),
            final(self).seen() == cell.version(),
    {
        self.seen = cell.version_word();
        cell.get()
    }
}

impl<T> LatestCell<T> {
    /// The version counter as a plain word, for readers' bookkeeping.
    pub fn version_word(&self) -> (r: u64)
        ensures
            r == self.version(),
    {
        self.version
    }
}

} // verus!
