//! The lazily-populated, explicitly invalidated cache used for the traced
//! process's register snapshot.  Discipline: every operation that can change
//! register state invalidates the cache before returning control; a read
//! repopulates it from the kernel.

use vstd::prelude::*;

verus! {

/// An explicit cache holding at most one value.
pub struct Cache<T> {
    pub slot: Option<T>,
}

impl<T> Cache<T> {
    /// The cache holds a value.
    pub open spec fn spec_populated(self) -> bool {
        self.slot is Some
    }

    /// The held value (meaningful only when populated).
    pub open spec fn spec_value(self) -> T {
        self.slot->0
    }

    pub fn new() -> (r: Cache<T>)
        ensures
            !r.spec_populated(),
    {
        Cache { slot: None }
    }

    /// Forgets the held value; the next read must repopulate.
    pub fn invalidate(&mut self)
        ensures
            !final(self).spec_populated(),
    {
        self.slot = None;
    }

    /// Fills the cache with a freshly fetched value.
    pub fn populate(&mut self, v: T)
        ensures
            final(self).spec_populated(),
            final(self).spec_value() == v,
    {
        self.slot = Some(v);
    }

    /// Removes and returns the held value, leaving the cache empty.
    pub fn take(&mut self) -> (r: Option<T>)
        ensures
            !final(self).spec_populated(),
            match r {
                Some(v) => old(self).spec_populated() && v == old(self).spec_value(),
                None => !old(self).spec_populated(),
            },
    {
        self.slot.take()
    }

    /// Reads the held value without consuming it.
    pub fn get(&self) -> (r: Option<&T>)
        ensures
            match r {
                Some(v) => self.spec_populated() && *v == self.spec_value(),
                None => !self.spec_populated(),
            },
    {
        self.slot.as_ref()
    }
}

} // verus!
