//! The capability table: host-owned objects (a drawing surface, a render
//! resource) kept on the host side, and named to the sandboxed module by
//! handles. Slots are never reused, and every handle carries the generation of
//! the table that issued it, so a handle kept across a reload is refused.
use vstd::prelude::*;

verus! {

/// A reference to a slot of a capability table. An owned handle may release
/// its slot once; a borrowed one may only resolve it.
#[derive(Clone, Copy, Debug, PartialEq, Eq, Structural)]
pub struct CapabilityHandle {
    pub generation: u64,
    pub index: usize,
    pub owned: bool,
}

impl CapabilityHandle {
    /// The borrowed flavour of this handle: same slot, no right to release it.
    pub fn borrowed(&self) -> (r: CapabilityHandle)
        ensures
            r == (CapabilityHandle { owned: false, ..*self }),
    {
        CapabilityHandle { generation: self.generation, index: self.index, owned: false }
    }

    pub fn is_owned(&self) -> (r: bool)
        ensures
            r == self.owned,
    {
        self.owned
    }
}

#[derive(Clone, Copy, Debug, PartialEq, Eq, Structural)]
pub enum HandleError {
    /// The handle was issued by another table, or was never issued.
    InvalidHandle,
    /// The handle's slot was released already.
    DoubleRelease,
    /// A release was asked through a borrowed handle.
    BorrowedHandleReleased,
}

/// What a capability table holds: its generation, and one entry per slot
/// ever issued, `None` once the slot was released.
pub struct TableView<T> {
    pub generation: u64,
    pub entries: Seq<Option<T>>,
}

impl<T> TableView<T> {
    /// The handle names a slot that this table issued.
    pub open spec fn issued(self, h: CapabilityHandle) -> bool {
        h.generation == self.generation && h.index < self.entries.len()
    }

    /// The handle names a slot of this table that still holds its object.
    pub open spec fn live(self, h: CapabilityHandle) -> bool {
        self.issued(h) && self.entries[h.index as int] is Some
    }

    /// What releasing the handle fails with, if it fails.
    pub open spec fn release_error(self, h: CapabilityHandle) -> Option<HandleError> {
        if !self.issued(h) {
            Some(HandleError::InvalidHandle)
        } else if !h.owned {
            Some(HandleError::BorrowedHandleReleased)
        } else if self.entries[h.index as int] is None {
            Some(HandleError::DoubleRelease)
        } else {
            None
        }
    }

    /// The table once the handle's slot is emptied.
    pub open spec fn released(self, h: CapabilityHandle) -> TableView<T> {
        TableView { generation: self.generation, entries: self.entries.update(h.index as int, None) }
    }

    /// The table once `object` is put in a fresh slot.
    pub open spec fn registered(self, object: T) -> TableView<T> {
        TableView { generation: self.generation, entries: self.entries.push(Some(object)) }
    }
}

/// A table of host-owned objects of one kind, for one generation of the
/// loaded module.
pub struct CapabilityTable<T> {
    generation: u64,
    slots: Vec<Option<T>>,
}

impl<T> View for CapabilityTable<T> {
    type V = TableView<T>;

    closed spec fn view(&self) -> TableView<T> {
        TableView { generation: self.generation, entries: self.slots@ }
    }
}

impl<T> CapabilityTable<T> {
    pub fn new(generation: u64) -> (r: CapabilityTable<T>)
        ensures
            r@.generation == generation,
            r@.entries.len() == 0,
    {
        CapabilityTable { generation, slots: Vec::new() }
    }

    pub fn generation(&self) -> (r: u64)
        ensures
            r == self@.generation,
    {
        self.generation
    }

    /// The number of slots issued so far, released ones included.
    pub fn issued_count(&self) -> (r: usize)
        ensures
            r == self@.entries.len(),
    {
        self.slots.len()
    }

    /// Puts `object` in a fresh slot and returns an owned handle to it.
    pub fn register(&mut self, object: T) -> (r: CapabilityHandle)
        requires
            old(self)@.entries.len() < usize::MAX,
        ensures
            r == (CapabilityHandle {
                generation: old(self)@.generation,
                index: old(self)@.entries.len() as usize,
                owned: true,
            }),
            final(self)@ == old(self)@.registered(object),
    {
        let index = self.slots.len();
        self.slots.push(Some(object));
        proof {
            assert(self.slots@ =~= old(self).slots@.push(Some(object)));
        }
        CapabilityHandle { generation: self.generation, index, owned: true }
    }

    /// The object that the handle names, owned or borrowed.
    pub fn resolve(&self, h: &CapabilityHandle) -> (r: Result<&T, HandleError>)
        ensures
            match r {
                Ok(object) => self@.live(*h) && self@.entries[h.index as int] == Some(*object),
                Err(e) => !self@.live(*h) && e == HandleError::InvalidHandle,
            },
    {
        if h.generation != self.generation || h.index >= self.slots.len() {
            return Err(HandleError::InvalidHandle);
        }
        match &self.slots[h.index] {
            Some(object) => Ok(object),
            None => Err(HandleError::InvalidHandle),
        }
    }

    /// Empties the handle's slot and hands its object back.
    pub fn release(&mut self, h: CapabilityHandle) -> (r: Result<T, HandleError>)
        ensures
            match r {
                Ok(object) => {
                    &&& old(self)@.release_error(h) is None
                    &&& old(self)@.entries[h.index as int] == Some(object)
                    &&& final(self)@ == old(self)@.released(h)
                },
                Err(e) => {
                    &&& old(self)@.release_error(h) == Some(e)
                    &&& final(self)@ == old(self)@
                },
            },
    {
        if h.generation != self.generation || h.index >= self.slots.len() {
            return Err(HandleError::InvalidHandle);
        }
        if !h.owned {
            return Err(HandleError::BorrowedHandleReleased);
        }
        let slot = &mut self.slots[h.index];
        match slot.take() {
            Some(object) => {
                proof {
                    assert(self.slots@ =~= old(self).slots@.update(h.index as int, None));
                }
                Ok(object)
            },
            None => {
                proof {
                    assert(self.slots@ =~= old(self).slots@);
                }
                Err(HandleError::DoubleRelease)
            },
        }
    }
}

/// Releasing an owned handle a second time fails with `DoubleRelease`, and
/// the first release leaves every other slot as it was.
pub proof fn lemma_release_twice<T>(table: TableView<T>, h: CapabilityHandle)
    requires
        table.release_error(h) is None,
    ensures
        table.released(h).release_error(h) == Some(HandleError::DoubleRelease),
        forall|g: CapabilityHandle|
            g.index != h.index ==> {
                &&& #[trigger] table.released(h).live(g) == table.live(g)
                &&& table.released(h).release_error(g) == table.release_error(g)
                &&& (table.live(g) ==> table.released(h).entries[g.index as int]
                    == table.entries[g.index as int])
            },
{
}

/// A handle issued by the table of one generation is refused by the table of
/// the next: it resolves to `InvalidHandle` and cannot be released there.
pub proof fn lemma_generation_isolation<T>(
    earlier: TableView<T>,
    later: TableView<T>,
    h: CapabilityHandle,
)
    requires
        h.generation == earlier.generation,
        later.generation == earlier.generation + 1,
    ensures
        !later.live(h),
        later.release_error(h) == Some(HandleError::InvalidHandle),
{
}

} // verus!
