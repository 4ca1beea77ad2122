//! Live script instances: objects created by handler execution, reference
//! counted like datums and owned by the interpreter's object table.
//!
//! An instance's inspectable state is deliberately thin — its script name —
//! matching the minimal instruction set: a snapshot reports that name, or
//! absence for a dead identifier.

use vstd::prelude::*;

verus! {

/// One table slot; a zero count means the identifier is unbound.
pub struct InstanceSlot {
    pub refcount: usize,
    pub script_name: String,
}

/// The object table. An instance identifier is its slot index; identifiers
/// are not reused while any reference is outstanding.
pub struct InstanceTable {
    pub slots: Vec<InstanceSlot>,
}

impl InstanceTable {
    /// Whether the identifier names a live instance.
    pub open spec fn live(self, id: u32) -> bool {
        id < self.slots@.len() && self.slots@[id as int].refcount > 0
    }

    /// The script name of a live instance.
    pub open spec fn name_of(self, id: u32) -> Seq<char> {
        self.slots@[id as int].script_name@
    }

    /// The outstanding reference count of a live instance.
    pub open spec fn count_of(self, id: u32) -> nat {
        self.slots@[id as int].refcount as nat
    }

    pub fn new() -> (r: InstanceTable)
        ensures
            forall|id: u32| !r.live(id),
    {
        InstanceTable { slots: Vec::new() }
    }

    /// Creates an instance of the named script with reference count 1,
    /// leaving every other identifier — live or dead — untouched. Creation
    /// is owed whenever the table can still grow; it fails only at the
    /// table-size limit.
    pub fn create(&mut self, script_name: String) -> (r: Option<u32>)
        ensures
            match r {
                Some(id) => {
                    &&& final(self).live(id)
                    &&& final(self).name_of(id) == script_name@
                    &&& final(self).count_of(id) == 1
                    &&& !old(self).live(id)
                },
                None => *final(self) == *old(self),
            },
            old(self).slots@.len() < u32::MAX as int ==> r is Some,
            forall|i: u32|
                old(self).live(i) ==> final(self).live(i) && final(self).name_of(i) == old(self).name_of(i) && final(self).count_of(i) == old(self).count_of(i),
            forall|i: u32|
                !old(self).live(i) && (r is Some ==> i != r->0) ==> !final(self).live(i),
    {
        if self.slots.len() >= u32::MAX as usize {
            return None;
        }
        let id = self.slots.len() as u32;
        self.slots.push(InstanceSlot { refcount: 1, script_name });
        Some(id)
    }

    /// Increments a live instance's reference count; a no-op on a dead
    /// identifier, and at the count limit the count stays where it is.
    pub fn retain(&mut self, id: u32)
        ensures
            old(self).live(id) && old(self).count_of(id) < usize::MAX ==> final(self).live(id)
                && final(self).count_of(id) == old(self).count_of(id) + 1,
            old(self).live(id) && old(self).count_of(id) == usize::MAX ==> *final(self) == *old(self),
            !old(self).live(id) ==> *final(self) == *old(self),
            forall|i: u32|
                final(self).live(i) == old(self).live(i) && (old(self).live(i) ==> final(self).name_of(i) == old(self).name_of(i)),
            forall|i: u32|
                i != id ==> (old(self).live(i) ==> final(self).count_of(i) == old(self).count_of(
                    i,
                )),
    {
        if (id as usize) < self.slots.len() {
            let c = self.slots[id as usize].refcount;
            if c > 0 && c < usize::MAX {
                let name = self.slots[id as usize].script_name.clone();
                self.slots.set(id as usize, InstanceSlot { refcount: c + 1, script_name: name });
            }
        }
    }

    /// Decrements a live instance's reference count, destroying the instance
    /// at zero; a no-op on a dead identifier.
    pub fn release(&mut self, id: u32)
        ensures
            forall|i: u32|
                i != id ==> final(self).live(i) == old(self).live(i) && (old(self).live(i)
                    ==> final(self).name_of(i) == old(self).name_of(i) && final(self).count_of(i)
                    == old(self).count_of(i)),
            old(self).live(id) && old(self).count_of(id) == 1 ==> !final(self).live(id),
            old(self).live(id) && old(self).count_of(id) > 1 ==> final(self).live(id) && final(self).name_of(id) == old(self).name_of(id) && final(self).count_of(id) == old(self).count_of(id) - 1,
            !old(self).live(id) ==> *final(self) == *old(self),
    {
        if (id as usize) < self.slots.len() {
            let c = self.slots[id as usize].refcount;
            if c > 0 {
                let name = self.slots[id as usize].script_name.clone();
                self.slots.set(id as usize, InstanceSlot { refcount: c - 1, script_name: name });
            }
        }
    }

    /// The live instance's script name, or absence for a dead identifier:
    /// an invalid reference is reported as absent, never an error.
    pub fn snapshot(&self, id: u32) -> (r: Option<String>)
        ensures
            match r {
                Some(s) => self.live(id) && s@ == self.name_of(id),
                None => !self.live(id),
            },
    {
        if (id as usize) < self.slots.len() {
            let s = &self.slots[id as usize];
            if s.refcount > 0 {
                return Some(s.script_name.clone());
            }
        }
        None
    }
}

} // verus!
