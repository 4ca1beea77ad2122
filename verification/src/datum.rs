//! The datum heap: reference-counted storage for every interpreter-visible
//! value, addressed by opaque handles.
//!
//! A value lives in a slot; the handle carries the slot index and the slot's
//! generation at allocation time. A handle resolves only while its slot's
//! reference count is positive and its generation still matches, so a stale
//! handle to a reused slot is detected instead of yielding a different value.

use vstd::prelude::*;

verus! {

/// A tagged interpreter value.
pub enum Datum {
    Void,
    Int(i64),
    Str(String),
    /// A live script-instance object, by its instance identifier.
    ScriptInstance(u32),
}

impl Datum {
    /// An exact copy; spelled out so callers keep full knowledge of the value.
    pub fn duplicate(&self) -> (r: Datum)
        ensures
            r == *self,
    {
        match self {
            Datum::Void => Datum::Void,
            Datum::Int(n) => Datum::Int(*n),
            Datum::Str(s) => Datum::Str(s.clone()),
            Datum::ScriptInstance(id) => Datum::ScriptInstance(*id),
        }
    }
}

/// An opaque, reference-counted handle to a datum.
#[derive(Clone, Copy, Debug, PartialEq, Eq, Structural)]
pub struct DatumRef {
    pub index: usize,
    pub generation: u64,
}

pub struct Slot {
    pub refcount: usize,
    pub generation: u64,
    pub value: Datum,
}

/// The heap of interpreter values.
pub struct DatumHeap {
    pub slots: Vec<Slot>,
}

impl DatumHeap {
    /// A handle is live while its slot exists, its generation matches, and
    /// some reference to it is still outstanding.
    pub open spec fn live(self, r: DatumRef) -> bool {
        &&& r.index < self.slots@.len()
        &&& self.slots@[r.index as int].generation == r.generation
        &&& self.slots@[r.index as int].refcount > 0
    }

    /// The value a live handle refers to.
    pub open spec fn value_of(self, r: DatumRef) -> Datum {
        self.slots@[r.index as int].value
    }

    /// The outstanding reference count of a live handle.
    pub open spec fn count_of(self, r: DatumRef) -> nat {
        self.slots@[r.index as int].refcount as nat
    }

    pub fn new() -> (r: DatumHeap)
        ensures
            forall|d: DatumRef| !r.live(d),
    {
        DatumHeap { slots: Vec::new() }
    }

    /// Allocates a value with reference count 1 and returns its handle.
    /// Every handle live before stays live, with its value and count intact,
    /// and every handle dead before stays dead but for the returned one:
    /// allocation never disturbs outstanding references and never revives a
    /// freed handle.
    pub fn allocate(&mut self, value: Datum) -> (r: DatumRef)
        ensures
            final(self).live(r),
            final(self).value_of(r) == value,
            final(self).count_of(r) == 1,
            !old(self).live(r),
            forall|d: DatumRef|
                old(self).live(d) ==> final(self).live(d) && final(self).value_of(d) == old(self).value_of(d) && final(self).count_of(d) == old(self).count_of(d),
            forall|d: DatumRef| !old(self).live(d) && d != r ==> !final(self).live(d),
    {
        let mut i: usize = 0;
        while i < self.slots.len()
            invariant
                i <= self.slots@.len(),
                *self == *old(self),
                forall|j: int|
                    0 <= j < i ==> !(self.slots@[j].refcount == 0 && self.slots@[j].generation
                        < u64::MAX),
            decreases self.slots@.len() - i,
        {
            if self.slots[i].refcount == 0 && self.slots[i].generation < u64::MAX {
                let gen = self.slots[i].generation + 1;
                let ghost pre = self.slots@;
                self.slots.set(
                    i,
                    Slot { refcount: 1, generation: gen, value },
                );
                let r = DatumRef { index: i, generation: gen };
                proof {
                    assert(pre[i as int].refcount == 0);
                    assert forall|d: DatumRef| old(self).live(d) implies self.live(d)
                        && self.value_of(d) == old(self).value_of(d) && self.count_of(d) == old(self).count_of(d) by {
                        assert(d.index != i);
                    }
                }
                return r;
            }
            i = i + 1;
        }
        let gen: u64 = 1;
        let idx = self.slots.len();
        self.slots.push(Slot { refcount: 1, generation: gen, value });
        DatumRef { index: idx, generation: gen }
    }

    /// Increments the handle's reference count; a no-op on a dead handle,
    /// and at the count limit the count stays where it is.
    pub fn retain(&mut self, r: DatumRef)
        ensures
            old(self).live(r) && old(self).count_of(r) < usize::MAX ==> final(self).live(r)
                && final(self).count_of(r) == old(self).count_of(r) + 1,
            old(self).live(r) && old(self).count_of(r) == usize::MAX ==> *final(self) == *old(self),
            !old(self).live(r) ==> *final(self) == *old(self),
            forall|d: DatumRef|
                final(self).live(d) == old(self).live(d) && (old(self).live(d) ==> final(self).value_of(d) == old(self).value_of(d)),
            forall|d: DatumRef|
                d != r ==> (old(self).live(d) ==> final(self).count_of(d) == old(self).count_of(
                    d,
                )),
    {
        if r.index < self.slots.len() {
            let s = &self.slots[r.index];
            if s.generation == r.generation && s.refcount > 0 && s.refcount < usize::MAX {
                let c = s.refcount + 1;
                let gen = s.generation;
                let v = self.slots[r.index].value.duplicate();
                self.slots.set(r.index, Slot { refcount: c, generation: gen, value: v });
            }
        }
    }

    /// Decrements the handle's reference count, freeing the value at zero;
    /// a no-op on a dead handle. Handles to other slots are untouched, and a
    /// freed slot's generation is bumped so the old handle can never resolve
    /// again even if the slot is reused.
    pub fn release(&mut self, r: DatumRef)
        ensures
            old(self).live(r) && old(self).count_of(r) > 1 ==> final(self).live(r) && final(self).count_of(r) == old(self).count_of(r) - 1 && final(self).value_of(r) == old(self).value_of(r),
            old(self).live(r) && old(self).count_of(r) == 1 ==> !final(self).live(r),
            !old(self).live(r) ==> *final(self) == *old(self),
            forall|d: DatumRef|
                d != r ==> final(self).live(d) == old(self).live(d) && (old(self).live(d) ==> final(self).value_of(d) == old(self).value_of(d) && final(self).count_of(d) == old(self).count_of(d)),
    {
        if r.index < self.slots.len() {
            let s = &self.slots[r.index];
            if s.generation == r.generation && s.refcount > 0 {
                let c = s.refcount - 1;
                let gen = s.generation;
                if c == 0 {
                    let new_gen: u64 = if gen < u64::MAX {
                        gen + 1
                    } else {
                        gen
                    };
                    self.slots.set(
                        r.index,
                        Slot { refcount: 0, generation: new_gen, value: Datum::Void },
                    );
                    proof {
                        if gen == u64::MAX {
                            assert(!self.live(r));
                        }
                    }
                } else {
                    let v = self.slots[r.index].value.duplicate();
                    self.slots.set(r.index, Slot { refcount: c, generation: gen, value: v });
                }
            }
        }
    }

    /// Resolves a handle to its current value: the allocated value, unchanged,
    /// while any reference is outstanding, and absent once the count has
    /// dropped to zero or the handle never was live.
    pub fn resolve(&self, r: DatumRef) -> (out: Option<Datum>)
        ensures
            self.live(r) ==> out == Some(self.value_of(r)),
            !self.live(r) ==> out is None,
    {
        if r.index < self.slots.len() {
            let s = &self.slots[r.index];
            if s.generation == r.generation && s.refcount > 0 {
                return Some(s.value.duplicate());
            }
        }
        None
    }
}

} // verus!
