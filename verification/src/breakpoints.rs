//! The player's set of active breakpoints.
//!
//! A breakpoint is a (script name, handler name, bytecode index) triple.
//! Adding an existing triple and removing an absent one are no-ops; toggling
//! flips membership. A breakpoint may name a script or handler that does not
//! exist yet: scripts may load later, so nothing is validated at set-time.

use vstd::prelude::*;

verus! {

/// One active breakpoint: execution pauses when the interpreter reaches
/// `bytecode_index` inside the named handler of the named script.
pub struct Breakpoint {
    pub script_name: String,
    pub handler_name: String,
    pub bytecode_index: usize,
}

/// The mathematical identity of a breakpoint: its triple, with the names as
/// character sequences.
pub open spec fn bp_key(b: Breakpoint) -> (Seq<char>, Seq<char>, int) {
    (b.script_name@, b.handler_name@, b.bytecode_index as int)
}

impl Clone for Breakpoint {
    fn clone(&self) -> (r: Breakpoint)
        ensures
            r.script_name@ == self.script_name@,
            r.handler_name@ == self.handler_name@,
            r.bytecode_index == self.bytecode_index,
    {
        Breakpoint {
            script_name: self.script_name.clone(),
            handler_name: self.handler_name.clone(),
            bytecode_index: self.bytecode_index,
        }
    }
}

/// The set of active breakpoints, global to the player.
pub struct BreakpointSet {
    pub entries: Vec<Breakpoint>,
}

/// The single step a host command applies to one triple's membership.
pub enum BreakpointOp {
    Add,
    Remove,
    Toggle,
}

/// Membership of one triple after one operation on that same triple.
pub open spec fn bp_step(present: bool, op: BreakpointOp) -> bool {
    match op {
        BreakpointOp::Add => true,
        BreakpointOp::Remove => false,
        BreakpointOp::Toggle => !present,
    }
}

/// Membership of one triple after a sequence of operations on that same
/// triple, applied in order.
pub open spec fn bp_run(present: bool, ops: Seq<BreakpointOp>) -> bool
    decreases ops.len(),
{
    if ops.len() == 0 {
        present
    } else {
        bp_run(bp_step(present, ops[0]), ops.skip(1))
    }
}

impl BreakpointSet {
    /// Whether the triple `k` is an active breakpoint.
    pub open spec fn has(self, k: (Seq<char>, Seq<char>, int)) -> bool {
        exists|i: int| 0 <= i < self.entries@.len() && bp_key(self.entries@[i]) == k
    }

    /// No triple occurs twice, so removal by first match removes the triple.
    pub open spec fn inv(self) -> bool {
        forall|i: int, j: int|
            0 <= i < j < self.entries@.len() ==> bp_key(self.entries@[i]) != bp_key(
                self.entries@[j],
            )
    }

    pub fn new() -> (r: BreakpointSet)
        ensures
            r.inv(),
            forall|k: (Seq<char>, Seq<char>, int)| !r.has(k),
    {
        BreakpointSet { entries: Vec::new() }
    }

    /// The triples currently set, for host-side inspection.
    pub fn list(&self) -> (r: Vec<Breakpoint>)
        ensures
            r@.len() == self.entries@.len(),
            forall|i: int|
                0 <= i < r@.len() ==> bp_key(r@[i]) == bp_key(self.entries@[i]),
    {
        let mut out: Vec<Breakpoint> = Vec::new();
        let mut i: usize = 0;
        while i < self.entries.len()
            invariant
                i <= self.entries@.len(),
                out@.len() == i,
                forall|j: int| 0 <= j < i ==> bp_key(out@[j]) == bp_key(self.entries@[j]),
            decreases self.entries@.len() - i,
        {
            out.push(self.entries[i].clone());
            i = i + 1;
        }
        out
    }

    /// Index of the entry whose triple matches, if any.
    fn find(&self, script_name: &String, handler_name: &String, bytecode_index: usize) -> (r:
        Option<usize>)
        ensures
            match r {
                Some(i) => 0 <= i < self.entries@.len() && bp_key(self.entries@[i as int]) == (
                    script_name@,
                    handler_name@,
                    bytecode_index as int,
                ),
                None => !self.has((script_name@, handler_name@, bytecode_index as int)),
            },
    {
        let mut i: usize = 0;
        while i < self.entries.len()
            invariant
                i <= self.entries@.len(),
                forall|j: int|
                    0 <= j < i ==> bp_key(self.entries@[j]) != (
                        script_name@,
                        handler_name@,
                        bytecode_index as int,
                    ),
            decreases self.entries@.len() - i,
        {
            let e = &self.entries[i];
            if e.script_name == *script_name && e.handler_name == *handler_name
                && e.bytecode_index == bytecode_index {
                return Some(i);
            }
            i = i + 1;
        }
        None
    }

    /// Whether the triple is an active breakpoint.
    pub fn contains(&self, script_name: &String, handler_name: &String, bytecode_index: usize) -> (
        r: bool)
        ensures
            r == self.has((script_name@, handler_name@, bytecode_index as int)),
    {
        self.find(script_name, handler_name, bytecode_index).is_some()
    }

    /// Adds the triple; a no-op if it is already set.
    pub fn add(&mut self, script_name: String, handler_name: String, bytecode_index: usize)
        requires
            old(self).inv(),
        ensures
            final(self).inv(),
            final(self).has((script_name@, handler_name@, bytecode_index as int)) == bp_step(
                old(self).has((script_name@, handler_name@, bytecode_index as int)),
                BreakpointOp::Add,
            ),
            forall|k: (Seq<char>, Seq<char>, int)|
                k != (script_name@, handler_name@, bytecode_index as int) ==> final(self).has(k)
                    == old(self).has(k),
    {
        if self.find(&script_name, &handler_name, bytecode_index).is_none() {
            let ghost pre = self.entries@;
            self.entries.push(
                Breakpoint { script_name, handler_name, bytecode_index },
            );
            proof {
                assert(bp_key(self.entries@[pre.len() as int]) == (
                    script_name@,
                    handler_name@,
                    bytecode_index as int,
                ));
                assert(self.has((script_name@, handler_name@, bytecode_index as int)));
                assert forall|k: (Seq<char>, Seq<char>, int)|
                    k != (script_name@, handler_name@, bytecode_index as int) implies (
                self.has(k) == exists|i: int| 0 <= i < pre.len() && bp_key(pre[i]) == k) by {
                    if exists|i: int| 0 <= i < pre.len() && bp_key(pre[i]) == k {
                        let i = choose|i: int| 0 <= i < pre.len() && bp_key(pre[i]) == k;
                        assert(bp_key(self.entries@[i]) == k);
                    }
                    if self.has(k) {
                        let i = choose|i: int|
                            0 <= i < self.entries@.len() && bp_key(self.entries@[i]) == k;
                        assert(i < pre.len());
                        assert(bp_key(pre[i]) == k);
                    }
                }
            }
        }
    }

    /// Removes the triple; a no-op if it is not set.
    pub fn remove(&mut self, script_name: &String, handler_name: &String, bytecode_index: usize)
        requires
            old(self).inv(),
        ensures
            final(self).inv(),
            final(self).has((script_name@, handler_name@, bytecode_index as int)) == bp_step(
                old(self).has((script_name@, handler_name@, bytecode_index as int)),
                BreakpointOp::Remove,
            ),
            forall|k: (Seq<char>, Seq<char>, int)|
                k != (script_name@, handler_name@, bytecode_index as int) ==> final(self).has(k)
                    == old(self).has(k),
    {
        match self.find(script_name, handler_name, bytecode_index) {
            Some(i) => {
                let ghost pre = self.entries@;
                self.entries.remove(i);
                proof {
                    assert forall|k: (Seq<char>, Seq<char>, int)| self.has(k) implies (
                    exists|j: int| 0 <= j < pre.len() && bp_key(pre[j]) == k) by {
                        let j = choose|j: int|
                            0 <= j < self.entries@.len() && bp_key(self.entries@[j]) == k;
                        if j < i {
                            assert(bp_key(pre[j]) == k);
                        } else {
                            assert(bp_key(pre[j + 1]) == k);
                        }
                    }
                    assert forall|k: (Seq<char>, Seq<char>, int)|
                        k != (script_name@, handler_name@, bytecode_index as int) && exists|j: int|
                            0 <= j < pre.len() && bp_key(pre[j]) == k implies self.has(k) by {
                        let j = choose|j: int| 0 <= j < pre.len() && bp_key(pre[j]) == k;
                        if j < i {
                            assert(bp_key(self.entries@[j]) == k);
                        } else {
                            assert(j != i);
                            assert(bp_key(self.entries@[j - 1]) == k);
                        }
                    }
                    assert(!self.has((script_name@, handler_name@, bytecode_index as int))) by {
                        if exists|j: int|
                            0 <= j < self.entries@.len() && bp_key(self.entries@[j]) == (
                            script_name@,
                            handler_name@,
                            bytecode_index as int,
                        ) {
                            let j = choose|j: int|
                                0 <= j < self.entries@.len() && bp_key(self.entries@[j]) == (
                                script_name@,
                                handler_name@,
                                bytecode_index as int,
                            );
                            if j < i {
                                assert(bp_key(pre[j]) == bp_key(pre[i as int]));
                            } else {
                                assert(bp_key(pre[j + 1]) == bp_key(pre[i as int]));
                            }
                        }
                    }
                }
            },
            None => {},
        }
    }

    /// Flips the triple's membership.
    pub fn toggle(&mut self, script_name: String, handler_name: String, bytecode_index: usize)
        requires
            old(self).inv(),
        ensures
            final(self).inv(),
            final(self).has((script_name@, handler_name@, bytecode_index as int)) == bp_step(
                old(self).has((script_name@, handler_name@, bytecode_index as int)),
                BreakpointOp::Toggle,
            ),
            forall|k: (Seq<char>, Seq<char>, int)|
                k != (script_name@, handler_name@, bytecode_index as int) ==> final(self).has(k)
                    == old(self).has(k),
    {
        if self.find(&script_name, &handler_name, bytecode_index).is_some() {
            self.remove(&script_name, &handler_name, bytecode_index);
        } else {
            self.add(script_name, handler_name, bytecode_index);
        }
    }
}

/// Law: over any sequence of add/remove/toggle operations on one triple, the
/// final membership is the net effect of the operations applied in order.
///
/// `mems` is the trace of that triple's membership, one entry per state; each
/// consecutive pair is related by the single-step semantics that `add`,
/// `remove` and `toggle` are proved to implement.
pub proof fn lemma_breakpoint_net_effect(mems: Seq<bool>, ops: Seq<BreakpointOp>)
    requires
        mems.len() == ops.len() + 1,
        forall|i: int| 0 <= i < ops.len() ==> mems[i + 1] == bp_step(mems[i], ops[i]),
    ensures
        mems[mems.len() - 1] == bp_run(mems[0], ops),
    decreases ops.len(),
{
    if ops.len() > 0 {
        assert forall|i: int| 0 <= i < ops.skip(1).len() implies mems.skip(1)[i + 1] == bp_step(
            mems.skip(1)[i],
            ops.skip(1)[i],
        ) by {
            assert(mems.skip(1)[i + 1] == mems[i + 2]);
            assert(mems.skip(1)[i] == mems[i + 1]);
            assert(ops.skip(1)[i] == ops[i + 1]);
            assert(mems[i + 2] == bp_step(mems[i + 1], ops[i + 1]));
        }
        lemma_breakpoint_net_effect(mems.skip(1), ops.skip(1));
        assert(mems.skip(1)[0] == mems[1]);
        assert(mems[1] == bp_step(mems[0], ops[0]));
        assert(mems.skip(1)[mems.skip(1).len() - 1] == mems[mems.len() - 1]);
        assert(bp_run(mems[0], ops) == bp_run(bp_step(mems[0], ops[0]), ops.skip(1)));
    }
}

} // verus!
