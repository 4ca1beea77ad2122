//! The loaded document: a score, a cast library, and the compiled scripts
//! whose handlers the interpreter executes.
//!
//! Only the interpreter's control-flow and pausing behaviour is in scope, so
//! the instruction set is the small core the player's contracts speak of:
//! no-ops, returns, and the score/cast mutations that drive notifications.

use vstd::prelude::*;
use crate::cast::{CastLib, CastMemberRef};
use crate::score::Score;

verus! {

/// One bytecode instruction of a compiled handler.
pub enum Instr {
    /// Does nothing.
    Nop,
    /// Ends the handler call.
    Ret,
    /// Reassigns the numbered channel to the given member.
    SetChannelMember { channel: i32, member: CastMemberRef },
    /// Renames the given cast member.
    SetMemberName { member: CastMemberRef, name: String },
}

/// The mathematical content of one instruction.
pub enum InstrV {
    Nop,
    Ret,
    SetChannelMember { channel: i32, member: CastMemberRef },
    SetMemberName { member: CastMemberRef, name: Seq<char> },
}

/// View of one instruction.
pub open spec fn instr_view(i: Instr) -> InstrV {
    match i {
        Instr::Nop => InstrV::Nop,
        Instr::Ret => InstrV::Ret,
        Instr::SetChannelMember { channel, member } => InstrV::SetChannelMember {
            channel,
            member,
        },
        Instr::SetMemberName { member, name } => InstrV::SetMemberName { member, name: name@ },
    }
}

/// View of a handler's bytecode.
pub open spec fn code_view(code: Seq<Instr>) -> Seq<InstrV> {
    code.map_values(|i: Instr| instr_view(i))
}

impl Instr {
    /// An exact copy, with full knowledge of the result kept.
    pub fn duplicate(&self) -> (r: Instr)
        ensures
            instr_view(r) == instr_view(*self),
    {
        match self {
            Instr::Nop => Instr::Nop,
            Instr::Ret => Instr::Ret,
            Instr::SetChannelMember { channel, member } => Instr::SetChannelMember {
                channel: *channel,
                member: *member,
            },
            Instr::SetMemberName { member, name } => Instr::SetMemberName {
                member: *member,
                name: name.clone(),
            },
        }
    }
}

/// Copies a handler's bytecode.
pub fn duplicate_code(code: &Vec<Instr>) -> (r: Vec<Instr>)
    ensures
        code_view(r@) == code_view(code@),
{
    let mut out: Vec<Instr> = Vec::new();
    let mut i: usize = 0;
    while i < code.len()
        invariant
            i <= code@.len(),
            out@.len() == i,
            forall|j: int| 0 <= j < i ==> instr_view(out@[j]) == instr_view(code@[j]),
        decreases code@.len() - i,
    {
        out.push(code[i].duplicate());
        i = i + 1;
    }
    proof {
        assert(code_view(out@) =~= code_view(code@));
    }
    out
}

/// One named, compiled handler.
pub struct Handler {
    pub name: String,
    pub code: Vec<Instr>,
}

/// One compiled script: a name and its handlers.
pub struct Script {
    pub name: String,
    pub handlers: Vec<Handler>,
}

/// The loaded movie.
pub struct Movie {
    pub score: Score,
    pub cast: CastLib,
    pub scripts: Vec<Script>,
}

impl Movie {
    /// A well-formed movie: channel numbers strictly increase and cast keys
    /// are unique.
    pub open spec fn wf(self) -> bool {
        &&& self.score.inv()
        &&& self.cast.inv()
    }

    /// The empty movie.
    pub fn empty() -> (r: Movie)
        ensures
            r.wf(),
            r.score.channels@.len() == 0,
            r.cast@.len() == 0,
            r.scripts@.len() == 0,
    {
        Movie { score: Score::new(), cast: CastLib::new(), scripts: Vec::new() }
    }

    /// Whether the movie is well-formed; load rejects one that is not.
    pub fn check_wf(&self) -> (r: bool)
        ensures
            r == self.wf(),
    {
        let mut i: usize = 1;
        while i < self.score.channels.len()
            invariant
                1 <= i || self.score.channels@.len() == 0,
                i <= self.score.channels@.len() || self.score.channels@.len() == 0,
                forall|a: int, b: int|
                    0 <= a < b < i && b < self.score.channels@.len()
                        ==> self.score.channels@[a].number < self.score.channels@[b].number,
            decreases self.score.channels@.len() - i,
        {
            if self.score.channels[i - 1].number >= self.score.channels[i].number {
                proof {
                    assert(!self.score.inv());
                }
                return false;
            }
            proof {
                assert forall|a: int, b: int|
                    0 <= a < b < i + 1 && b < self.score.channels@.len() implies self.score.channels@[a].number
                    < self.score.channels@[b].number by {
                    if b == i {
                        if a < i - 1 {
                            assert(self.score.channels@[a].number < self.score.channels@[i
                                - 1].number);
                        }
                    }
                }
            }
            i = i + 1;
        }
        let mut a: usize = 0;
        while a < self.cast.entries.len()
            invariant
                a <= self.cast@.len(),
                self.score.inv(),
                forall|x: int, y: int|
                    0 <= x < y < self.cast@.len() && x < a ==> self.cast@[x].member
                        != self.cast@[y].member,
            decreases self.cast@.len() - a,
        {
            let mut b: usize = a + 1;
            while b < self.cast.entries.len()
                invariant
                    a < self.cast@.len(),
                    a + 1 <= b,
                    forall|y: int| a < y < b ==> self.cast@[a as int].member != self.cast@[y].member,
                decreases self.cast@.len() - b,
            {
                let ra = self.cast.entries[a].0;
                let rb = self.cast.entries[b].0;
                if ra.cast_lib == rb.cast_lib && ra.cast_member == rb.cast_member {
                    proof {
                        assert(self.cast@[a as int].member == self.cast@[b as int].member);
                        assert(!self.cast.inv());
                    }
                    return false;
                }
                proof {
                    assert(self.cast@[a as int].member != self.cast@[b as int].member);
                }
                b = b + 1;
            }
            a = a + 1;
        }
        true
    }
}

} // verus!
