//! The player: the single point of mutation for all runtime state.
//!
//! Every external command is one method; a command mutates the player and
//! returns the notifications it emitted, in emission order. The host applies
//! commands one at a time, so each observes a fully-consistent prior state.
//!
//! Handler execution is kept as an explicit resumable continuation: when the
//! instruction pointer reaches an active breakpoint the call is parked in
//! `current_call` and the player stays dispatch-ready; only `resume_breakpoint`
//! lets that call's bytecode progress again, while every non-execution
//! command keeps working meanwhile.

use vstd::prelude::*;
use vstd::string::StringExecFns;
use crate::breakpoints::BreakpointSet;
use crate::cast::{cast_find, member_name, CastEntryV, CastMember, CastMemberRef};
use crate::datum::{Datum, DatumHeap, DatumRef};
use crate::instances::InstanceTable;
use crate::movie::{code_view, duplicate_code, instr_view, Instr, InstrV, Movie};
use crate::notify::{has_channel_note, lemma_notes_view_add, note_view, notes_view, NoteV, Notification};
use crate::score::{chan_find, Channel};

verus! {

/// A handler call parked at a breakpoint: enough saved progress to resume.
pub struct SuspendedCall {
    pub script_name: String,
    pub handler_name: String,
    pub code: Vec<Instr>,
    pub ip: usize,
}

/// The mathematical content of a parked call.
pub struct CallV {
    pub script: Seq<char>,
    pub handler: Seq<char>,
    pub code: Seq<InstrV>,
    pub ip: int,
}

/// View of the interpreter's parked call, if any.
pub open spec fn call_view(c: Option<SuspendedCall>) -> Option<CallV> {
    match c {
        Some(c) => Some(
            CallV {
                script: c.script_name@,
                handler: c.handler_name@,
                code: code_view(c.code@),
                ip: c.ip as int,
            },
        ),
        None => None,
    }
}

/// The state a handler's bytecode reads and writes: the score's channels and
/// the cast's entries.
pub struct MachineV {
    pub channels: Seq<Channel>,
    pub cast: Seq<CastEntryV>,
}

/// What one execution (or resumption) of a handler produces.
pub struct RunOut {
    pub m: MachineV,
    pub call: Option<CallV>,
    pub notes: Seq<NoteV>,
}

/// Whether a member reference is in the member-subscription set.
pub open spec fn subs_has(subs: Seq<CastMemberRef>, m: CastMemberRef) -> bool {
    exists|i: int| 0 <= i < subs.len() && subs[i] == m
}

/// The display name a channel contributes: its member's name, or empty while
/// no member (or an invalid one) is assigned.
pub open spec fn channel_display_name(ch: Channel, cast: Seq<CastEntryV>) -> Seq<char> {
    match ch.member {
        Some(m) => member_name(cast, m),
        None => Seq::empty(),
    }
}

/// One channel-name notification per channel, in channel order (which the
/// score keeps equal to channel-number order).
pub open spec fn channel_notes(channels: Seq<Channel>, cast: Seq<CastEntryV>) -> Seq<NoteV> {
    Seq::new(
        channels.len(),
        |i: int| NoteV::ChannelNameChanged(channels[i].number, channel_display_name(channels[i], cast)),
    )
}

/// The channel-name notifications a member rename emits: one per channel
/// showing that member, in channel order.
pub open spec fn rename_notes(channels: Seq<Channel>, m: CastMemberRef, name: Seq<char>) -> Seq<
    NoteV,
>
    decreases channels.len(),
{
    if channels.len() == 0 {
        Seq::empty()
    } else {
        rename_notes(channels.drop_last(), m, name) + (if channels.last().member == Some(m) {
            seq![NoteV::ChannelNameChanged(channels.last().number, name)]
        } else {
            Seq::<NoteV>::empty()
        })
    }
}

/// The interpreter's transition function: what running a handler's bytecode
/// from `ip` does to the machine, where it parks, and what it emits.
///
/// Reaching an index whose (script, handler, index) triple is an active
/// breakpoint parks the call there, before the instruction runs, and emits
/// the breakpoint-hit notification; `skip_bp` is how a resumed call steps
/// over the very breakpoint it parked at without clearing it. Running past
/// the last instruction or reaching `Ret` ends the call. A faulting
/// instruction (a target that does not exist) halts the call and emits one
/// interpreter-fault notification with its context; the machine is left as
/// it was before the faulting instruction.
pub open spec fn run_spec(
    bps: BreakpointSet,
    subs_names: bool,
    subs_members: Seq<CastMemberRef>,
    script: Seq<char>,
    handler: Seq<char>,
    code: Seq<InstrV>,
    ip: int,
    skip_bp: bool,
    m: MachineV,
) -> RunOut
    decreases code.len() - ip,
    when ip >= 0
{
    if ip >= code.len() {
        RunOut { m, call: None, notes: Seq::empty() }
    } else if !skip_bp && bps.has((script, handler, ip)) {
        RunOut {
            m,
            call: Some(CallV { script, handler, code, ip }),
            notes: seq![NoteV::BreakpointHit(script, handler, ip)],
        }
    } else {
        match code[ip] {
            InstrV::Nop => run_spec(
                bps,
                subs_names,
                subs_members,
                script,
                handler,
                code,
                ip + 1,
                false,
                m,
            ),
            InstrV::Ret => RunOut { m, call: None, notes: Seq::empty() },
            InstrV::SetChannelMember { channel, member } => {
                let ci = chan_find(m.channels, channel);
                if ci < 0 {
                    RunOut {
                        m,
                        call: None,
                        notes: seq![NoteV::InterpreterFault(script, handler, ip)],
                    }
                } else {
                    let m2 = MachineV {
                        channels: m.channels.update(
                            ci,
                            Channel { number: channel, member: Some(member) },
                        ),
                        cast: m.cast,
                    };
                    let here = if subs_names {
                        seq![NoteV::ChannelNameChanged(channel, member_name(m.cast, member))]
                    } else {
                        Seq::<NoteV>::empty()
                    };
                    let rest = run_spec(
                        bps,
                        subs_names,
                        subs_members,
                        script,
                        handler,
                        code,
                        ip + 1,
                        false,
                        m2,
                    );
                    RunOut { m: rest.m, call: rest.call, notes: here + rest.notes }
                }
            },
            InstrV::SetMemberName { member, name } => {
                let mi = cast_find(m.cast, member);
                if mi < 0 {
                    RunOut {
                        m,
                        call: None,
                        notes: seq![NoteV::InterpreterFault(script, handler, ip)],
                    }
                } else {
                    let m2 = MachineV {
                        channels: m.channels,
                        cast: m.cast.update(
                            mi,
                            CastEntryV {
                                member,
                                name,
                                kind: m.cast[mi].kind,
                                payload: m.cast[mi].payload,
                            },
                        ),
                    };
                    let here = (if subs_has(subs_members, member) {
                        seq![NoteV::MemberChanged(member, name)]
                    } else {
                        Seq::<NoteV>::empty()
                    }) + (if subs_names {
                        rename_notes(m.channels, member, name)
                    } else {
                        Seq::<NoteV>::empty()
                    });
                    let rest = run_spec(
                        bps,
                        subs_names,
                        subs_members,
                        script,
                        handler,
                        code,
                        ip + 1,
                        false,
                        m2,
                    );
                    RunOut { m: rest.m, call: rest.call, notes: here + rest.notes }
                }
            },
        }
    }
}

/// `(i, j)` names the handler an event dispatches to: the first handler with
/// that name, in the first script holding one.
pub open spec fn first_match(scripts: Seq<crate::movie::Script>, hname: Seq<char>, i: int, j: int) -> bool {
    &&& 0 <= i < scripts.len()
    &&& 0 <= j < scripts[i].handlers@.len()
    &&& scripts[i].handlers@[j].name@ == hname
    &&& forall|a: int, b: int|
        0 <= a < i && 0 <= b < scripts[a].handlers@.len() ==> scripts[a].handlers@[b].name@
            != hname
    &&& forall|b: int| 0 <= b < j ==> scripts[i].handlers@[b].name@ != hname
}

/// No script holds a handler with that name; the event is a silent no-op.
pub open spec fn no_match(scripts: Seq<crate::movie::Script>, hname: Seq<char>) -> bool {
    forall|a: int, b: int|
        0 <= a < scripts.len() && 0 <= b < scripts[a].handlers@.len()
            ==> scripts[a].handlers@[b].name@ != hname
}

/// The process-wide runtime instance: owns the movie, the interpreter's
/// parked call, the datum heap, the instance table, the breakpoint set and
/// the subscription state.
pub struct Player {
    pub base_path: String,
    pub stage_width: u32,
    pub stage_height: u32,
    pub playing: bool,
    pub mouse_x: i16,
    pub mouse_y: i16,
    pub movie: Movie,
    pub heap: DatumHeap,
    pub instances: InstanceTable,
    pub breakpoints: BreakpointSet,
    pub subscribed_channel_names: bool,
    pub member_subs: Vec<CastMemberRef>,
    pub current_call: Option<SuspendedCall>,
}

/// What the player's dispatch keeps true between any two commands.
pub open spec fn inv(p: Player) -> bool {
    &&& p.breakpoints.inv()
    &&& p.movie.wf()
    &&& forall|i: int, j: int|
        0 <= i < j < p.member_subs@.len() ==> p.member_subs@[i] != p.member_subs@[j]
    &&& match p.current_call {
        Some(c) => c.ip <= c.code@.len(),
        None => true,
    }
}

/// Everything `reset` promises: the interpreter, score, cast library, datum
/// heap and instance table are torn down to an empty movie, while the
/// breakpoint set, the subscription state, the base path and the stage
/// geometry persist. Breakpoints survive because they identify scripts by
/// name, not by runtime handle; the subscriptions are host-side
/// registrations of the same kind, naming channels and member numbers, so
/// they too are cleared only by an explicit unsubscribe, never as a side
/// effect of tearing the movie down.
pub open spec fn reset_rel(pre: Player, post: Player) -> bool {
    &&& post.breakpoints == pre.breakpoints
    &&& post.subscribed_channel_names == pre.subscribed_channel_names
    &&& post.member_subs == pre.member_subs
    &&& post.base_path == pre.base_path
    &&& post.stage_width == pre.stage_width
    &&& post.stage_height == pre.stage_height
    &&& post.movie.score.channels@.len() == 0
    &&& post.movie.cast@.len() == 0
    &&& post.movie.scripts@.len() == 0
    &&& forall|d: DatumRef| !post.heap.live(d)
    &&& forall|id: u32| !post.instances.live(id)
    &&& post.current_call is None
    &&& !post.playing
}

/// Everything `load_movie` promises: a well-formed movie replaces the
/// current one wholesale and, when channel names are subscribed, its
/// channels are replayed; a malformed one changes nothing and is reported.
/// Breakpoints, the heap, the instance table and the subscriptions are
/// untouched either way.
pub open spec fn load_rel(pre: Player, post: Player, m: Movie, notes: Seq<NoteV>) -> bool {
    &&& post.breakpoints == pre.breakpoints
    &&& post.heap == pre.heap
    &&& post.instances == pre.instances
    &&& post.subscribed_channel_names == pre.subscribed_channel_names
    &&& post.member_subs == pre.member_subs
    &&& post.base_path == pre.base_path
    &&& post.current_call == pre.current_call
    &&& if m.wf() {
        &&& post.movie == m
        &&& notes == if pre.subscribed_channel_names {
            channel_notes(m.score.channels@, m.cast@)
        } else {
            Seq::<NoteV>::empty()
        }
    } else {
        &&& post.movie == pre.movie
        &&& notes == seq![NoteV::LoadFailed]
    }
}

impl Player {
    /// A fresh player: empty movie, empty heap, no breakpoints, nothing
    /// subscribed, nothing suspended.
    pub fn new() -> (r: Player)
        ensures
            inv(r),
            r.movie.score.channels@.len() == 0,
            r.movie.cast@.len() == 0,
            r.movie.scripts@.len() == 0,
            forall|d: DatumRef| !r.heap.live(d),
            forall|id: u32| !r.instances.live(id),
            forall|k: (Seq<char>, Seq<char>, int)| !r.breakpoints.has(k),
            !r.subscribed_channel_names,
            r.member_subs@.len() == 0,
            r.current_call is None,
            !r.playing,
    {
        Player {
            base_path: String::new(),
            stage_width: 0,
            stage_height: 0,
            playing: false,
            mouse_x: 0,
            mouse_y: 0,
            movie: Movie::empty(),
            heap: DatumHeap::new(),
            instances: InstanceTable::new(),
            breakpoints: BreakpointSet::new(),
            subscribed_channel_names: false,
            member_subs: Vec::new(),
            current_call: None,
        }
    }

    /// The member-subscription test, shared by execution and the host.
    fn subs_contains(&self, m: CastMemberRef) -> (r: bool)
        ensures
            r == subs_has(self.member_subs@, m),
    {
        let mut i: usize = 0;
        while i < self.member_subs.len()
            invariant
                i <= self.member_subs@.len(),
                forall|j: int| 0 <= j < i ==> self.member_subs@[j] != m,
            decreases self.member_subs@.len() - i,
        {
            if self.member_subs[i].cast_lib == m.cast_lib && self.member_subs[i].cast_member
                == m.cast_member {
                return true;
            }
            i = i + 1;
        }
        false
    }

    /// The name a member reference resolves to, empty for an invalid one.
    fn member_name_exec(&self, m: CastMemberRef) -> (r: String)
        ensures
            r@ == member_name(self.movie.cast@, m),
    {
        match self.movie.cast.find(m) {
            Some(i) => self.movie.cast.entries[i].1.name.clone(),
            None => String::new(),
        }
    }

    /// One channel-name notification per existing channel, in channel order.
    fn channel_notes_exec(&self) -> (r: Vec<Notification>)
        ensures
            notes_view(r@) == channel_notes(self.movie.score.channels@, self.movie.cast@),
    {
        let mut out: Vec<Notification> = Vec::new();
        let mut i: usize = 0;
        while i < self.movie.score.channels.len()
            invariant
                i <= self.movie.score.channels@.len(),
                out@.len() == i,
                forall|j: int|
                    0 <= j < i ==> note_view(out@[j]) == NoteV::ChannelNameChanged(
                        self.movie.score.channels@[j].number,
                        channel_display_name(self.movie.score.channels@[j], self.movie.cast@),
                    ),
            decreases self.movie.score.channels@.len() - i,
        {
            let ch = &self.movie.score.channels[i];
            let name = match ch.member {
                Some(m) => self.member_name_exec(m),
                None => String::new(),
            };
            out.push(Notification::ChannelNameChanged(ch.number, name));
            i = i + 1;
        }
        proof {
            assert(notes_view(out@) =~= channel_notes(
                self.movie.score.channels@,
                self.movie.cast@,
            ));
        }
        out
    }
}

impl Player {
    /// Runs (or, with `skip_bp`, resumes) a handler's bytecode from `ip`,
    /// exactly as `run_spec` describes: the machine ends as `run_spec` says,
    /// the call parks where it says, the returned notifications are what it
    /// says are emitted, and nothing else of the player changes.
    #[verifier::rlimit(100)]
    fn run_from(
        &mut self,
        script: &String,
        handler: &String,
        code: &Vec<Instr>,
        ip: usize,
        skip_bp: bool,
    ) -> (notes: Vec<Notification>)
        requires
            inv(*old(self)),
            ip <= code@.len(),
            old(self).current_call is None,
        ensures
            inv(*final(self)),
            ({
                let out = run_spec(
                    old(self).breakpoints,
                    old(self).subscribed_channel_names,
                    old(self).member_subs@,
                    script@,
                    handler@,
                    code_view(code@),
                    ip as int,
                    skip_bp,
                    MachineV {
                        channels: old(self).movie.score.channels@,
                        cast: old(self).movie.cast@,
                    },
                );
                &&& final(self).movie.score.channels@ == out.m.channels
                &&& final(self).movie.cast@ == out.m.cast
                &&& call_view(final(self).current_call) == out.call
                &&& notes_view(notes@) == out.notes
            }),
            final(self).breakpoints == old(self).breakpoints,
            final(self).heap == old(self).heap,
            final(self).instances == old(self).instances,
            final(self).subscribed_channel_names == old(self).subscribed_channel_names,
            final(self).member_subs == old(self).member_subs,
            final(self).base_path == old(self).base_path,
            final(self).stage_width == old(self).stage_width,
            final(self).stage_height == old(self).stage_height,
            final(self).playing == old(self).playing,
            final(self).mouse_x == old(self).mouse_x,
            final(self).mouse_y == old(self).mouse_y,
            final(self).movie.scripts == old(self).movie.scripts,
        decreases code@.len() - ip,
    {
        if ip >= code.len() {
            return Vec::new();
        }
        if !skip_bp && self.breakpoints.contains(script, handler, ip) {
            let mut notes: Vec<Notification> = Vec::new();
            notes.push(Notification::BreakpointHit(script.clone(), handler.clone(), ip));
            self.current_call = Some(
                SuspendedCall {
                    script_name: script.clone(),
                    handler_name: handler.clone(),
                    code: duplicate_code(code),
                    ip,
                },
            );
            proof {
                assert(notes_view(notes@) =~= seq![
                    NoteV::BreakpointHit(script@, handler@, ip as int)
                ]);
            }
            return notes;
        }
        let instr = code[ip].duplicate();
        proof {
            assert(code_view(code@)[ip as int] == instr_view(code@[ip as int]));
        }
        match instr {
            Instr::Nop => {
                let notes = self.run_from(script, handler, code, ip + 1, false);
                notes
            },
            Instr::Ret => Vec::new(),
            Instr::SetChannelMember { channel, member } => {
                match self.movie.score.find(channel) {
                    None => {
                        let mut notes: Vec<Notification> = Vec::new();
                        notes.push(
                            Notification::InterpreterFault(script.clone(), handler.clone(), ip),
                        );
                        proof {
                            assert(notes_view(notes@) =~= seq![
                                NoteV::InterpreterFault(script@, handler@, ip as int)
                            ]);
                        }
                        notes
                    },
                    Some(ci) => {
                        let ghost pre_channels = self.movie.score.channels@;
                        let mut notes: Vec<Notification> = Vec::new();
                        if self.subscribed_channel_names {
                            let name = self.member_name_exec(member);
                            notes.push(Notification::ChannelNameChanged(channel, name));
                        }
                        self.movie.score.channels.set(
                            ci,
                            Channel { number: channel, member: Some(member) },
                        );
                        proof {
                            assert(self.movie.score.channels@ =~= pre_channels.update(
                                ci as int,
                                Channel { number: channel, member: Some(member) },
                            ));
                            assert forall|a: int, b: int|
                                0 <= a < b < self.movie.score.channels@.len() implies self.movie.score.channels@[a].number
                                < self.movie.score.channels@[b].number by {
                                assert(self.movie.score.channels@[a].number
                                    == pre_channels[a].number);
                                assert(self.movie.score.channels@[b].number
                                    == pre_channels[b].number);
                            }
                        }
                        let mut rest = self.run_from(script, handler, code, ip + 1, false);
                        let ghost n1 = notes@;
                        let ghost restv = rest@;
                        notes.append(&mut rest);
                        proof {
                            lemma_notes_view_add(n1, restv);
                            let out = run_spec(
                                old(self).breakpoints,
                                old(self).subscribed_channel_names,
                                old(self).member_subs@,
                                script@,
                                handler@,
                                code_view(code@),
                                ip as int,
                                skip_bp,
                                MachineV { channels: pre_channels, cast: old(self).movie.cast@ },
                            );
                            assert(notes_view(notes@) =~= out.notes);
                        }
                        notes
                    },
                }
            },
            Instr::SetMemberName { member, name } => {
                match self.movie.cast.find(member) {
                    None => {
                        let mut notes: Vec<Notification> = Vec::new();
                        notes.push(
                            Notification::InterpreterFault(script.clone(), handler.clone(), ip),
                        );
                        proof {
                            assert(notes_view(notes@) =~= seq![
                                NoteV::InterpreterFault(script@, handler@, ip as int)
                            ]);
                        }
                        notes
                    },
                    Some(mi) => {
                        let ghost pre_cast = self.movie.cast@;
                        let ghost pre_channels = self.movie.score.channels@;
                        let e = self.movie.cast.entries.remove(mi);
                        let e2 = (
                            e.0,
                            CastMember { name: name.clone(), kind: e.1.kind, payload: e.1.payload },
                        );
                        self.movie.cast.entries.insert(mi, e2);
                        proof {
                            assert(self.movie.cast@ =~= pre_cast.update(
                                mi as int,
                                CastEntryV {
                                    member,
                                    name: name@,
                                    kind: pre_cast[mi as int].kind,
                                    payload: pre_cast[mi as int].payload,
                                },
                            ));
                            assert forall|a: int, b: int|
                                0 <= a < b < self.movie.cast@.len() implies self.movie.cast@[a].member
                                != self.movie.cast@[b].member by {
                                assert(self.movie.cast@[a].member == pre_cast[a].member);
                                assert(self.movie.cast@[b].member == pre_cast[b].member);
                            }
                        }
                        let mut notes: Vec<Notification> = Vec::new();
                        if self.subs_contains(member) {
                            notes.push(Notification::MemberChanged(member, name.clone()));
                        }
                        proof {
                            assert(notes_view(notes@) =~= (if subs_has(
                                old(self).member_subs@,
                                member,
                            ) {
                                seq![NoteV::MemberChanged(member, name@)]
                            } else {
                                Seq::<NoteV>::empty()
                            }));
                        }
                        if self.subscribed_channel_names {
                            let mut rn: Vec<Notification> = Vec::new();
                            let mut i: usize = 0;
                            while i < self.movie.score.channels.len()
                                invariant
                                    i <= self.movie.score.channels@.len(),
                                    self.movie.score.channels@ == pre_channels,
                                    notes_view(rn@) == rename_notes(
                                        pre_channels.take(i as int),
                                        member,
                                        name@,
                                    ),
                                decreases self.movie.score.channels@.len() - i,
                            {
                                let ch = &self.movie.score.channels[i];
                                let hit = match ch.member {
                                    Some(mm) => mm.cast_lib == member.cast_lib && mm.cast_member
                                        == member.cast_member,
                                    None => false,
                                };
                                if hit {
                                    rn.push(
                                        Notification::ChannelNameChanged(ch.number, name.clone()),
                                    );
                                }
                                proof {
                                    assert(pre_channels.take(i + 1).drop_last() =~= pre_channels.take(
                                        i as int,
                                    ));
                                    assert(pre_channels.take(i + 1).last() == pre_channels[i as int]);
                                    assert(notes_view(rn@) =~= rename_notes(
                                        pre_channels.take(i + 1),
                                        member,
                                        name@,
                                    ));
                                }
                                i = i + 1;
                            }
                            proof {
                                assert(pre_channels.take(pre_channels.len() as int)
                                    =~= pre_channels);
                            }
                            let ghost n0 = notes@;
                            let ghost rnv = rn@;
                            notes.append(&mut rn);
                            proof {
                                lemma_notes_view_add(n0, rnv);
                                assert(notes_view(notes@) =~= notes_view(n0) + rename_notes(
                                    pre_channels,
                                    member,
                                    name@,
                                ));
                            }
                        }
                        let mut rest = self.run_from(script, handler, code, ip + 1, false);
                        let ghost n1 = notes@;
                        let ghost restv = rest@;
                        notes.append(&mut rest);
                        proof {
                            lemma_notes_view_add(n1, restv);
                            let out = run_spec(
                                old(self).breakpoints,
                                old(self).subscribed_channel_names,
                                old(self).member_subs@,
                                script@,
                                handler@,
                                code_view(code@),
                                ip as int,
                                skip_bp,
                                MachineV { channels: pre_channels, cast: pre_cast },
                            );
                            assert(notes_view(notes@) =~= out.notes);
                        }
                        notes
                    },
                }
            },
        }
    }

    /// Dispatches an event to the first handler with this name, in the first
    /// script holding one, exactly as `invoke_rel` describes: nothing runs
    /// while a call is parked at a breakpoint, a missing handler is a silent
    /// no-op, and otherwise the handler executes as `run_spec` says.
    pub fn invoke_handler(&mut self, handler_name: &String) -> (notes: Vec<Notification>)
        requires
            inv(*old(self)),
        ensures
            inv(*final(self)),
            invoke_rel(*old(self), *final(self), handler_name@, notes_view(notes@)),
            final(self).mouse_x == old(self).mouse_x,
            final(self).mouse_y == old(self).mouse_y,
    {
        if self.current_call.is_some() {
            return Vec::new();
        }
        let ns = self.movie.scripts.len();
        let mut i: usize = 0;
        while i < ns
            invariant
                inv(*self),
                *self == *old(self),
                self.current_call is None,
                ns == self.movie.scripts@.len(),
                i <= ns,
                forall|a: int, b: int|
                    0 <= a < i && 0 <= b < self.movie.scripts@[a].handlers@.len()
                        ==> self.movie.scripts@[a].handlers@[b].name@ != handler_name@,
            decreases ns - i,
        {
            let nh = self.movie.scripts[i].handlers.len();
            let mut j: usize = 0;
            while j < nh
                invariant
                    inv(*self),
                    *self == *old(self),
                    self.current_call is None,
                    i < self.movie.scripts@.len(),
                    nh == self.movie.scripts@[i as int].handlers@.len(),
                    j <= nh,
                    forall|a: int, b: int|
                        0 <= a < i && 0 <= b < self.movie.scripts@[a].handlers@.len()
                            ==> self.movie.scripts@[a].handlers@[b].name@ != handler_name@,
                    forall|b: int|
                        0 <= b < j ==> self.movie.scripts@[i as int].handlers@[b].name@
                            != handler_name@,
                decreases nh - j,
            {
                if self.movie.scripts[i].handlers[j].name == *handler_name {
                    proof {
                        assert(first_match(
                            self.movie.scripts@,
                            handler_name@,
                            i as int,
                            j as int,
                        ));
                    }
                    let sname = self.movie.scripts[i].name.clone();
                    let code = duplicate_code(&self.movie.scripts[i].handlers[j].code);
                    let notes = self.run_from(&sname, handler_name, &code, 0, false);
                    return notes;
                }
                j = j + 1;
            }
            i = i + 1;
        }
        Vec::new()
    }

    /// Resumes the call parked at a breakpoint, stepping over that very
    /// breakpoint and continuing exactly as `run_spec` says; a no-op while
    /// nothing is parked.
    pub fn resume_breakpoint(&mut self) -> (notes: Vec<Notification>)
        requires
            inv(*old(self)),
        ensures
            inv(*final(self)),
            resume_rel(*old(self), *final(self), notes_view(notes@)),
    {
        let c = self.current_call.take();
        match c {
            Some(c) => {
                let notes = self.run_from(&c.script_name, &c.handler_name, &c.code, c.ip, true);
                notes
            },
            None => Vec::new(),
        }
    }

    /// Tears down the interpreter, score, cast library, datum heap and
    /// instance table to an empty movie. Breakpoints identify scripts by
    /// name, not by runtime handle, so they persist, as do the subscriptions,
    /// the base path and the stage geometry.
    pub fn reset(&mut self)
        requires
            inv(*old(self)),
        ensures
            inv(*final(self)),
            reset_rel(*old(self), *final(self)),
    {
        self.movie = Movie::empty();
        self.heap = DatumHeap::new();
        self.instances = InstanceTable::new();
        self.current_call = None;
        self.playing = false;
    }

    /// Installs a well-formed movie wholesale, replaying its channel names
    /// to a subscribed listener; rejects a malformed one, leaving the
    /// previous movie (and everything else) intact.
    pub fn load_movie(&mut self, m: Movie) -> (notes: Vec<Notification>)
        requires
            inv(*old(self)),
        ensures
            inv(*final(self)),
            load_rel(*old(self), *final(self), m, notes_view(notes@)),
    {
        if m.check_wf() {
            self.movie = m;
            if self.subscribed_channel_names {
                self.channel_notes_exec()
            } else {
                let notes: Vec<Notification> = Vec::new();
                proof {
                    assert(notes_view(notes@) =~= Seq::<NoteV>::empty());
                }
                notes
            }
        } else {
            let mut notes: Vec<Notification> = Vec::new();
            notes.push(Notification::LoadFailed);
            proof {
                assert(notes_view(notes@) =~= seq![NoteV::LoadFailed]);
            }
            notes
        }
    }
}

/// Everything `resume_breakpoint` promises: a no-op while nothing is
/// parked; otherwise the parked call continues, stepping over the very
/// breakpoint it parked at, exactly as `run_spec` says. Nothing else of the
/// player changes.
pub open spec fn resume_rel(pre: Player, post: Player, notes: Seq<NoteV>) -> bool {
    &&& post.breakpoints == pre.breakpoints
    &&& post.heap == pre.heap
    &&& post.instances == pre.instances
    &&& post.subscribed_channel_names == pre.subscribed_channel_names
    &&& post.member_subs == pre.member_subs
    &&& post.base_path == pre.base_path
    &&& post.stage_width == pre.stage_width
    &&& post.stage_height == pre.stage_height
    &&& post.playing == pre.playing
    &&& post.movie.scripts == pre.movie.scripts
    &&& match pre.current_call {
        Some(c) => {
            let out = run_spec(
                pre.breakpoints,
                pre.subscribed_channel_names,
                pre.member_subs@,
                c.script_name@,
                c.handler_name@,
                code_view(c.code@),
                c.ip as int,
                true,
                MachineV { channels: pre.movie.score.channels@, cast: pre.movie.cast@ },
            );
            &&& post.movie.score.channels@ == out.m.channels
            &&& post.movie.cast@ == out.m.cast
            &&& call_view(post.current_call) == out.call
            &&& notes == out.notes
        },
        None => post == pre && notes.len() == 0,
    }
}

impl Player {
    /// Stores the base path later loads resolve against.
    pub fn set_base_path(&mut self, path: String)
        ensures
            *final(self) == (Player { base_path: path, ..*old(self) }),
    {
        self.base_path = path;
    }

    /// Starts playback.
    pub fn play(&mut self)
        ensures
            *final(self) == (Player { playing: true, ..*old(self) }),
    {
        self.playing = true;
    }

    /// Stops playback.
    pub fn stop(&mut self)
        ensures
            *final(self) == (Player { playing: false, ..*old(self) }),
    {
        self.playing = false;
    }

    /// Stores the stage geometry. This is a non-execution command: it
    /// succeeds unchanged while a call is parked at a breakpoint.
    pub fn set_stage_size(&mut self, width: u32, height: u32)
        ensures
            *final(self) == (Player { stage_width: width, stage_height: height, ..*old(self) }),
    {
        self.stage_width = width;
        self.stage_height = height;
    }

    /// Adds a breakpoint triple; a no-op if it is already set. The target
    /// need not exist yet: scripts may load later.
    pub fn add_breakpoint(&mut self, script_name: String, handler_name: String, bytecode_index: usize)
        requires
            inv(*old(self)),
        ensures
            inv(*final(self)),
            *final(self) == (Player { breakpoints: final(self).breakpoints, ..*old(self) }),
            final(self).breakpoints.has((script_name@, handler_name@, bytecode_index as int)),
            forall|k: (Seq<char>, Seq<char>, int)|
                k != (script_name@, handler_name@, bytecode_index as int) ==> final(self).breakpoints.has(k) == old(self).breakpoints.has(k),
    {
        self.breakpoints.add(script_name, handler_name, bytecode_index);
    }

    /// Removes a breakpoint triple; a no-op if it is not set.
    pub fn remove_breakpoint(
        &mut self,
        script_name: String,
        handler_name: String,
        bytecode_index: usize,
    )
        requires
            inv(*old(self)),
        ensures
            inv(*final(self)),
            *final(self) == (Player { breakpoints: final(self).breakpoints, ..*old(self) }),
            !final(self).breakpoints.has((script_name@, handler_name@, bytecode_index as int)),
            forall|k: (Seq<char>, Seq<char>, int)|
                k != (script_name@, handler_name@, bytecode_index as int) ==> final(self).breakpoints.has(k) == old(self).breakpoints.has(k),
    {
        self.breakpoints.remove(&script_name, &handler_name, bytecode_index);
    }

    /// Flips a breakpoint triple's membership. Toggling the breakpoint a
    /// call is parked at does not un-park it; only resume does.
    pub fn toggle_breakpoint(
        &mut self,
        script_name: String,
        handler_name: String,
        bytecode_index: usize,
    )
        requires
            inv(*old(self)),
        ensures
            inv(*final(self)),
            *final(self) == (Player { breakpoints: final(self).breakpoints, ..*old(self) }),
            final(self).breakpoints.has((script_name@, handler_name@, bytecode_index as int))
                == !old(self).breakpoints.has((script_name@, handler_name@, bytecode_index as int)),
            forall|k: (Seq<char>, Seq<char>, int)|
                k != (script_name@, handler_name@, bytecode_index as int) ==> final(self).breakpoints.has(k) == old(self).breakpoints.has(k),
    {
        self.breakpoints.toggle(script_name, handler_name, bytecode_index);
    }

    /// A named timer fired: dispatches the handler with the timeout's name.
    pub fn trigger_timeout(&mut self, name: &String) -> (notes: Vec<Notification>)
        requires
            inv(*old(self)),
        ensures
            inv(*final(self)),
            invoke_rel(*old(self), *final(self), name@, notes_view(notes@)),
    {
        self.invoke_handler(name)
    }

    /// Pointer pressed: records the position and dispatches the mouse-down
    /// handler by name convention.
    pub fn mouse_down(&mut self, x: i16, y: i16) -> (notes: Vec<Notification>)
        requires
            inv(*old(self)),
        ensures
            inv(*final(self)),
            final(self).mouse_x == x,
            final(self).mouse_y == y,
            invoke_rel(*old(self), *final(self), "mouseDown"@, notes_view(notes@)),
    {
        self.mouse_x = x;
        self.mouse_y = y;
        let hn: String = "mouseDown".to_owned();
        self.invoke_handler(&hn)
    }

    /// Pointer released: records the position and dispatches the mouse-up
    /// handler by name convention.
    pub fn mouse_up(&mut self, x: i16, y: i16) -> (notes: Vec<Notification>)
        requires
            inv(*old(self)),
        ensures
            inv(*final(self)),
            final(self).mouse_x == x,
            final(self).mouse_y == y,
            invoke_rel(*old(self), *final(self), "mouseUp"@, notes_view(notes@)),
    {
        self.mouse_x = x;
        self.mouse_y = y;
        let hn: String = "mouseUp".to_owned();
        self.invoke_handler(&hn)
    }

    /// Pointer moved: records the position and dispatches the mouse-move
    /// handler by name convention.
    pub fn mouse_move(&mut self, x: i16, y: i16) -> (notes: Vec<Notification>)
        requires
            inv(*old(self)),
        ensures
            inv(*final(self)),
            final(self).mouse_x == x,
            final(self).mouse_y == y,
            invoke_rel(*old(self), *final(self), "mouseMove"@, notes_view(notes@)),
    {
        self.mouse_x = x;
        self.mouse_y = y;
        let hn: String = "mouseMove".to_owned();
        self.invoke_handler(&hn)
    }

    /// Key pressed: dispatches the key-down handler by name convention.
    /// The key label and code are host detail the dispatch itself ignores.
    pub fn key_down(&mut self, _key: String, _code: u16) -> (notes: Vec<Notification>)
        requires
            inv(*old(self)),
        ensures
            inv(*final(self)),
            invoke_rel(*old(self), *final(self), "keyDown"@, notes_view(notes@)),
    {
        let hn: String = "keyDown".to_owned();
        self.invoke_handler(&hn)
    }

    /// Key released: dispatches the key-up handler by name convention.
    pub fn key_up(&mut self, _key: String, _code: u16) -> (notes: Vec<Notification>)
        requires
            inv(*old(self)),
        ensures
            inv(*final(self)),
            invoke_rel(*old(self), *final(self), "keyUp"@, notes_view(notes@)),
    {
        let hn: String = "keyUp".to_owned();
        self.invoke_handler(&hn)
    }

    /// An asynchronous read of a datum: resolves the handle and reports its
    /// value, or absence, without mutating any reference count.
    pub fn request_datum(&self, r: DatumRef) -> (notes: Vec<Notification>)
        ensures
            notes_view(notes@) == seq![
                NoteV::DatumResolved(
                    r,
                    if self.heap.live(r) {
                        Some(self.heap.value_of(r))
                    } else {
                        None::<Datum>
                    },
                )
            ],
    {
        let v = self.heap.resolve(r);
        let mut notes: Vec<Notification> = Vec::new();
        notes.push(Notification::DatumResolved(r, v));
        proof {
            assert(notes_view(notes@) =~= seq![
                NoteV::DatumResolved(
                    r,
                    if self.heap.live(r) {
                        Some(self.heap.value_of(r))
                    } else {
                        None::<Datum>
                    },
                )
            ]);
        }
        notes
    }

    /// Reports a live script instance's state, or absence for a dead
    /// identifier: an invalid reference is an absent answer, never an error.
    pub fn request_script_instance_snapshot(&self, id: u32) -> (notes: Vec<Notification>)
        ensures
            notes_view(notes@) == seq![
                NoteV::ScriptInstanceSnapshot(
                    id,
                    if self.instances.live(id) {
                        Some(self.instances.name_of(id))
                    } else {
                        None::<Seq<char>>
                    },
                )
            ],
    {
        let s = self.instances.snapshot(id);
        let mut notes: Vec<Notification> = Vec::new();
        notes.push(Notification::ScriptInstanceSnapshot(id, s));
        proof {
            assert(notes_view(notes@) =~= seq![
                NoteV::ScriptInstanceSnapshot(
                    id,
                    if self.instances.live(id) {
                        Some(self.instances.name_of(id))
                    } else {
                        None::<Seq<char>>
                    },
                )
            ]);
        }
        notes
    }

    /// The diagnostic dump of a member's bitmap payload: two hexadecimal
    /// digits per byte for a bitmap member, an absent answer for an unknown
    /// reference or a member of another kind.
    pub fn player_print_member_bitmap_hex(&self, cast_lib: i32, cast_member: i32) -> (notes: Vec<
        Notification,
    >)
        ensures
            ({
                let m = CastMemberRef { cast_lib, cast_member };
                let c = self.movie.cast@;
                let i = cast_find(c, m);
                notes_view(notes@) == seq![
                    NoteV::MemberBitmapHex(
                        m,
                        if i >= 0 && c[i].kind is Bitmap {
                            Some(crate::cast::hex_of(c[i].payload))
                        } else {
                            None::<Seq<char>>
                        },
                    )
                ]
            }),
    {
        let m = CastMemberRef { cast_lib, cast_member };
        let r = self.movie.cast.member_bitmap_hex(m);
        let mut notes: Vec<Notification> = Vec::new();
        notes.push(Notification::MemberBitmapHex(m, r));
        proof {
            let c = self.movie.cast@;
            let i = cast_find(c, m);
            assert(notes_view(notes@) =~= seq![
                NoteV::MemberBitmapHex(
                    m,
                    if i >= 0 && c[i].kind is Bitmap {
                        Some(crate::cast::hex_of(c[i].payload))
                    } else {
                        None::<Seq<char>>
                    },
                )
            ]);
        }
        notes
    }

    /// Triggers the host-provided alert surface.
    pub fn trigger_alert_hook(&self) -> (notes: Vec<Notification>)
        ensures
            notes_view(notes@) == seq![NoteV::AlertHook],
    {
        let mut notes: Vec<Notification> = Vec::new();
        notes.push(Notification::AlertHook);
        proof {
            assert(notes_view(notes@) =~= seq![NoteV::AlertHook]);
        }
        notes
    }

    /// Subscribes to change notifications for one member; a no-op if it is
    /// already subscribed.
    pub fn subscribe_to_member(&mut self, m: CastMemberRef)
        requires
            inv(*old(self)),
        ensures
            inv(*final(self)),
            *final(self) == (Player { member_subs: final(self).member_subs, ..*old(self) }),
            subs_has(final(self).member_subs@, m),
            forall|x: CastMemberRef|
                x != m ==> subs_has(final(self).member_subs@, x) == subs_has(
                    old(self).member_subs@,
                    x,
                ),
    {
        if !self.subs_contains(m) {
            let ghost pre = self.member_subs@;
            self.member_subs.push(m);
            proof {
                assert(self.member_subs@[pre.len() as int] == m);
                assert(subs_has(self.member_subs@, m));
                assert forall|x: CastMemberRef| x != m implies subs_has(self.member_subs@, x)
                    == subs_has(pre, x) by {
                    if subs_has(pre, x) {
                        let i = choose|i: int| 0 <= i < pre.len() && pre[i] == x;
                        assert(self.member_subs@[i] == x);
                    }
                    if subs_has(self.member_subs@, x) {
                        let i = choose|i: int|
                            0 <= i < self.member_subs@.len() && self.member_subs@[i] == x;
                        assert(i < pre.len());
                        assert(pre[i] == x);
                    }
                }
            }
        }
    }

    /// Unsubscribes from change notifications for one member; a no-op if it
    /// is not subscribed.
    pub fn unsubscribe_from_member(&mut self, m: CastMemberRef)
        requires
            inv(*old(self)),
        ensures
            inv(*final(self)),
            *final(self) == (Player { member_subs: final(self).member_subs, ..*old(self) }),
            !subs_has(final(self).member_subs@, m),
            forall|x: CastMemberRef|
                x != m ==> subs_has(final(self).member_subs@, x) == subs_has(
                    old(self).member_subs@,
                    x,
                ),
    {
        let mut i: usize = 0;
        while i < self.member_subs.len()
            invariant
                inv(*self),
                *self == *old(self),
                i <= self.member_subs@.len(),
                forall|j: int| 0 <= j < i ==> self.member_subs@[j] != m,
            decreases self.member_subs@.len() - i,
        {
            if self.member_subs[i].cast_lib == m.cast_lib && self.member_subs[i].cast_member
                == m.cast_member {
                let ghost pre = self.member_subs@;
                self.member_subs.remove(i);
                proof {
                    assert(!subs_has(self.member_subs@, m)) by {
                        if subs_has(self.member_subs@, m) {
                            let a = choose|a: int|
                                0 <= a < self.member_subs@.len() && self.member_subs@[a] == m;
                            if a < i {
                                assert(pre[a] == m);
                            } else {
                                assert(pre[a + 1] == m);
                                assert(pre[i as int] == m);
                            }
                        }
                    }
                    assert forall|x: CastMemberRef| x != m implies subs_has(self.member_subs@, x)
                        == subs_has(pre, x) by {
                        if subs_has(pre, x) {
                            let a = choose|a: int| 0 <= a < pre.len() && pre[a] == x;
                            if a < i {
                                assert(self.member_subs@[a] == x);
                            } else {
                                assert(a != i);
                                assert(self.member_subs@[a - 1] == x);
                            }
                        }
                        if subs_has(self.member_subs@, x) {
                            let a = choose|a: int|
                                0 <= a < self.member_subs@.len() && self.member_subs@[a] == x;
                            if a < i {
                                assert(pre[a] == x);
                            } else {
                                assert(pre[a + 1] == x);
                            }
                        }
                    }
                }
                return ;
            }
            i = i + 1;
        }
    }

    /// Subscribes to channel-name notifications and immediately replays one
    /// notification per existing channel with its current name, in channel
    /// order — which the score keeps equal to channel-number order — so a
    /// newly attached listener misses no prior state.
    pub fn subscribe_to_channel_names(&mut self) -> (notes: Vec<Notification>)
        ensures
            *final(self) == (Player { subscribed_channel_names: true, ..*old(self) }),
            notes_view(notes@) == channel_notes(
                old(self).movie.score.channels@,
                old(self).movie.cast@,
            ),
    {
        self.subscribed_channel_names = true;
        self.channel_notes_exec()
    }

    /// Clears the channel-name subscription; no further channel-name
    /// notifications are emitted until a new subscription.
    pub fn unsubscribe_from_channel_names(&mut self)
        ensures
            *final(self) == (Player { subscribed_channel_names: false, ..*old(self) }),
    {
        self.subscribed_channel_names = false;
    }
}

/// Everything an event dispatch promises. While a call is parked at a
/// breakpoint no bytecode runs for it; an event with no matching handler is
/// a silent no-op; otherwise the first matching handler runs from its start,
/// exactly as `run_spec` describes. Nothing else of the player changes.
pub open spec fn invoke_rel(pre: Player, post: Player, hname: Seq<char>, notes: Seq<NoteV>) -> bool {
    &&& post.movie.scripts == pre.movie.scripts
    &&& post.heap == pre.heap
    &&& post.instances == pre.instances
    &&& post.breakpoints == pre.breakpoints
    &&& post.subscribed_channel_names == pre.subscribed_channel_names
    &&& post.member_subs == pre.member_subs
    &&& post.base_path == pre.base_path
    &&& post.stage_width == pre.stage_width
    &&& post.stage_height == pre.stage_height
    &&& post.playing == pre.playing
    &&& if pre.current_call is Some {
        &&& post.movie.score.channels@ == pre.movie.score.channels@
        &&& post.movie.cast@ == pre.movie.cast@
        &&& post.current_call == pre.current_call
        &&& notes.len() == 0
    } else if no_match(pre.movie.scripts@, hname) {
        &&& post.movie.score.channels@ == pre.movie.score.channels@
        &&& post.movie.cast@ == pre.movie.cast@
        &&& post.current_call is None
        &&& notes.len() == 0
    } else {
        exists|i: int, j: int|
            {
                &&& #[trigger] first_match(pre.movie.scripts@, hname, i, j)
                &&& {
                    let out = run_spec(
                        pre.breakpoints,
                        pre.subscribed_channel_names,
                        pre.member_subs@,
                        pre.movie.scripts@[i].name@,
                        hname,
                        code_view(pre.movie.scripts@[i].handlers@[j].code@),
                        0,
                        false,
                        MachineV {
                            channels: pre.movie.score.channels@,
                            cast: pre.movie.cast@,
                        },
                    );
                    &&& post.movie.score.channels@ == out.m.channels
                    &&& post.movie.cast@ == out.m.cast
                    &&& call_view(post.current_call) == out.call
                    &&& notes == out.notes
                }
            }
    }
}

/// Law: `reset` followed by `load_movie` of a well-formed movie leaves every
/// breakpoint set before the reset intact, while all score, cast-library and
/// datum-heap content of the prior movie is gone: the state between the two
/// commands is empty of it, and the state after holds exactly the new movie.
pub proof fn lemma_reset_then_load(p0: Player, p1: Player, p2: Player, m: Movie, notes: Seq<NoteV>)
    requires
        reset_rel(p0, p1),
        load_rel(p1, p2, m, notes),
        m.wf(),
    ensures
        forall|k: (Seq<char>, Seq<char>, int)| p2.breakpoints.has(k) == p0.breakpoints.has(k),
        p2.movie == m,
        p1.movie.score.channels@.len() == 0,
        p1.movie.cast@.len() == 0,
        forall|d: DatumRef| !p1.heap.live(d),
        forall|id: u32| !p1.instances.live(id),
        forall|d: DatumRef| !p2.heap.live(d),
        forall|id: u32| !p2.instances.live(id),
{
}

/// Law: the replay a channel-name subscription emits is ordered by channel
/// number — one notification per channel, numbers strictly increasing.
pub proof fn lemma_channel_notes_in_number_order(channels: Seq<Channel>, cast: Seq<CastEntryV>)
    requires
        forall|i: int, j: int| 0 <= i < j < channels.len() ==> channels[i].number < channels[j].number,
    ensures
        channel_notes(channels, cast).len() == channels.len(),
        forall|i: int, j: int|
            0 <= i < j < channels.len() ==> channel_notes(channels, cast)[i]->ChannelNameChanged_0
                < channel_notes(channels, cast)[j]->ChannelNameChanged_0,
{
}

/// Law: while nobody subscribes to channel names, handler execution emits no
/// channel-name notification, whatever the bytecode does — unsubscribing
/// stops all further channel-name emissions.
pub proof fn lemma_run_unsubscribed_emits_no_channel_note(
    bps: BreakpointSet,
    subs_members: Seq<CastMemberRef>,
    script: Seq<char>,
    handler: Seq<char>,
    code: Seq<InstrV>,
    ip: int,
    skip_bp: bool,
    m: MachineV,
)
    requires
        0 <= ip <= code.len(),
    ensures
        !has_channel_note(
            run_spec(bps, false, subs_members, script, handler, code, ip, skip_bp, m).notes,
        ),
    decreases code.len() - ip,
{
    let out = run_spec(bps, false, subs_members, script, handler, code, ip, skip_bp, m);
    if ip >= code.len() {
    } else if !skip_bp && bps.has((script, handler, ip)) {
        assert forall|i: int| 0 <= i < out.notes.len() implies !(out.notes[i]
            is ChannelNameChanged) by {
            assert(out.notes[i] == NoteV::BreakpointHit(script, handler, ip));
        }
    } else {
        match code[ip] {
            InstrV::Nop => {
                lemma_run_unsubscribed_emits_no_channel_note(
                    bps,
                    subs_members,
                    script,
                    handler,
                    code,
                    ip + 1,
                    false,
                    m,
                );
            },
            InstrV::Ret => {},
            InstrV::SetChannelMember { channel, member } => {
                let ci = chan_find(m.channels, channel);
                if ci < 0 {
                    assert(out.notes =~= seq![NoteV::InterpreterFault(script, handler, ip)]);
                } else {
                    let m2 = MachineV {
                        channels: m.channels.update(
                            ci,
                            Channel { number: channel, member: Some(member) },
                        ),
                        cast: m.cast,
                    };
                    lemma_run_unsubscribed_emits_no_channel_note(
                        bps,
                        subs_members,
                        script,
                        handler,
                        code,
                        ip + 1,
                        false,
                        m2,
                    );
                    let rest = run_spec(
                        bps,
                        false,
                        subs_members,
                        script,
                        handler,
                        code,
                        ip + 1,
                        false,
                        m2,
                    );
                    assert(out.notes =~= rest.notes);
                }
            },
            InstrV::SetMemberName { member, name } => {
                let mi = cast_find(m.cast, member);
                if mi < 0 {
                    assert(out.notes =~= seq![NoteV::InterpreterFault(script, handler, ip)]);
                } else {
                    let m2 = MachineV {
                        channels: m.channels,
                        cast: m.cast.update(
                            mi,
                            CastEntryV {
                                member,
                                name,
                                kind: m.cast[mi].kind,
                                payload: m.cast[mi].payload,
                            },
                        ),
                    };
                    lemma_run_unsubscribed_emits_no_channel_note(
                        bps,
                        subs_members,
                        script,
                        handler,
                        code,
                        ip + 1,
                        false,
                        m2,
                    );
                    let rest = run_spec(
                        bps,
                        false,
                        subs_members,
                        script,
                        handler,
                        code,
                        ip + 1,
                        false,
                        m2,
                    );
                    let here = (if subs_has(subs_members, member) {
                        seq![NoteV::MemberChanged(member, name)]
                    } else {
                        Seq::<NoteV>::empty()
                    }) + Seq::<NoteV>::empty();
                    assert(out.notes =~= here + rest.notes);
                    assert forall|i: int| 0 <= i < out.notes.len() implies !(out.notes[i]
                        is ChannelNameChanged) by {
                        if i < here.len() {
                            assert(here[i] == NoteV::MemberChanged(member, name));
                        } else {
                            assert(out.notes[i] == rest.notes[i - here.len()]);
                        }
                    }
                }
            },
        }
    }
}

/// One external command: the single kind of request the dispatch entry
/// point serializes and applies against the player.
pub enum Command {
    SetBasePath(String),
    LoadMovie(Movie),
    Play,
    Stop,
    Reset,
    AddBreakpoint(String, String, usize),
    RemoveBreakpoint(String, String, usize),
    ToggleBreakpoint(String, String, usize),
    ResumeBreakpoint,
    SetStageSize(u32, u32),
    TimeoutTriggered(String),
    PrintMemberBitmapHex(CastMemberRef),
    MouseDown((i16, i16)),
    MouseUp((i16, i16)),
    MouseMove((i16, i16)),
    KeyDown(String, u16),
    KeyUp(String, u16),
    RequestDatum(DatumRef),
    RequestScriptInstanceSnapshot(u32),
    SubscribeToMember(CastMemberRef),
    UnsubscribeFromMember(CastMemberRef),
    TriggerAlertHook,
    SubscribeToChannelNames,
    UnsubscribeFromChannelNames,
}

/// Everything one dispatched command promises: the union of the per-command
/// relations, by variant. A command observes a fully-consistent prior state,
/// leaves a fully-consistent new state, and `notes` is exactly what it
/// emitted, in order.
pub open spec fn dispatch_rel(pre: Player, post: Player, cmd: Command, notes: Seq<NoteV>) -> bool {
    match cmd {
        Command::SetBasePath(path) => post == (Player { base_path: path, ..pre }) && notes.len()
            == 0,
        Command::LoadMovie(m) => load_rel(pre, post, m, notes),
        Command::Play => post == (Player { playing: true, ..pre }) && notes.len() == 0,
        Command::Stop => post == (Player { playing: false, ..pre }) && notes.len() == 0,
        Command::Reset => reset_rel(pre, post) && notes.len() == 0,
        Command::AddBreakpoint(sn, hn, i) => {
            &&& post == (Player { breakpoints: post.breakpoints, ..pre })
            &&& post.breakpoints.has((sn@, hn@, i as int))
            &&& forall|k: (Seq<char>, Seq<char>, int)|
                k != (sn@, hn@, i as int) ==> post.breakpoints.has(k) == pre.breakpoints.has(k)
            &&& notes.len() == 0
        },
        Command::RemoveBreakpoint(sn, hn, i) => {
            &&& post == (Player { breakpoints: post.breakpoints, ..pre })
            &&& !post.breakpoints.has((sn@, hn@, i as int))
            &&& forall|k: (Seq<char>, Seq<char>, int)|
                k != (sn@, hn@, i as int) ==> post.breakpoints.has(k) == pre.breakpoints.has(k)
            &&& notes.len() == 0
        },
        Command::ToggleBreakpoint(sn, hn, i) => {
            &&& post == (Player { breakpoints: post.breakpoints, ..pre })
            &&& post.breakpoints.has((sn@, hn@, i as int)) == !pre.breakpoints.has(
                (sn@, hn@, i as int),
            )
            &&& forall|k: (Seq<char>, Seq<char>, int)|
                k != (sn@, hn@, i as int) ==> post.breakpoints.has(k) == pre.breakpoints.has(k)
            &&& notes.len() == 0
        },
        Command::ResumeBreakpoint => resume_rel(pre, post, notes),
        Command::SetStageSize(w, h) => post == (Player {
            stage_width: w,
            stage_height: h,
            ..pre
        }) && notes.len() == 0,
        Command::TimeoutTriggered(name) => invoke_rel(pre, post, name@, notes),
        Command::PrintMemberBitmapHex(m) => {
            &&& post == pre
            &&& {
                let c = pre.movie.cast@;
                let i = cast_find(c, m);
                notes == seq![
                    NoteV::MemberBitmapHex(
                        m,
                        if i >= 0 && c[i].kind is Bitmap {
                            Some(crate::cast::hex_of(c[i].payload))
                        } else {
                            None::<Seq<char>>
                        },
                    )
                ]
            }
        },
        Command::MouseDown((x, y)) => post.mouse_x == x && post.mouse_y == y && invoke_rel(
            pre,
            post,
            "mouseDown"@,
            notes,
        ),
        Command::MouseUp((x, y)) => post.mouse_x == x && post.mouse_y == y && invoke_rel(
            pre,
            post,
            "mouseUp"@,
            notes,
        ),
        Command::MouseMove((x, y)) => post.mouse_x == x && post.mouse_y == y && invoke_rel(
            pre,
            post,
            "mouseMove"@,
            notes,
        ),
        Command::KeyDown(_key, _code) => invoke_rel(pre, post, "keyDown"@, notes),
        Command::KeyUp(_key, _code) => invoke_rel(pre, post, "keyUp"@, notes),
        Command::RequestDatum(r) => post == pre && notes == seq![
            NoteV::DatumResolved(
                r,
                if pre.heap.live(r) {
                    Some(pre.heap.value_of(r))
                } else {
                    None::<Datum>
                },
            )
        ],
        Command::RequestScriptInstanceSnapshot(id) => post == pre && notes == seq![
            NoteV::ScriptInstanceSnapshot(
                id,
                if pre.instances.live(id) {
                    Some(pre.instances.name_of(id))
                } else {
                    None::<Seq<char>>
                },
            )
        ],
        Command::SubscribeToMember(m) => {
            &&& post == (Player { member_subs: post.member_subs, ..pre })
            &&& subs_has(post.member_subs@, m)
            &&& forall|x: CastMemberRef|
                x != m ==> subs_has(post.member_subs@, x) == subs_has(pre.member_subs@, x)
            &&& notes.len() == 0
        },
        Command::UnsubscribeFromMember(m) => {
            &&& post == (Player { member_subs: post.member_subs, ..pre })
            &&& !subs_has(post.member_subs@, m)
            &&& forall|x: CastMemberRef|
                x != m ==> subs_has(post.member_subs@, x) == subs_has(pre.member_subs@, x)
            &&& notes.len() == 0
        },
        Command::TriggerAlertHook => post == pre && notes == seq![NoteV::AlertHook],
        Command::SubscribeToChannelNames => post == (Player {
            subscribed_channel_names: true,
            ..pre
        }) && notes == channel_notes(pre.movie.score.channels@, pre.movie.cast@),
        Command::UnsubscribeFromChannelNames => post == (Player {
            subscribed_channel_names: false,
            ..pre
        }) && notes.len() == 0,
    }
}

impl Player {
    /// The single dispatch entry point: applies one command against the
    /// current state under the caller's exclusive access, exactly as the
    /// command's relation describes, and returns what it emitted, in order.
    /// The player is dispatch-ready again after every command, whatever
    /// happened.
    pub fn dispatch(&mut self, cmd: Command) -> (notes: Vec<Notification>)
        requires
            inv(*old(self)),
        ensures
            inv(*final(self)),
            dispatch_rel(*old(self), *final(self), cmd, notes_view(notes@)),
    {
        match cmd {
            Command::SetBasePath(path) => {
                self.set_base_path(path);
                self.no_notes()
            },
            Command::LoadMovie(m) => self.load_movie(m),
            Command::Play => {
                self.play();
                self.no_notes()
            },
            Command::Stop => {
                self.stop();
                self.no_notes()
            },
            Command::Reset => {
                self.reset();
                self.no_notes()
            },
            Command::AddBreakpoint(sn, hn, i) => {
                self.add_breakpoint(sn, hn, i);
                self.no_notes()
            },
            Command::RemoveBreakpoint(sn, hn, i) => {
                self.remove_breakpoint(sn, hn, i);
                self.no_notes()
            },
            Command::ToggleBreakpoint(sn, hn, i) => {
                self.toggle_breakpoint(sn, hn, i);
                self.no_notes()
            },
            Command::ResumeBreakpoint => self.resume_breakpoint(),
            Command::SetStageSize(w, h) => {
                self.set_stage_size(w, h);
                self.no_notes()
            },
            Command::TimeoutTriggered(name) => self.trigger_timeout(&name),
            Command::PrintMemberBitmapHex(m) => self.player_print_member_bitmap_hex(
                m.cast_lib,
                m.cast_member,
            ),
            Command::MouseDown((x, y)) => self.mouse_down(x, y),
            Command::MouseUp((x, y)) => self.mouse_up(x, y),
            Command::MouseMove((x, y)) => self.mouse_move(x, y),
            Command::KeyDown(key, code) => self.key_down(key, code),
            Command::KeyUp(key, code) => self.key_up(key, code),
            Command::RequestDatum(r) => self.request_datum(r),
            Command::RequestScriptInstanceSnapshot(id) => self.request_script_instance_snapshot(
                id,
            ),
            Command::SubscribeToMember(m) => {
                self.subscribe_to_member(m);
                self.no_notes()
            },
            Command::UnsubscribeFromMember(m) => {
                self.unsubscribe_from_member(m);
                self.no_notes()
            },
            Command::TriggerAlertHook => self.trigger_alert_hook(),
            Command::SubscribeToChannelNames => self.subscribe_to_channel_names(),
            Command::UnsubscribeFromChannelNames => {
                self.unsubscribe_from_channel_names();
                self.no_notes()
            },
        }
    }

    /// An empty emission, with its view known.
    fn no_notes(&self) -> (notes: Vec<Notification>)
        ensures
            notes_view(notes@).len() == 0,
    {
        let notes: Vec<Notification> = Vec::new();
        proof {
            assert(notes_view(notes@) =~= Seq::<NoteV>::empty());
        }
        notes
    }
}

/// Law: a call parked at a breakpoint makes no bytecode progress under any
/// event dispatch — the machine, the parked call and the emissions are
/// untouched — until the explicit resume; meanwhile the dispatch stays open
/// to every command.
pub proof fn lemma_suspension_blocks_execution(
    pre: Player,
    post: Player,
    hname: Seq<char>,
    notes: Seq<NoteV>,
)
    requires
        pre.current_call is Some,
        invoke_rel(pre, post, hname, notes),
    ensures
        post.movie.score.channels@ == pre.movie.score.channels@,
        post.movie.cast@ == pre.movie.cast@,
        post.current_call == pre.current_call,
        notes.len() == 0,
{
}

/// Law: whenever execution parks, it parks at an active breakpoint of the
/// very call that was running — same script, handler and bytecode — at an
/// index the run had reached, announcing exactly that triple as its last
/// emission. Nothing at or beyond the parked index has executed; with
/// `resume_rel` continuing from exactly there, and the breakpoint set
/// untouched by execution, the same breakpoint parks every later run that
/// reaches it: breakpoints are not one-shot.
pub proof fn lemma_park_is_at_active_breakpoint(
    bps: BreakpointSet,
    subs_names: bool,
    subs_members: Seq<CastMemberRef>,
    script: Seq<char>,
    handler: Seq<char>,
    code: Seq<InstrV>,
    ip: int,
    skip_bp: bool,
    m: MachineV,
)
    requires
        0 <= ip <= code.len(),
    ensures
        ({
            let out = run_spec(bps, subs_names, subs_members, script, handler, code, ip, skip_bp, m);
            out.call matches Some(c) ==> {
                &&& c.script == script
                &&& c.handler == handler
                &&& c.code == code
                &&& ip <= c.ip < code.len()
                &&& bps.has((script, handler, c.ip))
                &&& out.notes.len() > 0
                &&& out.notes.last() == NoteV::BreakpointHit(script, handler, c.ip)
            }
        }),
    decreases code.len() - ip,
{
    let out = run_spec(bps, subs_names, subs_members, script, handler, code, ip, skip_bp, m);
    if ip >= code.len() {
    } else if !skip_bp && bps.has((script, handler, ip)) {
    } else {
        match code[ip] {
            InstrV::Nop => {
                lemma_park_is_at_active_breakpoint(
                    bps,
                    subs_names,
                    subs_members,
                    script,
                    handler,
                    code,
                    ip + 1,
                    false,
                    m,
                );
            },
            InstrV::Ret => {},
            InstrV::SetChannelMember { channel, member } => {
                let ci = chan_find(m.channels, channel);
                if ci >= 0 {
                    let m2 = MachineV {
                        channels: m.channels.update(
                            ci,
                            Channel { number: channel, member: Some(member) },
                        ),
                        cast: m.cast,
                    };
                    lemma_park_is_at_active_breakpoint(
                        bps,
                        subs_names,
                        subs_members,
                        script,
                        handler,
                        code,
                        ip + 1,
                        false,
                        m2,
                    );
                    let rest = run_spec(
                        bps,
                        subs_names,
                        subs_members,
                        script,
                        handler,
                        code,
                        ip + 1,
                        false,
                        m2,
                    );
                    if rest.call is Some {
                        assert(out.notes.last() == rest.notes.last());
                    }
                }
            },
            InstrV::SetMemberName { member, name } => {
                let mi = cast_find(m.cast, member);
                if mi >= 0 {
                    let m2 = MachineV {
                        channels: m.channels,
                        cast: m.cast.update(
                            mi,
                            CastEntryV {
                                member,
                                name,
                                kind: m.cast[mi].kind,
                                payload: m.cast[mi].payload,
                            },
                        ),
                    };
                    lemma_park_is_at_active_breakpoint(
                        bps,
                        subs_names,
                        subs_members,
                        script,
                        handler,
                        code,
                        ip + 1,
                        false,
                        m2,
                    );
                    let rest = run_spec(
                        bps,
                        subs_names,
                        subs_members,
                        script,
                        handler,
                        code,
                        ip + 1,
                        false,
                        m2,
                    );
                    if rest.call is Some {
                        assert(out.notes.last() == rest.notes.last());
                    }
                }
            },
        }
    }
}

/// Law: a channel reassignment the run reaches — whatever bytecode stands
/// around it — applies its score mutation and, with channel names
/// subscribed, emits its one channel-name notification first, carrying the
/// channel number and the newly assigned member's name; the rest of the run
/// continues on the updated score with the cast untouched by this step.
pub proof fn lemma_reassignment_emits_its_note(
    bps: BreakpointSet,
    subs_members: Seq<CastMemberRef>,
    script: Seq<char>,
    handler: Seq<char>,
    code: Seq<InstrV>,
    ip: int,
    skip_bp: bool,
    m: MachineV,
    ch: i32,
    mem: CastMemberRef,
)
    requires
        0 <= ip < code.len(),
        code[ip] == (InstrV::SetChannelMember { channel: ch, member: mem }),
        skip_bp || !bps.has((script, handler, ip)),
        chan_find(m.channels, ch) >= 0,
    ensures
        ({
            let out = run_spec(bps, true, subs_members, script, handler, code, ip, skip_bp, m);
            let ci = chan_find(m.channels, ch);
            let m2 = MachineV {
                channels: m.channels.update(ci, Channel { number: ch, member: Some(mem) }),
                cast: m.cast,
            };
            let rest = run_spec(bps, true, subs_members, script, handler, code, ip + 1, false, m2);
            &&& out.notes.len() >= 1
            &&& out.notes[0] == NoteV::ChannelNameChanged(ch, member_name(m.cast, mem))
            &&& out.notes == seq![NoteV::ChannelNameChanged(ch, member_name(m.cast, mem))]
                + rest.notes
            &&& out.m == rest.m
            &&& out.call == rest.call
        }),
{
}

/// Law: with channel names unsubscribed, a reached channel reassignment
/// still applies its score mutation — the run continues on the updated
/// score — while the step contributes no notification at all; together with
/// the run-wide guarantee that an unsubscribed run emits no channel-name
/// notification anywhere, unsubscribing silences the emissions without
/// suppressing the mutations.
pub proof fn lemma_reassignment_applies_when_unsubscribed(
    bps: BreakpointSet,
    subs_members: Seq<CastMemberRef>,
    script: Seq<char>,
    handler: Seq<char>,
    code: Seq<InstrV>,
    ip: int,
    skip_bp: bool,
    m: MachineV,
    ch: i32,
    mem: CastMemberRef,
)
    requires
        0 <= ip < code.len(),
        code[ip] == (InstrV::SetChannelMember { channel: ch, member: mem }),
        skip_bp || !bps.has((script, handler, ip)),
        chan_find(m.channels, ch) >= 0,
    ensures
        ({
            let out = run_spec(bps, false, subs_members, script, handler, code, ip, skip_bp, m);
            let ci = chan_find(m.channels, ch);
            let m2 = MachineV {
                channels: m.channels.update(ci, Channel { number: ch, member: Some(mem) }),
                cast: m.cast,
            };
            let rest = run_spec(bps, false, subs_members, script, handler, code, ip + 1, false, m2);
            &&& out.notes == rest.notes
            &&& out.m == rest.m
            &&& out.call == rest.call
        }),
{
    let out = run_spec(bps, false, subs_members, script, handler, code, ip, skip_bp, m);
    let ci = chan_find(m.channels, ch);
    let m2 = MachineV {
        channels: m.channels.update(ci, Channel { number: ch, member: Some(mem) }),
        cast: m.cast,
    };
    let rest = run_spec(bps, false, subs_members, script, handler, code, ip + 1, false, m2);
    assert(out.notes =~= Seq::<NoteV>::empty() + rest.notes);
    assert(Seq::<NoteV>::empty() + rest.notes =~= rest.notes);
}

} // verus!
