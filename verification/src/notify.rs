//! Outbound notifications: what a command's application emits toward the
//! host, in emission order.

use vstd::prelude::*;
use crate::cast::CastMemberRef;
use crate::datum::{Datum, DatumRef};

verus! {

/// One notification to the host.
pub enum Notification {
    /// A channel's display name changed (or is being replayed on subscribe):
    /// the channel number and its current name.
    ChannelNameChanged(i32, String),
    /// A subscribed member's descriptor changed: the reference and the
    /// member's current name.
    MemberChanged(CastMemberRef, String),
    /// The answer to a datum request: the handle and its value, or absence.
    DatumResolved(DatumRef, Option<Datum>),
    /// The answer to a script-instance snapshot request: the instance
    /// identifier and the instance's script name, or absence.
    ScriptInstanceSnapshot(u32, Option<String>),
    /// Execution paused at a breakpoint: script, handler, bytecode index.
    BreakpointHit(String, String, usize),
    /// A runtime error halted a handler: script, handler, bytecode index.
    InterpreterFault(String, String, usize),
    /// A movie failed to load; the previous state is intact.
    LoadFailed,
    /// The host-provided alert surface was triggered.
    AlertHook,
    /// The diagnostic dump of a member's bitmap payload, or absence for an
    /// unknown reference or a non-bitmap member.
    MemberBitmapHex(CastMemberRef, Option<String>),
}

/// The mathematical content of one notification.
pub enum NoteV {
    ChannelNameChanged(i32, Seq<char>),
    MemberChanged(CastMemberRef, Seq<char>),
    DatumResolved(DatumRef, Option<Datum>),
    ScriptInstanceSnapshot(u32, Option<Seq<char>>),
    BreakpointHit(Seq<char>, Seq<char>, int),
    InterpreterFault(Seq<char>, Seq<char>, int),
    LoadFailed,
    AlertHook,
    MemberBitmapHex(CastMemberRef, Option<Seq<char>>),
}

/// View of one notification.
pub open spec fn note_view(n: Notification) -> NoteV {
    match n {
        Notification::ChannelNameChanged(c, s) => NoteV::ChannelNameChanged(c, s@),
        Notification::MemberChanged(m, s) => NoteV::MemberChanged(m, s@),
        Notification::DatumResolved(r, v) => NoteV::DatumResolved(r, v),
        Notification::ScriptInstanceSnapshot(i, s) => NoteV::ScriptInstanceSnapshot(
            i,
            match s {
                Some(s) => Some(s@),
                None => None,
            },
        ),
        Notification::BreakpointHit(a, b, i) => NoteV::BreakpointHit(a@, b@, i as int),
        Notification::InterpreterFault(a, b, i) => NoteV::InterpreterFault(a@, b@, i as int),
        Notification::LoadFailed => NoteV::LoadFailed,
        Notification::AlertHook => NoteV::AlertHook,
        Notification::MemberBitmapHex(m, s) => NoteV::MemberBitmapHex(
            m,
            match s {
                Some(s) => Some(s@),
                None => None,
            },
        ),
    }
}

/// View of an emission sequence.
pub open spec fn notes_view(ns: Seq<Notification>) -> Seq<NoteV> {
    ns.map_values(|n: Notification| note_view(n))
}

/// Viewing notifications distributes over concatenation.
pub proof fn lemma_notes_view_add(a: Seq<Notification>, b: Seq<Notification>)
    ensures
        notes_view(a + b) == notes_view(a) + notes_view(b),
{
    assert(notes_view(a + b) =~= notes_view(a) + notes_view(b));
}

/// Whether an emission sequence contains a channel-name notification; none
/// may be emitted while nobody subscribes to channel names.
pub open spec fn has_channel_note(ns: Seq<NoteV>) -> bool {
    exists|i: int| 0 <= i < ns.len() && ns[i] is ChannelNameChanged
}

} // verus!
