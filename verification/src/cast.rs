//! The cast library: the movie's table of media-asset descriptors, addressed
//! by (library number, member number) pairs.

use vstd::prelude::*;
use vstd::string::StringExecFns;

verus! {

/// Identifies one asset slot: a (cast library, cast member) number pair.
/// An invalid pair simply resolves to no member.
#[derive(Clone, Copy, Debug, PartialEq, Eq, Structural)]
pub struct CastMemberRef {
    pub cast_lib: i32,
    pub cast_member: i32,
}

/// Builds a member reference from its two numbers.
pub fn cast_member_ref(cast_lib: i32, cast_member: i32) -> (r: CastMemberRef)
    ensures
        r == (CastMemberRef { cast_lib, cast_member }),
{
    CastMemberRef { cast_lib, cast_member }
}

/// What kind of asset a member holds.
pub enum MemberKind {
    Bitmap,
    Text,
    Script,
}

/// One asset descriptor: a display name, its kind, and its raw payload
/// (for a bitmap member, the pixel bytes).
pub struct CastMember {
    pub name: String,
    pub kind: MemberKind,
    pub payload: Vec<u8>,
}

/// The mathematical content of one cast entry.
pub struct CastEntryV {
    pub member: CastMemberRef,
    pub name: Seq<char>,
    pub kind: MemberKind,
    pub payload: Seq<u8>,
}

/// The table of members. Keys are unique, so a reference names at most one
/// descriptor.
pub struct CastLib {
    pub entries: Vec<(CastMemberRef, CastMember)>,
}

/// View of one stored entry.
pub open spec fn entry_view(e: (CastMemberRef, CastMember)) -> CastEntryV {
    CastEntryV { member: e.0, name: e.1.name@, kind: e.1.kind, payload: e.1.payload@ }
}

/// First index holding `m`, or -1 if the reference resolves to no member.
pub open spec fn cast_find(cast: Seq<CastEntryV>, m: CastMemberRef) -> int
    decreases cast.len(),
{
    if cast.len() == 0 {
        -1
    } else if cast[0].member == m {
        0
    } else {
        let r = cast_find(cast.skip(1), m);
        if r < 0 {
            -1
        } else {
            r + 1
        }
    }
}

/// The name a member reference resolves to: the member's name, or empty for
/// an invalid reference.
pub open spec fn member_name(cast: Seq<CastEntryV>, m: CastMemberRef) -> Seq<char> {
    let i = cast_find(cast, m);
    if i >= 0 {
        cast[i].name
    } else {
        Seq::empty()
    }
}

/// The hexadecimal digit for one value below 16, lower case.
pub open spec fn nibble_char(n: int) -> char {
    if n == 0 {
        '0'
    } else if n == 1 {
        '1'
    } else if n == 2 {
        '2'
    } else if n == 3 {
        '3'
    } else if n == 4 {
        '4'
    } else if n == 5 {
        '5'
    } else if n == 6 {
        '6'
    } else if n == 7 {
        '7'
    } else if n == 8 {
        '8'
    } else if n == 9 {
        '9'
    } else if n == 10 {
        'a'
    } else if n == 11 {
        'b'
    } else if n == 12 {
        'c'
    } else if n == 13 {
        'd'
    } else if n == 14 {
        'e'
    } else {
        'f'
    }
}

/// The hexadecimal dump of a byte sequence: two digits per byte, high nibble
/// first.
pub open spec fn hex_of(bytes: Seq<u8>) -> Seq<char>
    decreases bytes.len(),
{
    if bytes.len() == 0 {
        Seq::empty()
    } else {
        hex_of(bytes.drop_last()).push(nibble_char(bytes.last() as int / 16)).push(
            nibble_char(bytes.last() as int % 16),
        )
    }
}

/// Appends the single hexadecimal digit for `n`.
fn push_nibble(s: &mut String, n: u8)
    requires
        n < 16,
    ensures
        final(s)@ == old(s)@.push(nibble_char(n as int)),
{
    let d: &str = match n {
        0 => "0",
        1 => "1",
        2 => "2",
        3 => "3",
        4 => "4",
        5 => "5",
        6 => "6",
        7 => "7",
        8 => "8",
        9 => "9",
        10 => "a",
        11 => "b",
        12 => "c",
        13 => "d",
        14 => "e",
        _ => "f",
    };
    proof {
        reveal_strlit("0");
        reveal_strlit("1");
        reveal_strlit("2");
        reveal_strlit("3");
        reveal_strlit("4");
        reveal_strlit("5");
        reveal_strlit("6");
        reveal_strlit("7");
        reveal_strlit("8");
        reveal_strlit("9");
        reveal_strlit("a");
        reveal_strlit("b");
        reveal_strlit("c");
        reveal_strlit("d");
        reveal_strlit("e");
        reveal_strlit("f");
    }
    s.append(d);
    proof {
        assert(s@ =~= old(s)@.push(nibble_char(n as int)));
    }
}

/// The hexadecimal dump of `bytes`, two lower-case digits per byte.
pub fn hex_dump(bytes: &Vec<u8>) -> (r: String)
    ensures
        r@ == hex_of(bytes@),
{
    let mut s = String::new();
    let mut i: usize = 0;
    while i < bytes.len()
        invariant
            i <= bytes@.len(),
            s@ == hex_of(bytes@.take(i as int)),
        decreases bytes@.len() - i,
    {
        let b = bytes[i];
        push_nibble(&mut s, b / 16);
        push_nibble(&mut s, b % 16);
        proof {
            assert(bytes@.take(i + 1).drop_last() =~= bytes@.take(i as int));
            assert(bytes@.take(i + 1).last() == bytes@[i as int]);
        }
        i = i + 1;
    }
    proof {
        assert(bytes@.take(bytes@.len() as int) =~= bytes@);
    }
    s
}

impl CastLib {
    /// View: the sequence of entries as mathematical content.
    pub open spec fn view(self) -> Seq<CastEntryV> {
        self.entries@.map_values(|e: (CastMemberRef, CastMember)| entry_view(e))
    }

    /// Keys are unique.
    pub open spec fn inv(self) -> bool {
        forall|i: int, j: int|
            0 <= i < j < self@.len() ==> self@[i].member != self@[j].member
    }

    pub fn new() -> (r: CastLib)
        ensures
            r@.len() == 0,
            r.inv(),
    {
        CastLib { entries: Vec::new() }
    }

    /// First index holding `m`, or none for an unknown reference.
    pub fn find(&self, m: CastMemberRef) -> (r: Option<usize>)
        ensures
            match r {
                Some(i) => cast_find(self@, m) == i as int && i < self@.len() && self@[
                    i as int
                ].member == m,
                None => cast_find(self@, m) < 0,
            },
    {
        let mut i: usize = 0;
        while i < self.entries.len()
            invariant
                i <= self@.len(),
                forall|j: int| 0 <= j < i ==> self@[j].member != m,
            decreases self@.len() - i,
        {
            if self.entries[i].0.cast_lib == m.cast_lib && self.entries[i].0.cast_member
                == m.cast_member {
                proof {
                    assert(self@[i as int].member == m);
                    lemma_cast_find_first(self@, m, i as int);
                }
                return Some(i);
            }
            proof {
                assert(self@[i as int].member != m);
            }
            i = i + 1;
        }
        proof {
            lemma_cast_find_none(self@, m);
        }
        None
    }

    /// The dump of a member's bitmap payload: two hexadecimal digits per
    /// payload byte for a bitmap member; no data for an unknown reference or
    /// a member of another kind.
    pub fn member_bitmap_hex(&self, m: CastMemberRef) -> (r: Option<String>)
        ensures
            match r {
                Some(s) => {
                    &&& cast_find(self@, m) >= 0
                    &&& self@[cast_find(self@, m)].kind is Bitmap
                    &&& s@ == hex_of(self@[cast_find(self@, m)].payload)
                },
                None => cast_find(self@, m) < 0 || !(self@[cast_find(self@, m)].kind is Bitmap),
            },
    {
        match self.find(m) {
            Some(i) => {
                let e = &self.entries[i];
                match e.1.kind {
                    MemberKind::Bitmap => Some(hex_dump(&e.1.payload)),
                    _ => None,
                }
            },
            None => None,
        }
    }
}

/// If no entry holds `m`, `cast_find` reports none.
proof fn lemma_cast_find_none(cast: Seq<CastEntryV>, m: CastMemberRef)
    requires
        forall|j: int| 0 <= j < cast.len() ==> cast[j].member != m,
    ensures
        cast_find(cast, m) < 0,
    decreases cast.len(),
{
    if cast.len() > 0 {
        lemma_cast_find_none(cast.skip(1), m);
    }
}

/// If the first `i` entries miss `m` and entry `i` holds it, `cast_find`
/// answers `i`.
proof fn lemma_cast_find_first(cast: Seq<CastEntryV>, m: CastMemberRef, i: int)
    requires
        0 <= i < cast.len(),
        cast[i].member == m,
        forall|j: int| 0 <= j < i ==> cast[j].member != m,
    ensures
        cast_find(cast, m) == i,
    decreases i,
{
    if i > 0 {
        assert(cast.skip(1)[i - 1].member == m);
        assert forall|j: int| 0 <= j < i - 1 implies cast.skip(1)[j].member != m by {
            assert(cast.skip(1)[j] == cast[j + 1]);
        }
        lemma_cast_find_first(cast.skip(1), m, i - 1);
    }
}

} // verus!
