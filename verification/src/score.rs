//! The score: the movie's timeline of numbered channels, each of which may
//! display one cast member for the current frame.

use vstd::prelude::*;
use crate::cast::CastMemberRef;

verus! {

/// One timeline track. Its number is stable; its member assignment changes
/// under interpreter execution.
pub struct Channel {
    pub number: i32,
    pub member: Option<CastMemberRef>,
}

/// The ordered set of channels. Numbers are strictly increasing, so the
/// vector order is channel-number order and numbers are unique.
pub struct Score {
    pub channels: Vec<Channel>,
}

/// First index of the channel with this number, or -1 if there is none.
pub open spec fn chan_find(channels: Seq<Channel>, number: i32) -> int
    decreases channels.len(),
{
    if channels.len() == 0 {
        -1
    } else if channels[0].number == number {
        0
    } else {
        let r = chan_find(channels.skip(1), number);
        if r < 0 {
            -1
        } else {
            r + 1
        }
    }
}

/// If no channel carries the number, `chan_find` reports none.
pub proof fn lemma_chan_find_none(channels: Seq<Channel>, number: i32)
    requires
        forall|j: int| 0 <= j < channels.len() ==> channels[j].number != number,
    ensures
        chan_find(channels, number) < 0,
    decreases channels.len(),
{
    if channels.len() > 0 {
        lemma_chan_find_none(channels.skip(1), number);
    }
}

/// If the first `i` channels miss the number and channel `i` carries it,
/// `chan_find` answers `i`.
pub proof fn lemma_chan_find_first(channels: Seq<Channel>, number: i32, i: int)
    requires
        0 <= i < channels.len(),
        channels[i].number == number,
        forall|j: int| 0 <= j < i ==> channels[j].number != number,
    ensures
        chan_find(channels, number) == i,
    decreases i,
{
    if i > 0 {
        assert(channels.skip(1)[i - 1].number == number);
        assert forall|j: int| 0 <= j < i - 1 implies channels.skip(1)[j].number != number by {
            assert(channels.skip(1)[j] == channels[j + 1]);
        }
        lemma_chan_find_first(channels.skip(1), number, i - 1);
    }
}

impl Score {
    /// Channel numbers strictly increase along the vector.
    pub open spec fn inv(self) -> bool {
        forall|i: int, j: int|
            0 <= i < j < self.channels@.len() ==> self.channels@[i].number
                < self.channels@[j].number
    }

    pub fn new() -> (r: Score)
        ensures
            r.channels@.len() == 0,
            r.inv(),
    {
        Score { channels: Vec::new() }
    }

    /// First index of the channel with this number, or none.
    pub fn find(&self, number: i32) -> (r: Option<usize>)
        ensures
            match r {
                Some(i) => chan_find(self.channels@, number) == i as int && i
                    < self.channels@.len() && self.channels@[i as int].number == number,
                None => chan_find(self.channels@, number) < 0,
            },
    {
        let mut i: usize = 0;
        while i < self.channels.len()
            invariant
                i <= self.channels@.len(),
                forall|j: int| 0 <= j < i ==> self.channels@[j].number != number,
            decreases self.channels@.len() - i,
        {
            if self.channels[i].number == number {
                proof {
                    lemma_chan_find_first(self.channels@, number, i as int);
                }
                return Some(i);
            }
            i = i + 1;
        }
        proof {
            lemma_chan_find_none(self.channels@, number);
        }
        None
    }
}

} // verus!
