//! The analysis records of a song, as the player hands them over.

use vstd::prelude::*;
use crate::binary32::Binary32;

verus! {

/// The most sections a song keeps; the sections buffer on the GPU holds as many.
pub const MAX_SECTIONS: usize = 64;

/// The most segments a song keeps.
pub const MAX_SEGMENTS: usize = 100;

/// A coarse region of a song, such as a verse or a chorus.
#[derive(Clone, Copy, Debug, PartialEq, Eq)]
pub struct SongSection {
    /// Where the section begins, in seconds.
    pub start: Binary32,
    /// How long it lasts, in seconds.
    pub duration: Binary32,
    pub loudness: Binary32,
    pub tempo: Binary32,
}

/// One fine-grained analysis frame of a song.
#[derive(Clone, Copy, Debug, PartialEq, Eq)]
pub struct SongSegment {
    /// Where the segment begins, in seconds.
    pub start: Binary32,
    /// How long it lasts, in seconds.
    pub duration: Binary32,
    pub loudness_max_time: Binary32,
    /// Chroma coefficients, in order.
    pub pitches: [Binary32; 12],
    /// Timbre coefficients, in order.
    pub timbre: [Binary32; 12],
}

/// The first `cap` items of `items`, or all of them where there are fewer.
pub open spec fn capped<T>(items: Seq<T>, cap: nat) -> Seq<T> {
    if items.len() <= cap {
        items
    } else {
        items.subrange(0, cap as int)
    }
}

/// A list that is longer than `cap` keeps exactly its first `cap` items, in
/// their order.
pub proof fn lemma_capped_keeps_first<T>(items: Seq<T>, cap: nat)
    requires
        items.len() > cap,
    ensures
        capped(items, cap).len() == cap,
        forall|i: int| 0 <= i < cap ==> capped(items, cap)[i] == items[i],
{
}

/// A list that is no longer than `cap` stays whole.
pub proof fn lemma_capped_keeps_short<T>(items: Seq<T>, cap: nat)
    requires
        items.len() <= cap,
    ensures
        capped(items, cap) == items,
{
}

} // verus!
