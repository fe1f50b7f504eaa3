//! Finding the record under the playhead, and the window of segments around it.
//!
//! The segments buffer on the GPU is far smaller than a song. Each frame only a
//! neighbourhood of the playhead goes up: a few segments before the current
//! one, so that the shader can blend into it, and the ones that follow, up to a
//! fixed size.

use vstd::prelude::*;
use crate::binary32::Binary32;
use crate::song::{SongSection, SongSegment};

verus! {

/// The most segments that go up with one frame.
pub const WINDOW_SIZE: usize = 10;

/// How many segments before the current one go up with it.
pub const LOOKBEHIND: usize = 3;

/// A range of segment indices, `start` included and `end` excluded.
#[derive(Clone, Copy, Debug, PartialEq, Eq)]
pub struct SegmentWindow {
    pub start: usize,
    pub end: usize,
}

/// Whether `position`, in nanoseconds, lies strictly inside the span that
/// begins at `start` seconds and lasts `duration` seconds. The two bounds
/// count in whole nanoseconds, as [`Binary32::nanos`] gives them. A span with
/// a bound that is no number holds no position.
pub open spec fn span_contains(start: Binary32, duration: Binary32, position: int) -> bool {
    &&& !start.is_nan()
    &&& !duration.is_nan()
    &&& start.nanos() < position
    &&& position < start.nanos() + duration.nanos()
}

/// Whether `i` is the first of `hits` that is set.
pub open spec fn is_first_hit(hits: Seq<bool>, i: int) -> bool {
    &&& 0 <= i < hits.len()
    &&& hits[i]
    &&& forall|j: int| 0 <= j < i ==> !hits[j]
}

/// The index of the first of `hits` that is set; `0` where none is.
pub open spec fn first_hit_or_zero(hits: Seq<bool>) -> int {
    if exists|i: int| is_first_hit(hits, i) {
        choose|i: int| is_first_hit(hits, i)
    } else {
        0
    }
}

/// For each section, whether it holds `position`.
pub open spec fn section_hits(sections: Seq<SongSection>, position: int) -> Seq<bool> {
    Seq::new(sections.len(), |i: int| sections[i].contains(position))
}

/// For each segment, whether it holds `position`.
pub open spec fn segment_hits(segments: Seq<SongSegment>, position: int) -> Seq<bool> {
    Seq::new(segments.len(), |i: int| segments[i].contains(position))
}

/// Where the window begins: `lookbehind` before the current segment, and at
/// the first segment where there are not that many before it.
pub open spec fn window_start(current_segment_index: int, lookbehind: int) -> int {
    if current_segment_index >= lookbehind {
        current_segment_index - lookbehind
    } else {
        0
    }
}

/// Where the window ends: `window_size` after its start, and at the last
/// segment where the song ends before that.
pub open spec fn window_end(start: int, segment_count: int, window_size: int) -> int {
    if start + window_size <= segment_count {
        start + window_size
    } else {
        segment_count
    }
}

impl SegmentWindow {
    /// The number of segments in the window.
    pub open spec fn len(self) -> int {
        if self.start <= self.end {
            self.end - self.start
        } else {
            0
        }
    }

    /// The part of the window that lies within the first `count` segments.
    pub open spec fn within(self, count: usize) -> SegmentWindow {
        let end = if self.end <= count { self.end } else { count };
        let start = if self.start <= end { self.start } else { end };
        (SegmentWindow { start, end })
    }

    /// The items of `items` that the window covers; for a window that
    /// reaches beyond them, those that its part within them covers.
    pub open spec fn slice_of<T>(self, items: Seq<T>) -> Seq<T> {
        let end = if self.end <= items.len() { self.end as int } else { items.len() as int };
        let start = if self.start <= end { self.start as int } else { end };
        items.subrange(start, end)
    }

    /// The part of the window that lies within the first `count` segments.
    /// A window that already does comes back as it is.
    pub fn clamp_to(self, count: usize) -> (clamped: SegmentWindow)
        ensures
            clamped == self.within(count),
            clamped.start <= clamped.end <= count,
            self.start <= self.end <= count ==> clamped == self,
    {
        let end: usize = if self.end <= count { self.end } else { count };
        let start: usize = if self.start <= end { self.start } else { end };
        SegmentWindow { start, end }
    }
}

impl SongSection {
    /// Whether `position` lies strictly inside the section.
    pub open spec fn contains(self, position: int) -> bool {
        span_contains(self.start, self.duration, position)
    }

    /// Whether `position` lies strictly inside the section.
    pub fn holds(&self, position: i64) -> (r: bool)
        ensures
            r == self.contains(position as int),
    {
        span_holds(self.start, self.duration, position)
    }
}

impl SongSegment {
    /// Whether `position` lies strictly inside the segment.
    pub open spec fn contains(self, position: int) -> bool {
        span_contains(self.start, self.duration, position)
    }

    /// Whether `position` lies strictly inside the segment.
    pub fn holds(&self, position: i64) -> (r: bool)
        ensures
            r == self.contains(position as int),
    {
        span_holds(self.start, self.duration, position)
    }
}

/// Whether `position` lies strictly inside the span from `start`, `duration` long.
pub fn span_holds(start: Binary32, duration: Binary32, position: i64) -> (r: bool)
    ensures
        r == span_contains(start, duration, position as int),
{
    if start.has_no_value() || duration.has_no_value() {
        return false;
    }
    let begin: i64 = start.to_nanos();
    let length: i64 = duration.to_nanos();
    begin < position && (position as i128) < begin as i128 + length as i128
}

/// The index of the first section that holds `position`. Where none does, and
/// so for a song without sections, the answer is `0`: the first section stands
/// in.
pub fn current_section_index(position: i64, sections: &Vec<SongSection>) -> (index: usize)
    ensures
        index == first_hit_or_zero(section_hits(sections@, position as int)),
        index == 0 || index < sections.len(),
        index < sections.len() && sections[index as int].contains(position as int)
            || index == 0 && forall|i: int|
            0 <= i < sections.len() ==> !(#[trigger] sections[i]).contains(position as int),
        forall|j: int| 0 <= j < index ==> !(#[trigger] sections[j]).contains(position as int),
{
    let ghost hits = section_hits(sections@, position as int);
    let mut i: usize = 0;
    while i < sections.len()
        invariant
            i <= sections.len(),
            hits == section_hits(sections@, position as int),
            forall|j: int| 0 <= j < i ==> !(#[trigger] sections[j]).contains(position as int),
        decreases sections.len() - i,
    {
        if sections[i].holds(position) {
            proof {
                assert forall|j: int| 0 <= j < i implies !hits[j] by {
                    assert(!sections[j].contains(position as int));
                }
                lemma_first_hit_unique(hits, i as int);
            }
            return i;
        }
        i = i + 1;
    }
    proof {
        assert forall|j: int| 0 <= j < hits.len() implies !hits[j] by {
            assert(!sections[j].contains(position as int));
        }
        lemma_no_hit_is_zero(hits);
    }
    0
}

/// The index of the first segment that holds `position`, and `0` where none does.
pub fn current_segment_index(position: i64, segments: &Vec<SongSegment>) -> (index: usize)
    ensures
        index == first_hit_or_zero(segment_hits(segments@, position as int)),
        index == 0 || index < segments.len(),
        index < segments.len() && segments[index as int].contains(position as int)
            || index == 0 && forall|i: int|
            0 <= i < segments.len() ==> !(#[trigger] segments[i]).contains(position as int),
        forall|j: int| 0 <= j < index ==> !(#[trigger] segments[j]).contains(position as int),
{
    let ghost hits = segment_hits(segments@, position as int);
    let mut i: usize = 0;
    while i < segments.len()
        invariant
            i <= segments.len(),
            hits == segment_hits(segments@, position as int),
            forall|j: int| 0 <= j < i ==> !(#[trigger] segments[j]).contains(position as int),
        decreases segments.len() - i,
    {
        if segments[i].holds(position) {
            proof {
                assert forall|j: int| 0 <= j < i implies !hits[j] by {
                    assert(!segments[j].contains(position as int));
                }
                lemma_first_hit_unique(hits, i as int);
            }
            return i;
        }
        i = i + 1;
    }
    proof {
        assert forall|j: int| 0 <= j < hits.len() implies !hits[j] by {
            assert(!segments[j].contains(position as int));
        }
        lemma_no_hit_is_zero(hits);
    }
    0
}

/// The window of segments to send while segment `current_segment_index` of
/// `segment_count` plays: from `lookbehind` before it, `window_size` long, cut
/// off at the ends of the song.
pub fn select_window(
    current_segment_index: usize,
    segment_count: usize,
    window_size: usize,
    lookbehind: usize,
) -> (window: SegmentWindow)
    ensures
        window.start == window_start(current_segment_index as int, lookbehind as int),
        window.end == window_end(window.start as int, segment_count as int, window_size as int),
        current_segment_index < lookbehind ==> window.start == 0,
        window.start <= current_segment_index,
        window.end <= segment_count,
        window.start <= segment_count ==> window.start <= window.end,
        window.len() <= window_size,
{
    let start: usize = if current_segment_index >= lookbehind {
        current_segment_index - lookbehind
    } else {
        0
    };
    let end: usize = if start <= segment_count && window_size <= segment_count - start {
        start + window_size
    } else {
        segment_count
    };
    SegmentWindow { start, end }
}

/// At most one index is the first hit, so `first_hit_or_zero` is that index.
pub proof fn lemma_first_hit_unique(hits: Seq<bool>, i: int)
    requires
        is_first_hit(hits, i),
    ensures
        first_hit_or_zero(hits) == i,
{
    let k = first_hit_or_zero(hits);
    assert(is_first_hit(hits, k));
    if k < i {
        assert(!hits[k]);
    } else if i < k {
        assert(!hits[i]);
    }
}

/// Without a hit the answer is `0`; in particular for no records at all.
pub proof fn lemma_no_hit_is_zero(hits: Seq<bool>)
    requires
        forall|i: int| 0 <= i < hits.len() ==> !hits[i],
    ensures
        first_hit_or_zero(hits) == 0,
{
}

/// A song without sections has section index `0` at every position.
pub proof fn lemma_section_index_of_no_sections(sections: Seq<SongSection>, position: int)
    requires
        sections.len() == 0,
    ensures
        first_hit_or_zero(section_hits(sections, position)) == 0,
{
    lemma_no_hit_is_zero(section_hits(sections, position));
}

/// A position inside no section's span has section index `0`.
pub proof fn lemma_section_index_falls_back(sections: Seq<SongSection>, position: int)
    requires
        forall|i: int| 0 <= i < sections.len() ==> !sections[i].contains(position),
    ensures
        first_hit_or_zero(section_hits(sections, position)) == 0,
{
    lemma_no_hit_is_zero(section_hits(sections, position));
}

/// A position inside no segment's span, and so every position in a song
/// without segments, has segment index `0`.
pub proof fn lemma_segment_index_falls_back(segments: Seq<SongSegment>, position: int)
    requires
        forall|i: int| 0 <= i < segments.len() ==> !segments[i].contains(position),
    ensures
        first_hit_or_zero(segment_hits(segments, position)) == 0,
{
    lemma_no_hit_is_zero(segment_hits(segments, position));
}

/// A segment index below `lookbehind` starts the window at `0`, whatever the
/// other arguments are.
pub proof fn lemma_window_start_clamps(current_segment_index: nat, lookbehind: nat)
    requires
        current_segment_index < lookbehind,
    ensures
        window_start(current_segment_index as int, lookbehind as int) == 0,
{
}

/// The window never runs past the last segment.
pub proof fn lemma_window_ends_in_song(
    current_segment_index: nat,
    segment_count: nat,
    window_size: nat,
    lookbehind: nat,
)
    ensures
        window_end(
            window_start(current_segment_index as int, lookbehind as int),
            segment_count as int,
            window_size as int,
        ) <= segment_count,
{
}

/// The window is never reversed, as long as it starts within the song.
pub proof fn lemma_window_is_not_reversed(
    current_segment_index: nat,
    segment_count: nat,
    window_size: nat,
    lookbehind: nat,
)
    requires
        window_start(current_segment_index as int, lookbehind as int) <= segment_count,
    ensures
        0 <= window_start(current_segment_index as int, lookbehind as int) <= window_end(
            window_start(current_segment_index as int, lookbehind as int),
            segment_count as int,
            window_size as int,
        ),
{
}

/// The window starts within the song for the index of each of its segments,
/// and for index `0` even where it has none.
pub proof fn lemma_window_starts_in_song(
    current_segment_index: nat,
    segment_count: nat,
    lookbehind: nat,
)
    requires
        current_segment_index < segment_count || current_segment_index == 0,
    ensures
        window_start(current_segment_index as int, lookbehind as int) <= current_segment_index,
        window_start(current_segment_index as int, lookbehind as int) <= segment_count,
{
}

} // verus!
