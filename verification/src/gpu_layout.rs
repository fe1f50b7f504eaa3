//! The records in the layout that a `std140` uniform block has on the GPU.
//!
//! In that layout every array element and every aggregate starts on a multiple
//! of 16 bytes. Four scalars fill one such slot, so a vector of twelve
//! coefficients travels as three groups of four, not as twelve padded
//! elements. The shader declares
//!
//! ```glsl
//! struct SongSection { float start; float duration; float loudness; float tempo; };
//! struct SongSegment {
//!     float start; float duration; float loudnessMaxTime;
//!     vec4 pitches[3]; vec4 timbre[3];
//! };
//! ```
//!
//! and reads 16 bytes for a section and 112 bytes for a segment.

use vstd::prelude::*;
use crate::binary32::Binary32;
use crate::song::{SongSection, SongSegment};
use crate::window::SegmentWindow;

verus! {

/// Bytes that a section takes on the GPU.
pub const SECTION_BYTES: usize = 16;

/// Bytes that a segment takes on the GPU.
pub const SEGMENT_BYTES: usize = 112;

/// A section as the shader reads it.
#[derive(Clone, Copy, Debug, PartialEq, Eq)]
pub struct SongSectionGpu {
    pub start: Binary32,
    pub duration: Binary32,
    pub loudness: Binary32,
    pub tempo: Binary32,
}

/// A segment as the shader reads it: the two vectors in groups of four.
#[derive(Clone, Copy, Debug, PartialEq, Eq)]
pub struct SongSegmentGpu {
    pub start: Binary32,
    pub duration: Binary32,
    pub loudness_max_time: Binary32,
    pub pitches: [[Binary32; 4]; 3],
    pub timbre: [[Binary32; 4]; 3],
}

/// Whether `groups` holds the twelve items of `flat` in order, four to a group.
pub open spec fn is_grouping(groups: [[Binary32; 4]; 3], flat: Seq<Binary32>) -> bool {
    forall|g: int, i: int|
        0 <= g < 3 && 0 <= i < 4 ==> (#[trigger] groups@[g])@[i] == #[trigger] flat[4 * g + i]
}

/// The twelve items of three groups of four, group after group.
pub open spec fn flattened(groups: [[Binary32; 4]; 3]) -> Seq<Binary32> {
    Seq::new(12, |k: int| groups@[k / 4]@[k % 4])
}

/// The bytes of one group: four numbers, 16 bytes.
pub open spec fn group_bytes(group: [Binary32; 4]) -> Seq<u8> {
    group@[0].le_bytes() + group@[1].le_bytes() + group@[2].le_bytes() + group@[3].le_bytes()
}

/// The bytes of three groups, 48 bytes.
pub open spec fn groups_bytes(groups: [[Binary32; 4]; 3]) -> Seq<u8> {
    group_bytes(groups@[0]) + group_bytes(groups@[1]) + group_bytes(groups@[2])
}

impl SongSection {
    /// Whether `gpu` is this section in GPU form: field for field.
    pub open spec fn is_gpu_form(self, gpu: SongSectionGpu) -> bool {
        &&& gpu.start == self.start
        &&& gpu.duration == self.duration
        &&& gpu.loudness == self.loudness
        &&& gpu.tempo == self.tempo
    }

    /// The section in GPU form. Four scalars fill one 16-byte slot, so
    /// nothing moves.
    pub fn to_gpu(&self) -> (gpu: SongSectionGpu)
        ensures
            self.is_gpu_form(gpu),
    {
        SongSectionGpu {
            start: self.start,
            duration: self.duration,
            loudness: self.loudness,
            tempo: self.tempo,
        }
    }
}

impl SongSegment {
    /// Whether `gpu` is this segment in GPU form: the scalars field for
    /// field, each vector in three groups of four.
    pub open spec fn is_gpu_form(self, gpu: SongSegmentGpu) -> bool {
        &&& gpu.start == self.start
        &&& gpu.duration == self.duration
        &&& gpu.loudness_max_time == self.loudness_max_time
        &&& is_grouping(gpu.pitches, self.pitches@)
        &&& is_grouping(gpu.timbre, self.timbre@)
    }

    /// The segment in GPU form.
    pub fn to_gpu(&self) -> (gpu: SongSegmentGpu)
        ensures
            self.is_gpu_form(gpu),
            flattened(gpu.pitches) == self.pitches@,
            flattened(gpu.timbre) == self.timbre@,
    {
        SongSegmentGpu {
            start: self.start,
            duration: self.duration,
            loudness_max_time: self.loudness_max_time,
            pitches: SongSegmentGpu::array_to_vec4s(&self.pitches),
            timbre: SongSegmentGpu::array_to_vec4s(&self.timbre),
        }
    }
}

impl SongSectionGpu {
    /// The 16 bytes of the record: the four fields in order.
    pub open spec fn bytes(self) -> Seq<u8> {
        self.start.le_bytes() + self.duration.le_bytes() + self.loudness.le_bytes()
            + self.tempo.le_bytes()
    }

    /// Appends the record's bytes to `out`.
    pub fn write_to(&self, out: &mut Vec<u8>)
        ensures
            final(out)@ == old(out)@ + self.bytes(),
            self.bytes().len() == SECTION_BYTES,
    {
        push_number(out, self.start);
        push_number(out, self.duration);
        push_number(out, self.loudness);
        push_number(out, self.tempo);
        assert(out@ =~= old(out)@ + self.bytes());
    }
}

impl SongSegmentGpu {
    /// Packs twelve numbers into three groups of four, keeping their order:
    /// items 0 to 3 in the first group, 4 to 7 in the second, 8 to 11 in the
    /// third.
    pub fn array_to_vec4s(floats: &[Binary32; 12]) -> (groups: [[Binary32; 4]; 3])
        ensures
            is_grouping(groups, floats@),
            flattened(groups) == floats@,
    {
        let groups: [[Binary32; 4]; 3] = [
            [floats[0], floats[1], floats[2], floats[3]],
            [floats[4], floats[5], floats[6], floats[7]],
            [floats[8], floats[9], floats[10], floats[11]],
        ];
        proof {
            lemma_grouping_flattens(groups, floats@);
        }
        groups
    }

    /// Unpacks three groups of four into twelve numbers, group after group.
    pub fn vec4s_to_array(groups: &[[Binary32; 4]; 3]) -> (floats: [Binary32; 12])
        ensures
            floats@ == flattened(*groups),
            is_grouping(*groups, floats@),
    {
        let floats: [Binary32; 12] = [
            groups[0][0], groups[0][1], groups[0][2], groups[0][3],
            groups[1][0], groups[1][1], groups[1][2], groups[1][3],
            groups[2][0], groups[2][1], groups[2][2], groups[2][3],
        ];
        assert(floats@ =~= flattened(*groups));
        floats
    }

    /// The 112 bytes of the record: the three scalars, four bytes of
    /// padding that bring the first array to offset 16, then the groups of
    /// `pitches` from offset 16 and those of `timbre` from offset 64.
    #[verifier::opaque]
    pub open spec fn bytes(self) -> Seq<u8> {
        self.start.le_bytes() + self.duration.le_bytes() + self.loudness_max_time.le_bytes()
            + seq![0u8, 0u8, 0u8, 0u8] + groups_bytes(self.pitches) + groups_bytes(self.timbre)
    }

    /// Appends the record's bytes to `out`.
    pub fn write_to(&self, out: &mut Vec<u8>)
        ensures
            final(out)@ == old(out)@ + self.bytes(),
            self.bytes().len() == SEGMENT_BYTES,
    {
        reveal(SongSegmentGpu::bytes);
        push_number(out, self.start);
        push_number(out, self.duration);
        push_number(out, self.loudness_max_time);
        out.push(0);
        out.push(0);
        out.push(0);
        out.push(0);
        assert(out@ =~= old(out)@ + self.start.le_bytes() + self.duration.le_bytes()
            + self.loudness_max_time.le_bytes() + seq![0u8, 0u8, 0u8, 0u8]);
        push_groups(out, &self.pitches);
        push_groups(out, &self.timbre);
        assert(out@ =~= old(out)@ + self.bytes());
    }
}

/// The bytes of a run of sections: record `i` fills bytes `16 * i` to
/// `16 * i + 15`.
pub open spec fn packed_sections(records: Seq<SongSectionGpu>) -> Seq<u8> {
    Seq::new(records.len() * 16, |k: int| records[k / 16].bytes()[k % 16])
}

/// The bytes of a run of segments: record `i` fills bytes `112 * i` to
/// `112 * i + 111`.
pub open spec fn packed_segments(records: Seq<SongSegmentGpu>) -> Seq<u8> {
    Seq::new(records.len() * 112, |k: int| records[k / 112].bytes()[k % 112])
}

/// The bytes of all of `records`, one after the other.
pub fn pack_sections(records: &Vec<SongSectionGpu>) -> (bytes: Vec<u8>)
    ensures
        bytes@ == packed_sections(records@),
        bytes.len() == SECTION_BYTES * records.len(),
{
    let mut bytes: Vec<u8> = Vec::new();
    let mut i: usize = 0;
    while i < records.len()
        invariant
            i <= records.len(),
            bytes@ == packed_sections(records@.subrange(0, i as int)),
        decreases records.len() - i,
    {
        let ghost before = bytes@;
        records[i].write_to(&mut bytes);
        i = i + 1;
        assert(bytes@ =~= packed_sections(records@.subrange(0, i as int))) by {
            assert(bytes@ == before + records[i - 1].bytes());
        }
    }
    assert(records@.subrange(0, i as int) =~= records@);
    bytes
}

/// The bytes of the records that `window` covers, one after the other. The
/// first of them lands at offset 0, wherever the window begins.
pub fn pack_segments(records: &Vec<SongSegmentGpu>, window: SegmentWindow) -> (bytes: Vec<u8>)
    ensures
        bytes@ == packed_segments(window.slice_of(records@)),
        bytes.len() == SEGMENT_BYTES * window.slice_of(records@).len(),
        window.start <= window.end <= records.len() ==> window.slice_of(records@)
            == records@.subrange(window.start as int, window.end as int),
{
    let covered = window.clamp_to(records.len());
    let start = covered.start;
    let end = covered.end;
    let mut bytes: Vec<u8> = Vec::new();
    let mut i: usize = start;
    while i < end
        invariant
            start <= i <= end <= records.len(),
            bytes@ == packed_segments(records@.subrange(start as int, i as int)),
        decreases end - i,
    {
        records[i].write_to(&mut bytes);
        proof {
            let sent = records@.subrange(start as int, i as int);
            lemma_packed_segments_push(sent, records[i as int]);
            assert(records@.subrange(start as int, i + 1) =~= sent.push(records[i as int]));
        }
        i = i + 1;
    }
    bytes
}

/// A section takes one 16-byte slot, with its fields at offsets 0, 4, 8 and 12.
pub proof fn lemma_section_layout(record: SongSectionGpu)
    ensures
        record.bytes().len() == 16,
        record.bytes().subrange(0, 4) == record.start.le_bytes(),
        record.bytes().subrange(4, 8) == record.duration.le_bytes(),
        record.bytes().subrange(8, 12) == record.loudness.le_bytes(),
        record.bytes().subrange(12, 16) == record.tempo.le_bytes(),
{
    lemma_four_parts(
        record.start.le_bytes(),
        record.duration.le_bytes(),
        record.loudness.le_bytes(),
        record.tempo.le_bytes(),
    );
}

/// A segment takes seven 16-byte slots. The scalars lie at offsets 0, 4 and
/// 8, and bytes 12 to 15 are zero. Item `i` of group `g` lies at offset
/// `16 + 16 * g + 4 * i` for `pitches` and at `64 + 16 * g + 4 * i` for
/// `timbre`, so every group starts on a multiple of 16.
pub proof fn lemma_segment_layout(record: SongSegmentGpu)
    ensures
        record.bytes().len() == 112,
        record.bytes().subrange(0, 4) == record.start.le_bytes(),
        record.bytes().subrange(4, 8) == record.duration.le_bytes(),
        record.bytes().subrange(8, 12) == record.loudness_max_time.le_bytes(),
        record.bytes().subrange(12, 16) == seq![0u8, 0u8, 0u8, 0u8],
        forall|g: int, i: int|
            #![trigger record.pitches@[g]@[i]]
            0 <= g < 3 && 0 <= i < 4 ==> record.bytes().subrange(
                16 + 16 * g + 4 * i,
                20 + 16 * g + 4 * i,
            ) == record.pitches@[g]@[i].le_bytes(),
        forall|g: int, i: int|
            #![trigger record.timbre@[g]@[i]]
            0 <= g < 3 && 0 <= i < 4 ==> record.bytes().subrange(
                64 + 16 * g + 4 * i,
                68 + 16 * g + 4 * i,
            ) == record.timbre@[g]@[i].le_bytes(),
{
    reveal(SongSegmentGpu::bytes);
    let bytes = record.bytes();
    let head = record.start.le_bytes() + record.duration.le_bytes()
        + record.loudness_max_time.le_bytes() + seq![0u8, 0u8, 0u8, 0u8];
    let pitches = groups_bytes(record.pitches);
    let timbre = groups_bytes(record.timbre);
    lemma_four_parts(
        record.start.le_bytes(),
        record.duration.le_bytes(),
        record.loudness_max_time.le_bytes(),
        seq![0u8, 0u8, 0u8, 0u8],
    );
    lemma_groups_layout(record.pitches, 0, 0);
    lemma_groups_layout(record.timbre, 0, 0);
    lemma_three_parts(head, pitches, timbre);
    lemma_subrange_twice(bytes, 0, 16, 0, 4);
    lemma_subrange_twice(bytes, 0, 16, 4, 8);
    lemma_subrange_twice(bytes, 0, 16, 8, 12);
    lemma_subrange_twice(bytes, 0, 16, 12, 16);
    assert forall|g: int, i: int| 0 <= g < 3 && 0 <= i < 4 implies bytes.subrange(
        16 + 16 * g + 4 * i,
        20 + 16 * g + 4 * i,
    ) == record.pitches@[g]@[i].le_bytes() by {
        lemma_groups_layout(record.pitches, g, i);
        lemma_subrange_twice(bytes, 16, 64, 16 * g + 4 * i, 16 * g + 4 * i + 4);
    }
    assert forall|g: int, i: int| 0 <= g < 3 && 0 <= i < 4 implies bytes.subrange(
        64 + 16 * g + 4 * i,
        68 + 16 * g + 4 * i,
    ) == record.timbre@[g]@[i].le_bytes() by {
        lemma_groups_layout(record.timbre, g, i);
        lemma_subrange_twice(bytes, 64, 112, 16 * g + 4 * i, 16 * g + 4 * i + 4);
    }
}

/// Item `i` of group `g` lies at offset `16 * g + 4 * i` among the 48 bytes
/// of three groups.
pub proof fn lemma_groups_layout(groups: [[Binary32; 4]; 3], g: int, i: int)
    requires
        0 <= g < 3,
        0 <= i < 4,
    ensures
        groups_bytes(groups).len() == 48,
        groups_bytes(groups).subrange(16 * g + 4 * i, 16 * g + 4 * i + 4) == groups@[g]@[i].le_bytes(),
{
    let bytes = groups_bytes(groups);
    lemma_group_layout(groups@[0], i);
    lemma_group_layout(groups@[1], i);
    lemma_group_layout(groups@[2], i);
    lemma_three_parts(group_bytes(groups@[0]), group_bytes(groups@[1]), group_bytes(groups@[2]));
    lemma_subrange_twice(bytes, 16 * g, 16 * g + 16, 4 * i, 4 * i + 4);
}

/// Item `i` of a group lies at offset `4 * i` among its 16 bytes.
proof fn lemma_group_layout(group: [Binary32; 4], i: int)
    requires
        0 <= i < 4,
    ensures
        group_bytes(group).len() == 16,
        group_bytes(group).subrange(4 * i, 4 * i + 4) == group@[i].le_bytes(),
{
    lemma_four_parts(
        group@[0].le_bytes(),
        group@[1].le_bytes(),
        group@[2].le_bytes(),
        group@[3].le_bytes(),
    );
}

/// Where four runs of four bytes lie in their concatenation.
proof fn lemma_four_parts(a: Seq<u8>, b: Seq<u8>, c: Seq<u8>, d: Seq<u8>)
    requires
        a.len() == 4,
        b.len() == 4,
        c.len() == 4,
        d.len() == 4,
    ensures
        (a + b + c + d).len() == 16,
        (a + b + c + d).subrange(0, 4) == a,
        (a + b + c + d).subrange(4, 8) == b,
        (a + b + c + d).subrange(8, 12) == c,
        (a + b + c + d).subrange(12, 16) == d,
{
    let whole = a + b + c + d;
    assert(whole.subrange(0, 4) =~= a);
    assert(whole.subrange(4, 8) =~= b);
    assert(whole.subrange(8, 12) =~= c);
    assert(whole.subrange(12, 16) =~= d);
}

/// Where three runs of bytes lie in their concatenation.
proof fn lemma_three_parts(a: Seq<u8>, b: Seq<u8>, c: Seq<u8>)
    ensures
        ({
            let whole = a + b + c;
            let p = a.len() as int;
            let q = p + b.len();
            &&& whole.len() == q + c.len()
            &&& whole.subrange(0, p) == a
            &&& whole.subrange(p, q) == b
            &&& whole.subrange(q, q + c.len()) == c
        }),
{
    let whole = a + b + c;
    let p = a.len() as int;
    let q = p + b.len();
    assert(whole.subrange(0, p) =~= a);
    assert(whole.subrange(p, q) =~= b);
    assert(whole.subrange(q, q + c.len()) =~= c);
}

/// A part of a part is a part of the whole.
proof fn lemma_subrange_twice(s: Seq<u8>, a: int, b: int, c: int, d: int)
    requires
        0 <= a <= b <= s.len(),
        0 <= c <= d <= b - a,
    ensures
        s.subrange(a, b).subrange(c, d) == s.subrange(a + c, a + d),
{
    assert(s.subrange(a, b).subrange(c, d) =~= s.subrange(a + c, a + d));
}

/// One more record adds its bytes at the end of the run.
pub proof fn lemma_packed_segments_push(records: Seq<SongSegmentGpu>, next: SongSegmentGpu)
    requires
        next.bytes().len() == 112,
    ensures
        packed_segments(records.push(next)) == packed_segments(records) + next.bytes(),
{
    let longer = records.push(next);
    let block = next.bytes();
    let joined = packed_segments(records) + block;
    assert forall|k: int| 0 <= k < longer.len() * 112 implies packed_segments(longer)[k]
        == joined[k] by {
        if k < records.len() * 112 {
            assert(longer[k / 112] == records[k / 112]);
        } else {
            assert(k / 112 == records.len());
            assert(k % 112 == k - records.len() * 112);
        }
    }
    assert(packed_segments(longer) =~= joined);
}

/// Regrouping loses nothing: three groups of four that hold `flat` in order
/// flatten back to `flat`.
pub proof fn lemma_grouping_flattens(groups: [[Binary32; 4]; 3], flat: Seq<Binary32>)
    requires
        flat.len() == 12,
        is_grouping(groups, flat),
    ensures
        flattened(groups) == flat,
{
    assert forall|k: int| 0 <= k < 12 implies flattened(groups)[k] == flat[k] by {
        let g = k / 4;
        let i = k % 4;
        assert(groups@[g]@[i] == flat[4 * g + i]);
    }
    assert(flattened(groups) =~= flat);
}

/// Appends the four bytes of `x` to `out`.
fn push_number(out: &mut Vec<u8>, x: Binary32)
    ensures
        final(out)@ == old(out)@ + x.le_bytes(),
        x.le_bytes().len() == 4,
{
    let b = x.to_le_bytes();
    out.push(b[0]);
    out.push(b[1]);
    out.push(b[2]);
    out.push(b[3]);
    assert(out@ =~= old(out)@ + x.le_bytes());
}

/// Appends the 16 bytes of one group to `out`.
fn push_group(out: &mut Vec<u8>, group: &[Binary32; 4])
    ensures
        final(out)@ == old(out)@ + group_bytes(*group),
        group_bytes(*group).len() == 16,
{
    push_number(out, group[0]);
    push_number(out, group[1]);
    push_number(out, group[2]);
    push_number(out, group[3]);
    assert(out@ =~= old(out)@ + group_bytes(*group));
}

/// Appends the 48 bytes of three groups to `out`.
fn push_groups(out: &mut Vec<u8>, groups: &[[Binary32; 4]; 3])
    ensures
        final(out)@ == old(out)@ + groups_bytes(*groups),
        groups_bytes(*groups).len() == 48,
{
    push_group(out, &groups[0]);
    push_group(out, &groups[1]);
    push_group(out, &groups[2]);
    assert(out@ =~= old(out)@ + groups_bytes(*groups));
}

} // verus!
