//! The records of the song that is loaded.
//!
//! The catalog keeps every record twice: as it came, for the comparisons with
//! the song position, and in GPU form, for the uploads. Both are made together
//! when a song is loaded and never change afterwards; a new song makes a new
//! catalog.

use vstd::prelude::*;
use crate::gpu_layout::{SongSectionGpu, SongSegmentGpu};
use crate::song::{capped, SongSection, SongSegment, MAX_SECTIONS, MAX_SEGMENTS};

verus! {

/// Whether `gpu` holds the GPU form of each of `sections`, in order.
pub open spec fn sections_in_gpu_form(sections: Seq<SongSection>, gpu: Seq<SongSectionGpu>) -> bool {
    &&& gpu.len() == sections.len()
    &&& forall|i: int| 0 <= i < sections.len() ==> (#[trigger] sections[i]).is_gpu_form(gpu[i])
}

/// Whether `gpu` holds the GPU form of each of `segments`, in order.
pub open spec fn segments_in_gpu_form(segments: Seq<SongSegment>, gpu: Seq<SongSegmentGpu>) -> bool {
    &&& gpu.len() == segments.len()
    &&& forall|i: int| 0 <= i < segments.len() ==> (#[trigger] segments[i]).is_gpu_form(gpu[i])
}

/// The sections and segments of one song, each list also in GPU form.
pub struct SongCatalog {
    sections: Vec<SongSection>,
    segments: Vec<SongSegment>,
    gpu_sections: Vec<SongSectionGpu>,
    gpu_segments: Vec<SongSegmentGpu>,
}

impl SongCatalog {
    #[verifier::type_invariant]
    spec fn well_formed(self) -> bool {
        &&& self.sections.len() <= MAX_SECTIONS
        &&& self.segments.len() <= MAX_SEGMENTS
        &&& sections_in_gpu_form(self.sections@, self.gpu_sections@)
        &&& segments_in_gpu_form(self.segments@, self.gpu_segments@)
    }

    /// The sections, in the order of the song.
    pub closed spec fn section_seq(self) -> Seq<SongSection> {
        self.sections@
    }

    /// The segments, in the order of the song.
    pub closed spec fn segment_seq(self) -> Seq<SongSegment> {
        self.segments@
    }

    /// The sections in GPU form.
    pub closed spec fn gpu_section_seq(self) -> Seq<SongSectionGpu> {
        self.gpu_sections@
    }

    /// The segments in GPU form.
    pub closed spec fn gpu_segment_seq(self) -> Seq<SongSegmentGpu> {
        self.gpu_segments@
    }

    /// The catalog of no song.
    pub fn new() -> (catalog: Self)
        ensures
            catalog.section_seq().len() == 0,
            catalog.segment_seq().len() == 0,
            catalog.gpu_section_seq().len() == 0,
            catalog.gpu_segment_seq().len() == 0,
    {
        SongCatalog {
            sections: Vec::new(),
            segments: Vec::new(),
            gpu_sections: Vec::new(),
            gpu_segments: Vec::new(),
        }
    }

    /// The catalog of a song: its first `MAX_SECTIONS` sections and its first
    /// `MAX_SEGMENTS` segments, in their order, and the GPU form of each.
    /// What lies beyond is dropped.
    pub fn load(sections: Vec<SongSection>, segments: Vec<SongSegment>) -> (catalog: Self)
        ensures
            catalog.section_seq() == capped(sections@, MAX_SECTIONS as nat),
            catalog.segment_seq() == capped(segments@, MAX_SEGMENTS as nat),
            sections_in_gpu_form(catalog.section_seq(), catalog.gpu_section_seq()),
            segments_in_gpu_form(catalog.segment_seq(), catalog.gpu_segment_seq()),
    {
        let mut sections = sections;
        let mut segments = segments;
        sections.truncate(MAX_SECTIONS);
        segments.truncate(MAX_SEGMENTS);
        let mut gpu_sections: Vec<SongSectionGpu> = Vec::new();
        let mut i: usize = 0;
        while i < sections.len()
            invariant
                i <= sections.len(),
                sections_in_gpu_form(sections@.subrange(0, i as int), gpu_sections@),
            decreases sections.len() - i,
        {
            gpu_sections.push(sections[i].to_gpu());
            i = i + 1;
        }
        let mut gpu_segments: Vec<SongSegmentGpu> = Vec::new();
        let mut k: usize = 0;
        while k < segments.len()
            invariant
                k <= segments.len(),
                segments_in_gpu_form(segments@.subrange(0, k as int), gpu_segments@),
            decreases segments.len() - k,
        {
            gpu_segments.push(segments[k].to_gpu());
            k = k + 1;
        }
        assert(sections@.subrange(0, i as int) =~= sections@);
        assert(segments@.subrange(0, k as int) =~= segments@);
        SongCatalog { sections, segments, gpu_sections, gpu_segments }
    }

    /// The number of sections, in either form; at most `MAX_SECTIONS`.
    pub fn section_count(&self) -> (count: usize)
        ensures
            count == self.section_seq().len(),
            count == self.gpu_section_seq().len(),
            count <= MAX_SECTIONS,
    {
        proof {
            use_type_invariant(self);
        }
        self.sections.len()
    }

    /// The number of segments, in either form; at most `MAX_SEGMENTS`.
    pub fn segment_count(&self) -> (count: usize)
        ensures
            count == self.segment_seq().len(),
            count == self.gpu_segment_seq().len(),
            count <= MAX_SEGMENTS,
    {
        proof {
            use_type_invariant(self);
        }
        self.segments.len()
    }

    /// The sections.
    pub fn sections(&self) -> (sections: &Vec<SongSection>)
        ensures
            sections@ == self.section_seq(),
            sections.len() <= MAX_SECTIONS,
    {
        proof {
            use_type_invariant(self);
        }
        &self.sections
    }

    /// The segments.
    pub fn segments(&self) -> (segments: &Vec<SongSegment>)
        ensures
            segments@ == self.segment_seq(),
            segments.len() <= MAX_SEGMENTS,
    {
        proof {
            use_type_invariant(self);
        }
        &self.segments
    }

    /// The sections in GPU form: as many as there are sections, each the
    /// GPU form of the section at its index.
    pub fn gpu_sections(&self) -> (gpu: &Vec<SongSectionGpu>)
        ensures
            gpu@ == self.gpu_section_seq(),
            sections_in_gpu_form(self.section_seq(), gpu@),
            gpu.len() <= MAX_SECTIONS,
    {
        proof {
            use_type_invariant(self);
        }
        &self.gpu_sections
    }

    /// The segments in GPU form: as many as there are segments, each the
    /// GPU form of the segment at its index.
    pub fn gpu_segments(&self) -> (gpu: &Vec<SongSegmentGpu>)
        ensures
            gpu@ == self.gpu_segment_seq(),
            segments_in_gpu_form(self.segment_seq(), gpu@),
            gpu.len() <= MAX_SEGMENTS,
    {
        proof {
            use_type_invariant(self);
        }
        &self.gpu_segments
    }
}

} // verus!
