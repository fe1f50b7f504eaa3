//! What goes to the GPU: once for each song, and once for each frame.
//!
//! Nothing here talks to a GPU. Each function works out the scalar uniforms and
//! the bytes of one upload; the caller that owns the rendering context writes
//! them. Both buffers are written from offset 0, so the shader indexes the
//! segments it receives from zero, whatever their place in the song.

use vstd::prelude::*;
use crate::catalog::SongCatalog;
use crate::gpu_layout::{
    pack_sections, pack_segments, packed_sections, packed_segments, SECTION_BYTES, SEGMENT_BYTES,
};
use crate::song::{MAX_SECTIONS, MAX_SEGMENTS};
use crate::window::SegmentWindow;

verus! {

/// Bytes in the sections buffer: room for `MAX_SECTIONS` sections.
pub const SECTION_BUFFER_BYTES: usize = SECTION_BYTES * MAX_SECTIONS;

/// Bytes in the segments buffer: room for `MAX_SEGMENTS` segments.
pub const SEGMENT_BUFFER_BYTES: usize = SEGMENT_BYTES * MAX_SEGMENTS;

/// The upload that follows the loading of a song.
#[derive(Debug, PartialEq, Eq)]
pub struct SongUpload {
    /// The number of sections, for the uniform that counts them.
    pub section_count: usize,
    /// The sections buffer, from offset 0.
    pub section_bytes: Vec<u8>,
}

/// The upload of one frame.
#[derive(Debug, PartialEq, Eq)]
pub struct FrameUpload {
    /// Nanoseconds since the program started.
    pub time: u64,
    /// The song position, in nanoseconds.
    pub song_position: i64,
    /// The index of the current section in the sections buffer.
    pub current_section: usize,
    /// The index of the current segment among the segments sent.
    pub current_segment: usize,
    /// The number of segments sent.
    pub segment_count: usize,
    /// The segments buffer, from offset 0.
    pub segment_bytes: Vec<u8>,
}

/// The place of segment `current_segment_index` among those sent from
/// `window_start` on.
pub open spec fn index_in_window(current_segment_index: usize, window_start: usize) -> int {
    if current_segment_index >= window_start {
        current_segment_index - window_start
    } else {
        0
    }
}

/// The upload for a song that has just been loaded: the number of its
/// sections, and all of them in GPU form as one run of bytes.
pub fn upload_song(catalog: &SongCatalog) -> (upload: SongUpload)
    ensures
        upload.section_count == catalog.section_seq().len(),
        upload.section_count <= MAX_SECTIONS,
        upload.section_bytes@ == packed_sections(catalog.gpu_section_seq()),
        upload.section_bytes.len() == 16 * upload.section_count,
        upload.section_bytes.len() <= SECTION_BUFFER_BYTES,
{
    let gpu = catalog.gpu_sections();
    let section_bytes = pack_sections(gpu);
    SongUpload { section_count: catalog.section_count(), section_bytes }
}

/// The upload for one frame: the scalars as given, the place of the current
/// segment within the window, and the segments of the window in GPU form as
/// one run of bytes. Of a window that reaches beyond the song only the part
/// within it is sent.
pub fn upload_frame(
    catalog: &SongCatalog,
    time: u64,
    position: i64,
    section_index: usize,
    current_segment_index: usize,
    window: SegmentWindow,
) -> (upload: FrameUpload)
    ensures
        upload.time == time,
        upload.song_position == position,
        upload.current_section == section_index,
        upload.current_segment == index_in_window(current_segment_index, window.start),
        upload.segment_count == window.slice_of(catalog.gpu_segment_seq()).len(),
        upload.segment_bytes@ == packed_segments(window.slice_of(catalog.gpu_segment_seq())),
        upload.segment_bytes.len() == 112 * upload.segment_count,
        upload.segment_bytes.len() <= SEGMENT_BUFFER_BYTES,
{
    let gpu = catalog.gpu_segments();
    let sent = window.clamp_to(gpu.len());
    let segment_bytes = pack_segments(gpu, window);
    let current_segment: usize = if current_segment_index >= window.start {
        current_segment_index - window.start
    } else {
        0
    };
    FrameUpload {
        time,
        song_position: position,
        current_section: section_index,
        current_segment,
        segment_count: sent.end - sent.start,
        segment_bytes,
    }
}

} // verus!
