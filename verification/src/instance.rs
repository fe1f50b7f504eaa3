//! The two operations that drive the visualisation: loading a song, and
//! producing a frame.
//!
//! [`Engine`] holds the state and takes the time as an argument, so that what it
//! does is a function of its inputs. [`Instance`] is an engine with a running
//! clock of its own.

use vstd::prelude::*;
use crate::binary32::Binary32;
use crate::catalog::{sections_in_gpu_form, segments_in_gpu_form, SongCatalog};
use crate::clock::{PlaybackClock, Stopwatch};
use crate::gpu_layout::{packed_sections, packed_segments};
use crate::song::{capped, SongSection, SongSegment, MAX_SECTIONS, MAX_SEGMENTS};
use crate::streamer::{upload_frame, upload_song, FrameUpload, SongUpload};
use crate::window::{
    current_section_index, current_segment_index, first_hit_or_zero, section_hits, segment_hits,
    select_window, window_end, window_start, LOOKBEHIND, WINDOW_SIZE,
};

verus! {

/// The song that is loaded, the clock that places the playhead in it, and the
/// position that was last worked out.
pub struct Engine {
    clock: PlaybackClock,
    catalog: SongCatalog,
    song_position: i64,
}

impl Engine {
    /// The playback clock.
    pub closed spec fn clock(self) -> PlaybackClock {
        self.clock
    }

    /// The catalog of the song that is loaded.
    pub closed spec fn catalog(self) -> SongCatalog {
        self.catalog
    }

    /// The song position that was last worked out, in nanoseconds.
    pub closed spec fn song_position(self) -> i64 {
        self.song_position
    }

    /// The index of the section under the playhead at the reading `now`.
    pub open spec fn section_at(self, now: u64) -> int {
        first_hit_or_zero(section_hits(self.catalog().section_seq(), self.clock().position_at(now)))
    }

    /// The index of the segment under the playhead at the reading `now`.
    pub open spec fn segment_at(self, now: u64) -> int {
        first_hit_or_zero(segment_hits(self.catalog().segment_seq(), self.clock().position_at(now)))
    }

    /// The index of the first segment that is sent at the reading `now`.
    pub open spec fn window_start_at(self, now: u64) -> int {
        window_start(self.segment_at(now), LOOKBEHIND as int)
    }

    /// The index after the last segment that is sent at the reading `now`.
    pub open spec fn window_end_at(self, now: u64) -> int {
        window_end(
            self.window_start_at(now),
            self.catalog().segment_seq().len() as int,
            WINDOW_SIZE as int,
        )
    }

    /// Whether `frame` is the upload of the frame at the reading `now`.
    pub open spec fn is_frame_at(self, now: u64, frame: FrameUpload) -> bool {
        &&& frame.time == self.clock().time_at(now)
        &&& frame.song_position == self.clock().position_at(now)
        &&& frame.current_section == self.section_at(now)
        &&& frame.current_segment == self.segment_at(now) - self.window_start_at(now)
        &&& frame.segment_count == self.window_end_at(now) - self.window_start_at(now)
        &&& frame.segment_bytes@ == packed_segments(
            self.catalog().gpu_segment_seq().subrange(
                self.window_start_at(now),
                self.window_end_at(now),
            ),
        )
    }

    /// An engine without a song, for a program that starts at the reading `now`.
    pub fn new(now: u64) -> (engine: Self)
        ensures
            engine.clock().process_start() == now,
            engine.clock().song_epoch() == now,
            engine.clock().song_position_offset() == 0,
            engine.catalog().section_seq().len() == 0,
            engine.catalog().segment_seq().len() == 0,
            engine.catalog().gpu_section_seq().len() == 0,
            engine.catalog().gpu_segment_seq().len() == 0,
            engine.song_position() == 0,
    {
        Engine { clock: PlaybackClock::new(now), catalog: SongCatalog::new(), song_position: 0 }
    }

    /// Loads a song that, at the reading `now`, is `position` seconds in.
    /// The catalog is replaced as a whole, the clock is anchored at `now`, and
    /// the upload for the sections buffer comes back.
    pub fn set_song(
        &mut self,
        now: u64,
        sections: Vec<SongSection>,
        segments: Vec<SongSegment>,
        position: Binary32,
    ) -> (upload: SongUpload)
        ensures
            final(self).catalog().section_seq() == capped(sections@, MAX_SECTIONS as nat),
            final(self).catalog().segment_seq() == capped(segments@, MAX_SEGMENTS as nat),
            sections_in_gpu_form(
                final(self).catalog().section_seq(),
                final(self).catalog().gpu_section_seq(),
            ),
            segments_in_gpu_form(
                final(self).catalog().segment_seq(),
                final(self).catalog().gpu_segment_seq(),
            ),
            final(self).clock().process_start() == old(self).clock().process_start(),
            final(self).clock().song_epoch() == now,
            final(self).clock().song_position_offset() == position.nanos(),
            final(self).song_position() == position.nanos(),
            upload.section_count == final(self).catalog().section_seq().len(),
            upload.section_count <= MAX_SECTIONS,
            upload.section_bytes@ == packed_sections(final(self).catalog().gpu_section_seq()),
            upload.section_bytes.len() == 16 * upload.section_count,
    {
        let offset = position.to_nanos();
        self.catalog = SongCatalog::load(sections, segments);
        self.clock.reset(now, offset);
        self.song_position = offset;
        upload_song(&self.catalog)
    }

    /// Works out the frame at the reading `now`: the time and the song
    /// position, the section and the segment under the playhead, and the window
    /// of segments around it. Neither the song nor the clock changes.
    pub fn draw(&mut self, now: u64) -> (frame: FrameUpload)
        ensures
            old(self).is_frame_at(now, frame),
            final(self).clock() == old(self).clock(),
            final(self).catalog() == old(self).catalog(),
            final(self).song_position() == frame.song_position,
            frame.current_section == 0 || frame.current_section < old(
                self,
            ).catalog().section_seq().len(),
            frame.current_segment <= LOOKBEHIND,
            frame.segment_count <= WINDOW_SIZE,
            frame.segment_bytes.len() == 112 * frame.segment_count,
    {
        let time = self.clock.elapsed_time(now);
        let position = self.clock.current_position(now);
        self.song_position = position;
        let section = current_section_index(position, self.catalog.sections());
        let segment = current_segment_index(position, self.catalog.segments());
        let window = select_window(segment, self.catalog.segment_count(), WINDOW_SIZE, LOOKBEHIND);
        upload_frame(&self.catalog, time, position, section, segment, window)
    }

    /// The song position that was last worked out, in nanoseconds.
    pub fn last_position(&self) -> (position: i64)
        ensures
            position == self.song_position(),
    {
        self.song_position
    }

    /// The catalog of the song that is loaded.
    pub fn song(&self) -> (catalog: &SongCatalog)
        ensures
            *catalog == self.catalog(),
    {
        &self.catalog
    }

    /// The playback clock.
    pub fn playback_clock(&self) -> (clock: PlaybackClock)
        ensures
            clock == self.clock(),
    {
        self.clock
    }
}

/// An engine that reads the time from a clock of its own, started with it.
pub struct Instance {
    stopwatch: Stopwatch,
    engine: Engine,
}

impl Instance {
    /// The engine.
    pub closed spec fn engine(self) -> Engine {
        self.engine
    }

    /// Starts the clock, with no song loaded.
    pub fn new() -> (instance: Self)
        ensures
            instance.engine().clock().song_position_offset() == 0,
            instance.engine().clock().song_epoch() == instance.engine().clock().process_start(),
            instance.engine().catalog().section_seq().len() == 0,
            instance.engine().catalog().segment_seq().len() == 0,
            instance.engine().catalog().gpu_section_seq().len() == 0,
            instance.engine().catalog().gpu_segment_seq().len() == 0,
            instance.engine().song_position() == 0,
    {
        let stopwatch = Stopwatch::start();
        let now = stopwatch.nanos();
        Instance { stopwatch, engine: Engine::new(now) }
    }

    /// Loads a song that is `position` seconds in at this moment. See
    /// [`Engine::set_song`]; the reading at which the clock is anchored is the
    /// one thing that is not known beforehand.
    pub fn set_song(
        &mut self,
        sections: Vec<SongSection>,
        segments: Vec<SongSegment>,
        position: Binary32,
    ) -> (upload: SongUpload)
        ensures
            final(self).engine().catalog().section_seq() == capped(sections@, MAX_SECTIONS as nat),
            final(self).engine().catalog().segment_seq() == capped(segments@, MAX_SEGMENTS as nat),
            sections_in_gpu_form(
                final(self).engine().catalog().section_seq(),
                final(self).engine().catalog().gpu_section_seq(),
            ),
            segments_in_gpu_form(
                final(self).engine().catalog().segment_seq(),
                final(self).engine().catalog().gpu_segment_seq(),
            ),
            final(self).engine().clock().process_start() == old(
                self,
            ).engine().clock().process_start(),
            final(self).engine().clock().song_position_offset() == position.nanos(),
            final(self).engine().song_position() == position.nanos(),
            upload.section_count == final(self).engine().catalog().section_seq().len(),
            upload.section_count <= MAX_SECTIONS,
            upload.section_bytes@ == packed_sections(
                final(self).engine().catalog().gpu_section_seq(),
            ),
            upload.section_bytes.len() == 16 * upload.section_count,
    {
        let now = self.stopwatch.nanos();
        self.engine.set_song(now, sections, segments, position)
    }

    /// Works out the frame of this moment. See [`Engine::draw`]: the frame is
    /// the one of some reading of the clock.
    pub fn draw(&mut self) -> (frame: FrameUpload)
        ensures
            exists|now: u64| old(self).engine().is_frame_at(now, frame),
            final(self).engine().clock() == old(self).engine().clock(),
            final(self).engine().catalog() == old(self).engine().catalog(),
            final(self).engine().song_position() == frame.song_position,
            frame.current_section == 0 || frame.current_section < old(
                self,
            ).engine().catalog().section_seq().len(),
            frame.current_segment <= LOOKBEHIND,
            frame.segment_count <= WINDOW_SIZE,
            frame.segment_bytes.len() == 112 * frame.segment_count,
    {
        let now = self.stopwatch.nanos();
        let frame = self.engine.draw(now);
        assert(old(self).engine().is_frame_at(now, frame));
        frame
    }

    /// The song position that was last worked out, in nanoseconds.
    pub fn song_time(&self) -> (position: i64)
        ensures
            position == self.engine().song_position(),
    {
        self.engine.last_position()
    }

    /// The catalog of the song that is loaded.
    pub fn song(&self) -> (catalog: &SongCatalog)
        ensures
            *catalog == self.engine().catalog(),
    {
        self.engine.song()
    }
}

} // verus!
