use song_visualizer::binary32::Binary32;
use song_visualizer::catalog::SongCatalog;
use song_visualizer::gpu_layout::{pack_sections, pack_segments};
use song_visualizer::instance::{Engine, Instance};
use song_visualizer::song::{SongSection, SongSegment};
use song_visualizer::streamer::{
    upload_frame, upload_song, SECTION_BUFFER_BYTES, SEGMENT_BUFFER_BYTES,
};
use song_visualizer::window::SegmentWindow;

const SECOND: u64 = 1_000_000_000;

fn number(x: f32) -> Binary32 {
    Binary32::from_bits(x.to_bits())
}

fn section(start: f32, duration: f32) -> SongSection {
    SongSection {
        start: number(start),
        duration: number(duration),
        loudness: number(-6.0),
        tempo: number(120.0),
    }
}

fn segment(i: usize) -> SongSegment {
    let mut pitches = [number(0.0); 12];
    for k in 0..12 {
        pitches[k] = number((i * 12 + k) as f32);
    }
    SongSegment {
        start: number(i as f32),
        duration: number(1.0),
        loudness_max_time: number(0.5),
        pitches,
        timbre: [number(i as f32); 12],
    }
}

fn song() -> (Vec<SongSection>, Vec<SongSegment>) {
    let sections = vec![section(0.0, 10.0), section(10.0, 5.0), section(15.0, 35.0)];
    let segments = (0..50).map(segment).collect();
    (sections, segments)
}

#[test]
fn buffer_sizes() {
    assert_eq!(SECTION_BUFFER_BYTES, 16 * 64);
    assert_eq!(SEGMENT_BUFFER_BYTES, 112 * 100);
}

#[test]
fn upload_song_sends_every_section() {
    let (sections, segments) = song();
    let catalog = SongCatalog::load(sections, segments);
    let upload = upload_song(&catalog);
    assert_eq!(upload.section_count, 3);
    assert_eq!(upload.section_bytes.len(), 48);
    assert_eq!(upload.section_bytes, pack_sections(catalog.gpu_sections()));
    assert_eq!(&upload.section_bytes[16..20], &10.0f32.to_le_bytes()[..]);
    assert_eq!(&upload.section_bytes[20..24], &5.0f32.to_le_bytes()[..]);
}

#[test]
fn upload_song_of_a_full_song_fills_the_buffer() {
    let sections: Vec<SongSection> = (0..200).map(|i| section(i as f32, 1.0)).collect();
    let upload = upload_song(&SongCatalog::load(sections, Vec::new()));
    assert_eq!(upload.section_count, 64);
    assert_eq!(upload.section_bytes.len(), SECTION_BUFFER_BYTES);
    let empty = upload_song(&SongCatalog::new());
    assert_eq!(empty.section_count, 0);
    assert!(empty.section_bytes.is_empty());
}

#[test]
fn upload_frame_sends_the_window_from_offset_zero() {
    let (sections, segments) = song();
    let catalog = SongCatalog::load(sections, segments);
    let window = SegmentWindow { start: 37, end: 47 };
    let frame = upload_frame(&catalog, 5, -7, 2, 40, window);
    assert_eq!(frame.time, 5);
    assert_eq!(frame.song_position, -7);
    assert_eq!(frame.current_section, 2);
    assert_eq!(frame.current_segment, 3);
    assert_eq!(frame.segment_count, 10);
    assert_eq!(frame.segment_bytes.len(), 1120);
    assert_eq!(frame.segment_bytes, pack_segments(catalog.gpu_segments(), SegmentWindow { start: 37, end: 47 }));
    assert_eq!(&frame.segment_bytes[0..4], &37.0f32.to_le_bytes()[..]);
    assert_eq!(&frame.segment_bytes[112 * 9..112 * 9 + 4], &46.0f32.to_le_bytes()[..]);
}

#[test]
fn upload_frame_cuts_a_window_to_the_song() {
    let (sections, segments) = song();
    let catalog = SongCatalog::load(sections, segments);
    let frame = upload_frame(&catalog, 0, 0, 0, 49, SegmentWindow { start: 46, end: 60 });
    assert_eq!(frame.segment_count, 4);
    assert_eq!(frame.current_segment, 3);
    assert_eq!(frame.segment_bytes, pack_segments(catalog.gpu_segments(), SegmentWindow { start: 46, end: 50 }));
    let frame = upload_frame(&catalog, 0, 0, 0, 0, SegmentWindow { start: 7, end: 2 });
    assert_eq!(frame.segment_count, 0);
    assert_eq!(frame.current_segment, 0);
    assert!(frame.segment_bytes.is_empty());
    let frame = upload_frame(&SongCatalog::new(), 0, 0, 0, 0, SegmentWindow { start: 0, end: 10 });
    assert_eq!(frame.segment_count, 0);
    assert!(frame.segment_bytes.is_empty());
}

#[test]
fn upload_frame_of_the_whole_song_fits_the_buffer() {
    let segments: Vec<SongSegment> = (0..300).map(segment).collect();
    let catalog = SongCatalog::load(Vec::new(), segments);
    let frame = upload_frame(&catalog, 0, 0, 0, 0, SegmentWindow { start: 0, end: usize::MAX });
    assert_eq!(frame.segment_count, 100);
    assert_eq!(frame.segment_bytes.len(), SEGMENT_BUFFER_BYTES);
}

#[test]
fn new_engine_draws_an_empty_frame() {
    let mut engine = Engine::new(5 * SECOND);
    let frame = engine.draw(7 * SECOND);
    assert_eq!(frame.time, 2 * SECOND);
    assert_eq!(frame.song_position, 2 * SECOND as i64);
    assert_eq!(frame.current_section, 0);
    assert_eq!(frame.current_segment, 0);
    assert_eq!(frame.segment_count, 0);
    assert!(frame.segment_bytes.is_empty());
    assert_eq!(engine.last_position(), 2 * SECOND as i64);
}

#[test]
fn set_song_replaces_the_catalog_and_anchors_the_clock() {
    let mut engine = Engine::new(0);
    let (sections, segments) = song();
    let upload = engine.set_song(3 * SECOND, sections.clone(), segments.clone(), number(12.0));
    assert_eq!(upload.section_count, 3);
    assert_eq!(upload.section_bytes, pack_sections(engine.song().gpu_sections()));
    assert_eq!(engine.song().sections(), &sections);
    assert_eq!(engine.song().segments(), &segments);
    assert_eq!(engine.last_position(), 12 * SECOND as i64);
    assert_eq!(engine.playback_clock().current_position(3 * SECOND), 12 * SECOND as i64);
    assert_eq!(engine.playback_clock().elapsed_time(3 * SECOND), 3 * SECOND);
    let upload = engine.set_song(4 * SECOND, vec![section(0.0, 1.0)], Vec::new(), number(0.5));
    assert_eq!(upload.section_count, 1);
    assert_eq!(engine.song().section_count(), 1);
    assert_eq!(engine.song().segment_count(), 0);
    assert_eq!(engine.playback_clock().current_position(4 * SECOND), 500_000_000);
}

#[test]
fn draw_follows_the_playhead() {
    let mut engine = Engine::new(0);
    let (sections, segments) = song();
    engine.set_song(SECOND, sections, segments, number(12.0));
    // half a second later the playhead is at 12.5 s: section 1, segment 12
    let frame = engine.draw(SECOND + SECOND / 2);
    assert_eq!(frame.time, SECOND + SECOND / 2);
    assert_eq!(frame.song_position, 12_500_000_000);
    assert_eq!(frame.current_section, 1);
    assert_eq!(frame.current_segment, 3);
    assert_eq!(frame.segment_count, 10);
    assert_eq!(frame.segment_bytes, pack_segments(engine.song().gpu_segments(), SegmentWindow { start: 9, end: 19 }));
    assert_eq!(engine.last_position(), 12_500_000_000);
    // 28 s after that it is at 40.5 s: section 2, segment 40, window 37 to 47
    let frame = engine.draw(29 * SECOND + SECOND / 2);
    assert_eq!(frame.song_position, 40_500_000_000);
    assert_eq!(frame.current_section, 2);
    assert_eq!(frame.current_segment, 3);
    assert_eq!(frame.segment_count, 10);
    assert_eq!(frame.segment_bytes, pack_segments(engine.song().gpu_segments(), SegmentWindow { start: 37, end: 47 }));
}

#[test]
fn draw_near_the_ends_of_the_song() {
    let mut engine = Engine::new(0);
    let (sections, segments) = song();
    engine.set_song(0, sections, segments, number(2.5));
    let frame = engine.draw(0);
    assert_eq!(frame.current_section, 0);
    assert_eq!(frame.current_segment, 2);
    assert_eq!(frame.segment_count, 10);
    assert_eq!(frame.segment_bytes, pack_segments(engine.song().gpu_segments(), SegmentWindow { start: 0, end: 10 }));
    // at 48.5 s the window ends with the song
    let frame = engine.draw(46 * SECOND);
    assert_eq!(frame.current_section, 2);
    assert_eq!(frame.current_segment, 3);
    assert_eq!(frame.segment_count, 5);
    assert_eq!(frame.segment_bytes, pack_segments(engine.song().gpu_segments(), SegmentWindow { start: 45, end: 50 }));
    // past the end no segment holds the playhead, and the first one stands in
    let frame = engine.draw(100 * SECOND);
    assert_eq!(frame.song_position, 102_500_000_000);
    assert_eq!(frame.current_section, 0);
    assert_eq!(frame.current_segment, 0);
    assert_eq!(frame.segment_count, 10);
    assert_eq!(frame.segment_bytes, pack_segments(engine.song().gpu_segments(), SegmentWindow { start: 0, end: 10 }));
}

#[test]
fn draw_with_a_short_song() {
    let mut engine = Engine::new(0);
    let segments: Vec<SongSegment> = (0..5).map(segment).collect();
    engine.set_song(0, Vec::new(), segments, number(2.5));
    let frame = engine.draw(0);
    assert_eq!(frame.current_section, 0);
    assert_eq!(frame.current_segment, 2);
    assert_eq!(frame.segment_count, 5);
    assert_eq!(frame.segment_bytes.len(), 560);
}

#[test]
fn draw_changes_neither_song_nor_clock() {
    let mut engine = Engine::new(0);
    let (sections, segments) = song();
    engine.set_song(SECOND, sections.clone(), segments.clone(), number(1.0));
    let clock = engine.playback_clock();
    engine.draw(2 * SECOND);
    engine.draw(9 * SECOND);
    assert_eq!(engine.playback_clock(), clock);
    assert_eq!(engine.song().sections(), &sections);
    assert_eq!(engine.song().segments(), &segments);
    // the same reading gives the same frame
    assert_eq!(engine.draw(5 * SECOND), engine.draw(5 * SECOND));
}

#[test]
fn set_song_with_a_position_that_is_no_number() {
    let mut engine = Engine::new(0);
    engine.set_song(0, Vec::new(), Vec::new(), number(f32::NAN));
    assert_eq!(engine.last_position(), 0);
    assert_eq!(engine.draw(7).song_position, 7);
}

#[test]
fn instance_starts_without_a_song() {
    let mut instance = Instance::new();
    assert_eq!(instance.song_time(), 0);
    assert_eq!(instance.song().section_count(), 0);
    assert_eq!(instance.song().segment_count(), 0);
    let frame = instance.draw();
    assert_eq!(frame.current_section, 0);
    assert_eq!(frame.segment_count, 0);
    assert!(frame.segment_bytes.is_empty());
    assert!(frame.song_position >= 0);
    assert_eq!(frame.song_position as u64, frame.time);
    assert_eq!(instance.song_time(), frame.song_position);
}

#[test]
fn instance_runs_on_its_own_clock() {
    let mut instance = Instance::new();
    let (sections, segments) = song();
    let upload = instance.set_song(sections, segments, number(12.0));
    assert_eq!(upload.section_count, 3);
    assert_eq!(upload.section_bytes.len(), 48);
    assert_eq!(instance.song_time(), 12_000_000_000);
    let first = instance.draw();
    assert!(first.song_position >= 12_000_000_000);
    let mut later = instance.draw();
    let mut spins: u64 = 0;
    while later.time == first.time && spins < 50_000_000 {
        later = instance.draw();
        spins += 1;
    }
    assert!(later.time > first.time);
    assert!(later.song_position > first.song_position);
    assert!(later.song_position - first.song_position <= (later.time - first.time) as i64);
    assert_eq!(instance.song_time(), later.song_position);
    // within the first seconds the playhead is still in the second section
    if later.song_position < 15_000_000_000 {
        assert_eq!(later.current_section, 1);
        assert_eq!(later.segment_count, 10);
        assert_eq!(later.current_segment, 3);
    }
}
