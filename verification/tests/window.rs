use song_visualizer::binary32::Binary32;
use song_visualizer::song::{SongSection, SongSegment};
use song_visualizer::window::{
    current_section_index, current_segment_index, select_window, span_holds, SegmentWindow,
    LOOKBEHIND, WINDOW_SIZE,
};

fn number(x: f32) -> Binary32 {
    Binary32::from_bits(x.to_bits())
}

fn seconds(x: f32) -> i64 {
    number(x).to_nanos()
}

fn section(start: f32, duration: f32) -> SongSection {
    SongSection {
        start: number(start),
        duration: number(duration),
        loudness: number(-5.0),
        tempo: number(120.0),
    }
}

fn segment(start: f32, duration: f32) -> SongSegment {
    SongSegment {
        start: number(start),
        duration: number(duration),
        loudness_max_time: number(0.0),
        pitches: [number(0.0); 12],
        timbre: [number(0.0); 12],
    }
}

#[test]
fn scenario_second_section_is_current() {
    let sections = vec![section(0.0, 10.0), section(10.0, 5.0)];
    assert_eq!(current_section_index(seconds(12.0), &sections), 1);
}

#[test]
fn scenario_window_at_the_start_of_the_song() {
    assert_eq!(select_window(2, 50, 10, 3), SegmentWindow { start: 0, end: 10 });
}

#[test]
fn scenario_window_in_the_middle_of_the_song() {
    assert_eq!(select_window(40, 50, 10, 3), SegmentWindow { start: 37, end: 47 });
}

#[test]
fn scenario_window_cut_off_by_the_segment_count() {
    assert_eq!(select_window(2, 5, 10, 3), SegmentWindow { start: 0, end: 5 });
}

#[test]
fn window_constants() {
    assert_eq!(WINDOW_SIZE, 10);
    assert_eq!(LOOKBEHIND, 3);
}

#[test]
fn section_index_of_an_empty_song_is_zero() {
    assert_eq!(current_section_index(seconds(12.0), &Vec::new()), 0);
    assert_eq!(current_section_index(0, &Vec::new()), 0);
    assert_eq!(current_segment_index(seconds(12.0), &Vec::new()), 0);
}

#[test]
fn section_index_outside_every_section_is_zero() {
    let sections = vec![section(0.0, 10.0), section(10.0, 5.0)];
    assert_eq!(current_section_index(seconds(15.5), &sections), 0);
    assert_eq!(current_section_index(seconds(-1.0), &sections), 0);
    assert_eq!(current_section_index(seconds(100.0), &sections), 0);
}

#[test]
fn span_bounds_are_excluded() {
    let sections = vec![section(0.0, 10.0), section(10.0, 5.0)];
    // on the border between the two sections neither holds the position
    assert_eq!(current_section_index(seconds(10.0), &sections), 0);
    assert_eq!(current_section_index(seconds(10.0) + 1, &sections), 1);
    assert_eq!(current_section_index(seconds(15.0) - 1, &sections), 1);
    assert_eq!(current_section_index(seconds(15.0), &sections), 0);
    assert!(!span_holds(number(0.0), number(10.0), 0));
    assert!(span_holds(number(0.0), number(10.0), 1));
    assert!(span_holds(number(0.0), number(10.0), 9_999_999_999));
    assert!(!span_holds(number(0.0), number(10.0), 10_000_000_000));
}

#[test]
fn first_of_overlapping_sections_wins() {
    let sections = vec![section(20.0, 1.0), section(0.0, 10.0), section(5.0, 10.0), section(6.0, 1.0)];
    assert_eq!(current_section_index(seconds(6.5), &sections), 1);
    assert_eq!(current_section_index(seconds(12.0), &sections), 2);
    assert_eq!(current_section_index(seconds(20.5), &sections), 0);
}

#[test]
fn spans_without_a_number_hold_nothing() {
    assert!(!span_holds(number(f32::NAN), number(10.0), 5));
    assert!(!span_holds(number(0.0), number(f32::NAN), 5));
    assert!(span_holds(number(0.0), number(f32::INFINITY), 5));
    assert!(span_holds(number(f32::NEG_INFINITY), number(f32::INFINITY), -5));
    assert!(!span_holds(number(f32::INFINITY), number(f32::INFINITY), i64::MAX));
    assert!(!span_holds(number(3.0), number(-1.0), seconds(2.5)));
    assert!(span_holds(number(-2.0), number(3.0), seconds(0.5)));
    let sections = vec![section(f32::NAN, 100.0), section(0.0, 100.0)];
    assert_eq!(current_section_index(seconds(1.0), &sections), 1);
}

#[test]
fn segment_index_is_found_like_the_section_index() {
    let segments: Vec<SongSegment> = (0..50).map(|i| segment(i as f32 * 0.5, 0.5)).collect();
    assert_eq!(current_segment_index(seconds(0.25), &segments), 0);
    assert_eq!(current_segment_index(seconds(1.25), &segments), 2);
    assert_eq!(current_segment_index(seconds(20.25), &segments), 40);
    assert_eq!(current_segment_index(seconds(24.75), &segments), 49);
    assert_eq!(current_segment_index(seconds(25.0), &segments), 0);
    assert_eq!(current_segment_index(seconds(1.0), &segments), 0);
}

#[test]
fn window_start_never_wraps() {
    for current in 0..3 {
        for count in [0usize, 1, 5, 50, usize::MAX] {
            let window = select_window(current, count, 10, 3);
            assert_eq!(window.start, 0);
        }
    }
    assert_eq!(select_window(0, 50, 10, usize::MAX).start, 0);
    assert_eq!(select_window(7, 50, 10, 8).start, 0);
    assert_eq!(select_window(8, 50, 10, 8).start, 0);
    assert_eq!(select_window(9, 50, 10, 8).start, 1);
}

#[test]
fn window_stays_within_the_song() {
    for count in 0..30usize {
        for current in 0..count.max(1) {
            let window = select_window(current, count, WINDOW_SIZE, LOOKBEHIND);
            assert!(window.end <= count);
            assert!(window.start <= window.end);
            assert!(window.end - window.start <= WINDOW_SIZE);
            assert!(window.start <= current);
            assert!(current - window.start <= LOOKBEHIND);
        }
    }
}

#[test]
fn window_of_extreme_sizes() {
    assert_eq!(select_window(5, 100, usize::MAX, 3), SegmentWindow { start: 2, end: 100 });
    assert_eq!(
        select_window(usize::MAX, usize::MAX, 10, 3),
        SegmentWindow { start: usize::MAX - 3, end: usize::MAX }
    );
    assert_eq!(select_window(0, 0, 10, 3), SegmentWindow { start: 0, end: 0 });
    assert_eq!(select_window(4, 50, 0, 3), SegmentWindow { start: 1, end: 1 });
    // a current index far beyond the song: the end is still cut off at the count
    assert_eq!(select_window(10, 2, 10, 3), SegmentWindow { start: 7, end: 2 });
}

#[test]
fn window_clamps_to_a_count() {
    let window = SegmentWindow { start: 7, end: 2 };
    assert_eq!(window.clamp_to(2), SegmentWindow { start: 2, end: 2 });
    let window = SegmentWindow { start: 3, end: 13 };
    assert_eq!(window.clamp_to(50), window);
    assert_eq!(window.clamp_to(8), SegmentWindow { start: 3, end: 8 });
    assert_eq!(window.clamp_to(1), SegmentWindow { start: 1, end: 1 });
}
