//! The song position as a function of the time on a monotonic clock.
//!
//! The player reports a position only when a song is loaded or sought. Between
//! two such reports the position follows from the time that has passed since
//! the last one, so no message is needed per frame.
//!
//! [`PlaybackClock`] does the arithmetic on plain readings, nanoseconds on some
//! monotonic clock, and never reads a clock itself. [`Stopwatch`] is the
//! clock that the running program hands it.

use vstd::prelude::*;
use instant::Instant;

verus! {

/// `instant::Instant`, a point in time on the machine's monotonic clock.
/// Nothing inside it is visible here.
#[verifier::external_type_specification]
#[verifier::external_body]
pub struct ExInstant(instant::Instant);

/// The nanoseconds from the reading `earlier` to the reading `now`; none where
/// `now` is not the later one.
pub open spec fn nanos_between(earlier: u64, now: u64) -> nat {
    if now >= earlier {
        (now - earlier) as nat
    } else {
        0
    }
}

/// The position that was `offset` when the song was anchored, `elapsed`
/// nanoseconds later. It stops at the largest `i64`.
pub open spec fn position_after(offset: int, elapsed: nat) -> int {
    if offset + elapsed <= i64::MAX {
        offset + elapsed
    } else {
        i64::MAX as int
    }
}

/// When the program started, when the song was last anchored, and where in the
/// song that was.
#[derive(Clone, Copy, Debug, PartialEq, Eq)]
pub struct PlaybackClock {
    process_start: u64,
    song_epoch: u64,
    song_position_offset: i64,
}

impl PlaybackClock {
    /// The reading at which the program started.
    pub closed spec fn process_start(self) -> u64 {
        self.process_start
    }

    /// The reading at which the song was last anchored.
    pub closed spec fn song_epoch(self) -> u64 {
        self.song_epoch
    }

    /// The song position at `song_epoch`, in nanoseconds.
    pub closed spec fn song_position_offset(self) -> i64 {
        self.song_position_offset
    }

    /// The song position at the reading `now`, in nanoseconds.
    pub open spec fn position_at(self, now: u64) -> int {
        position_after(
            self.song_position_offset() as int,
            nanos_between(self.song_epoch(), now),
        )
    }

    /// The nanoseconds since the program started, at the reading `now`.
    pub open spec fn time_at(self, now: u64) -> nat {
        nanos_between(self.process_start(), now)
    }

    /// A clock for a program that starts at the reading `now`, with the song
    /// anchored there at position zero.
    pub fn new(now: u64) -> (clock: Self)
        ensures
            clock.process_start() == now,
            clock.song_epoch() == now,
            clock.song_position_offset() == 0,
    {
        PlaybackClock { process_start: now, song_epoch: now, song_position_offset: 0 }
    }

    /// Anchors the song again: at the reading `now` it is at `position`.
    pub fn reset(&mut self, now: u64, position: i64)
        ensures
            final(self).process_start() == old(self).process_start(),
            final(self).song_epoch() == now,
            final(self).song_position_offset() == position,
            final(self).position_at(now) == position,
    {
        self.song_epoch = now;
        self.song_position_offset = position;
    }

    /// The song position at the reading `now`, in nanoseconds.
    pub fn current_position(&self, now: u64) -> (position: i64)
        ensures
            position == self.position_at(now),
            position >= self.song_position_offset(),
    {
        let elapsed: u64 = if now >= self.song_epoch {
            now - self.song_epoch
        } else {
            0
        };
        let sum: i128 = self.song_position_offset as i128 + elapsed as i128;
        if sum <= i64::MAX as i128 {
            sum as i64
        } else {
            i64::MAX
        }
    }

    /// The nanoseconds since the program started, at the reading `now`.
    pub fn elapsed_time(&self, now: u64) -> (elapsed: u64)
        ensures
            elapsed == self.time_at(now),
    {
        if now >= self.process_start {
            now - self.process_start
        } else {
            0
        }
    }
}

/// Between two anchorings the position never goes back.
pub proof fn lemma_position_is_monotonic(clock: PlaybackClock, t1: u64, t2: u64)
    requires
        t1 <= t2,
    ensures
        clock.position_at(t1) <= clock.position_at(t2),
{
}

/// Two readings of one clock state, both after the anchoring, give positions
/// that lie exactly as far apart as the readings do, as long as the later
/// position has not reached the largest `i64`.
pub proof fn lemma_position_advances_with_time(clock: PlaybackClock, t1: u64, t2: u64)
    requires
        clock.song_epoch() <= t1 <= t2,
        clock.song_position_offset() + (t2 - clock.song_epoch()) <= i64::MAX,
    ensures
        clock.position_at(t2) - clock.position_at(t1) == t2 - t1,
{
}

/// A running clock: the nanoseconds since it was started.
pub struct Stopwatch {
    origin: Instant,
}

impl Stopwatch {
    /// Starts a stopwatch now.
    pub fn start() -> (watch: Self) {
        Stopwatch { origin: read_instant() }
    }

    /// The nanoseconds since the start, held at the largest `u64`.
    pub fn nanos(&self) -> (reading: u64) {
        let now = read_instant();
        reading_of(span_nanos(&now, &self.origin))
    }
}

/// The reading that stands for a span of `span` nanoseconds: the span itself,
/// and the largest `u64` for a span beyond it.
pub open spec fn held_span(span: nat) -> nat {
    if span <= u64::MAX {
        span
    } else {
        u64::MAX as nat
    }
}

/// The reading that stands for a span of `span` nanoseconds.
pub fn reading_of(span: u128) -> (reading: u64)
    ensures
        reading == held_span(span as nat),
{
    if span <= u64::MAX as u128 {
        span as u64
    } else {
        u64::MAX
    }
}

/// Calls `instant::Instant::now`. Nothing is claimed of the reading.
#[verifier::external_body]
fn read_instant() -> (now: Instant) {
    Instant::now()
}

/// Calls `instant::Instant::saturating_duration_since`, which gives the time
/// from `earlier` to `later`, or none where `earlier` is the later one, and
/// hands the duration back as its nanoseconds. Nothing is claimed of the
/// number.
#[verifier::external_body]
fn span_nanos(later: &Instant, earlier: &Instant) -> (nanos: u128) {
    later.saturating_duration_since(*earlier).as_nanos()
}

} // verus!
