//! Beat ranges, track events and the edits an enumeration callback asks for.

use vstd::prelude::*;

use crate::music_event::MusicEvent;

verus! {

/// Bit pattern of `AVMusicTimeStampEndOfTrack` (`f64::MAX`).
pub const MUSIC_TIME_STAMP_END_OF_TRACK_BITS: u64 = 0x7fef_ffff_ffff_ffffu64;
/// `AVMusicTrackLoopCountForever`.
pub const MUSIC_TRACK_LOOP_COUNT_FOREVER: i64 = -1i64;

/// Mirrors `AVBeatRange`, with both bounds as `f64` bit patterns.
#[derive(Debug, Clone, Copy, PartialEq, Eq, Structural)]
pub struct BeatRange {
    pub start_bits: u64,
    pub length_bits: u64,
}

impl BeatRange {
    pub fn new(start_bits: u64, length_bits: u64) -> (r: Self)
        ensures
            r == (BeatRange { start_bits, length_bits }),
    {
        BeatRange { start_bits, length_bits }
    }
}

/// A concrete event at a specific beat (an `f64` bit pattern) within a track.
#[derive(Debug, Clone, PartialEq, Eq)]
pub struct TrackEvent {
    pub beat_bits: u64,
    pub event: MusicEvent,
}

/// Mutation instructions returned by an event-enumeration callback.
#[derive(Debug, Clone, Copy, PartialEq, Eq, Structural)]
pub struct TrackEventAction {
    /// The beat (an `f64` bit pattern) to move the event to, if it should move.
    pub new_beat_bits: Option<u64>,
    /// Whether to remove the event.
    pub remove: bool,
}

impl Default for TrackEventAction {
    /// Leaves the event where it is.
    fn default() -> (r: Self)
        ensures
            r.new_beat_bits is None,
            !r.remove,
    {
        TrackEventAction { new_beat_bits: None, remove: false }
    }
}

impl TrackEventAction {
    /// The beat to store for an event found at `beat_bits` (unchanged unless a new beat
    /// was given) and whether to remove it.
    pub fn resolve(&self, beat_bits: u64) -> (r: (u64, bool))
        ensures
            r.0 == match self.new_beat_bits {
                Some(b) => b,
                None => beat_bits,
            },
            r.1 == self.remove,
    {
        let beat = match self.new_beat_bits {
            Some(b) => b,
            None => beat_bits,
        };
        (beat, self.remove)
    }
}

} // verus!
