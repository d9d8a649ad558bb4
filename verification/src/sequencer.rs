//! Sequencer load options, bridged dictionary keys and index checks.

use vstd::prelude::*;
use vstd::string::*;

use crate::error::AVAudioError;

verus! {

/// `AVMusicSequenceLoadOptions` bitflags.
#[derive(Debug, Clone, Copy, PartialEq, Eq, Hash, Structural)]
pub struct MusicSequenceLoadOptions(pub usize);

impl MusicSequenceLoadOptions {
    /// Preserve the source sequence's track structure.
    pub fn none() -> (r: Self)
        ensures
            r.0 == 0,
    {
        MusicSequenceLoadOptions(0)
    }

    /// Alias for the default preserve-tracks behavior.
    pub fn preserve_tracks() -> (r: Self)
        ensures
            r.0 == 0,
    {
        MusicSequenceLoadOptions(0)
    }

    /// Split SMF MIDI channels into separate tracks while loading.
    pub fn channels_to_tracks() -> (r: Self)
        ensures
            r.0 == 1,
    {
        MusicSequenceLoadOptions(1)
    }

    /// Returns the raw option bits.
    pub fn bits(self) -> (r: usize)
        ensures
            r == self.0,
    {
        self.0
    }

    /// Constructs options from raw bits.
    pub fn from_bits(bits: usize) -> (r: Self)
        ensures
            r.0 == bits,
    {
        MusicSequenceLoadOptions(bits)
    }

    /// Whether every bit of `other` is set in these options.
    pub open spec fn contains_spec(self, other: Self) -> bool {
        self.0 & other.0 == other.0
    }

    /// Returns whether every bit of `other` is set in these options.
    pub fn contains(self, other: Self) -> (r: bool)
        ensures
            r == self.contains_spec(other),
    {
        (self.0 & other.0) == other.0
    }
}

impl Default for MusicSequenceLoadOptions {
    fn default() -> (r: Self)
        ensures
            r.0 == 0,
    {
        MusicSequenceLoadOptions(0)
    }
}

impl core::ops::BitOr for MusicSequenceLoadOptions {
    type Output = Self;

    fn bitor(self, rhs: Self) -> (r: Self)
        ensures
            r.0 == self.0 | rhs.0,
    {
        MusicSequenceLoadOptions(self.0 | rhs.0)
    }
}

impl vstd::std_specs::ops::BitOrSpecImpl for MusicSequenceLoadOptions {
    open spec fn obeys_bitor_spec() -> bool {
        true
    }

    open spec fn bitor_req(self, rhs: Self) -> bool {
        true
    }

    open spec fn bitor_spec(self, rhs: Self) -> Self {
        MusicSequenceLoadOptions(self.0 | rhs.0)
    }
}

impl core::ops::BitAnd for MusicSequenceLoadOptions {
    type Output = Self;

    fn bitand(self, rhs: Self) -> (r: Self)
        ensures
            r.0 == self.0 & rhs.0,
    {
        MusicSequenceLoadOptions(self.0 & rhs.0)
    }
}

impl vstd::std_specs::ops::BitAndSpecImpl for MusicSequenceLoadOptions {
    open spec fn obeys_bitand_spec() -> bool {
        true
    }

    open spec fn bitand_req(self, rhs: Self) -> bool {
        true
    }

    open spec fn bitand_spec(self, rhs: Self) -> Self {
        MusicSequenceLoadOptions(self.0 & rhs.0)
    }
}

impl core::ops::BitOrAssign for MusicSequenceLoadOptions {
    fn bitor_assign(&mut self, rhs: Self)
        ensures
            final(self).0 == old(self).0 | rhs.0,
    {
        self.0 = self.0 | rhs.0;
    }
}

impl core::ops::BitAndAssign for MusicSequenceLoadOptions {
    fn bitand_assign(&mut self, rhs: Self)
        ensures
            final(self).0 == old(self).0 & rhs.0,
    {
        self.0 = self.0 & rhs.0;
    }
}


/// Set laws of the option bits: every value contains itself and the empty set, a union
/// contains both operands, and an intersection is contained in both.
pub proof fn lemma_music_sequence_load_options_set_laws(a: MusicSequenceLoadOptions, b: MusicSequenceLoadOptions)
    ensures
        a.contains_spec(a),
        a.contains_spec(MusicSequenceLoadOptions(0)),
        MusicSequenceLoadOptions(a.0 | b.0).contains_spec(a),
        MusicSequenceLoadOptions(a.0 | b.0).contains_spec(b),
        a.contains_spec(MusicSequenceLoadOptions(a.0 & b.0)),
        b.contains_spec(MusicSequenceLoadOptions(a.0 & b.0)),
{
    let x = a.0;
    let y = b.0;
    assert(x & x == x) by (bit_vector);
    assert(x & 0 == 0) by (bit_vector);
    assert((x | y) & x == x) by (bit_vector);
    assert((x | y) & y == y) by (bit_vector);
    assert(x & (x & y) == x & y) by (bit_vector);
    assert(y & (x & y) == x & y) by (bit_vector);
}

/// The bridged `AVAudioSequencerInfoDictionaryKey` string constants.
#[derive(Debug, Clone, PartialEq, Eq)]
pub struct AudioSequencerInfoDictionaryKeys {
    pub album: String,
    pub approximate_duration_in_seconds: String,
    pub artist: String,
    pub channel_layout: String,
    pub comments: String,
    pub composer: String,
    pub copyright: String,
    pub encoding_application: String,
    pub genre: String,
    pub isrc: String,
    pub key_signature: String,
    pub lyricist: String,
    pub nominal_bit_rate: String,
    pub recorded_date: String,
    pub source_bit_depth: String,
    pub source_encoder: String,
    pub sub_title: String,
    pub tempo: String,
    pub time_signature: String,
    pub title: String,
    pub track_number: String,
    pub year: String,
}

/// Converts a track index to the bridge's signed index; indices above `isize::MAX` are an
/// `InvalidArgument` error.
pub fn track_index(index: usize) -> (r: Result<isize, AVAudioError>)
    ensures
        index <= isize::MAX ==> r == Ok::<isize, AVAudioError>(index as isize),
        index > isize::MAX ==> (r matches Err(e) && e is InvalidArgument && e.message()
            == "track index exceeds isize::MAX"@),
{
    if index <= isize::MAX as usize {
        Ok(index as isize)
    } else {
        Err(AVAudioError::InvalidArgument(String::from_str("track index exceeds isize::MAX")))
    }
}

} // verus!
