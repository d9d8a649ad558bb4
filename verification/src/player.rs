//! Scheduling options and completion-callback kinds of player nodes.

use vstd::prelude::*;

use crate::async_api::PlayerNodeCompletionEvent;

verus! {

/// Mirrors `AVAudioPlayerNodeBufferOptions`.
#[derive(Debug, Clone, Copy, PartialEq, Eq, Hash, Structural)]
pub struct AudioPlayerNodeBufferOptions(pub u64);

impl AudioPlayerNodeBufferOptions {
    /// No options.
    pub fn none() -> (r: Self)
        ensures
            r.0 == 0,
    {
        AudioPlayerNodeBufferOptions(0)
    }

    /// Loop the buffer.
    pub fn loops() -> (r: Self)
        ensures
            r.0 == 1,
    {
        AudioPlayerNodeBufferOptions(1)
    }

    /// Interrupt any buffer that is playing.
    pub fn interrupts() -> (r: Self)
        ensures
            r.0 == 2,
    {
        AudioPlayerNodeBufferOptions(2)
    }

    /// Interrupt a looping buffer at the end of its current loop.
    pub fn interrupts_at_loop() -> (r: Self)
        ensures
            r.0 == 4,
    {
        AudioPlayerNodeBufferOptions(4)
    }

    /// Returns the raw option bits.
    pub fn bits(self) -> (r: u64)
        ensures
            r == self.0,
    {
        self.0
    }

    /// Constructs options from raw bits.
    pub fn from_bits(bits: u64) -> (r: Self)
        ensures
            r.0 == bits,
    {
        AudioPlayerNodeBufferOptions(bits)
    }

    /// Whether every bit of `other` is set in these options.
    pub open spec fn contains_spec(self, other: Self) -> bool {
        self.0 & other.0 == other.0
    }

    /// Returns whether every bit of `other` is set in these options.
    pub fn contains(self, other: Self) -> (r: bool)
        ensures
            r == self.contains_spec(other),
    {
        (self.0 & other.0) == other.0
    }
}

impl Default for AudioPlayerNodeBufferOptions {
    fn default() -> (r: Self)
        ensures
            r.0 == 0,
    {
        AudioPlayerNodeBufferOptions(0)
    }
}

impl core::ops::BitOr for AudioPlayerNodeBufferOptions {
    type Output = Self;

    fn bitor(self, rhs: Self) -> (r: Self)
        ensures
            r.0 == self.0 | rhs.0,
    {
        AudioPlayerNodeBufferOptions(self.0 | rhs.0)
    }
}

impl vstd::std_specs::ops::BitOrSpecImpl for AudioPlayerNodeBufferOptions {
    open spec fn obeys_bitor_spec() -> bool {
        true
    }

    open spec fn bitor_req(self, rhs: Self) -> bool {
        true
    }

    open spec fn bitor_spec(self, rhs: Self) -> Self {
        AudioPlayerNodeBufferOptions(self.0 | rhs.0)
    }
}

impl core::ops::BitAnd for AudioPlayerNodeBufferOptions {
    type Output = Self;

    fn bitand(self, rhs: Self) -> (r: Self)
        ensures
            r.0 == self.0 & rhs.0,
    {
        AudioPlayerNodeBufferOptions(self.0 & rhs.0)
    }
}

impl vstd::std_specs::ops::BitAndSpecImpl for AudioPlayerNodeBufferOptions {
    open spec fn obeys_bitand_spec() -> bool {
        true
    }

    open spec fn bitand_req(self, rhs: Self) -> bool {
        true
    }

    open spec fn bitand_spec(self, rhs: Self) -> Self {
        AudioPlayerNodeBufferOptions(self.0 & rhs.0)
    }
}

impl core::ops::BitOrAssign for AudioPlayerNodeBufferOptions {
    fn bitor_assign(&mut self, rhs: Self)
        ensures
            final(self).0 == old(self).0 | rhs.0,
    {
        self.0 = self.0 | rhs.0;
    }
}

impl core::ops::BitAndAssign for AudioPlayerNodeBufferOptions {
    fn bitand_assign(&mut self, rhs: Self)
        ensures
            final(self).0 == old(self).0 & rhs.0,
    {
        self.0 = self.0 & rhs.0;
    }
}

/// Set laws of the option bits: every value contains itself and the empty set, a union
/// contains both operands, and an intersection is contained in both.
pub proof fn lemma_audio_player_node_buffer_options_set_laws(
    a: AudioPlayerNodeBufferOptions,
    b: AudioPlayerNodeBufferOptions,
)
    ensures
        a.contains_spec(a),
        a.contains_spec(AudioPlayerNodeBufferOptions(0)),
        AudioPlayerNodeBufferOptions(a.0 | b.0).contains_spec(a),
        AudioPlayerNodeBufferOptions(a.0 | b.0).contains_spec(b),
        a.contains_spec(AudioPlayerNodeBufferOptions(a.0 & b.0)),
        b.contains_spec(AudioPlayerNodeBufferOptions(a.0 & b.0)),
{
    let x = a.0;
    let y = b.0;
    assert(x & x == x) by (bit_vector);
    assert(x & 0 == 0) by (bit_vector);
    assert((x | y) & x == x) by (bit_vector);
    assert((x | y) & y == y) by (bit_vector);
    assert(x & (x & y) == x & y) by (bit_vector);
    assert(y & (x & y) == x & y) by (bit_vector);
}

/// Mirrors `AVAudioPlayerNodeCompletionCallbackType`: the playback stage after which a
/// scheduled completion fires.
#[derive(Debug, Clone, Copy, PartialEq, Eq, Hash, Structural)]
pub enum AudioPlayerNodeCompletionCallbackType {
    DataConsumed,
    DataRendered,
    DataPlayedBack,
}

impl AudioPlayerNodeCompletionCallbackType {
    /// The raw code of this value.
    pub open spec fn raw_of(self) -> i64 {
        match self {
            AudioPlayerNodeCompletionCallbackType::DataConsumed => 0,
            AudioPlayerNodeCompletionCallbackType::DataRendered => 1,
            AudioPlayerNodeCompletionCallbackType::DataPlayedBack => 2,
        }
    }

    /// The completion event a player reports for this callback type.
    pub open spec fn event(self) -> PlayerNodeCompletionEvent {
        match self {
            AudioPlayerNodeCompletionCallbackType::DataConsumed => PlayerNodeCompletionEvent::DataConsumed,
            AudioPlayerNodeCompletionCallbackType::DataRendered => PlayerNodeCompletionEvent::DataRendered,
            AudioPlayerNodeCompletionCallbackType::DataPlayedBack => PlayerNodeCompletionEvent::DataPlayedBack,
        }
    }

    /// Returns the raw code of this value.
    pub fn as_raw(self) -> (r: i64)
        ensures
            r == self.raw_of(),
    {
        match self {
            AudioPlayerNodeCompletionCallbackType::DataConsumed => 0,
            AudioPlayerNodeCompletionCallbackType::DataRendered => 1,
            AudioPlayerNodeCompletionCallbackType::DataPlayedBack => 2,
        }
    }
}

/// A completion scheduled with a callback type comes back, through the kind code the
/// bridge reports, as the completion event of that same type.
pub proof fn lemma_completion_callback_type_event(t: AudioPlayerNodeCompletionCallbackType)
    ensures
        PlayerNodeCompletionEvent::of_kind(t.raw_of() as i32) == t.event(),
{
}

/// The raw code of every `AudioPlayerNodeCompletionCallbackType` value, as AVFAudio defines it.
pub proof fn lemma_audio_player_node_completion_callback_type_codes()
    ensures
        AudioPlayerNodeCompletionCallbackType::DataConsumed.raw_of() == 0,
        AudioPlayerNodeCompletionCallbackType::DataRendered.raw_of() == 1,
        AudioPlayerNodeCompletionCallbackType::DataPlayedBack.raw_of() == 2,
{
}

} // verus!
