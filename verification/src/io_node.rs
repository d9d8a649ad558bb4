//! Voice-processing value types of input/output nodes.

use vstd::prelude::*;
use vstd::string::*;

verus! {

/// Mirrors `AVAudioVoiceProcessingOtherAudioDuckingConfiguration.Level`.
#[derive(Debug, Clone, Copy, PartialEq, Eq, Hash, Structural)]
#[non_exhaustive]
pub enum AudioVoiceProcessingOtherAudioDuckingLevel {
    Default,
    Min,
    Mid,
    Max,
    Other(i64),
}

impl AudioVoiceProcessingOtherAudioDuckingLevel {
    /// The value that a raw code stands for; unknown codes are kept in `Other`.
    pub open spec fn of_raw(raw: i64) -> Self {
        if raw == 0 {
            AudioVoiceProcessingOtherAudioDuckingLevel::Default
        } else if raw == 10 {
            AudioVoiceProcessingOtherAudioDuckingLevel::Min
        } else if raw == 20 {
            AudioVoiceProcessingOtherAudioDuckingLevel::Mid
        } else if raw == 30 {
            AudioVoiceProcessingOtherAudioDuckingLevel::Max
        } else {
            AudioVoiceProcessingOtherAudioDuckingLevel::Other(raw)
        }
    }

    /// The raw code of this value.
    pub open spec fn raw_of(self) -> i64 {
        match self {
            AudioVoiceProcessingOtherAudioDuckingLevel::Default => 0,
            AudioVoiceProcessingOtherAudioDuckingLevel::Min => 10,
            AudioVoiceProcessingOtherAudioDuckingLevel::Mid => 20,
            AudioVoiceProcessingOtherAudioDuckingLevel::Max => 30,
            AudioVoiceProcessingOtherAudioDuckingLevel::Other(other) => other,
        }
    }

    /// Whether this value is the one its raw code maps back to (an `Other` never
    /// carries a known code).
    pub open spec fn is_canonical(self) -> bool {
        match self {
            AudioVoiceProcessingOtherAudioDuckingLevel::Other(other) => other != 0 && other != 10 && other != 20 && other != 30,
            _ => true,
        }
    }

    /// Maps a raw code to its value; unknown codes are kept in `Other`.
    pub fn from_raw(raw: i64) -> (r: Self)
        ensures
            r == Self::of_raw(raw),
    {
        match raw {
            0 => AudioVoiceProcessingOtherAudioDuckingLevel::Default,
            10 => AudioVoiceProcessingOtherAudioDuckingLevel::Min,
            20 => AudioVoiceProcessingOtherAudioDuckingLevel::Mid,
            30 => AudioVoiceProcessingOtherAudioDuckingLevel::Max,
            other => AudioVoiceProcessingOtherAudioDuckingLevel::Other(other),
        }
    }

    /// Returns the raw code of this value.
    pub fn as_raw(self) -> (r: i64)
        ensures
            r == self.raw_of(),
    {
        match self {
            AudioVoiceProcessingOtherAudioDuckingLevel::Default => 0,
            AudioVoiceProcessingOtherAudioDuckingLevel::Min => 10,
            AudioVoiceProcessingOtherAudioDuckingLevel::Mid => 20,
            AudioVoiceProcessingOtherAudioDuckingLevel::Max => 30,
            AudioVoiceProcessingOtherAudioDuckingLevel::Other(other) => other,
        }
    }
}

/// Reading back the raw code of a value gives that value when it is canonical, and
/// every raw code survives a decode followed by an encode.
pub proof fn lemma_audio_voice_processing_other_audio_ducking_level_raw_roundtrip(value: AudioVoiceProcessingOtherAudioDuckingLevel, raw: i64)
    ensures
        value.is_canonical() ==> AudioVoiceProcessingOtherAudioDuckingLevel::of_raw(value.raw_of()) == value,
        AudioVoiceProcessingOtherAudioDuckingLevel::of_raw(raw).raw_of() == raw,
        AudioVoiceProcessingOtherAudioDuckingLevel::of_raw(raw).is_canonical(),
{
}

/// Mirrors `AVAudioVoiceProcessingOtherAudioDuckingConfiguration`.
#[derive(Debug, Clone, Copy, PartialEq, Eq, Hash, Structural)]
pub struct AudioVoiceProcessingOtherAudioDuckingConfiguration {
    pub enable_advanced_ducking: bool,
    pub ducking_level: AudioVoiceProcessingOtherAudioDuckingLevel,
}

impl AudioVoiceProcessingOtherAudioDuckingConfiguration {
    /// Creates a ducking configuration value.
    pub fn new(
        enable_advanced_ducking: bool,
        ducking_level: AudioVoiceProcessingOtherAudioDuckingLevel,
    ) -> (r: Self)
        ensures
            r == (AudioVoiceProcessingOtherAudioDuckingConfiguration {
                enable_advanced_ducking,
                ducking_level,
            }),
    {
        AudioVoiceProcessingOtherAudioDuckingConfiguration { enable_advanced_ducking, ducking_level }
    }

    /// Builds the configuration from the fields the bridge reports (the level as its raw code).
    pub fn from_bridge_fields(enable_advanced_ducking: bool, ducking_level_raw: i64) -> (r: Self)
        ensures
            r.enable_advanced_ducking == enable_advanced_ducking,
            r.ducking_level == AudioVoiceProcessingOtherAudioDuckingLevel::of_raw(ducking_level_raw),
    {
        Self::new(
            enable_advanced_ducking,
            AudioVoiceProcessingOtherAudioDuckingLevel::from_raw(ducking_level_raw),
        )
    }
}

/// Mirrors `AVAudioVoiceProcessingSpeechActivityEvent`.
#[derive(Debug, Clone, Copy, PartialEq, Eq, Hash, Structural)]
#[non_exhaustive]
pub enum AudioVoiceProcessingSpeechActivityEvent {
    Started,
    Ended,
    Other(i64),
}

impl AudioVoiceProcessingSpeechActivityEvent {
    /// The value that a raw code stands for; unknown codes are kept in `Other`.
    pub open spec fn of_raw(raw: i64) -> Self {
        if raw == 0 {
            AudioVoiceProcessingSpeechActivityEvent::Started
        } else if raw == 1 {
            AudioVoiceProcessingSpeechActivityEvent::Ended
        } else {
            AudioVoiceProcessingSpeechActivityEvent::Other(raw)
        }
    }

    /// Maps a raw code to its value; unknown codes are kept in `Other`.
    pub fn from_raw(raw: i64) -> (r: Self)
        ensures
            r == Self::of_raw(raw),
    {
        match raw {
            0 => AudioVoiceProcessingSpeechActivityEvent::Started,
            1 => AudioVoiceProcessingSpeechActivityEvent::Ended,
            other => AudioVoiceProcessingSpeechActivityEvent::Other(other),
        }
    }
}
/// The raw code of every `AudioVoiceProcessingOtherAudioDuckingLevel` value, as AVFAudio defines it.
pub proof fn lemma_audio_voice_processing_other_audio_ducking_level_codes()
    ensures
        AudioVoiceProcessingOtherAudioDuckingLevel::Default.raw_of() == 0,
        AudioVoiceProcessingOtherAudioDuckingLevel::Min.raw_of() == 10,
        AudioVoiceProcessingOtherAudioDuckingLevel::Mid.raw_of() == 20,
        AudioVoiceProcessingOtherAudioDuckingLevel::Max.raw_of() == 30,
{
}

/// Which raw code decodes to which `AudioVoiceProcessingOtherAudioDuckingLevel` value: each known code to its own value,
/// and every other code to none of them.
pub proof fn lemma_audio_voice_processing_other_audio_ducking_level_decoding(raw: i64)
    ensures
        (AudioVoiceProcessingOtherAudioDuckingLevel::of_raw(raw) == AudioVoiceProcessingOtherAudioDuckingLevel::Default) <==> raw == 0,
        (AudioVoiceProcessingOtherAudioDuckingLevel::of_raw(raw) == AudioVoiceProcessingOtherAudioDuckingLevel::Min) <==> raw == 10,
        (AudioVoiceProcessingOtherAudioDuckingLevel::of_raw(raw) == AudioVoiceProcessingOtherAudioDuckingLevel::Mid) <==> raw == 20,
        (AudioVoiceProcessingOtherAudioDuckingLevel::of_raw(raw) == AudioVoiceProcessingOtherAudioDuckingLevel::Max) <==> raw == 30,
        (raw != 0 && raw != 10 && raw != 20 && raw != 30) ==> AudioVoiceProcessingOtherAudioDuckingLevel::of_raw(raw) == AudioVoiceProcessingOtherAudioDuckingLevel::Other(raw),
{
}

/// Which raw code decodes to which `AudioVoiceProcessingSpeechActivityEvent` value: each known code to its own value,
/// and every other code to none of them.
pub proof fn lemma_audio_voice_processing_speech_activity_event_decoding(raw: i64)
    ensures
        (AudioVoiceProcessingSpeechActivityEvent::of_raw(raw) == AudioVoiceProcessingSpeechActivityEvent::Started) <==> raw == 0,
        (AudioVoiceProcessingSpeechActivityEvent::of_raw(raw) == AudioVoiceProcessingSpeechActivityEvent::Ended) <==> raw == 1,
        (raw != 0 && raw != 1) ==> AudioVoiceProcessingSpeechActivityEvent::of_raw(raw) == AudioVoiceProcessingSpeechActivityEvent::Other(raw),
{
}

} // verus!
