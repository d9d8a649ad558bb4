//! Routing-arbitration categories and the interpretation of arbitration results.

use vstd::prelude::*;
use vstd::string::*;

verus! {

/// Mirrors `AVAudioRoutingArbitrationCategory`.
#[derive(Debug, Clone, Copy, PartialEq, Eq, Hash, Structural)]
#[non_exhaustive]
pub enum AudioRoutingArbitrationCategory {
    Playback,
    PlayAndRecord,
    PlayAndRecordVoice,
    Other(i64),
}

impl AudioRoutingArbitrationCategory {
    /// The value that a raw code stands for; unknown codes are kept in `Other`.
    pub open spec fn of_raw(raw: i64) -> Self {
        if raw == 0 {
            AudioRoutingArbitrationCategory::Playback
        } else if raw == 1 {
            AudioRoutingArbitrationCategory::PlayAndRecord
        } else if raw == 2 {
            AudioRoutingArbitrationCategory::PlayAndRecordVoice
        } else {
            AudioRoutingArbitrationCategory::Other(raw)
        }
    }

    /// The raw code of this value.
    pub open spec fn raw_of(self) -> i64 {
        match self {
            AudioRoutingArbitrationCategory::Playback => 0,
            AudioRoutingArbitrationCategory::PlayAndRecord => 1,
            AudioRoutingArbitrationCategory::PlayAndRecordVoice => 2,
            AudioRoutingArbitrationCategory::Other(other) => other,
        }
    }

    /// Whether this value is the one its raw code maps back to (an `Other` never
    /// carries a known code).
    pub open spec fn is_canonical(self) -> bool {
        match self {
            AudioRoutingArbitrationCategory::Other(other) => other != 0 && other != 1 && other != 2,
            _ => true,
        }
    }

    /// Maps a raw code to its value; unknown codes are kept in `Other`.
    pub fn from_raw(raw: i64) -> (r: Self)
        ensures
            r == Self::of_raw(raw),
    {
        match raw {
            0 => AudioRoutingArbitrationCategory::Playback,
            1 => AudioRoutingArbitrationCategory::PlayAndRecord,
            2 => AudioRoutingArbitrationCategory::PlayAndRecordVoice,
            other => AudioRoutingArbitrationCategory::Other(other),
        }
    }

    /// Returns the raw code of this value.
    pub fn as_raw(self) -> (r: i64)
        ensures
            r == self.raw_of(),
    {
        match self {
            AudioRoutingArbitrationCategory::Playback => 0,
            AudioRoutingArbitrationCategory::PlayAndRecord => 1,
            AudioRoutingArbitrationCategory::PlayAndRecordVoice => 2,
            AudioRoutingArbitrationCategory::Other(other) => other,
        }
    }
}

/// Reading back the raw code of a value gives that value when it is canonical, and
/// every raw code survives a decode followed by an encode.
pub proof fn lemma_audio_routing_arbitration_category_raw_roundtrip(value: AudioRoutingArbitrationCategory, raw: i64)
    ensures
        value.is_canonical() ==> AudioRoutingArbitrationCategory::of_raw(value.raw_of()) == value,
        AudioRoutingArbitrationCategory::of_raw(raw).raw_of() == raw,
        AudioRoutingArbitrationCategory::of_raw(raw).is_canonical(),
{
}

/// Access to the process-wide routing-arbitration singleton.
#[derive(Debug, Clone, Copy, PartialEq, Eq, Structural)]
pub struct AudioRoutingArbiter;

impl AudioRoutingArbiter {
    /// Returns the shared routing arbiter.
    pub fn shared() -> (r: Self)
        ensures
            r == AudioRoutingArbiter,
    {
        AudioRoutingArbiter
    }
}

/// The `(default_device_changed, error)` pair delivered to a routing-arbitration callback.
///
/// `message` is the bridge's JSON reply (absent when the bridge sent none) and `parsed`
/// is that reply read as `{defaultDeviceChanged, error}` (absent when it did not parse).
/// No reply means no change and no error; an unparsable reply is passed on as the error
/// text itself.
pub fn routing_begin_outcome(
    message: Option<String>,
    parsed: Option<(bool, Option<String>)>,
) -> (r: (bool, Option<String>))
    ensures
        message is None ==> r == (false, None::<String>),
        message is Some && parsed is Some ==> r == parsed->0,
        message is Some && parsed is None ==> (!r.0 && r.1 == message),
{
    match message {
        None => (false, None),
        Some(json) => match parsed {
            Some(result) => result,
            None => (false, Some(json)),
        },
    }
}

/// The raw code of every `AudioRoutingArbitrationCategory` value, as AVFAudio defines it.
pub proof fn lemma_audio_routing_arbitration_category_codes()
    ensures
        AudioRoutingArbitrationCategory::Playback.raw_of() == 0,
        AudioRoutingArbitrationCategory::PlayAndRecord.raw_of() == 1,
        AudioRoutingArbitrationCategory::PlayAndRecordVoice.raw_of() == 2,
{
}

/// Which raw code decodes to which `AudioRoutingArbitrationCategory` value: each known code to its own value,
/// and every other code to none of them.
pub proof fn lemma_audio_routing_arbitration_category_decoding(raw: i64)
    ensures
        (AudioRoutingArbitrationCategory::of_raw(raw) == AudioRoutingArbitrationCategory::Playback) <==> raw == 0,
        (AudioRoutingArbitrationCategory::of_raw(raw) == AudioRoutingArbitrationCategory::PlayAndRecord) <==> raw == 1,
        (AudioRoutingArbitrationCategory::of_raw(raw) == AudioRoutingArbitrationCategory::PlayAndRecordVoice) <==> raw == 2,
        (raw != 0 && raw != 1 && raw != 2) ==> AudioRoutingArbitrationCategory::of_raw(raw) == AudioRoutingArbitrationCategory::Other(raw),
{
}

} // verus!
