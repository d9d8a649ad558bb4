//! Engine state snapshots and manual-rendering codes.

use vstd::prelude::*;
use vstd::string::*;

use crate::error::{from_swift, is_status_error, AVAudioError, STATUS_ENGINE_ERROR};

verus! {

/// Engine state reported by the bridge.
#[derive(Debug, Clone, Copy, PartialEq, Eq, Structural)]
pub struct AudioEngineInfo {
    pub is_running: bool,
}

/// Manual-rendering state reported by the bridge.
#[derive(Debug, Clone, Copy, PartialEq, Eq, Structural)]
pub struct AudioEngineManualRenderingInfo {
    pub is_in_manual_rendering_mode: bool,
    pub manual_rendering_mode_raw: i64,
    pub manual_rendering_maximum_frame_count: u32,
    pub manual_rendering_sample_time: i64,
}

impl AudioEngineManualRenderingInfo {
    /// The manual-rendering mode that the reported raw code stands for.
    pub fn manual_rendering_mode(&self) -> (r: AudioEngineManualRenderingMode)
        ensures
            r == AudioEngineManualRenderingMode::of_raw(self.manual_rendering_mode_raw),
    {
        AudioEngineManualRenderingMode::from_raw(self.manual_rendering_mode_raw)
    }
}

/// Mirrors `AVAudioEngineManualRenderingError`.
#[derive(Debug, Clone, Copy, PartialEq, Eq, Hash, Structural)]
#[non_exhaustive]
pub enum AudioEngineManualRenderingError {
    InvalidMode,
    Initialized,
    NotRunning,
    Other(i32),
}

impl AudioEngineManualRenderingError {
    /// The value that a raw code stands for; unknown codes are kept in `Other`.
    pub open spec fn of_raw(raw: i32) -> Self {
        if raw == -80800 {
            AudioEngineManualRenderingError::InvalidMode
        } else if raw == -80801 {
            AudioEngineManualRenderingError::Initialized
        } else if raw == -80802 {
            AudioEngineManualRenderingError::NotRunning
        } else {
            AudioEngineManualRenderingError::Other(raw)
        }
    }

    /// Maps a raw code to its value; unknown codes are kept in `Other`.
    pub fn from_raw(raw: i32) -> (r: Self)
        ensures
            r == Self::of_raw(raw),
    {
        match raw {
            -80800 => AudioEngineManualRenderingError::InvalidMode,
            -80801 => AudioEngineManualRenderingError::Initialized,
            -80802 => AudioEngineManualRenderingError::NotRunning,
            other => AudioEngineManualRenderingError::Other(other),
        }
    }
}
/// Mirrors `AVAudioEngineManualRenderingMode`.
#[derive(Debug, Clone, Copy, PartialEq, Eq, Hash, Structural)]
#[non_exhaustive]
pub enum AudioEngineManualRenderingMode {
    Offline,
    Realtime,
    Other(i64),
}

impl AudioEngineManualRenderingMode {
    /// The value that a raw code stands for; unknown codes are kept in `Other`.
    pub open spec fn of_raw(raw: i64) -> Self {
        if raw == 0 {
            AudioEngineManualRenderingMode::Offline
        } else if raw == 1 {
            AudioEngineManualRenderingMode::Realtime
        } else {
            AudioEngineManualRenderingMode::Other(raw)
        }
    }

    /// The raw code of this value.
    pub open spec fn raw_of(self) -> i64 {
        match self {
            AudioEngineManualRenderingMode::Offline => 0,
            AudioEngineManualRenderingMode::Realtime => 1,
            AudioEngineManualRenderingMode::Other(other) => other,
        }
    }

    /// Whether this value is the one its raw code maps back to (an `Other` never
    /// carries a known code).
    pub open spec fn is_canonical(self) -> bool {
        match self {
            AudioEngineManualRenderingMode::Other(other) => other != 0 && other != 1,
            _ => true,
        }
    }

    /// Maps a raw code to its value; unknown codes are kept in `Other`.
    pub fn from_raw(raw: i64) -> (r: Self)
        ensures
            r == Self::of_raw(raw),
    {
        match raw {
            0 => AudioEngineManualRenderingMode::Offline,
            1 => AudioEngineManualRenderingMode::Realtime,
            other => AudioEngineManualRenderingMode::Other(other),
        }
    }

    /// Returns the raw code of this value.
    pub fn as_raw(self) -> (r: i64)
        ensures
            r == self.raw_of(),
    {
        match self {
            AudioEngineManualRenderingMode::Offline => 0,
            AudioEngineManualRenderingMode::Realtime => 1,
            AudioEngineManualRenderingMode::Other(other) => other,
        }
    }
}

/// Reading back the raw code of a value gives that value when it is canonical, and
/// every raw code survives a decode followed by an encode.
pub proof fn lemma_audio_engine_manual_rendering_mode_raw_roundtrip(value: AudioEngineManualRenderingMode, raw: i64)
    ensures
        value.is_canonical() ==> AudioEngineManualRenderingMode::of_raw(value.raw_of()) == value,
        AudioEngineManualRenderingMode::of_raw(raw).raw_of() == raw,
        AudioEngineManualRenderingMode::of_raw(raw).is_canonical(),
{
}
/// Mirrors `AVAudioEngineManualRenderingStatus`.
#[derive(Debug, Clone, Copy, PartialEq, Eq, Hash, Structural)]
#[non_exhaustive]
pub enum AudioEngineManualRenderingStatus {
    Error,
    Success,
    InsufficientDataFromInputNode,
    CannotDoInCurrentContext,
    Other(i64),
}

impl AudioEngineManualRenderingStatus {
    /// The value that a raw code stands for; unknown codes are kept in `Other`.
    pub open spec fn of_raw(raw: i64) -> Self {
        if raw == -1 {
            AudioEngineManualRenderingStatus::Error
        } else if raw == 0 {
            AudioEngineManualRenderingStatus::Success
        } else if raw == 1 {
            AudioEngineManualRenderingStatus::InsufficientDataFromInputNode
        } else if raw == 2 {
            AudioEngineManualRenderingStatus::CannotDoInCurrentContext
        } else {
            AudioEngineManualRenderingStatus::Other(raw)
        }
    }

    /// Maps a raw code to its value; unknown codes are kept in `Other`.
    pub fn from_raw(raw: i64) -> (r: Self)
        ensures
            r == Self::of_raw(raw),
    {
        match raw {
            -1 => AudioEngineManualRenderingStatus::Error,
            0 => AudioEngineManualRenderingStatus::Success,
            1 => AudioEngineManualRenderingStatus::InsufficientDataFromInputNode,
            2 => AudioEngineManualRenderingStatus::CannotDoInCurrentContext,
            other => AudioEngineManualRenderingStatus::Other(other),
        }
    }
}

impl AudioEngineManualRenderingStatus {
    /// Interprets the raw result of a render call: `i64::MIN` marks a bridge failure
    /// (an engine error carrying `message`), any other value is a rendering status.
    pub fn from_bridge(raw: i64, message: String) -> (r: Result<Self, AVAudioError>)
        ensures
            raw != i64::MIN ==> r == Ok::<Self, AVAudioError>(Self::of_raw(raw)),
            raw == i64::MIN ==> (r matches Err(e) && is_status_error(STATUS_ENGINE_ERROR, message@, e)),
    {
        if raw == i64::MIN {
            Err(from_swift(STATUS_ENGINE_ERROR, message))
        } else {
            Ok(Self::from_raw(raw))
        }
    }
}

/// The raw code of every `AudioEngineManualRenderingMode` value, as AVFAudio defines it.
pub proof fn lemma_audio_engine_manual_rendering_mode_codes()
    ensures
        AudioEngineManualRenderingMode::Offline.raw_of() == 0,
        AudioEngineManualRenderingMode::Realtime.raw_of() == 1,
{
}

/// Which raw code decodes to which `AudioEngineManualRenderingError` value: each known code to its own value,
/// and every other code to none of them.
pub proof fn lemma_audio_engine_manual_rendering_error_decoding(raw: i32)
    ensures
        (AudioEngineManualRenderingError::of_raw(raw) == AudioEngineManualRenderingError::InvalidMode) <==> raw == -80800,
        (AudioEngineManualRenderingError::of_raw(raw) == AudioEngineManualRenderingError::Initialized) <==> raw == -80801,
        (AudioEngineManualRenderingError::of_raw(raw) == AudioEngineManualRenderingError::NotRunning) <==> raw == -80802,
        (raw != -80800 && raw != -80801 && raw != -80802) ==> AudioEngineManualRenderingError::of_raw(raw) == AudioEngineManualRenderingError::Other(raw),
{
}

/// Which raw code decodes to which `AudioEngineManualRenderingMode` value: each known code to its own value,
/// and every other code to none of them.
pub proof fn lemma_audio_engine_manual_rendering_mode_decoding(raw: i64)
    ensures
        (AudioEngineManualRenderingMode::of_raw(raw) == AudioEngineManualRenderingMode::Offline) <==> raw == 0,
        (AudioEngineManualRenderingMode::of_raw(raw) == AudioEngineManualRenderingMode::Realtime) <==> raw == 1,
        (raw != 0 && raw != 1) ==> AudioEngineManualRenderingMode::of_raw(raw) == AudioEngineManualRenderingMode::Other(raw),
{
}

/// Which raw code decodes to which `AudioEngineManualRenderingStatus` value: each known code to its own value,
/// and every other code to none of them.
pub proof fn lemma_audio_engine_manual_rendering_status_decoding(raw: i64)
    ensures
        (AudioEngineManualRenderingStatus::of_raw(raw) == AudioEngineManualRenderingStatus::Error) <==> raw == -1,
        (AudioEngineManualRenderingStatus::of_raw(raw) == AudioEngineManualRenderingStatus::Success) <==> raw == 0,
        (AudioEngineManualRenderingStatus::of_raw(raw) == AudioEngineManualRenderingStatus::InsufficientDataFromInputNode) <==> raw == 1,
        (AudioEngineManualRenderingStatus::of_raw(raw) == AudioEngineManualRenderingStatus::CannotDoInCurrentContext) <==> raw == 2,
        (raw != -1 && raw != 0 && raw != 1 && raw != 2) ==> AudioEngineManualRenderingStatus::of_raw(raw) == AudioEngineManualRenderingStatus::Other(raw),
{
}

} // verus!
