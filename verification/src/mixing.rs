//! 3D-mixing modes and the decoding of their raw codes.

use vstd::prelude::*;
use vstd::string::*;

use crate::error::AVAudioError;
use crate::text::{append_int_decimal, int_decimal};

verus! {

/// Mirrors `AVAudio3DMixingRenderingAlgorithm`.
#[derive(Debug, Clone, Copy, PartialEq, Eq, Hash, Structural)]
pub enum Audio3DMixingRenderingAlgorithm {
    EqualPowerPanning,
    SphericalHead,
    Hrtf,
    SoundField,
    StereoPassThrough,
    HrtfHighQuality,
    Auto,
}

impl Audio3DMixingRenderingAlgorithm {
    /// The raw code of this value.
    pub open spec fn raw_of(self) -> i64 {
        match self {
            Audio3DMixingRenderingAlgorithm::EqualPowerPanning => 0,
            Audio3DMixingRenderingAlgorithm::SphericalHead => 1,
            Audio3DMixingRenderingAlgorithm::Hrtf => 2,
            Audio3DMixingRenderingAlgorithm::SoundField => 3,
            Audio3DMixingRenderingAlgorithm::StereoPassThrough => 5,
            Audio3DMixingRenderingAlgorithm::HrtfHighQuality => 6,
            Audio3DMixingRenderingAlgorithm::Auto => 7,
        }
    }

    /// The value a raw code stands for, if any.
    pub open spec fn of_raw(raw: i64) -> Option<Self> {
        if raw == 0 {
            Some(Audio3DMixingRenderingAlgorithm::EqualPowerPanning)
        } else if raw == 1 {
            Some(Audio3DMixingRenderingAlgorithm::SphericalHead)
        } else if raw == 2 {
            Some(Audio3DMixingRenderingAlgorithm::Hrtf)
        } else if raw == 3 {
            Some(Audio3DMixingRenderingAlgorithm::SoundField)
        } else if raw == 5 {
            Some(Audio3DMixingRenderingAlgorithm::StereoPassThrough)
        } else if raw == 6 {
            Some(Audio3DMixingRenderingAlgorithm::HrtfHighQuality)
        } else if raw == 7 {
            Some(Audio3DMixingRenderingAlgorithm::Auto)
        } else {
            None
        }
    }

    /// Returns the raw code of this value.
    pub fn as_raw(self) -> (r: i64)
        ensures
            r == self.raw_of(),
    {
        match self {
            Audio3DMixingRenderingAlgorithm::EqualPowerPanning => 0,
            Audio3DMixingRenderingAlgorithm::SphericalHead => 1,
            Audio3DMixingRenderingAlgorithm::Hrtf => 2,
            Audio3DMixingRenderingAlgorithm::SoundField => 3,
            Audio3DMixingRenderingAlgorithm::StereoPassThrough => 5,
            Audio3DMixingRenderingAlgorithm::HrtfHighQuality => 6,
            Audio3DMixingRenderingAlgorithm::Auto => 7,
        }
    }
}

/// Decodes a raw `AVAudio3DMixingRenderingAlgorithm` code read from a mixing node; an unknown code is an
/// `OperationFailed` error naming it.
pub fn decode_rendering_algorithm(raw: i64) -> (r: Result<Audio3DMixingRenderingAlgorithm, AVAudioError>)
    ensures
        match r {
            Ok(v) => Audio3DMixingRenderingAlgorithm::of_raw(raw) == Some(v),
            Err(e) => Audio3DMixingRenderingAlgorithm::of_raw(raw) is None && e is OperationFailed && e.message()
                == "unknown AVAudio3DMixingRenderingAlgorithm raw value: "@ + int_decimal(raw as int),
        },
{
    match raw {
        0 => Ok(Audio3DMixingRenderingAlgorithm::EqualPowerPanning),
        1 => Ok(Audio3DMixingRenderingAlgorithm::SphericalHead),
        2 => Ok(Audio3DMixingRenderingAlgorithm::Hrtf),
        3 => Ok(Audio3DMixingRenderingAlgorithm::SoundField),
        5 => Ok(Audio3DMixingRenderingAlgorithm::StereoPassThrough),
        6 => Ok(Audio3DMixingRenderingAlgorithm::HrtfHighQuality),
        7 => Ok(Audio3DMixingRenderingAlgorithm::Auto),
        other => {
            let mut text = String::from_str("unknown AVAudio3DMixingRenderingAlgorithm raw value: ");
            append_int_decimal(&mut text, other);
            Err(AVAudioError::OperationFailed(text))
        },
    }
}

/// Every value decodes back from its raw code.
pub proof fn lemma_rendering_algorithm_roundtrip(v: Audio3DMixingRenderingAlgorithm)
    ensures
        Audio3DMixingRenderingAlgorithm::of_raw(v.raw_of()) == Some(v),
{
}
/// Mirrors `AVAudio3DMixingSourceMode`.
#[derive(Debug, Clone, Copy, PartialEq, Eq, Hash, Structural)]
pub enum Audio3DMixingSourceMode {
    SpatializeIfMono,
    Bypass,
    PointSource,
    AmbienceBed,
}

impl Audio3DMixingSourceMode {
    /// The raw code of this value.
    pub open spec fn raw_of(self) -> i64 {
        match self {
            Audio3DMixingSourceMode::SpatializeIfMono => 0,
            Audio3DMixingSourceMode::Bypass => 1,
            Audio3DMixingSourceMode::PointSource => 2,
            Audio3DMixingSourceMode::AmbienceBed => 3,
        }
    }

    /// The value a raw code stands for, if any.
    pub open spec fn of_raw(raw: i64) -> Option<Self> {
        if raw == 0 {
            Some(Audio3DMixingSourceMode::SpatializeIfMono)
        } else if raw == 1 {
            Some(Audio3DMixingSourceMode::Bypass)
        } else if raw == 2 {
            Some(Audio3DMixingSourceMode::PointSource)
        } else if raw == 3 {
            Some(Audio3DMixingSourceMode::AmbienceBed)
        } else {
            None
        }
    }

    /// Returns the raw code of this value.
    pub fn as_raw(self) -> (r: i64)
        ensures
            r == self.raw_of(),
    {
        match self {
            Audio3DMixingSourceMode::SpatializeIfMono => 0,
            Audio3DMixingSourceMode::Bypass => 1,
            Audio3DMixingSourceMode::PointSource => 2,
            Audio3DMixingSourceMode::AmbienceBed => 3,
        }
    }
}

/// Decodes a raw `AVAudio3DMixingSourceMode` code read from a mixing node; an unknown code is an
/// `OperationFailed` error naming it.
pub fn decode_source_mode(raw: i64) -> (r: Result<Audio3DMixingSourceMode, AVAudioError>)
    ensures
        match r {
            Ok(v) => Audio3DMixingSourceMode::of_raw(raw) == Some(v),
            Err(e) => Audio3DMixingSourceMode::of_raw(raw) is None && e is OperationFailed && e.message()
                == "unknown AVAudio3DMixingSourceMode raw value: "@ + int_decimal(raw as int),
        },
{
    match raw {
        0 => Ok(Audio3DMixingSourceMode::SpatializeIfMono),
        1 => Ok(Audio3DMixingSourceMode::Bypass),
        2 => Ok(Audio3DMixingSourceMode::PointSource),
        3 => Ok(Audio3DMixingSourceMode::AmbienceBed),
        other => {
            let mut text = String::from_str("unknown AVAudio3DMixingSourceMode raw value: ");
            append_int_decimal(&mut text, other);
            Err(AVAudioError::OperationFailed(text))
        },
    }
}

/// Every value decodes back from its raw code.
pub proof fn lemma_source_mode_roundtrip(v: Audio3DMixingSourceMode)
    ensures
        Audio3DMixingSourceMode::of_raw(v.raw_of()) == Some(v),
{
}
/// Mirrors `AVAudio3DMixingPointSourceInHeadMode`.
#[derive(Debug, Clone, Copy, PartialEq, Eq, Hash, Structural)]
pub enum Audio3DMixingPointSourceInHeadMode {
    Mono,
    Bypass,
}

impl Audio3DMixingPointSourceInHeadMode {
    /// The raw code of this value.
    pub open spec fn raw_of(self) -> i64 {
        match self {
            Audio3DMixingPointSourceInHeadMode::Mono => 0,
            Audio3DMixingPointSourceInHeadMode::Bypass => 1,
        }
    }

    /// The value a raw code stands for, if any.
    pub open spec fn of_raw(raw: i64) -> Option<Self> {
        if raw == 0 {
            Some(Audio3DMixingPointSourceInHeadMode::Mono)
        } else if raw == 1 {
            Some(Audio3DMixingPointSourceInHeadMode::Bypass)
        } else {
            None
        }
    }

    /// Returns the raw code of this value.
    pub fn as_raw(self) -> (r: i64)
        ensures
            r == self.raw_of(),
    {
        match self {
            Audio3DMixingPointSourceInHeadMode::Mono => 0,
            Audio3DMixingPointSourceInHeadMode::Bypass => 1,
        }
    }
}

/// Decodes a raw `AVAudio3DMixingPointSourceInHeadMode` code read from a mixing node; an unknown code is an
/// `OperationFailed` error naming it.
pub fn decode_point_source_in_head_mode(raw: i64) -> (r: Result<Audio3DMixingPointSourceInHeadMode, AVAudioError>)
    ensures
        match r {
            Ok(v) => Audio3DMixingPointSourceInHeadMode::of_raw(raw) == Some(v),
            Err(e) => Audio3DMixingPointSourceInHeadMode::of_raw(raw) is None && e is OperationFailed && e.message()
                == "unknown AVAudio3DMixingPointSourceInHeadMode raw value: "@ + int_decimal(raw as int),
        },
{
    match raw {
        0 => Ok(Audio3DMixingPointSourceInHeadMode::Mono),
        1 => Ok(Audio3DMixingPointSourceInHeadMode::Bypass),
        other => {
            let mut text = String::from_str("unknown AVAudio3DMixingPointSourceInHeadMode raw value: ");
            append_int_decimal(&mut text, other);
            Err(AVAudioError::OperationFailed(text))
        },
    }
}

/// Every value decodes back from its raw code.
pub proof fn lemma_point_source_in_head_mode_roundtrip(v: Audio3DMixingPointSourceInHeadMode)
    ensures
        Audio3DMixingPointSourceInHeadMode::of_raw(v.raw_of()) == Some(v),
{
}
/// The raw code of every `Audio3DMixingRenderingAlgorithm` value, as AVFAudio defines it.
pub proof fn lemma_audio3d_mixing_rendering_algorithm_codes()
    ensures
        Audio3DMixingRenderingAlgorithm::EqualPowerPanning.raw_of() == 0,
        Audio3DMixingRenderingAlgorithm::SphericalHead.raw_of() == 1,
        Audio3DMixingRenderingAlgorithm::Hrtf.raw_of() == 2,
        Audio3DMixingRenderingAlgorithm::SoundField.raw_of() == 3,
        Audio3DMixingRenderingAlgorithm::StereoPassThrough.raw_of() == 5,
        Audio3DMixingRenderingAlgorithm::HrtfHighQuality.raw_of() == 6,
        Audio3DMixingRenderingAlgorithm::Auto.raw_of() == 7,
{
}

/// The raw code of every `Audio3DMixingSourceMode` value, as AVFAudio defines it.
pub proof fn lemma_audio3d_mixing_source_mode_codes()
    ensures
        Audio3DMixingSourceMode::SpatializeIfMono.raw_of() == 0,
        Audio3DMixingSourceMode::Bypass.raw_of() == 1,
        Audio3DMixingSourceMode::PointSource.raw_of() == 2,
        Audio3DMixingSourceMode::AmbienceBed.raw_of() == 3,
{
}

/// The raw code of every `Audio3DMixingPointSourceInHeadMode` value, as AVFAudio defines it.
pub proof fn lemma_audio3d_mixing_point_source_in_head_mode_codes()
    ensures
        Audio3DMixingPointSourceInHeadMode::Mono.raw_of() == 0,
        Audio3DMixingPointSourceInHeadMode::Bypass.raw_of() == 1,
{
}

/// Which raw code decodes to which `Audio3DMixingRenderingAlgorithm` value: each known code to its own value,
/// and every other code to none of them.
pub proof fn lemma_audio3d_mixing_rendering_algorithm_decoding(raw: i64)
    ensures
        (Audio3DMixingRenderingAlgorithm::of_raw(raw) == Some(Audio3DMixingRenderingAlgorithm::EqualPowerPanning)) <==> raw == 0,
        (Audio3DMixingRenderingAlgorithm::of_raw(raw) == Some(Audio3DMixingRenderingAlgorithm::SphericalHead)) <==> raw == 1,
        (Audio3DMixingRenderingAlgorithm::of_raw(raw) == Some(Audio3DMixingRenderingAlgorithm::Hrtf)) <==> raw == 2,
        (Audio3DMixingRenderingAlgorithm::of_raw(raw) == Some(Audio3DMixingRenderingAlgorithm::SoundField)) <==> raw == 3,
        (Audio3DMixingRenderingAlgorithm::of_raw(raw) == Some(Audio3DMixingRenderingAlgorithm::StereoPassThrough)) <==> raw == 5,
        (Audio3DMixingRenderingAlgorithm::of_raw(raw) == Some(Audio3DMixingRenderingAlgorithm::HrtfHighQuality)) <==> raw == 6,
        (Audio3DMixingRenderingAlgorithm::of_raw(raw) == Some(Audio3DMixingRenderingAlgorithm::Auto)) <==> raw == 7,
        Audio3DMixingRenderingAlgorithm::of_raw(raw) is None <==> (raw != 0 && raw != 1 && raw != 2 && raw != 3 && raw != 5 && raw != 6 && raw != 7),
{
}

/// Which raw code decodes to which `Audio3DMixingSourceMode` value: each known code to its own value,
/// and every other code to none of them.
pub proof fn lemma_audio3d_mixing_source_mode_decoding(raw: i64)
    ensures
        (Audio3DMixingSourceMode::of_raw(raw) == Some(Audio3DMixingSourceMode::SpatializeIfMono)) <==> raw == 0,
        (Audio3DMixingSourceMode::of_raw(raw) == Some(Audio3DMixingSourceMode::Bypass)) <==> raw == 1,
        (Audio3DMixingSourceMode::of_raw(raw) == Some(Audio3DMixingSourceMode::PointSource)) <==> raw == 2,
        (Audio3DMixingSourceMode::of_raw(raw) == Some(Audio3DMixingSourceMode::AmbienceBed)) <==> raw == 3,
        Audio3DMixingSourceMode::of_raw(raw) is None <==> (raw != 0 && raw != 1 && raw != 2 && raw != 3),
{
}

/// Which raw code decodes to which `Audio3DMixingPointSourceInHeadMode` value: each known code to its own value,
/// and every other code to none of them.
pub proof fn lemma_audio3d_mixing_point_source_in_head_mode_decoding(raw: i64)
    ensures
        (Audio3DMixingPointSourceInHeadMode::of_raw(raw) == Some(Audio3DMixingPointSourceInHeadMode::Mono)) <==> raw == 0,
        (Audio3DMixingPointSourceInHeadMode::of_raw(raw) == Some(Audio3DMixingPointSourceInHeadMode::Bypass)) <==> raw == 1,
        Audio3DMixingPointSourceInHeadMode::of_raw(raw) is None <==> (raw != 0 && raw != 1),
{
}

} // verus!
