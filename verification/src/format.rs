//! Stream-format descriptions.

use vstd::prelude::*;
use vstd::string::*;

verus! {

/// Format metadata reported by the bridge.
#[derive(Debug, Clone, Copy, PartialEq, Eq, Structural)]
pub struct AudioFormatInfo {
    pub common_format: i32,
    /// Bit pattern of the `f64` sample rate in hertz.
    pub sample_rate_bits: u64,
    pub channel_count: u32,
    pub is_interleaved: bool,
}

impl AudioFormatInfo {
    /// The common sample format that the reported raw code stands for.
    pub fn common(&self) -> (r: AudioCommonFormat)
        ensures
            r == AudioCommonFormat::of_raw(self.common_format),
    {
        AudioCommonFormat::from_raw(self.common_format)
    }
}

/// Mirrors `AVAudioCommonFormat`.
#[derive(Debug, Clone, Copy, PartialEq, Eq, Hash, Structural)]
#[non_exhaustive]
pub enum AudioCommonFormat {
    Other,
    PcmFloat32,
    PcmFloat64,
    PcmInt16,
    PcmInt32,
}

impl AudioCommonFormat {
    /// The format a raw code stands for; unknown codes are `Other`.
    pub open spec fn of_raw(raw: i32) -> Self {
        if raw == 1 {
            AudioCommonFormat::PcmFloat32
        } else if raw == 2 {
            AudioCommonFormat::PcmFloat64
        } else if raw == 3 {
            AudioCommonFormat::PcmInt16
        } else if raw == 4 {
            AudioCommonFormat::PcmInt32
        } else {
            AudioCommonFormat::Other
        }
    }

    /// Maps a raw code to its format; unknown codes are `Other`.
    pub fn from_raw(raw: i32) -> (r: Self)
        ensures
            r == Self::of_raw(raw),
    {
        match raw {
            1 => AudioCommonFormat::PcmFloat32,
            2 => AudioCommonFormat::PcmFloat64,
            3 => AudioCommonFormat::PcmInt16,
            4 => AudioCommonFormat::PcmInt32,
            _ => AudioCommonFormat::Other,
        }
    }
}

/// Which raw code decodes to which `AudioCommonFormat` value: each known code to its own value,
/// and every other code to none of them.
pub proof fn lemma_audio_common_format_decoding(raw: i32)
    ensures
        (AudioCommonFormat::of_raw(raw) == AudioCommonFormat::PcmFloat32) <==> raw == 1,
        (AudioCommonFormat::of_raw(raw) == AudioCommonFormat::PcmFloat64) <==> raw == 2,
        (AudioCommonFormat::of_raw(raw) == AudioCommonFormat::PcmInt16) <==> raw == 3,
        (AudioCommonFormat::of_raw(raw) == AudioCommonFormat::PcmInt32) <==> raw == 4,
        (raw != 1 && raw != 2 && raw != 3 && raw != 4) ==> AudioCommonFormat::of_raw(raw) == AudioCommonFormat::Other,
{
}

} // verus!
