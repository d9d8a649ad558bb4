//! Converter status codes and priming settings.

use vstd::prelude::*;
use vstd::string::*;

use crate::error::{from_swift, is_status_error, AVAudioError, STATUS_OPERATION_FAILED};

verus! {

/// Mirrors `AVAudioConverterPrimeMethod`.
#[derive(Debug, Clone, Copy, PartialEq, Eq, Hash, Structural)]
#[non_exhaustive]
pub enum AudioConverterPrimeMethod {
    Pre,
    Normal,
    Unprimed,
    Other(i64),
}

impl AudioConverterPrimeMethod {
    /// The value that a raw code stands for; unknown codes are kept in `Other`.
    pub open spec fn of_raw(raw: i64) -> Self {
        if raw == 0 {
            AudioConverterPrimeMethod::Pre
        } else if raw == 1 {
            AudioConverterPrimeMethod::Normal
        } else if raw == 2 {
            AudioConverterPrimeMethod::Unprimed
        } else {
            AudioConverterPrimeMethod::Other(raw)
        }
    }

    /// The raw code of this value.
    pub open spec fn raw_of(self) -> i64 {
        match self {
            AudioConverterPrimeMethod::Pre => 0,
            AudioConverterPrimeMethod::Normal => 1,
            AudioConverterPrimeMethod::Unprimed => 2,
            AudioConverterPrimeMethod::Other(other) => other,
        }
    }

    /// Whether this value is the one its raw code maps back to (an `Other` never
    /// carries a known code).
    pub open spec fn is_canonical(self) -> bool {
        match self {
            AudioConverterPrimeMethod::Other(other) => other != 0 && other != 1 && other != 2,
            _ => true,
        }
    }

    /// Maps a raw code to its value; unknown codes are kept in `Other`.
    pub fn from_raw(raw: i64) -> (r: Self)
        ensures
            r == Self::of_raw(raw),
    {
        match raw {
            0 => AudioConverterPrimeMethod::Pre,
            1 => AudioConverterPrimeMethod::Normal,
            2 => AudioConverterPrimeMethod::Unprimed,
            other => AudioConverterPrimeMethod::Other(other),
        }
    }

    /// Returns the raw code of this value.
    pub fn as_raw(self) -> (r: i64)
        ensures
            r == self.raw_of(),
    {
        match self {
            AudioConverterPrimeMethod::Pre => 0,
            AudioConverterPrimeMethod::Normal => 1,
            AudioConverterPrimeMethod::Unprimed => 2,
            AudioConverterPrimeMethod::Other(other) => other,
        }
    }
}

/// Reading back the raw code of a value gives that value when it is canonical, and
/// every raw code survives a decode followed by an encode.
pub proof fn lemma_audio_converter_prime_method_raw_roundtrip(value: AudioConverterPrimeMethod, raw: i64)
    ensures
        value.is_canonical() ==> AudioConverterPrimeMethod::of_raw(value.raw_of()) == value,
        AudioConverterPrimeMethod::of_raw(raw).raw_of() == raw,
        AudioConverterPrimeMethod::of_raw(raw).is_canonical(),
{
}

/// Mirrors `AVAudioConverterPrimeInfo`.
#[derive(Debug, Clone, Copy, PartialEq, Eq, Structural)]
pub struct AudioConverterPrimeInfo {
    pub leading_frames: u32,
    pub trailing_frames: u32,
}

/// Mirrors `AVAudioConverterInputStatus`.
#[derive(Debug, Clone, Copy, PartialEq, Eq, Hash, Structural)]
#[non_exhaustive]
pub enum AudioConverterInputStatus {
    HaveData,
    NoDataNow,
    EndOfStream,
    Other(i64),
}

impl AudioConverterInputStatus {
    /// The value that a raw code stands for; unknown codes are kept in `Other`.
    pub open spec fn of_raw(raw: i64) -> Self {
        if raw == 0 {
            AudioConverterInputStatus::HaveData
        } else if raw == 1 {
            AudioConverterInputStatus::NoDataNow
        } else if raw == 2 {
            AudioConverterInputStatus::EndOfStream
        } else {
            AudioConverterInputStatus::Other(raw)
        }
    }

    /// Maps a raw code to its value; unknown codes are kept in `Other`.
    pub fn from_raw(raw: i64) -> (r: Self)
        ensures
            r == Self::of_raw(raw),
    {
        match raw {
            0 => AudioConverterInputStatus::HaveData,
            1 => AudioConverterInputStatus::NoDataNow,
            2 => AudioConverterInputStatus::EndOfStream,
            other => AudioConverterInputStatus::Other(other),
        }
    }
}
/// Mirrors `AVAudioConverterOutputStatus`.
#[derive(Debug, Clone, Copy, PartialEq, Eq, Hash, Structural)]
#[non_exhaustive]
pub enum AudioConverterOutputStatus {
    HaveData,
    InputRanDry,
    EndOfStream,
    Error,
    Other(i64),
}

impl AudioConverterOutputStatus {
    /// The value that a raw code stands for; unknown codes are kept in `Other`.
    pub open spec fn of_raw(raw: i64) -> Self {
        if raw == 0 {
            AudioConverterOutputStatus::HaveData
        } else if raw == 1 {
            AudioConverterOutputStatus::InputRanDry
        } else if raw == 2 {
            AudioConverterOutputStatus::EndOfStream
        } else if raw == 3 {
            AudioConverterOutputStatus::Error
        } else {
            AudioConverterOutputStatus::Other(raw)
        }
    }

    /// Maps a raw code to its value; unknown codes are kept in `Other`.
    pub fn from_raw(raw: i64) -> (r: Self)
        ensures
            r == Self::of_raw(raw),
    {
        match raw {
            0 => AudioConverterOutputStatus::HaveData,
            1 => AudioConverterOutputStatus::InputRanDry,
            2 => AudioConverterOutputStatus::EndOfStream,
            3 => AudioConverterOutputStatus::Error,
            other => AudioConverterOutputStatus::Other(other),
        }
    }
}

/// The bridge status code that a negative raw converter status stands for: the raw value
/// itself when it fits in `i32`, otherwise the generic failure code.
pub open spec fn converter_failure_status(raw: i64) -> i32 {
    if i32::MIN <= raw <= i32::MAX {
        raw as i32
    } else {
        STATUS_OPERATION_FAILED
    }
}

impl AudioConverterOutputStatus {
    /// Interprets the raw result of a conversion call: a negative value is a failure
    /// (mapped as a bridge status carrying `message`), any other value an output status.
    pub fn from_bridge(raw: i64, message: String) -> (r: Result<Self, AVAudioError>)
        ensures
            raw >= 0 ==> r == Ok::<Self, AVAudioError>(Self::of_raw(raw)),
            raw < 0 ==> (r matches Err(e) && is_status_error(
                converter_failure_status(raw),
                message@,
                e,
            )),
    {
        if raw < 0 {
            let status: i32 = if raw >= -2147483648i64 {
                raw as i32
            } else {
                STATUS_OPERATION_FAILED
            };
            Err(from_swift(status, message))
        } else {
            Ok(Self::from_raw(raw))
        }
    }

    /// Whether a conversion that ended with this status produced usable output.
    pub open spec fn is_success(self) -> bool {
        self is HaveData || self is InputRanDry || self is EndOfStream
    }

    /// Turns a conversion status into the result of a plain conversion: the data
    /// statuses succeed, `Error` and unknown statuses fail with `OperationFailed`.
    pub fn into_conversion_result(self) -> (r: Result<(), AVAudioError>)
        ensures
            self.is_success() ==> r is Ok,
            !self.is_success() ==> (r matches Err(e) && e is OperationFailed && e.message()
                == "converter returned an error status without an NSError"@),
    {
        match self {
            AudioConverterOutputStatus::HaveData
            | AudioConverterOutputStatus::InputRanDry
            | AudioConverterOutputStatus::EndOfStream => Ok(()),
            _ => Err(
                AVAudioError::OperationFailed(
                    String::from_str("converter returned an error status without an NSError"),
                ),
            ),
        }
    }
}

/// The raw code of every `AudioConverterPrimeMethod` value, as AVFAudio defines it.
pub proof fn lemma_audio_converter_prime_method_codes()
    ensures
        AudioConverterPrimeMethod::Pre.raw_of() == 0,
        AudioConverterPrimeMethod::Normal.raw_of() == 1,
        AudioConverterPrimeMethod::Unprimed.raw_of() == 2,
{
}

/// Which raw code decodes to which `AudioConverterPrimeMethod` value: each known code to its own value,
/// and every other code to none of them.
pub proof fn lemma_audio_converter_prime_method_decoding(raw: i64)
    ensures
        (AudioConverterPrimeMethod::of_raw(raw) == AudioConverterPrimeMethod::Pre) <==> raw == 0,
        (AudioConverterPrimeMethod::of_raw(raw) == AudioConverterPrimeMethod::Normal) <==> raw == 1,
        (AudioConverterPrimeMethod::of_raw(raw) == AudioConverterPrimeMethod::Unprimed) <==> raw == 2,
        (raw != 0 && raw != 1 && raw != 2) ==> AudioConverterPrimeMethod::of_raw(raw) == AudioConverterPrimeMethod::Other(raw),
{
}

/// Which raw code decodes to which `AudioConverterInputStatus` value: each known code to its own value,
/// and every other code to none of them.
pub proof fn lemma_audio_converter_input_status_decoding(raw: i64)
    ensures
        (AudioConverterInputStatus::of_raw(raw) == AudioConverterInputStatus::HaveData) <==> raw == 0,
        (AudioConverterInputStatus::of_raw(raw) == AudioConverterInputStatus::NoDataNow) <==> raw == 1,
        (AudioConverterInputStatus::of_raw(raw) == AudioConverterInputStatus::EndOfStream) <==> raw == 2,
        (raw != 0 && raw != 1 && raw != 2) ==> AudioConverterInputStatus::of_raw(raw) == AudioConverterInputStatus::Other(raw),
{
}

/// Which raw code decodes to which `AudioConverterOutputStatus` value: each known code to its own value,
/// and every other code to none of them.
pub proof fn lemma_audio_converter_output_status_decoding(raw: i64)
    ensures
        (AudioConverterOutputStatus::of_raw(raw) == AudioConverterOutputStatus::HaveData) <==> raw == 0,
        (AudioConverterOutputStatus::of_raw(raw) == AudioConverterOutputStatus::InputRanDry) <==> raw == 1,
        (AudioConverterOutputStatus::of_raw(raw) == AudioConverterOutputStatus::EndOfStream) <==> raw == 2,
        (AudioConverterOutputStatus::of_raw(raw) == AudioConverterOutputStatus::Error) <==> raw == 3,
        (raw != 0 && raw != 1 && raw != 2 && raw != 3) ==> AudioConverterOutputStatus::of_raw(raw) == AudioConverterOutputStatus::Other(raw),
{
}

} // verus!
