//! Audio-settings enums and the bridged settings constants.

use vstd::prelude::*;

verus! {

/// Mirrors the `AVAudioBitRateStrategy_*` NSString constants.
pub type AudioBitRateStrategy = String;

/// Bridged `AVAudioSettings.h` NSString constants.
#[derive(Debug, Clone, PartialEq, Eq)]
pub struct AudioSettingsConstants {
    pub audio_file_type_key: String,
    pub bit_rate_strategy_constant: AudioBitRateStrategy,
    pub bit_rate_strategy_long_term_average: AudioBitRateStrategy,
    pub bit_rate_strategy_variable: AudioBitRateStrategy,
    pub bit_rate_strategy_variable_constrained: AudioBitRateStrategy,
}

/// Mirrors `AVAudioQuality`.
#[derive(Debug, Clone, Copy, PartialEq, Eq, Structural)]
pub enum AudioQuality {
    Min,
    Low,
    Medium,
    High,
    Max,
}

impl AudioQuality {
    /// The raw `i64` code of this value.
    pub open spec fn raw_of(self) -> i64 {
        match self {
            AudioQuality::Min => 0,
            AudioQuality::Low => 0x20,
            AudioQuality::Medium => 0x40,
            AudioQuality::High => 0x60,
            AudioQuality::Max => 0x7f,
        }
    }

    /// Returns the raw `i64` code of this value.
    pub fn as_raw(self) -> (r: i64)
        ensures
            r == self.raw_of(),
    {
        match self {
            AudioQuality::Min => 0,
            AudioQuality::Low => 0x20,
            AudioQuality::Medium => 0x40,
            AudioQuality::High => 0x60,
            AudioQuality::Max => 0x7f,
        }
    }
}
/// Mirrors `AVAudioDynamicRangeControlConfiguration`.
#[derive(Debug, Clone, Copy, PartialEq, Eq, Structural)]
pub enum AudioDynamicRangeControlConfiguration {
    NoControl,
    Music,
    Speech,
    Movie,
    Capture,
}

impl AudioDynamicRangeControlConfiguration {
    /// The raw `i64` code of this value.
    pub open spec fn raw_of(self) -> i64 {
        match self {
            AudioDynamicRangeControlConfiguration::NoControl => 0,
            AudioDynamicRangeControlConfiguration::Music => 1,
            AudioDynamicRangeControlConfiguration::Speech => 2,
            AudioDynamicRangeControlConfiguration::Movie => 3,
            AudioDynamicRangeControlConfiguration::Capture => 4,
        }
    }

    /// Returns the raw `i64` code of this value.
    pub fn as_raw(self) -> (r: i64)
        ensures
            r == self.raw_of(),
    {
        match self {
            AudioDynamicRangeControlConfiguration::NoControl => 0,
            AudioDynamicRangeControlConfiguration::Music => 1,
            AudioDynamicRangeControlConfiguration::Speech => 2,
            AudioDynamicRangeControlConfiguration::Movie => 3,
            AudioDynamicRangeControlConfiguration::Capture => 4,
        }
    }
}
/// Mirrors `AVAudioContentSource`.
#[derive(Debug, Clone, Copy, PartialEq, Eq, Structural)]
pub enum AudioContentSource {
    Unspecified,
    Reserved,
    AppleCaptureTraditional,
    AppleCaptureSpatial,
    AppleCaptureSpatialEnhanced,
    AppleMusicTraditional,
    AppleMusicSpatial,
    AppleAvTraditionalOffline,
    AppleAvSpatialOffline,
    AppleAvTraditionalLive,
    AppleAvSpatialLive,
    ApplePassthrough,
    CaptureTraditional,
    CaptureSpatial,
    CaptureSpatialEnhanced,
    MusicTraditional,
    MusicSpatial,
    AvTraditionalOffline,
    AvSpatialOffline,
    AvTraditionalLive,
    AvSpatialLive,
    Passthrough,
}

impl AudioContentSource {
    /// The raw `i64` code of this value.
    pub open spec fn raw_of(self) -> i64 {
        match self {
            AudioContentSource::Unspecified => -1i64,
            AudioContentSource::Reserved => 0,
            AudioContentSource::AppleCaptureTraditional => 1,
            AudioContentSource::AppleCaptureSpatial => 2,
            AudioContentSource::AppleCaptureSpatialEnhanced => 3,
            AudioContentSource::AppleMusicTraditional => 4,
            AudioContentSource::AppleMusicSpatial => 5,
            AudioContentSource::AppleAvTraditionalOffline => 6,
            AudioContentSource::AppleAvSpatialOffline => 7,
            AudioContentSource::AppleAvTraditionalLive => 8,
            AudioContentSource::AppleAvSpatialLive => 9,
            AudioContentSource::ApplePassthrough => 10,
            AudioContentSource::CaptureTraditional => 33,
            AudioContentSource::CaptureSpatial => 34,
            AudioContentSource::CaptureSpatialEnhanced => 35,
            AudioContentSource::MusicTraditional => 36,
            AudioContentSource::MusicSpatial => 37,
            AudioContentSource::AvTraditionalOffline => 38,
            AudioContentSource::AvSpatialOffline => 39,
            AudioContentSource::AvTraditionalLive => 40,
            AudioContentSource::AvSpatialLive => 41,
            AudioContentSource::Passthrough => 42,
        }
    }

    /// Returns the raw `i64` code of this value.
    pub fn as_raw(self) -> (r: i64)
        ensures
            r == self.raw_of(),
    {
        match self {
            AudioContentSource::Unspecified => -1i64,
            AudioContentSource::Reserved => 0,
            AudioContentSource::AppleCaptureTraditional => 1,
            AudioContentSource::AppleCaptureSpatial => 2,
            AudioContentSource::AppleCaptureSpatialEnhanced => 3,
            AudioContentSource::AppleMusicTraditional => 4,
            AudioContentSource::AppleMusicSpatial => 5,
            AudioContentSource::AppleAvTraditionalOffline => 6,
            AudioContentSource::AppleAvSpatialOffline => 7,
            AudioContentSource::AppleAvTraditionalLive => 8,
            AudioContentSource::AppleAvSpatialLive => 9,
            AudioContentSource::ApplePassthrough => 10,
            AudioContentSource::CaptureTraditional => 33,
            AudioContentSource::CaptureSpatial => 34,
            AudioContentSource::CaptureSpatialEnhanced => 35,
            AudioContentSource::MusicTraditional => 36,
            AudioContentSource::MusicSpatial => 37,
            AudioContentSource::AvTraditionalOffline => 38,
            AudioContentSource::AvSpatialOffline => 39,
            AudioContentSource::AvTraditionalLive => 40,
            AudioContentSource::AvSpatialLive => 41,
            AudioContentSource::Passthrough => 42,
        }
    }
}
/// The raw code of every `AudioQuality` value, as AVFAudio defines it.
pub proof fn lemma_audio_quality_codes()
    ensures
        AudioQuality::Min.raw_of() == 0,
        AudioQuality::Low.raw_of() == 0x20,
        AudioQuality::Medium.raw_of() == 0x40,
        AudioQuality::High.raw_of() == 0x60,
        AudioQuality::Max.raw_of() == 0x7f,
{
}

/// The raw code of every `AudioDynamicRangeControlConfiguration` value, as AVFAudio defines it.
pub proof fn lemma_audio_dynamic_range_control_configuration_codes()
    ensures
        AudioDynamicRangeControlConfiguration::NoControl.raw_of() == 0,
        AudioDynamicRangeControlConfiguration::Music.raw_of() == 1,
        AudioDynamicRangeControlConfiguration::Speech.raw_of() == 2,
        AudioDynamicRangeControlConfiguration::Movie.raw_of() == 3,
        AudioDynamicRangeControlConfiguration::Capture.raw_of() == 4,
{
}

/// The raw code of every `AudioContentSource` value, as AVFAudio defines it.
pub proof fn lemma_audio_content_source_codes()
    ensures
        AudioContentSource::Unspecified.raw_of() == -1,
        AudioContentSource::Reserved.raw_of() == 0,
        AudioContentSource::AppleCaptureTraditional.raw_of() == 1,
        AudioContentSource::AppleCaptureSpatial.raw_of() == 2,
        AudioContentSource::AppleCaptureSpatialEnhanced.raw_of() == 3,
        AudioContentSource::AppleMusicTraditional.raw_of() == 4,
        AudioContentSource::AppleMusicSpatial.raw_of() == 5,
        AudioContentSource::AppleAvTraditionalOffline.raw_of() == 6,
        AudioContentSource::AppleAvSpatialOffline.raw_of() == 7,
        AudioContentSource::AppleAvTraditionalLive.raw_of() == 8,
        AudioContentSource::AppleAvSpatialLive.raw_of() == 9,
        AudioContentSource::ApplePassthrough.raw_of() == 10,
        AudioContentSource::CaptureTraditional.raw_of() == 33,
        AudioContentSource::CaptureSpatial.raw_of() == 34,
        AudioContentSource::CaptureSpatialEnhanced.raw_of() == 35,
        AudioContentSource::MusicTraditional.raw_of() == 36,
        AudioContentSource::MusicSpatial.raw_of() == 37,
        AudioContentSource::AvTraditionalOffline.raw_of() == 38,
        AudioContentSource::AvSpatialOffline.raw_of() == 39,
        AudioContentSource::AvTraditionalLive.raw_of() == 40,
        AudioContentSource::AvSpatialLive.raw_of() == 41,
        AudioContentSource::Passthrough.raw_of() == 42,
{
}

/// Better quality has a strictly larger raw code.
pub proof fn lemma_audio_quality_codes_increase()
    ensures
        AudioQuality::Min.raw_of() < AudioQuality::Low.raw_of(),
        AudioQuality::Low.raw_of() < AudioQuality::Medium.raw_of(),
        AudioQuality::Medium.raw_of() < AudioQuality::High.raw_of(),
        AudioQuality::High.raw_of() < AudioQuality::Max.raw_of(),
{
}

} // verus!
