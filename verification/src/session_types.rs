//! Session enums and option sets, with their raw codes.

use vstd::prelude::*;

verus! {

/// The four-character code of `bytes`, first byte most significant.
pub open spec fn fourcc_value(bytes: [u8; 4]) -> i64 {
    (bytes[0] as int * 16777216 + bytes[1] as int * 65536 + bytes[2] as int * 256
        + bytes[3] as int) as i64
}

/// Packs four bytes into a four-character code, first byte most significant.
pub fn fourcc(bytes: [u8; 4]) -> (r: i64)
    ensures
        r == fourcc_value(bytes),
        r as int == bytes[0] as int * 16777216 + bytes[1] as int * 65536 + bytes[2] as int * 256
            + bytes[3] as int,
{
    (bytes[0] as i64) * 16777216 + (bytes[1] as i64) * 65536 + (bytes[2] as i64) * 256
        + (bytes[3] as i64)
}

/// Mirrors `AVAudioSessionActivationOptions`.
#[derive(Debug, Clone, Copy, PartialEq, Eq, Hash, Structural)]
pub struct AudioSessionActivationOptions(pub u64);

impl AudioSessionActivationOptions {
    /// No options.
    pub fn none() -> (r: Self)
        ensures
            r.0 == 0,
    {
        AudioSessionActivationOptions(0)
    }

    /// Returns the raw option bits.
    pub fn bits(self) -> (r: u64)
        ensures
            r == self.0,
    {
        self.0
    }

    /// Constructs options from raw bits.
    pub fn from_bits(bits: u64) -> (r: Self)
        ensures
            r.0 == bits,
    {
        AudioSessionActivationOptions(bits)
    }

    /// Whether every bit of `other` is set in these options.
    pub open spec fn contains_spec(self, other: Self) -> bool {
        self.0 & other.0 == other.0
    }

    /// Returns whether every bit of `other` is set in these options.
    pub fn contains(self, other: Self) -> (r: bool)
        ensures
            r == self.contains_spec(other),
    {
        (self.0 & other.0) == other.0
    }
}

impl Default for AudioSessionActivationOptions {
    fn default() -> (r: Self)
        ensures
            r.0 == 0,
    {
        AudioSessionActivationOptions(0)
    }
}

impl core::ops::BitOr for AudioSessionActivationOptions {
    type Output = Self;

    fn bitor(self, rhs: Self) -> (r: Self)
        ensures
            r.0 == self.0 | rhs.0,
    {
        AudioSessionActivationOptions(self.0 | rhs.0)
    }
}

impl vstd::std_specs::ops::BitOrSpecImpl for AudioSessionActivationOptions {
    open spec fn obeys_bitor_spec() -> bool {
        true
    }

    open spec fn bitor_req(self, rhs: Self) -> bool {
        true
    }

    open spec fn bitor_spec(self, rhs: Self) -> Self {
        AudioSessionActivationOptions(self.0 | rhs.0)
    }
}

impl core::ops::BitAnd for AudioSessionActivationOptions {
    type Output = Self;

    fn bitand(self, rhs: Self) -> (r: Self)
        ensures
            r.0 == self.0 & rhs.0,
    {
        AudioSessionActivationOptions(self.0 & rhs.0)
    }
}

impl vstd::std_specs::ops::BitAndSpecImpl for AudioSessionActivationOptions {
    open spec fn obeys_bitand_spec() -> bool {
        true
    }

    open spec fn bitand_req(self, rhs: Self) -> bool {
        true
    }

    open spec fn bitand_spec(self, rhs: Self) -> Self {
        AudioSessionActivationOptions(self.0 & rhs.0)
    }
}

impl core::ops::BitOrAssign for AudioSessionActivationOptions {
    fn bitor_assign(&mut self, rhs: Self)
        ensures
            final(self).0 == old(self).0 | rhs.0,
    {
        self.0 = self.0 | rhs.0;
    }
}

impl core::ops::BitAndAssign for AudioSessionActivationOptions {
    fn bitand_assign(&mut self, rhs: Self)
        ensures
            final(self).0 == old(self).0 & rhs.0,
    {
        self.0 = self.0 & rhs.0;
    }
}


/// Set laws of the option bits: every value contains itself and the empty set, a union
/// contains both operands, and an intersection is contained in both.
pub proof fn lemma_audio_session_activation_options_set_laws(a: AudioSessionActivationOptions, b: AudioSessionActivationOptions)
    ensures
        a.contains_spec(a),
        a.contains_spec(AudioSessionActivationOptions(0)),
        AudioSessionActivationOptions(a.0 | b.0).contains_spec(a),
        AudioSessionActivationOptions(a.0 | b.0).contains_spec(b),
        a.contains_spec(AudioSessionActivationOptions(a.0 & b.0)),
        b.contains_spec(AudioSessionActivationOptions(a.0 & b.0)),
{
    let x = a.0;
    let y = b.0;
    assert(x & x == x) by (bit_vector);
    assert(x & 0 == 0) by (bit_vector);
    assert((x | y) & x == x) by (bit_vector);
    assert((x | y) & y == y) by (bit_vector);
    assert(x & (x & y) == x & y) by (bit_vector);
    assert(y & (x & y) == x & y) by (bit_vector);
}

/// Mirrors `AVAudioSessionInterruptionOptions`.
#[derive(Debug, Clone, Copy, PartialEq, Eq, Hash, Structural)]
pub struct AudioSessionInterruptionOptions(pub u64);

impl AudioSessionInterruptionOptions {
    /// The session should resume after the interruption.
    pub fn should_resume() -> (r: Self)
        ensures
            r.0 == 1,
    {
        AudioSessionInterruptionOptions(1)
    }

    /// Returns the raw option bits.
    pub fn bits(self) -> (r: u64)
        ensures
            r == self.0,
    {
        self.0
    }

    /// Constructs options from raw bits.
    pub fn from_bits(bits: u64) -> (r: Self)
        ensures
            r.0 == bits,
    {
        AudioSessionInterruptionOptions(bits)
    }

    /// Whether every bit of `other` is set in these options.
    pub open spec fn contains_spec(self, other: Self) -> bool {
        self.0 & other.0 == other.0
    }

    /// Returns whether every bit of `other` is set in these options.
    pub fn contains(self, other: Self) -> (r: bool)
        ensures
            r == self.contains_spec(other),
    {
        (self.0 & other.0) == other.0
    }
}

impl Default for AudioSessionInterruptionOptions {
    fn default() -> (r: Self)
        ensures
            r.0 == 0,
    {
        AudioSessionInterruptionOptions(0)
    }
}

impl core::ops::BitOr for AudioSessionInterruptionOptions {
    type Output = Self;

    fn bitor(self, rhs: Self) -> (r: Self)
        ensures
            r.0 == self.0 | rhs.0,
    {
        AudioSessionInterruptionOptions(self.0 | rhs.0)
    }
}

impl vstd::std_specs::ops::BitOrSpecImpl for AudioSessionInterruptionOptions {
    open spec fn obeys_bitor_spec() -> bool {
        true
    }

    open spec fn bitor_req(self, rhs: Self) -> bool {
        true
    }

    open spec fn bitor_spec(self, rhs: Self) -> Self {
        AudioSessionInterruptionOptions(self.0 | rhs.0)
    }
}

impl core::ops::BitAnd for AudioSessionInterruptionOptions {
    type Output = Self;

    fn bitand(self, rhs: Self) -> (r: Self)
        ensures
            r.0 == self.0 & rhs.0,
    {
        AudioSessionInterruptionOptions(self.0 & rhs.0)
    }
}

impl vstd::std_specs::ops::BitAndSpecImpl for AudioSessionInterruptionOptions {
    open spec fn obeys_bitand_spec() -> bool {
        true
    }

    open spec fn bitand_req(self, rhs: Self) -> bool {
        true
    }

    open spec fn bitand_spec(self, rhs: Self) -> Self {
        AudioSessionInterruptionOptions(self.0 & rhs.0)
    }
}

impl core::ops::BitOrAssign for AudioSessionInterruptionOptions {
    fn bitor_assign(&mut self, rhs: Self)
        ensures
            final(self).0 == old(self).0 | rhs.0,
    {
        self.0 = self.0 | rhs.0;
    }
}

impl core::ops::BitAndAssign for AudioSessionInterruptionOptions {
    fn bitand_assign(&mut self, rhs: Self)
        ensures
            final(self).0 == old(self).0 & rhs.0,
    {
        self.0 = self.0 & rhs.0;
    }
}


/// Set laws of the option bits: every value contains itself and the empty set, a union
/// contains both operands, and an intersection is contained in both.
pub proof fn lemma_audio_session_interruption_options_set_laws(a: AudioSessionInterruptionOptions, b: AudioSessionInterruptionOptions)
    ensures
        a.contains_spec(a),
        a.contains_spec(AudioSessionInterruptionOptions(0)),
        AudioSessionInterruptionOptions(a.0 | b.0).contains_spec(a),
        AudioSessionInterruptionOptions(a.0 | b.0).contains_spec(b),
        a.contains_spec(AudioSessionInterruptionOptions(a.0 & b.0)),
        b.contains_spec(AudioSessionInterruptionOptions(a.0 & b.0)),
{
    let x = a.0;
    let y = b.0;
    assert(x & x == x) by (bit_vector);
    assert(x & 0 == 0) by (bit_vector);
    assert((x | y) & x == x) by (bit_vector);
    assert((x | y) & y == y) by (bit_vector);
    assert(x & (x & y) == x & y) by (bit_vector);
    assert(y & (x & y) == x & y) by (bit_vector);
}

/// Mirrors `AVAudioSessionSetActiveOptions`.
#[derive(Debug, Clone, Copy, PartialEq, Eq, Hash, Structural)]
pub struct AudioSessionSetActiveOptions(pub u64);

impl AudioSessionSetActiveOptions {
    /// Notify other sessions on deactivation.
    pub fn notify_others_on_deactivation() -> (r: Self)
        ensures
            r.0 == 1,
    {
        AudioSessionSetActiveOptions(1)
    }

    /// Returns the raw option bits.
    pub fn bits(self) -> (r: u64)
        ensures
            r == self.0,
    {
        self.0
    }

    /// Constructs options from raw bits.
    pub fn from_bits(bits: u64) -> (r: Self)
        ensures
            r.0 == bits,
    {
        AudioSessionSetActiveOptions(bits)
    }

    /// Whether every bit of `other` is set in these options.
    pub open spec fn contains_spec(self, other: Self) -> bool {
        self.0 & other.0 == other.0
    }

    /// Returns whether every bit of `other` is set in these options.
    pub fn contains(self, other: Self) -> (r: bool)
        ensures
            r == self.contains_spec(other),
    {
        (self.0 & other.0) == other.0
    }
}

impl Default for AudioSessionSetActiveOptions {
    fn default() -> (r: Self)
        ensures
            r.0 == 0,
    {
        AudioSessionSetActiveOptions(0)
    }
}

impl core::ops::BitOr for AudioSessionSetActiveOptions {
    type Output = Self;

    fn bitor(self, rhs: Self) -> (r: Self)
        ensures
            r.0 == self.0 | rhs.0,
    {
        AudioSessionSetActiveOptions(self.0 | rhs.0)
    }
}

impl vstd::std_specs::ops::BitOrSpecImpl for AudioSessionSetActiveOptions {
    open spec fn obeys_bitor_spec() -> bool {
        true
    }

    open spec fn bitor_req(self, rhs: Self) -> bool {
        true
    }

    open spec fn bitor_spec(self, rhs: Self) -> Self {
        AudioSessionSetActiveOptions(self.0 | rhs.0)
    }
}

impl core::ops::BitAnd for AudioSessionSetActiveOptions {
    type Output = Self;

    fn bitand(self, rhs: Self) -> (r: Self)
        ensures
            r.0 == self.0 & rhs.0,
    {
        AudioSessionSetActiveOptions(self.0 & rhs.0)
    }
}

impl vstd::std_specs::ops::BitAndSpecImpl for AudioSessionSetActiveOptions {
    open spec fn obeys_bitand_spec() -> bool {
        true
    }

    open spec fn bitand_req(self, rhs: Self) -> bool {
        true
    }

    open spec fn bitand_spec(self, rhs: Self) -> Self {
        AudioSessionSetActiveOptions(self.0 & rhs.0)
    }
}

impl core::ops::BitOrAssign for AudioSessionSetActiveOptions {
    fn bitor_assign(&mut self, rhs: Self)
        ensures
            final(self).0 == old(self).0 | rhs.0,
    {
        self.0 = self.0 | rhs.0;
    }
}

impl core::ops::BitAndAssign for AudioSessionSetActiveOptions {
    fn bitand_assign(&mut self, rhs: Self)
        ensures
            final(self).0 == old(self).0 & rhs.0,
    {
        self.0 = self.0 & rhs.0;
    }
}


/// Set laws of the option bits: every value contains itself and the empty set, a union
/// contains both operands, and an intersection is contained in both.
pub proof fn lemma_audio_session_set_active_options_set_laws(a: AudioSessionSetActiveOptions, b: AudioSessionSetActiveOptions)
    ensures
        a.contains_spec(a),
        a.contains_spec(AudioSessionSetActiveOptions(0)),
        AudioSessionSetActiveOptions(a.0 | b.0).contains_spec(a),
        AudioSessionSetActiveOptions(a.0 | b.0).contains_spec(b),
        a.contains_spec(AudioSessionSetActiveOptions(a.0 & b.0)),
        b.contains_spec(AudioSessionSetActiveOptions(a.0 & b.0)),
{
    let x = a.0;
    let y = b.0;
    assert(x & x == x) by (bit_vector);
    assert(x & 0 == 0) by (bit_vector);
    assert((x | y) & x == x) by (bit_vector);
    assert((x | y) & y == y) by (bit_vector);
    assert(x & (x & y) == x & y) by (bit_vector);
    assert(y & (x & y) == x & y) by (bit_vector);
}

/// Mirrors `AVAudioSessionIOType`.
#[derive(Debug, Clone, Copy, PartialEq, Eq, Structural)]
pub enum AudioSessionIOType {
    NotSpecified,
    Aggregated,
}

impl AudioSessionIOType {
    /// The raw `u64` code of this value.
    pub open spec fn raw_of(self) -> u64 {
        match self {
            AudioSessionIOType::NotSpecified => 0,
            AudioSessionIOType::Aggregated => 1,
        }
    }

    /// Returns the raw `u64` code of this value.
    pub fn as_raw(self) -> (r: u64)
        ensures
            r == self.raw_of(),
    {
        match self {
            AudioSessionIOType::NotSpecified => 0,
            AudioSessionIOType::Aggregated => 1,
        }
    }
}
/// Mirrors `AVAudioSessionInterruptionType`.
#[derive(Debug, Clone, Copy, PartialEq, Eq, Structural)]
pub enum AudioSessionInterruptionType {
    Ended,
    Began,
}

impl AudioSessionInterruptionType {
    /// The raw `u64` code of this value.
    pub open spec fn raw_of(self) -> u64 {
        match self {
            AudioSessionInterruptionType::Ended => 0,
            AudioSessionInterruptionType::Began => 1,
        }
    }

    /// Returns the raw `u64` code of this value.
    pub fn as_raw(self) -> (r: u64)
        ensures
            r == self.raw_of(),
    {
        match self {
            AudioSessionInterruptionType::Ended => 0,
            AudioSessionInterruptionType::Began => 1,
        }
    }
}
/// Mirrors `AVAudioSessionPromptStyle` (raw codes are four-character codes).
#[derive(Debug, Clone, Copy, PartialEq, Eq, Structural)]
pub enum AudioSessionPromptStyle {
    /// `'none'`.
    NoPrompt,
    /// `'shrt'`.
    Short,
    /// `'nrml'`.
    Normal,
}

impl AudioSessionPromptStyle {
    /// The raw code of this style: the four-character code of its tag.
    pub open spec fn raw_of(self) -> i64 {
        match self {
            AudioSessionPromptStyle::NoPrompt => fourcc_value([110u8, 111u8, 110u8, 101u8]),
            AudioSessionPromptStyle::Short => fourcc_value([115u8, 104u8, 114u8, 116u8]),
            AudioSessionPromptStyle::Normal => fourcc_value([110u8, 114u8, 109u8, 108u8]),
        }
    }

    /// Returns the raw code of this style.
    pub fn as_raw(self) -> (r: i64)
        ensures
            r == self.raw_of(),
    {
        match self {
            AudioSessionPromptStyle::NoPrompt => fourcc([110u8, 111u8, 110u8, 101u8]),
            AudioSessionPromptStyle::Short => fourcc([115u8, 104u8, 114u8, 116u8]),
            AudioSessionPromptStyle::Normal => fourcc([110u8, 114u8, 109u8, 108u8]),
        }
    }
}

/// Mirrors `AVAudioSessionRouteChangeReason`.
#[derive(Debug, Clone, Copy, PartialEq, Eq, Structural)]
pub enum AudioSessionRouteChangeReason {
    Unknown,
    NewDeviceAvailable,
    OldDeviceUnavailable,
    CategoryChange,
    Override,
    WakeFromSleep,
    NoSuitableRouteForCategory,
    RouteConfigurationChange,
}

impl AudioSessionRouteChangeReason {
    /// The raw `u64` code of this value.
    pub open spec fn raw_of(self) -> u64 {
        match self {
            AudioSessionRouteChangeReason::Unknown => 0,
            AudioSessionRouteChangeReason::NewDeviceAvailable => 1,
            AudioSessionRouteChangeReason::OldDeviceUnavailable => 2,
            AudioSessionRouteChangeReason::CategoryChange => 3,
            AudioSessionRouteChangeReason::Override => 4,
            AudioSessionRouteChangeReason::WakeFromSleep => 6,
            AudioSessionRouteChangeReason::NoSuitableRouteForCategory => 7,
            AudioSessionRouteChangeReason::RouteConfigurationChange => 8,
        }
    }

    /// Returns the raw `u64` code of this value.
    pub fn as_raw(self) -> (r: u64)
        ensures
            r == self.raw_of(),
    {
        match self {
            AudioSessionRouteChangeReason::Unknown => 0,
            AudioSessionRouteChangeReason::NewDeviceAvailable => 1,
            AudioSessionRouteChangeReason::OldDeviceUnavailable => 2,
            AudioSessionRouteChangeReason::CategoryChange => 3,
            AudioSessionRouteChangeReason::Override => 4,
            AudioSessionRouteChangeReason::WakeFromSleep => 6,
            AudioSessionRouteChangeReason::NoSuitableRouteForCategory => 7,
            AudioSessionRouteChangeReason::RouteConfigurationChange => 8,
        }
    }
}
/// Mirrors `AVAudioStereoOrientation`.
#[derive(Debug, Clone, Copy, PartialEq, Eq, Structural)]
pub enum AudioStereoOrientation {
    NoOrientation,
    Portrait,
    PortraitUpsideDown,
    LandscapeRight,
    LandscapeLeft,
}

impl AudioStereoOrientation {
    /// The raw `i64` code of this value.
    pub open spec fn raw_of(self) -> i64 {
        match self {
            AudioStereoOrientation::NoOrientation => 0,
            AudioStereoOrientation::Portrait => 1,
            AudioStereoOrientation::PortraitUpsideDown => 2,
            AudioStereoOrientation::LandscapeRight => 3,
            AudioStereoOrientation::LandscapeLeft => 4,
        }
    }

    /// Returns the raw `i64` code of this value.
    pub fn as_raw(self) -> (r: i64)
        ensures
            r == self.raw_of(),
    {
        match self {
            AudioStereoOrientation::NoOrientation => 0,
            AudioStereoOrientation::Portrait => 1,
            AudioStereoOrientation::PortraitUpsideDown => 2,
            AudioStereoOrientation::LandscapeRight => 3,
            AudioStereoOrientation::LandscapeLeft => 4,
        }
    }
}
/// Mirrors `AVAudioSessionRenderingMode`.
#[derive(Debug, Clone, Copy, PartialEq, Eq, Structural)]
pub enum AudioSessionRenderingMode {
    NotApplicable,
    MonoStereo,
    Surround,
    SpatialAudio,
    DolbyAudio,
    DolbyAtmos,
}

impl AudioSessionRenderingMode {
    /// The raw `i64` code of this value.
    pub open spec fn raw_of(self) -> i64 {
        match self {
            AudioSessionRenderingMode::NotApplicable => 0,
            AudioSessionRenderingMode::MonoStereo => 1,
            AudioSessionRenderingMode::Surround => 2,
            AudioSessionRenderingMode::SpatialAudio => 3,
            AudioSessionRenderingMode::DolbyAudio => 4,
            AudioSessionRenderingMode::DolbyAtmos => 5,
        }
    }

    /// Returns the raw `i64` code of this value.
    pub fn as_raw(self) -> (r: i64)
        ensures
            r == self.raw_of(),
    {
        match self {
            AudioSessionRenderingMode::NotApplicable => 0,
            AudioSessionRenderingMode::MonoStereo => 1,
            AudioSessionRenderingMode::Surround => 2,
            AudioSessionRenderingMode::SpatialAudio => 3,
            AudioSessionRenderingMode::DolbyAudio => 4,
            AudioSessionRenderingMode::DolbyAtmos => 5,
        }
    }
}
/// Mirrors `AVAudioSessionMicrophoneInjectionMode`.
#[derive(Debug, Clone, Copy, PartialEq, Eq, Structural)]
pub enum AudioSessionMicrophoneInjectionMode {
    NoInjection,
    SpokenAudio,
}

impl AudioSessionMicrophoneInjectionMode {
    /// The raw `i64` code of this value.
    pub open spec fn raw_of(self) -> i64 {
        match self {
            AudioSessionMicrophoneInjectionMode::NoInjection => 0,
            AudioSessionMicrophoneInjectionMode::SpokenAudio => 1,
        }
    }

    /// Returns the raw `i64` code of this value.
    pub fn as_raw(self) -> (r: i64)
        ensures
            r == self.raw_of(),
    {
        match self {
            AudioSessionMicrophoneInjectionMode::NoInjection => 0,
            AudioSessionMicrophoneInjectionMode::SpokenAudio => 1,
        }
    }
}
/// Mirrors `AVAudioSessionSoundStageSize`.
#[derive(Debug, Clone, Copy, PartialEq, Eq, Structural)]
pub enum AudioSessionSoundStageSize {
    Automatic,
    Small,
    Medium,
    Large,
}

impl AudioSessionSoundStageSize {
    /// The raw `i64` code of this value.
    pub open spec fn raw_of(self) -> i64 {
        match self {
            AudioSessionSoundStageSize::Automatic => 0,
            AudioSessionSoundStageSize::Small => 1,
            AudioSessionSoundStageSize::Medium => 2,
            AudioSessionSoundStageSize::Large => 3,
        }
    }

    /// Returns the raw `i64` code of this value.
    pub fn as_raw(self) -> (r: i64)
        ensures
            r == self.raw_of(),
    {
        match self {
            AudioSessionSoundStageSize::Automatic => 0,
            AudioSessionSoundStageSize::Small => 1,
            AudioSessionSoundStageSize::Medium => 2,
            AudioSessionSoundStageSize::Large => 3,
        }
    }
}
/// Mirrors `AVAudioSessionAnchoringStrategy`.
#[derive(Debug, Clone, Copy, PartialEq, Eq, Structural)]
pub enum AudioSessionAnchoringStrategy {
    Automatic,
    Scene,
    Front,
}

impl AudioSessionAnchoringStrategy {
    /// The raw `i64` code of this value.
    pub open spec fn raw_of(self) -> i64 {
        match self {
            AudioSessionAnchoringStrategy::Automatic => 0,
            AudioSessionAnchoringStrategy::Scene => 1,
            AudioSessionAnchoringStrategy::Front => 2,
        }
    }

    /// Returns the raw `i64` code of this value.
    pub fn as_raw(self) -> (r: i64)
        ensures
            r == self.raw_of(),
    {
        match self {
            AudioSessionAnchoringStrategy::Automatic => 0,
            AudioSessionAnchoringStrategy::Scene => 1,
            AudioSessionAnchoringStrategy::Front => 2,
        }
    }
}
/// Mirrors `AVAudioSessionSpatialExperience`.
#[derive(Debug, Clone, Copy, PartialEq, Eq, Structural)]
pub enum AudioSessionSpatialExperience {
    HeadTracked,
    Fixed,
    Bypassed,
}

impl AudioSessionSpatialExperience {
    /// The raw `i64` code of this value.
    pub open spec fn raw_of(self) -> i64 {
        match self {
            AudioSessionSpatialExperience::HeadTracked => 0,
            AudioSessionSpatialExperience::Fixed => 1,
            AudioSessionSpatialExperience::Bypassed => 2,
        }
    }

    /// Returns the raw `i64` code of this value.
    pub fn as_raw(self) -> (r: i64)
        ensures
            r == self.raw_of(),
    {
        match self {
            AudioSessionSpatialExperience::HeadTracked => 0,
            AudioSessionSpatialExperience::Fixed => 1,
            AudioSessionSpatialExperience::Bypassed => 2,
        }
    }
}
/// Mirrors `AVAudioSessionSilenceSecondaryAudioHintType`.
#[derive(Debug, Clone, Copy, PartialEq, Eq, Structural)]
pub enum AudioSessionSilenceSecondaryAudioHintType {
    End,
    Begin,
}

impl AudioSessionSilenceSecondaryAudioHintType {
    /// The raw `u64` code of this value.
    pub open spec fn raw_of(self) -> u64 {
        match self {
            AudioSessionSilenceSecondaryAudioHintType::End => 0,
            AudioSessionSilenceSecondaryAudioHintType::Begin => 1,
        }
    }

    /// Returns the raw `u64` code of this value.
    pub fn as_raw(self) -> (r: u64)
        ensures
            r == self.raw_of(),
    {
        match self {
            AudioSessionSilenceSecondaryAudioHintType::End => 0,
            AudioSessionSilenceSecondaryAudioHintType::Begin => 1,
        }
    }
}
/// The raw code of every `AudioSessionIOType` value, as AVFAudio defines it.
pub proof fn lemma_audio_session_i_o_type_codes()
    ensures
        AudioSessionIOType::NotSpecified.raw_of() == 0,
        AudioSessionIOType::Aggregated.raw_of() == 1,
{
}

/// The raw code of every `AudioSessionInterruptionType` value, as AVFAudio defines it.
pub proof fn lemma_audio_session_interruption_type_codes()
    ensures
        AudioSessionInterruptionType::Ended.raw_of() == 0,
        AudioSessionInterruptionType::Began.raw_of() == 1,
{
}

/// The raw code of every `AudioSessionPromptStyle` value, as AVFAudio defines it.
pub proof fn lemma_audio_session_prompt_style_codes()
    ensures
        AudioSessionPromptStyle::NoPrompt.raw_of() == 0x6e6f6e65,
        AudioSessionPromptStyle::Short.raw_of() == 0x73687274,
        AudioSessionPromptStyle::Normal.raw_of() == 0x6e726d6c,
{
}

/// The raw code of every `AudioSessionRouteChangeReason` value, as AVFAudio defines it.
pub proof fn lemma_audio_session_route_change_reason_codes()
    ensures
        AudioSessionRouteChangeReason::Unknown.raw_of() == 0,
        AudioSessionRouteChangeReason::NewDeviceAvailable.raw_of() == 1,
        AudioSessionRouteChangeReason::OldDeviceUnavailable.raw_of() == 2,
        AudioSessionRouteChangeReason::CategoryChange.raw_of() == 3,
        AudioSessionRouteChangeReason::Override.raw_of() == 4,
        AudioSessionRouteChangeReason::WakeFromSleep.raw_of() == 6,
        AudioSessionRouteChangeReason::NoSuitableRouteForCategory.raw_of() == 7,
        AudioSessionRouteChangeReason::RouteConfigurationChange.raw_of() == 8,
{
}

/// The raw code of every `AudioStereoOrientation` value, as AVFAudio defines it.
pub proof fn lemma_audio_stereo_orientation_codes()
    ensures
        AudioStereoOrientation::NoOrientation.raw_of() == 0,
        AudioStereoOrientation::Portrait.raw_of() == 1,
        AudioStereoOrientation::PortraitUpsideDown.raw_of() == 2,
        AudioStereoOrientation::LandscapeRight.raw_of() == 3,
        AudioStereoOrientation::LandscapeLeft.raw_of() == 4,
{
}

/// The raw code of every `AudioSessionRenderingMode` value, as AVFAudio defines it.
pub proof fn lemma_audio_session_rendering_mode_codes()
    ensures
        AudioSessionRenderingMode::NotApplicable.raw_of() == 0,
        AudioSessionRenderingMode::MonoStereo.raw_of() == 1,
        AudioSessionRenderingMode::Surround.raw_of() == 2,
        AudioSessionRenderingMode::SpatialAudio.raw_of() == 3,
        AudioSessionRenderingMode::DolbyAudio.raw_of() == 4,
        AudioSessionRenderingMode::DolbyAtmos.raw_of() == 5,
{
}

/// The raw code of every `AudioSessionMicrophoneInjectionMode` value, as AVFAudio defines it.
pub proof fn lemma_audio_session_microphone_injection_mode_codes()
    ensures
        AudioSessionMicrophoneInjectionMode::NoInjection.raw_of() == 0,
        AudioSessionMicrophoneInjectionMode::SpokenAudio.raw_of() == 1,
{
}

/// The raw code of every `AudioSessionSoundStageSize` value, as AVFAudio defines it.
pub proof fn lemma_audio_session_sound_stage_size_codes()
    ensures
        AudioSessionSoundStageSize::Automatic.raw_of() == 0,
        AudioSessionSoundStageSize::Small.raw_of() == 1,
        AudioSessionSoundStageSize::Medium.raw_of() == 2,
        AudioSessionSoundStageSize::Large.raw_of() == 3,
{
}

/// The raw code of every `AudioSessionAnchoringStrategy` value, as AVFAudio defines it.
pub proof fn lemma_audio_session_anchoring_strategy_codes()
    ensures
        AudioSessionAnchoringStrategy::Automatic.raw_of() == 0,
        AudioSessionAnchoringStrategy::Scene.raw_of() == 1,
        AudioSessionAnchoringStrategy::Front.raw_of() == 2,
{
}

/// The raw code of every `AudioSessionSpatialExperience` value, as AVFAudio defines it.
pub proof fn lemma_audio_session_spatial_experience_codes()
    ensures
        AudioSessionSpatialExperience::HeadTracked.raw_of() == 0,
        AudioSessionSpatialExperience::Fixed.raw_of() == 1,
        AudioSessionSpatialExperience::Bypassed.raw_of() == 2,
{
}

/// The raw code of every `AudioSessionSilenceSecondaryAudioHintType` value, as AVFAudio defines it.
pub proof fn lemma_audio_session_silence_secondary_audio_hint_type_codes()
    ensures
        AudioSessionSilenceSecondaryAudioHintType::End.raw_of() == 0,
        AudioSessionSilenceSecondaryAudioHintType::Begin.raw_of() == 1,
{
}

} // verus!
