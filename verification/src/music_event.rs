//! Music-event value models used by sequencer tracks, and their flat payload encoding.
//!
//! Floating-point fields (durations, tempos, parameter values) are carried as their
//! IEEE-754 bit patterns (`f64::to_bits` / `f32::to_bits`), so the encoding is lossless.

use vstd::prelude::*;
use vstd::string::*;

use crate::error::AVAudioError;
use crate::json::{json_value_text, normalize_json_value};
use crate::text::{append_int_decimal, int_decimal};

verus! {

/// Types of MIDI control-change messages.
#[derive(Debug, Clone, Copy, PartialEq, Eq, Structural)]
pub enum MidiControlChangeMessageType {
    BankSelect,
    ModWheel,
    Breath,
    Foot,
    PortamentoTime,
    DataEntry,
    Volume,
    Balance,
    Pan,
    Expression,
    Sustain,
    Portamento,
    Sostenuto,
    Soft,
    LegatoPedal,
    Hold2Pedal,
    FilterResonance,
    ReleaseTime,
    AttackTime,
    Brightness,
    DecayTime,
    VibratoRate,
    VibratoDepth,
    VibratoDelay,
    ReverbLevel,
    ChorusLevel,
    RpnLsb,
    RpnMsb,
    AllSoundOff,
    ResetAllControllers,
    AllNotesOff,
    OmniModeOff,
    OmniModeOn,
    MonoModeOn,
    MonoModeOff,
}

impl MidiControlChangeMessageType {
    /// The raw code of this type.
    pub open spec fn raw_value(self) -> i64 {
        match self {
            MidiControlChangeMessageType::BankSelect => 0,
            MidiControlChangeMessageType::ModWheel => 1,
            MidiControlChangeMessageType::Breath => 2,
            MidiControlChangeMessageType::Foot => 4,
            MidiControlChangeMessageType::PortamentoTime => 5,
            MidiControlChangeMessageType::DataEntry => 6,
            MidiControlChangeMessageType::Volume => 7,
            MidiControlChangeMessageType::Balance => 8,
            MidiControlChangeMessageType::Pan => 10,
            MidiControlChangeMessageType::Expression => 11,
            MidiControlChangeMessageType::Sustain => 64,
            MidiControlChangeMessageType::Portamento => 65,
            MidiControlChangeMessageType::Sostenuto => 66,
            MidiControlChangeMessageType::Soft => 67,
            MidiControlChangeMessageType::LegatoPedal => 68,
            MidiControlChangeMessageType::Hold2Pedal => 69,
            MidiControlChangeMessageType::FilterResonance => 71,
            MidiControlChangeMessageType::ReleaseTime => 72,
            MidiControlChangeMessageType::AttackTime => 73,
            MidiControlChangeMessageType::Brightness => 74,
            MidiControlChangeMessageType::DecayTime => 75,
            MidiControlChangeMessageType::VibratoRate => 76,
            MidiControlChangeMessageType::VibratoDepth => 77,
            MidiControlChangeMessageType::VibratoDelay => 78,
            MidiControlChangeMessageType::ReverbLevel => 91,
            MidiControlChangeMessageType::ChorusLevel => 93,
            MidiControlChangeMessageType::RpnLsb => 100,
            MidiControlChangeMessageType::RpnMsb => 101,
            MidiControlChangeMessageType::AllSoundOff => 120,
            MidiControlChangeMessageType::ResetAllControllers => 121,
            MidiControlChangeMessageType::AllNotesOff => 123,
            MidiControlChangeMessageType::OmniModeOff => 124,
            MidiControlChangeMessageType::OmniModeOn => 125,
            MidiControlChangeMessageType::MonoModeOn => 126,
            MidiControlChangeMessageType::MonoModeOff => 127,
        }
    }

    /// The type whose raw code is `value`, if there is one.
    pub open spec fn from_raw_value(value: i64) -> Option<Self> {
        if value == 0 {
            Some(MidiControlChangeMessageType::BankSelect)
        } else if value == 1 {
            Some(MidiControlChangeMessageType::ModWheel)
        } else if value == 2 {
            Some(MidiControlChangeMessageType::Breath)
        } else if value == 4 {
            Some(MidiControlChangeMessageType::Foot)
        } else if value == 5 {
            Some(MidiControlChangeMessageType::PortamentoTime)
        } else if value == 6 {
            Some(MidiControlChangeMessageType::DataEntry)
        } else if value == 7 {
            Some(MidiControlChangeMessageType::Volume)
        } else if value == 8 {
            Some(MidiControlChangeMessageType::Balance)
        } else if value == 10 {
            Some(MidiControlChangeMessageType::Pan)
        } else if value == 11 {
            Some(MidiControlChangeMessageType::Expression)
        } else if value == 64 {
            Some(MidiControlChangeMessageType::Sustain)
        } else if value == 65 {
            Some(MidiControlChangeMessageType::Portamento)
        } else if value == 66 {
            Some(MidiControlChangeMessageType::Sostenuto)
        } else if value == 67 {
            Some(MidiControlChangeMessageType::Soft)
        } else if value == 68 {
            Some(MidiControlChangeMessageType::LegatoPedal)
        } else if value == 69 {
            Some(MidiControlChangeMessageType::Hold2Pedal)
        } else if value == 71 {
            Some(MidiControlChangeMessageType::FilterResonance)
        } else if value == 72 {
            Some(MidiControlChangeMessageType::ReleaseTime)
        } else if value == 73 {
            Some(MidiControlChangeMessageType::AttackTime)
        } else if value == 74 {
            Some(MidiControlChangeMessageType::Brightness)
        } else if value == 75 {
            Some(MidiControlChangeMessageType::DecayTime)
        } else if value == 76 {
            Some(MidiControlChangeMessageType::VibratoRate)
        } else if value == 77 {
            Some(MidiControlChangeMessageType::VibratoDepth)
        } else if value == 78 {
            Some(MidiControlChangeMessageType::VibratoDelay)
        } else if value == 91 {
            Some(MidiControlChangeMessageType::ReverbLevel)
        } else if value == 93 {
            Some(MidiControlChangeMessageType::ChorusLevel)
        } else if value == 100 {
            Some(MidiControlChangeMessageType::RpnLsb)
        } else if value == 101 {
            Some(MidiControlChangeMessageType::RpnMsb)
        } else if value == 120 {
            Some(MidiControlChangeMessageType::AllSoundOff)
        } else if value == 121 {
            Some(MidiControlChangeMessageType::ResetAllControllers)
        } else if value == 123 {
            Some(MidiControlChangeMessageType::AllNotesOff)
        } else if value == 124 {
            Some(MidiControlChangeMessageType::OmniModeOff)
        } else if value == 125 {
            Some(MidiControlChangeMessageType::OmniModeOn)
        } else if value == 126 {
            Some(MidiControlChangeMessageType::MonoModeOn)
        } else if value == 127 {
            Some(MidiControlChangeMessageType::MonoModeOff)
        } else {
            None
        }
    }

    /// Returns the raw code of this type.
    pub fn as_raw(self) -> (r: i64)
        ensures
            r == self.raw_value(),
    {
        match self {
            MidiControlChangeMessageType::BankSelect => 0,
            MidiControlChangeMessageType::ModWheel => 1,
            MidiControlChangeMessageType::Breath => 2,
            MidiControlChangeMessageType::Foot => 4,
            MidiControlChangeMessageType::PortamentoTime => 5,
            MidiControlChangeMessageType::DataEntry => 6,
            MidiControlChangeMessageType::Volume => 7,
            MidiControlChangeMessageType::Balance => 8,
            MidiControlChangeMessageType::Pan => 10,
            MidiControlChangeMessageType::Expression => 11,
            MidiControlChangeMessageType::Sustain => 64,
            MidiControlChangeMessageType::Portamento => 65,
            MidiControlChangeMessageType::Sostenuto => 66,
            MidiControlChangeMessageType::Soft => 67,
            MidiControlChangeMessageType::LegatoPedal => 68,
            MidiControlChangeMessageType::Hold2Pedal => 69,
            MidiControlChangeMessageType::FilterResonance => 71,
            MidiControlChangeMessageType::ReleaseTime => 72,
            MidiControlChangeMessageType::AttackTime => 73,
            MidiControlChangeMessageType::Brightness => 74,
            MidiControlChangeMessageType::DecayTime => 75,
            MidiControlChangeMessageType::VibratoRate => 76,
            MidiControlChangeMessageType::VibratoDepth => 77,
            MidiControlChangeMessageType::VibratoDelay => 78,
            MidiControlChangeMessageType::ReverbLevel => 91,
            MidiControlChangeMessageType::ChorusLevel => 93,
            MidiControlChangeMessageType::RpnLsb => 100,
            MidiControlChangeMessageType::RpnMsb => 101,
            MidiControlChangeMessageType::AllSoundOff => 120,
            MidiControlChangeMessageType::ResetAllControllers => 121,
            MidiControlChangeMessageType::AllNotesOff => 123,
            MidiControlChangeMessageType::OmniModeOff => 124,
            MidiControlChangeMessageType::OmniModeOn => 125,
            MidiControlChangeMessageType::MonoModeOn => 126,
            MidiControlChangeMessageType::MonoModeOff => 127,
        }
    }

    /// Parses a raw code; any code that names no type is an `InvalidArgument` error
    /// whose message is `unsupported MIDI control-change message type <code>`.
    pub fn try_from_raw(value: i64) -> (r: Result<Self, AVAudioError>)
        ensures
            match r {
                Ok(t) => Self::from_raw_value(value) == Some(t),
                Err(e) => Self::from_raw_value(value) is None && e is InvalidArgument
                    && e.message() == "unsupported MIDI control-change message type "@ + int_decimal(value as int),
            },
    {
        match value {
            0 => Ok(MidiControlChangeMessageType::BankSelect),
            1 => Ok(MidiControlChangeMessageType::ModWheel),
            2 => Ok(MidiControlChangeMessageType::Breath),
            4 => Ok(MidiControlChangeMessageType::Foot),
            5 => Ok(MidiControlChangeMessageType::PortamentoTime),
            6 => Ok(MidiControlChangeMessageType::DataEntry),
            7 => Ok(MidiControlChangeMessageType::Volume),
            8 => Ok(MidiControlChangeMessageType::Balance),
            10 => Ok(MidiControlChangeMessageType::Pan),
            11 => Ok(MidiControlChangeMessageType::Expression),
            64 => Ok(MidiControlChangeMessageType::Sustain),
            65 => Ok(MidiControlChangeMessageType::Portamento),
            66 => Ok(MidiControlChangeMessageType::Sostenuto),
            67 => Ok(MidiControlChangeMessageType::Soft),
            68 => Ok(MidiControlChangeMessageType::LegatoPedal),
            69 => Ok(MidiControlChangeMessageType::Hold2Pedal),
            71 => Ok(MidiControlChangeMessageType::FilterResonance),
            72 => Ok(MidiControlChangeMessageType::ReleaseTime),
            73 => Ok(MidiControlChangeMessageType::AttackTime),
            74 => Ok(MidiControlChangeMessageType::Brightness),
            75 => Ok(MidiControlChangeMessageType::DecayTime),
            76 => Ok(MidiControlChangeMessageType::VibratoRate),
            77 => Ok(MidiControlChangeMessageType::VibratoDepth),
            78 => Ok(MidiControlChangeMessageType::VibratoDelay),
            91 => Ok(MidiControlChangeMessageType::ReverbLevel),
            93 => Ok(MidiControlChangeMessageType::ChorusLevel),
            100 => Ok(MidiControlChangeMessageType::RpnLsb),
            101 => Ok(MidiControlChangeMessageType::RpnMsb),
            120 => Ok(MidiControlChangeMessageType::AllSoundOff),
            121 => Ok(MidiControlChangeMessageType::ResetAllControllers),
            123 => Ok(MidiControlChangeMessageType::AllNotesOff),
            124 => Ok(MidiControlChangeMessageType::OmniModeOff),
            125 => Ok(MidiControlChangeMessageType::OmniModeOn),
            126 => Ok(MidiControlChangeMessageType::MonoModeOn),
            127 => Ok(MidiControlChangeMessageType::MonoModeOff),
            _ => {
                let mut text = String::from_str("unsupported MIDI control-change message type ");
                append_int_decimal(&mut text, value);
                Err(AVAudioError::InvalidArgument(text))
            },
        }
    }
}

/// Types of MIDI meta events.
#[derive(Debug, Clone, Copy, PartialEq, Eq, Structural)]
pub enum MidiMetaEventType {
    SequenceNumber,
    Text,
    Copyright,
    TrackName,
    Instrument,
    Lyric,
    Marker,
    CuePoint,
    MidiChannel,
    MidiPort,
    EndOfTrack,
    Tempo,
    SmpteOffset,
    TimeSignature,
    KeySignature,
    ProprietaryEvent,
}

impl MidiMetaEventType {
    /// The raw code of this type.
    pub open spec fn raw_value(self) -> i64 {
        match self {
            MidiMetaEventType::SequenceNumber => 0x00,
            MidiMetaEventType::Text => 0x01,
            MidiMetaEventType::Copyright => 0x02,
            MidiMetaEventType::TrackName => 0x03,
            MidiMetaEventType::Instrument => 0x04,
            MidiMetaEventType::Lyric => 0x05,
            MidiMetaEventType::Marker => 0x06,
            MidiMetaEventType::CuePoint => 0x07,
            MidiMetaEventType::MidiChannel => 0x20,
            MidiMetaEventType::MidiPort => 0x21,
            MidiMetaEventType::EndOfTrack => 0x2f,
            MidiMetaEventType::Tempo => 0x51,
            MidiMetaEventType::SmpteOffset => 0x54,
            MidiMetaEventType::TimeSignature => 0x58,
            MidiMetaEventType::KeySignature => 0x59,
            MidiMetaEventType::ProprietaryEvent => 0x7f,
        }
    }

    /// The type whose raw code is `value`, if there is one.
    pub open spec fn from_raw_value(value: i64) -> Option<Self> {
        if value == 0x00 {
            Some(MidiMetaEventType::SequenceNumber)
        } else if value == 0x01 {
            Some(MidiMetaEventType::Text)
        } else if value == 0x02 {
            Some(MidiMetaEventType::Copyright)
        } else if value == 0x03 {
            Some(MidiMetaEventType::TrackName)
        } else if value == 0x04 {
            Some(MidiMetaEventType::Instrument)
        } else if value == 0x05 {
            Some(MidiMetaEventType::Lyric)
        } else if value == 0x06 {
            Some(MidiMetaEventType::Marker)
        } else if value == 0x07 {
            Some(MidiMetaEventType::CuePoint)
        } else if value == 0x20 {
            Some(MidiMetaEventType::MidiChannel)
        } else if value == 0x21 {
            Some(MidiMetaEventType::MidiPort)
        } else if value == 0x2f {
            Some(MidiMetaEventType::EndOfTrack)
        } else if value == 0x51 {
            Some(MidiMetaEventType::Tempo)
        } else if value == 0x54 {
            Some(MidiMetaEventType::SmpteOffset)
        } else if value == 0x58 {
            Some(MidiMetaEventType::TimeSignature)
        } else if value == 0x59 {
            Some(MidiMetaEventType::KeySignature)
        } else if value == 0x7f {
            Some(MidiMetaEventType::ProprietaryEvent)
        } else {
            None
        }
    }

    /// Returns the raw code of this type.
    pub fn as_raw(self) -> (r: i64)
        ensures
            r == self.raw_value(),
    {
        match self {
            MidiMetaEventType::SequenceNumber => 0x00,
            MidiMetaEventType::Text => 0x01,
            MidiMetaEventType::Copyright => 0x02,
            MidiMetaEventType::TrackName => 0x03,
            MidiMetaEventType::Instrument => 0x04,
            MidiMetaEventType::Lyric => 0x05,
            MidiMetaEventType::Marker => 0x06,
            MidiMetaEventType::CuePoint => 0x07,
            MidiMetaEventType::MidiChannel => 0x20,
            MidiMetaEventType::MidiPort => 0x21,
            MidiMetaEventType::EndOfTrack => 0x2f,
            MidiMetaEventType::Tempo => 0x51,
            MidiMetaEventType::SmpteOffset => 0x54,
            MidiMetaEventType::TimeSignature => 0x58,
            MidiMetaEventType::KeySignature => 0x59,
            MidiMetaEventType::ProprietaryEvent => 0x7f,
        }
    }

    /// Parses a raw code; any code that names no type is an `InvalidArgument` error
    /// whose message is `unsupported MIDI meta-event type <code>`.
    pub fn try_from_raw(value: i64) -> (r: Result<Self, AVAudioError>)
        ensures
            match r {
                Ok(t) => Self::from_raw_value(value) == Some(t),
                Err(e) => Self::from_raw_value(value) is None && e is InvalidArgument
                    && e.message() == "unsupported MIDI meta-event type "@ + int_decimal(value as int),
            },
    {
        match value {
            0x00 => Ok(MidiMetaEventType::SequenceNumber),
            0x01 => Ok(MidiMetaEventType::Text),
            0x02 => Ok(MidiMetaEventType::Copyright),
            0x03 => Ok(MidiMetaEventType::TrackName),
            0x04 => Ok(MidiMetaEventType::Instrument),
            0x05 => Ok(MidiMetaEventType::Lyric),
            0x06 => Ok(MidiMetaEventType::Marker),
            0x07 => Ok(MidiMetaEventType::CuePoint),
            0x20 => Ok(MidiMetaEventType::MidiChannel),
            0x21 => Ok(MidiMetaEventType::MidiPort),
            0x2f => Ok(MidiMetaEventType::EndOfTrack),
            0x51 => Ok(MidiMetaEventType::Tempo),
            0x54 => Ok(MidiMetaEventType::SmpteOffset),
            0x58 => Ok(MidiMetaEventType::TimeSignature),
            0x59 => Ok(MidiMetaEventType::KeySignature),
            0x7f => Ok(MidiMetaEventType::ProprietaryEvent),
            _ => {
                let mut text = String::from_str("unsupported MIDI meta-event type ");
                append_int_decimal(&mut text, value);
                Err(AVAudioError::InvalidArgument(text))
            },
        }
    }
}

/// The message of the error reported when a payload lacks `field` for an event of `kind`.
pub open spec fn missing_field_text(field: Seq<char>, kind: Seq<char>) -> Seq<char> {
    "missing `"@ + field + "` for `"@ + kind + "` music event payload"@
}

/// Builds the error reported when a payload lacks `field` for an event of `kind`.
pub fn missing_field(field: &str, kind: &str) -> (e: AVAudioError)
    ensures
        e is InvalidArgument,
        e.message() == missing_field_text(field@, kind@),
{
    let mut text = String::from_str("missing `");
    text.append(field);
    text.append("` for `");
    text.append(kind);
    text.append("` music event payload");
    AVAudioError::InvalidArgument(text)
}

/// Unwraps a required payload field, or reports it missing.
pub fn require<T>(value: Option<T>, field: &str, kind: &str) -> (r: Result<T, AVAudioError>)
    ensures
        match value {
            Some(v) => r == Ok::<T, AVAudioError>(v),
            None => r matches Err(e) && e is InvalidArgument && e.message()
                == missing_field_text(field@, kind@),
        },
{
    match value {
        Some(v) => Ok(v),
        None => Err(missing_field(field, kind)),
    }
}

/// `AVMIDINoteEvent`.
#[derive(Debug, Clone, Copy, PartialEq, Eq, Structural)]
pub struct MidiNoteEvent {
    pub channel: u32,
    pub key: u32,
    pub velocity: u32,
    /// Bit pattern of the `f64` duration in beats.
    pub duration_bits: u64,
}

impl MidiNoteEvent {
    pub fn new(channel: u32, key: u32, velocity: u32, duration_bits: u64) -> (r: Self)
        ensures
            r == (MidiNoteEvent { channel, key, velocity, duration_bits }),
    {
        MidiNoteEvent { channel, key, velocity, duration_bits }
    }
}

/// `AVMIDIControlChangeEvent`.
#[derive(Debug, Clone, Copy, PartialEq, Eq, Structural)]
pub struct MidiControlChangeEvent {
    pub channel: u32,
    pub message_type: MidiControlChangeMessageType,
    pub value: u32,
}

impl MidiControlChangeEvent {
    pub fn new(channel: u32, message_type: MidiControlChangeMessageType, value: u32) -> (r: Self)
        ensures
            r == (MidiControlChangeEvent { channel, message_type, value }),
    {
        MidiControlChangeEvent { channel, message_type, value }
    }
}

/// `AVMIDIPolyPressureEvent`.
#[derive(Debug, Clone, Copy, PartialEq, Eq, Structural)]
pub struct MidiPolyPressureEvent {
    pub channel: u32,
    pub key: u32,
    pub pressure: u32,
}

impl MidiPolyPressureEvent {
    pub fn new(channel: u32, key: u32, pressure: u32) -> (r: Self)
        ensures
            r == (MidiPolyPressureEvent { channel, key, pressure }),
    {
        MidiPolyPressureEvent { channel, key, pressure }
    }
}

/// `AVMIDIProgramChangeEvent`.
#[derive(Debug, Clone, Copy, PartialEq, Eq, Structural)]
pub struct MidiProgramChangeEvent {
    pub channel: u32,
    pub program_number: u32,
}

impl MidiProgramChangeEvent {
    pub fn new(channel: u32, program_number: u32) -> (r: Self)
        ensures
            r == (MidiProgramChangeEvent { channel, program_number }),
    {
        MidiProgramChangeEvent { channel, program_number }
    }
}

/// `AVMIDIChannelPressureEvent`.
#[derive(Debug, Clone, Copy, PartialEq, Eq, Structural)]
pub struct MidiChannelPressureEvent {
    pub channel: u32,
    pub pressure: u32,
}

impl MidiChannelPressureEvent {
    pub fn new(channel: u32, pressure: u32) -> (r: Self)
        ensures
            r == (MidiChannelPressureEvent { channel, pressure }),
    {
        MidiChannelPressureEvent { channel, pressure }
    }
}

/// `AVMIDIPitchBendEvent`.
#[derive(Debug, Clone, Copy, PartialEq, Eq, Structural)]
pub struct MidiPitchBendEvent {
    pub channel: u32,
    pub value: u32,
}

impl MidiPitchBendEvent {
    pub fn new(channel: u32, value: u32) -> (r: Self)
        ensures
            r == (MidiPitchBendEvent { channel, value }),
    {
        MidiPitchBendEvent { channel, value }
    }
}

/// The size reported for a byte payload: the explicit size when one was reported,
/// otherwise the data length saturated at `u32::MAX`.
pub open spec fn reported_or_length(reported: Option<u32>, len: nat) -> u32 {
    match reported {
        Some(size) => size,
        None => if len <= u32::MAX { len as u32 } else { u32::MAX },
    }
}

fn size_or_length(reported: Option<u32>, len: usize) -> (r: u32)
    ensures
        r == reported_or_length(reported, len as nat),
{
    match reported {
        Some(size) => size,
        None => if len <= 0xffff_ffffusize { len as u32 } else { 0xffff_ffffu32 },
    }
}

/// `AVMIDISysexEvent`.
#[derive(Debug, Clone, PartialEq, Eq)]
pub struct MidiSysexEvent {
    pub data: Vec<u8>,
    pub reported_size_in_bytes: Option<u32>,
}

impl MidiSysexEvent {
    pub fn new(data: Vec<u8>) -> (r: Self)
        ensures
            r.data@ == data@,
            r.reported_size_in_bytes is None,
    {
        MidiSysexEvent { data, reported_size_in_bytes: None }
    }

    /// The reported size, or the data length (saturated at `u32::MAX`) when none was reported.
    pub fn size_in_bytes(&self) -> (r: u32)
        ensures
            r == reported_or_length(self.reported_size_in_bytes, self.data@.len()),
    {
        size_or_length(self.reported_size_in_bytes, self.data.len())
    }
}

/// `AVMIDIMetaEvent`.
#[derive(Debug, Clone, PartialEq, Eq)]
pub struct MidiMetaEvent {
    pub meta_type: MidiMetaEventType,
    pub data: Vec<u8>,
}

impl MidiMetaEvent {
    pub fn new(meta_type: MidiMetaEventType, data: Vec<u8>) -> (r: Self)
        ensures
            r.meta_type == meta_type,
            r.data@ == data@,
    {
        MidiMetaEvent { meta_type, data }
    }
}

/// `AVMusicUserEvent`.
#[derive(Debug, Clone, PartialEq, Eq)]
pub struct MusicUserEvent {
    pub data: Vec<u8>,
    pub reported_size_in_bytes: Option<u32>,
}

impl MusicUserEvent {
    pub fn new(data: Vec<u8>) -> (r: Self)
        ensures
            r.data@ == data@,
            r.reported_size_in_bytes is None,
    {
        MusicUserEvent { data, reported_size_in_bytes: None }
    }

    /// The reported size, or the data length (saturated at `u32::MAX`) when none was reported.
    pub fn size_in_bytes(&self) -> (r: u32)
        ensures
            r == reported_or_length(self.reported_size_in_bytes, self.data@.len()),
    {
        size_or_length(self.reported_size_in_bytes, self.data.len())
    }
}

/// `AVExtendedNoteOnEvent`.
#[derive(Debug, Clone, Copy, PartialEq, Eq, Structural)]
pub struct ExtendedNoteOnEvent {
    /// Bit pattern of the `f32` MIDI note.
    pub midi_note_bits: u32,
    /// Bit pattern of the `f32` velocity.
    pub velocity_bits: u32,
    pub instrument_id: u32,
    pub group_id: u32,
    /// Bit pattern of the `f64` duration in beats.
    pub duration_bits: u64,
}

impl ExtendedNoteOnEvent {
    pub fn new(
        midi_note_bits: u32,
        velocity_bits: u32,
        instrument_id: u32,
        group_id: u32,
        duration_bits: u64,
    ) -> (r: Self)
        ensures
            r == (ExtendedNoteOnEvent {
                midi_note_bits,
                velocity_bits,
                instrument_id,
                group_id,
                duration_bits,
            }),
    {
        ExtendedNoteOnEvent { midi_note_bits, velocity_bits, instrument_id, group_id, duration_bits }
    }
}

/// `AVParameterEvent`.
#[derive(Debug, Clone, Copy, PartialEq, Eq, Structural)]
pub struct ParameterEvent {
    pub parameter_id: u32,
    pub scope: u32,
    pub element: u32,
    /// Bit pattern of the `f32` parameter value.
    pub value_bits: u32,
}

impl ParameterEvent {
    pub fn new(parameter_id: u32, scope: u32, element: u32, value_bits: u32) -> (r: Self)
        ensures
            r == (ParameterEvent { parameter_id, scope, element, value_bits }),
    {
        ParameterEvent { parameter_id, scope, element, value_bits }
    }
}

/// `AVAUPresetEvent`; the preset dictionary is held as JSON text.
#[derive(Debug, Clone, PartialEq, Eq)]
pub struct AUPresetEvent {
    pub scope: u32,
    pub element: u32,
    pub preset_dictionary: String,
}

impl AUPresetEvent {
    pub fn new(scope: u32, element: u32, preset_dictionary: String) -> (r: Self)
        ensures
            r.scope == scope,
            r.element == element,
            r.preset_dictionary@ == preset_dictionary@,
    {
        AUPresetEvent { scope, element, preset_dictionary }
    }
}

/// `AVExtendedTempoEvent`.
#[derive(Debug, Clone, Copy, PartialEq, Eq, Structural)]
pub struct ExtendedTempoEvent {
    /// Bit pattern of the `f64` tempo in beats per minute.
    pub tempo_bits: u64,
}

impl ExtendedTempoEvent {
    pub fn new(tempo_bits: u64) -> (r: Self)
        ensures
            r == (ExtendedTempoEvent { tempo_bits }),
    {
        ExtendedTempoEvent { tempo_bits }
    }
}

/// A value model of the `AVMusicEvent` class family.
#[derive(Debug, Clone, PartialEq, Eq)]
pub enum MusicEvent {
    MidiNote(MidiNoteEvent),
    MidiControlChange(MidiControlChangeEvent),
    MidiPolyPressure(MidiPolyPressureEvent),
    MidiProgramChange(MidiProgramChangeEvent),
    MidiChannelPressure(MidiChannelPressureEvent),
    MidiPitchBend(MidiPitchBendEvent),
    MidiSysex(MidiSysexEvent),
    MidiMeta(MidiMetaEvent),
    MusicUser(MusicUserEvent),
    ExtendedNoteOn(ExtendedNoteOnEvent),
    Parameter(ParameterEvent),
    AUPreset(AUPresetEvent),
    ExtendedTempo(ExtendedTempoEvent),
}

/// The mathematical content of a [`MusicEvent`]: byte and text fields as sequences.
pub enum MusicEventView {
    MidiNote(MidiNoteEvent),
    MidiControlChange(MidiControlChangeEvent),
    MidiPolyPressure(MidiPolyPressureEvent),
    MidiProgramChange(MidiProgramChangeEvent),
    MidiChannelPressure(MidiChannelPressureEvent),
    MidiPitchBend(MidiPitchBendEvent),
    MidiSysex { data: Seq<u8>, reported_size_in_bytes: Option<u32> },
    MidiMeta { meta_type: MidiMetaEventType, data: Seq<u8> },
    MusicUser { data: Seq<u8>, reported_size_in_bytes: Option<u32> },
    ExtendedNoteOn(ExtendedNoteOnEvent),
    Parameter(ParameterEvent),
    AUPreset { scope: u32, element: u32, preset_dictionary: Seq<char> },
    ExtendedTempo(ExtendedTempoEvent),
}

impl View for MusicEvent {
    type V = MusicEventView;

    open spec fn view(&self) -> MusicEventView {
        match self {
            MusicEvent::MidiNote(e) => MusicEventView::MidiNote(*e),
            MusicEvent::MidiControlChange(e) => MusicEventView::MidiControlChange(*e),
            MusicEvent::MidiPolyPressure(e) => MusicEventView::MidiPolyPressure(*e),
            MusicEvent::MidiProgramChange(e) => MusicEventView::MidiProgramChange(*e),
            MusicEvent::MidiChannelPressure(e) => MusicEventView::MidiChannelPressure(*e),
            MusicEvent::MidiPitchBend(e) => MusicEventView::MidiPitchBend(*e),
            MusicEvent::MidiSysex(e) => MusicEventView::MidiSysex {
                data: e.data@,
                reported_size_in_bytes: e.reported_size_in_bytes,
            },
            MusicEvent::MidiMeta(e) => MusicEventView::MidiMeta {
                meta_type: e.meta_type,
                data: e.data@,
            },
            MusicEvent::MusicUser(e) => MusicEventView::MusicUser {
                data: e.data@,
                reported_size_in_bytes: e.reported_size_in_bytes,
            },
            MusicEvent::ExtendedNoteOn(e) => MusicEventView::ExtendedNoteOn(*e),
            MusicEvent::Parameter(e) => MusicEventView::Parameter(*e),
            MusicEvent::AUPreset(e) => MusicEventView::AUPreset {
                scope: e.scope,
                element: e.element,
                preset_dictionary: e.preset_dictionary@,
            },
            MusicEvent::ExtendedTempo(e) => MusicEventView::ExtendedTempo(*e),
        }
    }
}


/// The flat, JSON-shaped record exchanged with the bridge for one music event.
///
/// `kind` names the event class; each class fills the fields it needs and leaves the
/// others `None`.
#[derive(Debug, Clone, PartialEq, Eq)]
pub struct MusicEventPayload {
    pub kind: String,
    pub channel: Option<u32>,
    pub key: Option<u32>,
    pub velocity: Option<u32>,
    pub duration_bits: Option<u64>,
    pub message_type: Option<i64>,
    pub value: Option<u32>,
    pub pressure: Option<u32>,
    pub program_number: Option<u32>,
    pub data: Option<Vec<u8>>,
    pub size_in_bytes: Option<u32>,
    pub meta_type: Option<i64>,
    pub midi_note_bits: Option<u32>,
    pub velocity_float_bits: Option<u32>,
    pub instrument_id: Option<u32>,
    pub group_id: Option<u32>,
    pub parameter_id: Option<u32>,
    pub scope: Option<u32>,
    pub element: Option<u32>,
    pub value_float_bits: Option<u32>,
    pub tempo_bits: Option<u64>,
    pub preset_dictionary_json: Option<String>,
}

/// The mathematical content of a [`MusicEventPayload`].
pub struct MusicEventPayloadView {
    pub kind: Seq<char>,
    pub channel: Option<u32>,
    pub key: Option<u32>,
    pub velocity: Option<u32>,
    pub duration_bits: Option<u64>,
    pub message_type: Option<i64>,
    pub value: Option<u32>,
    pub pressure: Option<u32>,
    pub program_number: Option<u32>,
    pub data: Option<Seq<u8>>,
    pub size_in_bytes: Option<u32>,
    pub meta_type: Option<i64>,
    pub midi_note_bits: Option<u32>,
    pub velocity_float_bits: Option<u32>,
    pub instrument_id: Option<u32>,
    pub group_id: Option<u32>,
    pub parameter_id: Option<u32>,
    pub scope: Option<u32>,
    pub element: Option<u32>,
    pub value_float_bits: Option<u32>,
    pub tempo_bits: Option<u64>,
    pub preset_dictionary_json: Option<Seq<char>>,
}

/// The view of an optional byte vector.
pub open spec fn opt_bytes(v: Option<Vec<u8>>) -> Option<Seq<u8>> {
    match v {
        Some(d) => Some(d@),
        None => None,
    }
}

/// The view of an optional string.
pub open spec fn opt_text(v: Option<String>) -> Option<Seq<char>> {
    match v {
        Some(s) => Some(s@),
        None => None,
    }
}

impl View for MusicEventPayload {
    type V = MusicEventPayloadView;

    open spec fn view(&self) -> MusicEventPayloadView {
        MusicEventPayloadView {
            kind: self.kind@,
            channel: self.channel,
            key: self.key,
            velocity: self.velocity,
            duration_bits: self.duration_bits,
            message_type: self.message_type,
            value: self.value,
            pressure: self.pressure,
            program_number: self.program_number,
            data: opt_bytes(self.data),
            size_in_bytes: self.size_in_bytes,
            meta_type: self.meta_type,
            midi_note_bits: self.midi_note_bits,
            velocity_float_bits: self.velocity_float_bits,
            instrument_id: self.instrument_id,
            group_id: self.group_id,
            parameter_id: self.parameter_id,
            scope: self.scope,
            element: self.element,
            value_float_bits: self.value_float_bits,
            tempo_bits: self.tempo_bits,
            preset_dictionary_json: opt_text(self.preset_dictionary_json),
        }
    }
}

/// A payload view of the given kind with every field absent.
pub open spec fn empty_payload_view(kind: Seq<char>) -> MusicEventPayloadView {
    MusicEventPayloadView {
        kind,
        channel: None,
        key: None,
        velocity: None,
        duration_bits: None,
        message_type: None,
        value: None,
        pressure: None,
        program_number: None,
        data: None,
        size_in_bytes: None,
        meta_type: None,
        midi_note_bits: None,
        velocity_float_bits: None,
        instrument_id: None,
        group_id: None,
        parameter_id: None,
        scope: None,
        element: None,
        value_float_bits: None,
        tempo_bits: None,
        preset_dictionary_json: None,
    }
}

fn empty_payload(kind: &str) -> (p: MusicEventPayload)
    ensures
        p@ == empty_payload_view(kind@),
{
    MusicEventPayload {
        kind: String::from_str(kind),
        channel: None,
        key: None,
        velocity: None,
        duration_bits: None,
        message_type: None,
        value: None,
        pressure: None,
        program_number: None,
        data: None,
        size_in_bytes: None,
        meta_type: None,
        midi_note_bits: None,
        velocity_float_bits: None,
        instrument_id: None,
        group_id: None,
        parameter_id: None,
        scope: None,
        element: None,
        value_float_bits: None,
        tempo_bits: None,
        preset_dictionary_json: None,
    }
}

/// The payload that encodes an event.
pub open spec fn encode_spec(e: MusicEventView) -> MusicEventPayloadView {
    match e {
        MusicEventView::MidiNote(n) => MusicEventPayloadView {
            channel: Some(n.channel),
            key: Some(n.key),
            velocity: Some(n.velocity),
            duration_bits: Some(n.duration_bits),
            ..empty_payload_view("midiNote"@)
        },
        MusicEventView::MidiControlChange(c) => MusicEventPayloadView {
            channel: Some(c.channel),
            message_type: Some(c.message_type.raw_value()),
            value: Some(c.value),
            ..empty_payload_view("midiControlChange"@)
        },
        MusicEventView::MidiPolyPressure(p) => MusicEventPayloadView {
            channel: Some(p.channel),
            key: Some(p.key),
            pressure: Some(p.pressure),
            ..empty_payload_view("midiPolyPressure"@)
        },
        MusicEventView::MidiProgramChange(p) => MusicEventPayloadView {
            channel: Some(p.channel),
            program_number: Some(p.program_number),
            ..empty_payload_view("midiProgramChange"@)
        },
        MusicEventView::MidiChannelPressure(p) => MusicEventPayloadView {
            channel: Some(p.channel),
            pressure: Some(p.pressure),
            ..empty_payload_view("midiChannelPressure"@)
        },
        MusicEventView::MidiPitchBend(p) => MusicEventPayloadView {
            channel: Some(p.channel),
            value: Some(p.value),
            ..empty_payload_view("midiPitchBend"@)
        },
        MusicEventView::MidiSysex { data, reported_size_in_bytes } => MusicEventPayloadView {
            data: Some(data),
            size_in_bytes: reported_size_in_bytes,
            ..empty_payload_view("midiSysex"@)
        },
        MusicEventView::MidiMeta { meta_type, data } => MusicEventPayloadView {
            data: Some(data),
            meta_type: Some(meta_type.raw_value()),
            ..empty_payload_view("midiMeta"@)
        },
        MusicEventView::MusicUser { data, reported_size_in_bytes } => MusicEventPayloadView {
            data: Some(data),
            size_in_bytes: reported_size_in_bytes,
            ..empty_payload_view("musicUser"@)
        },
        MusicEventView::ExtendedNoteOn(n) => MusicEventPayloadView {
            duration_bits: Some(n.duration_bits),
            midi_note_bits: Some(n.midi_note_bits),
            velocity_float_bits: Some(n.velocity_bits),
            instrument_id: Some(n.instrument_id),
            group_id: Some(n.group_id),
            ..empty_payload_view("extendedNoteOn"@)
        },
        MusicEventView::Parameter(p) => MusicEventPayloadView {
            parameter_id: Some(p.parameter_id),
            scope: Some(p.scope),
            element: Some(p.element),
            value_float_bits: Some(p.value_bits),
            ..empty_payload_view("parameter"@)
        },
        MusicEventView::AUPreset { scope, element, preset_dictionary } => MusicEventPayloadView {
            scope: Some(scope),
            element: Some(element),
            preset_dictionary_json: Some(preset_dictionary),
            ..empty_payload_view("auPreset"@)
        },
        MusicEventView::ExtendedTempo(t) => MusicEventPayloadView {
            tempo_bits: Some(t.tempo_bits),
            ..empty_payload_view("extendedTempo"@)
        },
    }
}

/// The failure for a missing field, as a decode result.
pub open spec fn missing(field: Seq<char>, kind: Seq<char>) -> Result<MusicEventView, Seq<char>> {
    Err(missing_field_text(field, kind))
}

/// The message of the error for a preset dictionary that is not valid JSON.
pub open spec fn preset_error_text(parse_message: Seq<char>) -> Seq<char> {
    "failed to decode AVAUPresetEvent dictionary JSON: "@ + parse_message
}

/// The message of the error for a payload of an unknown kind.
pub open spec fn unknown_kind_text(kind: Seq<char>) -> Seq<char> {
    "unsupported music event kind `"@ + kind + "`"@
}

/// What decoding an AU preset payload yields, given its scope and element fields and the
/// outcome of normalising its dictionary text (`None` when the payload carries none, which
/// stands for the empty dictionary `{}`). A dictionary that is not JSON is reported
/// first, then the first missing field.
pub open spec fn au_preset_decode_spec(
    scope: Option<u32>,
    element: Option<u32>,
    dictionary: Option<Result<Seq<char>, Seq<char>>>,
) -> Result<MusicEventView, Seq<char>> {
    let preset: Result<Seq<char>, Seq<char>> = match dictionary {
        Some(normalized) => normalized,
        None => Ok("{}"@),
    };
    if preset is Err {
        Err(preset_error_text(preset->Err_0))
    } else if scope is None {
        missing("scope"@, "auPreset"@)
    } else if element is None {
        missing("element"@, "auPreset"@)
    } else {
        Ok(MusicEventView::AUPreset {
            scope: scope->0,
            element: element->0,
            preset_dictionary: preset->Ok_0,
        })
    }
}

/// The texts of a normalisation outcome.
pub open spec fn normalized_text(dictionary: Option<Result<String, String>>) -> Option<Result<Seq<char>, Seq<char>>> {
    match dictionary {
        Some(Ok(text)) => Some(Ok(text@)),
        Some(Err(message)) => Some(Err(message@)),
        None => None,
    }
}

/// Builds an AU preset event from its scope and element fields and the outcome of
/// normalising its dictionary text (`None` when the payload carries no dictionary).
pub fn au_preset_from_parts(
    scope: Option<u32>,
    element: Option<u32>,
    dictionary: Option<Result<String, String>>,
) -> (r: Result<MusicEvent, AVAudioError>)
    ensures
        match r {
            Ok(e) => au_preset_decode_spec(scope, element, normalized_text(dictionary)) == Ok::<
                MusicEventView,
                Seq<char>,
            >(e@),
            Err(e) => e is InvalidArgument && au_preset_decode_spec(
                scope,
                element,
                normalized_text(dictionary),
            ) == Err::<MusicEventView, Seq<char>>(e.message()),
        },
{
    let preset_dictionary = match dictionary {
        Some(Ok(normal)) => normal,
        Some(Err(message)) => {
            let mut text = String::from_str("failed to decode AVAUPresetEvent dictionary JSON: ");
            text.append(message.as_str());
            return Err(AVAudioError::InvalidArgument(text));
        },
        None => String::from_str("{}"),
    };
    let scope = require(scope, "scope", "auPreset")?;
    let element = require(element, "element", "auPreset")?;
    Ok(MusicEvent::AUPreset(AUPresetEvent { scope, element, preset_dictionary }))
}

/// What decoding a payload yields: the event, or the message of the `InvalidArgument`
/// error. Required fields are checked in declaration order; the first one missing (or
/// holding an unknown type code) decides the error.
pub open spec fn decode_spec(p: MusicEventPayloadView) -> Result<MusicEventView, Seq<char>> {
    let k = p.kind;
    if k == "midiNote"@ {
        if p.channel is None {
            missing("channel"@, k)
        } else if p.key is None {
            missing("key"@, k)
        } else if p.velocity is None {
            missing("velocity"@, k)
        } else if p.duration_bits is None {
            missing("duration"@, k)
        } else {
            Ok(MusicEventView::MidiNote(MidiNoteEvent {
                channel: p.channel->0,
                key: p.key->0,
                velocity: p.velocity->0,
                duration_bits: p.duration_bits->0,
            }))
        }
    } else if k == "midiControlChange"@ {
        if p.channel is None {
            missing("channel"@, k)
        } else if p.message_type is None {
            missing("messageType"@, k)
        } else if MidiControlChangeMessageType::from_raw_value(p.message_type->0) is None {
            Err("unsupported MIDI control-change message type "@ + int_decimal(p.message_type->0 as int))
        } else if p.value is None {
            missing("value"@, k)
        } else {
            Ok(MusicEventView::MidiControlChange(MidiControlChangeEvent {
                channel: p.channel->0,
                message_type: MidiControlChangeMessageType::from_raw_value(p.message_type->0)->0,
                value: p.value->0,
            }))
        }
    } else if k == "midiPolyPressure"@ {
        if p.channel is None {
            missing("channel"@, k)
        } else if p.key is None {
            missing("key"@, k)
        } else if p.pressure is None {
            missing("pressure"@, k)
        } else {
            Ok(MusicEventView::MidiPolyPressure(MidiPolyPressureEvent {
                channel: p.channel->0,
                key: p.key->0,
                pressure: p.pressure->0,
            }))
        }
    } else if k == "midiProgramChange"@ {
        if p.channel is None {
            missing("channel"@, k)
        } else if p.program_number is None {
            missing("programNumber"@, k)
        } else {
            Ok(MusicEventView::MidiProgramChange(MidiProgramChangeEvent {
                channel: p.channel->0,
                program_number: p.program_number->0,
            }))
        }
    } else if k == "midiChannelPressure"@ {
        if p.channel is None {
            missing("channel"@, k)
        } else if p.pressure is None {
            missing("pressure"@, k)
        } else {
            Ok(MusicEventView::MidiChannelPressure(MidiChannelPressureEvent {
                channel: p.channel->0,
                pressure: p.pressure->0,
            }))
        }
    } else if k == "midiPitchBend"@ {
        if p.channel is None {
            missing("channel"@, k)
        } else if p.value is None {
            missing("value"@, k)
        } else {
            Ok(MusicEventView::MidiPitchBend(MidiPitchBendEvent {
                channel: p.channel->0,
                value: p.value->0,
            }))
        }
    } else if k == "midiSysex"@ {
        Ok(MusicEventView::MidiSysex {
            data: p.data.unwrap_or(Seq::empty()),
            reported_size_in_bytes: p.size_in_bytes,
        })
    } else if k == "midiMeta"@ {
        if p.meta_type is None {
            missing("metaType"@, k)
        } else if MidiMetaEventType::from_raw_value(p.meta_type->0) is None {
            Err("unsupported MIDI meta-event type "@ + int_decimal(p.meta_type->0 as int))
        } else {
            Ok(MusicEventView::MidiMeta {
                meta_type: MidiMetaEventType::from_raw_value(p.meta_type->0)->0,
                data: p.data.unwrap_or(Seq::empty()),
            })
        }
    } else if k == "musicUser"@ {
        Ok(MusicEventView::MusicUser {
            data: p.data.unwrap_or(Seq::empty()),
            reported_size_in_bytes: p.size_in_bytes,
        })
    } else if k == "extendedNoteOn"@ {
        if p.midi_note_bits is None {
            missing("midiNote"@, k)
        } else if p.velocity_float_bits is None {
            missing("velocityFloat"@, k)
        } else if p.instrument_id is None {
            missing("instrumentId"@, k)
        } else if p.group_id is None {
            missing("groupId"@, k)
        } else if p.duration_bits is None {
            missing("duration"@, k)
        } else {
            Ok(MusicEventView::ExtendedNoteOn(ExtendedNoteOnEvent {
                midi_note_bits: p.midi_note_bits->0,
                velocity_bits: p.velocity_float_bits->0,
                instrument_id: p.instrument_id->0,
                group_id: p.group_id->0,
                duration_bits: p.duration_bits->0,
            }))
        }
    } else if k == "parameter"@ {
        if p.parameter_id is None {
            missing("parameterId"@, k)
        } else if p.scope is None {
            missing("scope"@, k)
        } else if p.element is None {
            missing("element"@, k)
        } else if p.value_float_bits is None {
            missing("valueFloat"@, k)
        } else {
            Ok(MusicEventView::Parameter(ParameterEvent {
                parameter_id: p.parameter_id->0,
                scope: p.scope->0,
                element: p.element->0,
                value_bits: p.value_float_bits->0,
            }))
        }
    } else if k == "auPreset"@ {
        au_preset_decode_spec(
            p.scope,
            p.element,
            match p.preset_dictionary_json {
                Some(text) => Some(json_value_text(text)),
                None => None,
            },
        )
    } else if k == "extendedTempo"@ {
        if p.tempo_bits is None {
            missing("tempo"@, k)
        } else {
            Ok(MusicEventView::ExtendedTempo(ExtendedTempoEvent { tempo_bits: p.tempo_bits->0 }))
        }
    } else {
        Err(unknown_kind_text(k))
    }
}

fn copy_bytes(v: &Vec<u8>) -> (r: Vec<u8>)
    ensures
        r@ == v@,
{
    let mut r: Vec<u8> = Vec::new();
    let mut i: usize = 0;
    while i < v.len()
        invariant
            i <= v.len(),
            r@ == v@.subrange(0, i as int),
        decreases v.len() - i,
    {
        r.push(v[i]);
        i = i + 1;
    }
    assert(r@ =~= v@);
    r
}

fn copy_text(s: &String) -> (r: String)
    ensures
        r@ == s@,
{
    String::from_str(s.as_str())
}

impl MusicEventPayload {
    /// Encodes an event as a payload: the event's kind name plus exactly the fields that
    /// the kind uses.
    pub fn from_event(event: &MusicEvent) -> (p: MusicEventPayload)
        ensures
            p@ == encode_spec(event@),
    {
        match event {
            MusicEvent::MidiNote(n) => {
                let mut p = empty_payload("midiNote");
                p.channel = Some(n.channel);
                p.key = Some(n.key);
                p.velocity = Some(n.velocity);
                p.duration_bits = Some(n.duration_bits);
                p
            },
            MusicEvent::MidiControlChange(c) => {
                let mut p = empty_payload("midiControlChange");
                p.channel = Some(c.channel);
                p.message_type = Some(c.message_type.as_raw());
                p.value = Some(c.value);
                p
            },
            MusicEvent::MidiPolyPressure(q) => {
                let mut p = empty_payload("midiPolyPressure");
                p.channel = Some(q.channel);
                p.key = Some(q.key);
                p.pressure = Some(q.pressure);
                p
            },
            MusicEvent::MidiProgramChange(q) => {
                let mut p = empty_payload("midiProgramChange");
                p.channel = Some(q.channel);
                p.program_number = Some(q.program_number);
                p
            },
            MusicEvent::MidiChannelPressure(q) => {
                let mut p = empty_payload("midiChannelPressure");
                p.channel = Some(q.channel);
                p.pressure = Some(q.pressure);
                p
            },
            MusicEvent::MidiPitchBend(q) => {
                let mut p = empty_payload("midiPitchBend");
                p.channel = Some(q.channel);
                p.value = Some(q.value);
                p
            },
            MusicEvent::MidiSysex(s) => {
                let mut p = empty_payload("midiSysex");
                p.data = Some(copy_bytes(&s.data));
                p.size_in_bytes = s.reported_size_in_bytes;
                p
            },
            MusicEvent::MidiMeta(m) => {
                let mut p = empty_payload("midiMeta");
                p.data = Some(copy_bytes(&m.data));
                p.meta_type = Some(m.meta_type.as_raw());
                p
            },
            MusicEvent::MusicUser(u) => {
                let mut p = empty_payload("musicUser");
                p.data = Some(copy_bytes(&u.data));
                p.size_in_bytes = u.reported_size_in_bytes;
                p
            },
            MusicEvent::ExtendedNoteOn(n) => {
                let mut p = empty_payload("extendedNoteOn");
                p.duration_bits = Some(n.duration_bits);
                p.midi_note_bits = Some(n.midi_note_bits);
                p.velocity_float_bits = Some(n.velocity_bits);
                p.instrument_id = Some(n.instrument_id);
                p.group_id = Some(n.group_id);
                p
            },
            MusicEvent::Parameter(q) => {
                let mut p = empty_payload("parameter");
                p.parameter_id = Some(q.parameter_id);
                p.scope = Some(q.scope);
                p.element = Some(q.element);
                p.value_float_bits = Some(q.value_bits);
                p
            },
            MusicEvent::AUPreset(a) => {
                let mut p = empty_payload("auPreset");
                p.scope = Some(a.scope);
                p.element = Some(a.element);
                p.preset_dictionary_json = Some(copy_text(&a.preset_dictionary));
                p
            },
            MusicEvent::ExtendedTempo(t) => {
                let mut p = empty_payload("extendedTempo");
                p.tempo_bits = Some(t.tempo_bits);
                p
            },
        }
    }
}

fn is_kind(kind: &String, name: &str) -> (r: bool)
    ensures
        r == (kind@ == name@),
{
    *kind == String::from_str(name)
}

fn bytes_or_empty(data: Option<Vec<u8>>) -> (r: Vec<u8>)
    ensures
        r@ == opt_bytes(data).unwrap_or(Seq::empty()),
{
    match data {
        Some(d) => d,
        None => Vec::new(),
    }
}

impl MusicEvent {
    /// Decodes a payload into an event; every failure is an `InvalidArgument` error whose
    /// message is the one `decode_spec` gives.
    pub fn try_from_payload(payload: MusicEventPayload) -> (r: Result<MusicEvent, AVAudioError>)
        ensures
            match r {
                Ok(e) => decode_spec(payload@) == Ok::<MusicEventView, Seq<char>>(e@),
                Err(e) => e is InvalidArgument && decode_spec(payload@) == Err::<
                    MusicEventView,
                    Seq<char>,
                >(e.message()),
            },
    {
        let ghost pv = payload@;
        let MusicEventPayload {
            kind,
            channel,
            key,
            velocity,
            duration_bits,
            message_type,
            value,
            pressure,
            program_number,
            data,
            size_in_bytes,
            meta_type,
            midi_note_bits,
            velocity_float_bits,
            instrument_id,
            group_id,
            parameter_id,
            scope,
            element,
            value_float_bits,
            tempo_bits,
            preset_dictionary_json,
        } = payload;
        if is_kind(&kind, "midiNote") {
            let channel = require(channel, "channel", "midiNote")?;
            let key = require(key, "key", "midiNote")?;
            let velocity = require(velocity, "velocity", "midiNote")?;
            let duration_bits = require(duration_bits, "duration", "midiNote")?;
            Ok(MusicEvent::MidiNote(MidiNoteEvent { channel, key, velocity, duration_bits }))
        } else if is_kind(&kind, "midiControlChange") {
            let channel = require(channel, "channel", "midiControlChange")?;
            let raw = require(message_type, "messageType", "midiControlChange")?;
            let message_type = MidiControlChangeMessageType::try_from_raw(raw)?;
            let value = require(value, "value", "midiControlChange")?;
            Ok(MusicEvent::MidiControlChange(MidiControlChangeEvent { channel, message_type, value }))
        } else if is_kind(&kind, "midiPolyPressure") {
            let channel = require(channel, "channel", "midiPolyPressure")?;
            let key = require(key, "key", "midiPolyPressure")?;
            let pressure = require(pressure, "pressure", "midiPolyPressure")?;
            Ok(MusicEvent::MidiPolyPressure(MidiPolyPressureEvent { channel, key, pressure }))
        } else if is_kind(&kind, "midiProgramChange") {
            let channel = require(channel, "channel", "midiProgramChange")?;
            let program_number = require(program_number, "programNumber", "midiProgramChange")?;
            Ok(MusicEvent::MidiProgramChange(MidiProgramChangeEvent { channel, program_number }))
        } else if is_kind(&kind, "midiChannelPressure") {
            let channel = require(channel, "channel", "midiChannelPressure")?;
            let pressure = require(pressure, "pressure", "midiChannelPressure")?;
            Ok(MusicEvent::MidiChannelPressure(MidiChannelPressureEvent { channel, pressure }))
        } else if is_kind(&kind, "midiPitchBend") {
            let channel = require(channel, "channel", "midiPitchBend")?;
            let value = require(value, "value", "midiPitchBend")?;
            Ok(MusicEvent::MidiPitchBend(MidiPitchBendEvent { channel, value }))
        } else if is_kind(&kind, "midiSysex") {
            Ok(
                MusicEvent::MidiSysex(
                    MidiSysexEvent {
                        data: bytes_or_empty(data),
                        reported_size_in_bytes: size_in_bytes,
                    },
                ),
            )
        } else if is_kind(&kind, "midiMeta") {
            let raw = require(meta_type, "metaType", "midiMeta")?;
            let meta_type = MidiMetaEventType::try_from_raw(raw)?;
            Ok(MusicEvent::MidiMeta(MidiMetaEvent { meta_type, data: bytes_or_empty(data) }))
        } else if is_kind(&kind, "musicUser") {
            Ok(
                MusicEvent::MusicUser(
                    MusicUserEvent {
                        data: bytes_or_empty(data),
                        reported_size_in_bytes: size_in_bytes,
                    },
                ),
            )
        } else if is_kind(&kind, "extendedNoteOn") {
            let midi_note_bits = require(midi_note_bits, "midiNote", "extendedNoteOn")?;
            let velocity_bits = require(velocity_float_bits, "velocityFloat", "extendedNoteOn")?;
            let instrument_id = require(instrument_id, "instrumentId", "extendedNoteOn")?;
            let group_id = require(group_id, "groupId", "extendedNoteOn")?;
            let duration_bits = require(duration_bits, "duration", "extendedNoteOn")?;
            Ok(
                MusicEvent::ExtendedNoteOn(
                    ExtendedNoteOnEvent {
                        midi_note_bits,
                        velocity_bits,
                        instrument_id,
                        group_id,
                        duration_bits,
                    },
                ),
            )
        } else if is_kind(&kind, "parameter") {
            let parameter_id = require(parameter_id, "parameterId", "parameter")?;
            let scope = require(scope, "scope", "parameter")?;
            let element = require(element, "element", "parameter")?;
            let value_bits = require(value_float_bits, "valueFloat", "parameter")?;
            Ok(MusicEvent::Parameter(ParameterEvent { parameter_id, scope, element, value_bits }))
        } else if is_kind(&kind, "auPreset") {
            let dictionary = match preset_dictionary_json {
                Some(text) => Some(normalize_json_value(text.as_str())),
                None => None,
            };
            au_preset_from_parts(scope, element, dictionary)
        } else if is_kind(&kind, "extendedTempo") {
            let tempo_bits = require(tempo_bits, "tempo", "extendedTempo")?;
            Ok(MusicEvent::ExtendedTempo(ExtendedTempoEvent { tempo_bits }))
        } else {
            let mut text = String::from_str("unsupported music event kind `");
            text.append(kind.as_str());
            text.append("`");
            Err(AVAudioError::InvalidArgument(text))
        }
    }
}


/// Every control-change message type is found again from its raw code, and a raw code
/// that parses names the type it came from.
pub proof fn lemma_control_change_raw_roundtrip(t: MidiControlChangeMessageType, value: i64)
    ensures
        MidiControlChangeMessageType::from_raw_value(t.raw_value()) == Some(t),
        MidiControlChangeMessageType::from_raw_value(value) matches Some(u) ==> u.raw_value()
            == value,
{
}

/// Every meta-event type is found again from its raw code, and a raw code that parses
/// names the type it came from.
pub proof fn lemma_meta_raw_roundtrip(t: MidiMetaEventType, value: i64)
    ensures
        MidiMetaEventType::from_raw_value(t.raw_value()) == Some(t),
        MidiMetaEventType::from_raw_value(value) matches Some(u) ==> u.raw_value() == value,
{
}

/// The result of decoding the payload of `e`: `e` itself, except that a preset
/// dictionary comes back as `serde_json`'s normal text of it (or as its parse error).
pub open spec fn roundtrip_result(e: MusicEventView) -> Result<MusicEventView, Seq<char>> {
    match e {
        MusicEventView::AUPreset { scope, element, preset_dictionary } => match json_value_text(
            preset_dictionary,
        ) {
            Ok(normal) => Ok(
                MusicEventView::AUPreset { scope, element, preset_dictionary: normal },
            ),
            Err(message) => Err(preset_error_text(message)),
        },
        _ => Ok(e),
    }
}

/// Decoding the payload that encodes an event gives the event back (a preset
/// dictionary in `serde_json`'s normal form).
pub proof fn lemma_payload_roundtrip(e: MusicEventView)
    ensures
        decode_spec(encode_spec(e)) == roundtrip_result(e),
{
    reveal_strlit("midiNote");
    reveal_strlit("midiControlChange");
    reveal_strlit("midiPolyPressure");
    reveal_strlit("midiProgramChange");
    reveal_strlit("midiChannelPressure");
    reveal_strlit("midiPitchBend");
    reveal_strlit("midiSysex");
    reveal_strlit("midiMeta");
    reveal_strlit("musicUser");
    reveal_strlit("extendedNoteOn");
    reveal_strlit("parameter");
    reveal_strlit("auPreset");
    reveal_strlit("extendedTempo");
    assert("midiNote"@[0] == 'm' && "midiNote"@[1] == 'i' && "midiNote"@[4] == 'N');
    assert("midiControlChange"@[0] == 'm' && "midiControlChange"@[1] == 'i' && "midiControlChange"@[4] == 'C');
    assert("midiPolyPressure"@[0] == 'm' && "midiPolyPressure"@[1] == 'i' && "midiPolyPressure"@[4] == 'P');
    assert("midiProgramChange"@[0] == 'm' && "midiProgramChange"@[1] == 'i' && "midiProgramChange"@[4] == 'P');
    assert("midiChannelPressure"@[0] == 'm' && "midiChannelPressure"@[1] == 'i' && "midiChannelPressure"@[4] == 'C');
    assert("midiPitchBend"@[0] == 'm' && "midiPitchBend"@[1] == 'i' && "midiPitchBend"@[4] == 'P');
    assert("midiSysex"@[0] == 'm' && "midiSysex"@[1] == 'i' && "midiSysex"@[4] == 'S');
    assert("midiMeta"@[0] == 'm' && "midiMeta"@[1] == 'i' && "midiMeta"@[4] == 'M');
    assert("musicUser"@[0] == 'm' && "musicUser"@[1] == 'u' && "musicUser"@[4] == 'c');
    assert("extendedNoteOn"@[0] == 'e' && "extendedNoteOn"@[1] == 'x' && "extendedNoteOn"@[4] == 'n');
    assert("parameter"@[0] == 'p' && "parameter"@[1] == 'a' && "parameter"@[4] == 'm');
    assert("auPreset"@[0] == 'a' && "auPreset"@[1] == 'u' && "auPreset"@[4] == 'e');
    assert("extendedTempo"@[0] == 'e' && "extendedTempo"@[1] == 'x' && "extendedTempo"@[4] == 'n');
    match e {
        MusicEventView::MidiControlChange(c) => {
            lemma_control_change_raw_roundtrip(c.message_type, 0);
        },
        MusicEventView::MidiMeta { meta_type, data } => {
            lemma_meta_raw_roundtrip(meta_type, 0);
        },
        _ => {},
    }
}

/// The raw code of every `MidiControlChangeMessageType` value, as AVFAudio defines it.
pub proof fn lemma_midi_control_change_message_type_codes()
    ensures
        MidiControlChangeMessageType::BankSelect.raw_value() == 0,
        MidiControlChangeMessageType::ModWheel.raw_value() == 1,
        MidiControlChangeMessageType::Breath.raw_value() == 2,
        MidiControlChangeMessageType::Foot.raw_value() == 4,
        MidiControlChangeMessageType::PortamentoTime.raw_value() == 5,
        MidiControlChangeMessageType::DataEntry.raw_value() == 6,
        MidiControlChangeMessageType::Volume.raw_value() == 7,
        MidiControlChangeMessageType::Balance.raw_value() == 8,
        MidiControlChangeMessageType::Pan.raw_value() == 10,
        MidiControlChangeMessageType::Expression.raw_value() == 11,
        MidiControlChangeMessageType::Sustain.raw_value() == 64,
        MidiControlChangeMessageType::Portamento.raw_value() == 65,
        MidiControlChangeMessageType::Sostenuto.raw_value() == 66,
        MidiControlChangeMessageType::Soft.raw_value() == 67,
        MidiControlChangeMessageType::LegatoPedal.raw_value() == 68,
        MidiControlChangeMessageType::Hold2Pedal.raw_value() == 69,
        MidiControlChangeMessageType::FilterResonance.raw_value() == 71,
        MidiControlChangeMessageType::ReleaseTime.raw_value() == 72,
        MidiControlChangeMessageType::AttackTime.raw_value() == 73,
        MidiControlChangeMessageType::Brightness.raw_value() == 74,
        MidiControlChangeMessageType::DecayTime.raw_value() == 75,
        MidiControlChangeMessageType::VibratoRate.raw_value() == 76,
        MidiControlChangeMessageType::VibratoDepth.raw_value() == 77,
        MidiControlChangeMessageType::VibratoDelay.raw_value() == 78,
        MidiControlChangeMessageType::ReverbLevel.raw_value() == 91,
        MidiControlChangeMessageType::ChorusLevel.raw_value() == 93,
        MidiControlChangeMessageType::RpnLsb.raw_value() == 100,
        MidiControlChangeMessageType::RpnMsb.raw_value() == 101,
        MidiControlChangeMessageType::AllSoundOff.raw_value() == 120,
        MidiControlChangeMessageType::ResetAllControllers.raw_value() == 121,
        MidiControlChangeMessageType::AllNotesOff.raw_value() == 123,
        MidiControlChangeMessageType::OmniModeOff.raw_value() == 124,
        MidiControlChangeMessageType::OmniModeOn.raw_value() == 125,
        MidiControlChangeMessageType::MonoModeOn.raw_value() == 126,
        MidiControlChangeMessageType::MonoModeOff.raw_value() == 127,
{
}

/// The raw code of every `MidiMetaEventType` value, as AVFAudio defines it.
pub proof fn lemma_midi_meta_event_type_codes()
    ensures
        MidiMetaEventType::SequenceNumber.raw_value() == 0x00,
        MidiMetaEventType::Text.raw_value() == 0x01,
        MidiMetaEventType::Copyright.raw_value() == 0x02,
        MidiMetaEventType::TrackName.raw_value() == 0x03,
        MidiMetaEventType::Instrument.raw_value() == 0x04,
        MidiMetaEventType::Lyric.raw_value() == 0x05,
        MidiMetaEventType::Marker.raw_value() == 0x06,
        MidiMetaEventType::CuePoint.raw_value() == 0x07,
        MidiMetaEventType::MidiChannel.raw_value() == 0x20,
        MidiMetaEventType::MidiPort.raw_value() == 0x21,
        MidiMetaEventType::EndOfTrack.raw_value() == 0x2f,
        MidiMetaEventType::Tempo.raw_value() == 0x51,
        MidiMetaEventType::SmpteOffset.raw_value() == 0x54,
        MidiMetaEventType::TimeSignature.raw_value() == 0x58,
        MidiMetaEventType::KeySignature.raw_value() == 0x59,
        MidiMetaEventType::ProprietaryEvent.raw_value() == 0x7f,
{
}

/// Which raw code decodes to which `MidiControlChangeMessageType` value: each known code to its own value,
/// and every other code to none of them.
pub proof fn lemma_midi_control_change_message_type_decoding(value: i64)
    ensures
        (MidiControlChangeMessageType::from_raw_value(value) == Some(MidiControlChangeMessageType::BankSelect)) <==> value == 0,
        (MidiControlChangeMessageType::from_raw_value(value) == Some(MidiControlChangeMessageType::ModWheel)) <==> value == 1,
        (MidiControlChangeMessageType::from_raw_value(value) == Some(MidiControlChangeMessageType::Breath)) <==> value == 2,
        (MidiControlChangeMessageType::from_raw_value(value) == Some(MidiControlChangeMessageType::Foot)) <==> value == 4,
        (MidiControlChangeMessageType::from_raw_value(value) == Some(MidiControlChangeMessageType::PortamentoTime)) <==> value == 5,
        (MidiControlChangeMessageType::from_raw_value(value) == Some(MidiControlChangeMessageType::DataEntry)) <==> value == 6,
        (MidiControlChangeMessageType::from_raw_value(value) == Some(MidiControlChangeMessageType::Volume)) <==> value == 7,
        (MidiControlChangeMessageType::from_raw_value(value) == Some(MidiControlChangeMessageType::Balance)) <==> value == 8,
        (MidiControlChangeMessageType::from_raw_value(value) == Some(MidiControlChangeMessageType::Pan)) <==> value == 10,
        (MidiControlChangeMessageType::from_raw_value(value) == Some(MidiControlChangeMessageType::Expression)) <==> value == 11,
        (MidiControlChangeMessageType::from_raw_value(value) == Some(MidiControlChangeMessageType::Sustain)) <==> value == 64,
        (MidiControlChangeMessageType::from_raw_value(value) == Some(MidiControlChangeMessageType::Portamento)) <==> value == 65,
        (MidiControlChangeMessageType::from_raw_value(value) == Some(MidiControlChangeMessageType::Sostenuto)) <==> value == 66,
        (MidiControlChangeMessageType::from_raw_value(value) == Some(MidiControlChangeMessageType::Soft)) <==> value == 67,
        (MidiControlChangeMessageType::from_raw_value(value) == Some(MidiControlChangeMessageType::LegatoPedal)) <==> value == 68,
        (MidiControlChangeMessageType::from_raw_value(value) == Some(MidiControlChangeMessageType::Hold2Pedal)) <==> value == 69,
        (MidiControlChangeMessageType::from_raw_value(value) == Some(MidiControlChangeMessageType::FilterResonance)) <==> value == 71,
        (MidiControlChangeMessageType::from_raw_value(value) == Some(MidiControlChangeMessageType::ReleaseTime)) <==> value == 72,
        (MidiControlChangeMessageType::from_raw_value(value) == Some(MidiControlChangeMessageType::AttackTime)) <==> value == 73,
        (MidiControlChangeMessageType::from_raw_value(value) == Some(MidiControlChangeMessageType::Brightness)) <==> value == 74,
        (MidiControlChangeMessageType::from_raw_value(value) == Some(MidiControlChangeMessageType::DecayTime)) <==> value == 75,
        (MidiControlChangeMessageType::from_raw_value(value) == Some(MidiControlChangeMessageType::VibratoRate)) <==> value == 76,
        (MidiControlChangeMessageType::from_raw_value(value) == Some(MidiControlChangeMessageType::VibratoDepth)) <==> value == 77,
        (MidiControlChangeMessageType::from_raw_value(value) == Some(MidiControlChangeMessageType::VibratoDelay)) <==> value == 78,
        (MidiControlChangeMessageType::from_raw_value(value) == Some(MidiControlChangeMessageType::ReverbLevel)) <==> value == 91,
        (MidiControlChangeMessageType::from_raw_value(value) == Some(MidiControlChangeMessageType::ChorusLevel)) <==> value == 93,
        (MidiControlChangeMessageType::from_raw_value(value) == Some(MidiControlChangeMessageType::RpnLsb)) <==> value == 100,
        (MidiControlChangeMessageType::from_raw_value(value) == Some(MidiControlChangeMessageType::RpnMsb)) <==> value == 101,
        (MidiControlChangeMessageType::from_raw_value(value) == Some(MidiControlChangeMessageType::AllSoundOff)) <==> value == 120,
        (MidiControlChangeMessageType::from_raw_value(value) == Some(MidiControlChangeMessageType::ResetAllControllers)) <==> value == 121,
        (MidiControlChangeMessageType::from_raw_value(value) == Some(MidiControlChangeMessageType::AllNotesOff)) <==> value == 123,
        (MidiControlChangeMessageType::from_raw_value(value) == Some(MidiControlChangeMessageType::OmniModeOff)) <==> value == 124,
        (MidiControlChangeMessageType::from_raw_value(value) == Some(MidiControlChangeMessageType::OmniModeOn)) <==> value == 125,
        (MidiControlChangeMessageType::from_raw_value(value) == Some(MidiControlChangeMessageType::MonoModeOn)) <==> value == 126,
        (MidiControlChangeMessageType::from_raw_value(value) == Some(MidiControlChangeMessageType::MonoModeOff)) <==> value == 127,
        MidiControlChangeMessageType::from_raw_value(value) is None <==> (value != 0 && value != 1 && value != 2 && value != 4 && value != 5 && value != 6 && value != 7 && value != 8 && value != 10 && value != 11 && value != 64 && value != 65 && value != 66 && value != 67 && value != 68 && value != 69 && value != 71 && value != 72 && value != 73 && value != 74 && value != 75 && value != 76 && value != 77 && value != 78 && value != 91 && value != 93 && value != 100 && value != 101 && value != 120 && value != 121 && value != 123 && value != 124 && value != 125 && value != 126 && value != 127),
{
}

/// Which raw code decodes to which `MidiMetaEventType` value: each known code to its own value,
/// and every other code to none of them.
pub proof fn lemma_midi_meta_event_type_decoding(value: i64)
    ensures
        (MidiMetaEventType::from_raw_value(value) == Some(MidiMetaEventType::SequenceNumber)) <==> value == 0x00,
        (MidiMetaEventType::from_raw_value(value) == Some(MidiMetaEventType::Text)) <==> value == 0x01,
        (MidiMetaEventType::from_raw_value(value) == Some(MidiMetaEventType::Copyright)) <==> value == 0x02,
        (MidiMetaEventType::from_raw_value(value) == Some(MidiMetaEventType::TrackName)) <==> value == 0x03,
        (MidiMetaEventType::from_raw_value(value) == Some(MidiMetaEventType::Instrument)) <==> value == 0x04,
        (MidiMetaEventType::from_raw_value(value) == Some(MidiMetaEventType::Lyric)) <==> value == 0x05,
        (MidiMetaEventType::from_raw_value(value) == Some(MidiMetaEventType::Marker)) <==> value == 0x06,
        (MidiMetaEventType::from_raw_value(value) == Some(MidiMetaEventType::CuePoint)) <==> value == 0x07,
        (MidiMetaEventType::from_raw_value(value) == Some(MidiMetaEventType::MidiChannel)) <==> value == 0x20,
        (MidiMetaEventType::from_raw_value(value) == Some(MidiMetaEventType::MidiPort)) <==> value == 0x21,
        (MidiMetaEventType::from_raw_value(value) == Some(MidiMetaEventType::EndOfTrack)) <==> value == 0x2f,
        (MidiMetaEventType::from_raw_value(value) == Some(MidiMetaEventType::Tempo)) <==> value == 0x51,
        (MidiMetaEventType::from_raw_value(value) == Some(MidiMetaEventType::SmpteOffset)) <==> value == 0x54,
        (MidiMetaEventType::from_raw_value(value) == Some(MidiMetaEventType::TimeSignature)) <==> value == 0x58,
        (MidiMetaEventType::from_raw_value(value) == Some(MidiMetaEventType::KeySignature)) <==> value == 0x59,
        (MidiMetaEventType::from_raw_value(value) == Some(MidiMetaEventType::ProprietaryEvent)) <==> value == 0x7f,
        MidiMetaEventType::from_raw_value(value) is None <==> (value != 0x00 && value != 0x01 && value != 0x02 && value != 0x03 && value != 0x04 && value != 0x05 && value != 0x06 && value != 0x07 && value != 0x20 && value != 0x21 && value != 0x2f && value != 0x51 && value != 0x54 && value != 0x58 && value != 0x59 && value != 0x7f),
{
}

/// The payload of an event names the event's kind and carries each field of the event in
/// the payload field of the same name (enum-typed fields as their raw codes, floating-point
/// fields as their bit patterns); every field the kind does not use is absent.
pub proof fn lemma_payload_fields_carry_event_fields(e: MusicEventView)
    ensures
        e matches MusicEventView::MidiNote(x) ==> ({
            let q = encode_spec(e);
                &&& q.kind == "midiNote"@
                &&& q.channel == Some(x.channel)
                &&& q.key == Some(x.key)
                &&& q.velocity == Some(x.velocity)
                &&& q.duration_bits == Some(x.duration_bits)
                &&& q.message_type is None
                &&& q.value is None
                &&& q.pressure is None
                &&& q.program_number is None
                &&& q.data is None
                &&& q.size_in_bytes is None
                &&& q.meta_type is None
                &&& q.midi_note_bits is None
                &&& q.velocity_float_bits is None
                &&& q.instrument_id is None
                &&& q.group_id is None
                &&& q.parameter_id is None
                &&& q.scope is None
                &&& q.element is None
                &&& q.value_float_bits is None
                &&& q.tempo_bits is None
                &&& q.preset_dictionary_json is None
        }),
        e matches MusicEventView::MidiControlChange(x) ==> ({
            let q = encode_spec(e);
                &&& q.kind == "midiControlChange"@
                &&& q.channel == Some(x.channel)
                &&& q.key is None
                &&& q.velocity is None
                &&& q.duration_bits is None
                &&& q.message_type == Some(x.message_type.raw_value())
                &&& q.value == Some(x.value)
                &&& q.pressure is None
                &&& q.program_number is None
                &&& q.data is None
                &&& q.size_in_bytes is None
                &&& q.meta_type is None
                &&& q.midi_note_bits is None
                &&& q.velocity_float_bits is None
                &&& q.instrument_id is None
                &&& q.group_id is None
                &&& q.parameter_id is None
                &&& q.scope is None
                &&& q.element is None
                &&& q.value_float_bits is None
                &&& q.tempo_bits is None
                &&& q.preset_dictionary_json is None
        }),
        e matches MusicEventView::MidiPolyPressure(x) ==> ({
            let q = encode_spec(e);
                &&& q.kind == "midiPolyPressure"@
                &&& q.channel == Some(x.channel)
                &&& q.key == Some(x.key)
                &&& q.velocity is None
                &&& q.duration_bits is None
                &&& q.message_type is None
                &&& q.value is None
                &&& q.pressure == Some(x.pressure)
                &&& q.program_number is None
                &&& q.data is None
                &&& q.size_in_bytes is None
                &&& q.meta_type is None
                &&& q.midi_note_bits is None
                &&& q.velocity_float_bits is None
                &&& q.instrument_id is None
                &&& q.group_id is None
                &&& q.parameter_id is None
                &&& q.scope is None
                &&& q.element is None
                &&& q.value_float_bits is None
                &&& q.tempo_bits is None
                &&& q.preset_dictionary_json is None
        }),
        e matches MusicEventView::MidiProgramChange(x) ==> ({
            let q = encode_spec(e);
                &&& q.kind == "midiProgramChange"@
                &&& q.channel == Some(x.channel)
                &&& q.key is None
                &&& q.velocity is None
                &&& q.duration_bits is None
                &&& q.message_type is None
                &&& q.value is None
                &&& q.pressure is None
                &&& q.program_number == Some(x.program_number)
                &&& q.data is None
                &&& q.size_in_bytes is None
                &&& q.meta_type is None
                &&& q.midi_note_bits is None
                &&& q.velocity_float_bits is None
                &&& q.instrument_id is None
                &&& q.group_id is None
                &&& q.parameter_id is None
                &&& q.scope is None
                &&& q.element is None
                &&& q.value_float_bits is None
                &&& q.tempo_bits is None
                &&& q.preset_dictionary_json is None
        }),
        e matches MusicEventView::MidiChannelPressure(x) ==> ({
            let q = encode_spec(e);
                &&& q.kind == "midiChannelPressure"@
                &&& q.channel == Some(x.channel)
                &&& q.key is None
                &&& q.velocity is None
                &&& q.duration_bits is None
                &&& q.message_type is None
                &&& q.value is None
                &&& q.pressure == Some(x.pressure)
                &&& q.program_number is None
                &&& q.data is None
                &&& q.size_in_bytes is None
                &&& q.meta_type is None
                &&& q.midi_note_bits is None
                &&& q.velocity_float_bits is None
                &&& q.instrument_id is None
                &&& q.group_id is None
                &&& q.parameter_id is None
                &&& q.scope is None
                &&& q.element is None
                &&& q.value_float_bits is None
                &&& q.tempo_bits is None
                &&& q.preset_dictionary_json is None
        }),
        e matches MusicEventView::MidiPitchBend(x) ==> ({
            let q = encode_spec(e);
                &&& q.kind == "midiPitchBend"@
                &&& q.channel == Some(x.channel)
                &&& q.key is None
                &&& q.velocity is None
                &&& q.duration_bits is None
                &&& q.message_type is None
                &&& q.value == Some(x.value)
                &&& q.pressure is None
                &&& q.program_number is None
                &&& q.data is None
                &&& q.size_in_bytes is None
                &&& q.meta_type is None
                &&& q.midi_note_bits is None
                &&& q.velocity_float_bits is None
                &&& q.instrument_id is None
                &&& q.group_id is None
                &&& q.parameter_id is None
                &&& q.scope is None
                &&& q.element is None
                &&& q.value_float_bits is None
                &&& q.tempo_bits is None
                &&& q.preset_dictionary_json is None
        }),
        e matches MusicEventView::MidiSysex { data, reported_size_in_bytes } ==> ({
            let q = encode_spec(e);
                &&& q.kind == "midiSysex"@
                &&& q.channel is None
                &&& q.key is None
                &&& q.velocity is None
                &&& q.duration_bits is None
                &&& q.message_type is None
                &&& q.value is None
                &&& q.pressure is None
                &&& q.program_number is None
                &&& q.data == Some(data)
                &&& q.size_in_bytes == reported_size_in_bytes
                &&& q.meta_type is None
                &&& q.midi_note_bits is None
                &&& q.velocity_float_bits is None
                &&& q.instrument_id is None
                &&& q.group_id is None
                &&& q.parameter_id is None
                &&& q.scope is None
                &&& q.element is None
                &&& q.value_float_bits is None
                &&& q.tempo_bits is None
                &&& q.preset_dictionary_json is None
        }),
        e matches MusicEventView::MidiMeta { meta_type, data } ==> ({
            let q = encode_spec(e);
                &&& q.kind == "midiMeta"@
                &&& q.channel is None
                &&& q.key is None
                &&& q.velocity is None
                &&& q.duration_bits is None
                &&& q.message_type is None
                &&& q.value is None
                &&& q.pressure is None
                &&& q.program_number is None
                &&& q.data == Some(data)
                &&& q.size_in_bytes is None
                &&& q.meta_type == Some(meta_type.raw_value())
                &&& q.midi_note_bits is None
                &&& q.velocity_float_bits is None
                &&& q.instrument_id is None
                &&& q.group_id is None
                &&& q.parameter_id is None
                &&& q.scope is None
                &&& q.element is None
                &&& q.value_float_bits is None
                &&& q.tempo_bits is None
                &&& q.preset_dictionary_json is None
        }),
        e matches MusicEventView::MusicUser { data, reported_size_in_bytes } ==> ({
            let q = encode_spec(e);
                &&& q.kind == "musicUser"@
                &&& q.channel is None
                &&& q.key is None
                &&& q.velocity is None
                &&& q.duration_bits is None
                &&& q.message_type is None
                &&& q.value is None
                &&& q.pressure is None
                &&& q.program_number is None
                &&& q.data == Some(data)
                &&& q.size_in_bytes == reported_size_in_bytes
                &&& q.meta_type is None
                &&& q.midi_note_bits is None
                &&& q.velocity_float_bits is None
                &&& q.instrument_id is None
                &&& q.group_id is None
                &&& q.parameter_id is None
                &&& q.scope is None
                &&& q.element is None
                &&& q.value_float_bits is None
                &&& q.tempo_bits is None
                &&& q.preset_dictionary_json is None
        }),
        e matches MusicEventView::ExtendedNoteOn(x) ==> ({
            let q = encode_spec(e);
                &&& q.kind == "extendedNoteOn"@
                &&& q.channel is None
                &&& q.key is None
                &&& q.velocity is None
                &&& q.duration_bits == Some(x.duration_bits)
                &&& q.message_type is None
                &&& q.value is None
                &&& q.pressure is None
                &&& q.program_number is None
                &&& q.data is None
                &&& q.size_in_bytes is None
                &&& q.meta_type is None
                &&& q.midi_note_bits == Some(x.midi_note_bits)
                &&& q.velocity_float_bits == Some(x.velocity_bits)
                &&& q.instrument_id == Some(x.instrument_id)
                &&& q.group_id == Some(x.group_id)
                &&& q.parameter_id is None
                &&& q.scope is None
                &&& q.element is None
                &&& q.value_float_bits is None
                &&& q.tempo_bits is None
                &&& q.preset_dictionary_json is None
        }),
        e matches MusicEventView::Parameter(x) ==> ({
            let q = encode_spec(e);
                &&& q.kind == "parameter"@
                &&& q.channel is None
                &&& q.key is None
                &&& q.velocity is None
                &&& q.duration_bits is None
                &&& q.message_type is None
                &&& q.value is None
                &&& q.pressure is None
                &&& q.program_number is None
                &&& q.data is None
                &&& q.size_in_bytes is None
                &&& q.meta_type is None
                &&& q.midi_note_bits is None
                &&& q.velocity_float_bits is None
                &&& q.instrument_id is None
                &&& q.group_id is None
                &&& q.parameter_id == Some(x.parameter_id)
                &&& q.scope == Some(x.scope)
                &&& q.element == Some(x.element)
                &&& q.value_float_bits == Some(x.value_bits)
                &&& q.tempo_bits is None
                &&& q.preset_dictionary_json is None
        }),
        e matches MusicEventView::AUPreset { scope, element, preset_dictionary } ==> ({
            let q = encode_spec(e);
                &&& q.kind == "auPreset"@
                &&& q.channel is None
                &&& q.key is None
                &&& q.velocity is None
                &&& q.duration_bits is None
                &&& q.message_type is None
                &&& q.value is None
                &&& q.pressure is None
                &&& q.program_number is None
                &&& q.data is None
                &&& q.size_in_bytes is None
                &&& q.meta_type is None
                &&& q.midi_note_bits is None
                &&& q.velocity_float_bits is None
                &&& q.instrument_id is None
                &&& q.group_id is None
                &&& q.parameter_id is None
                &&& q.scope == Some(scope)
                &&& q.element == Some(element)
                &&& q.value_float_bits is None
                &&& q.tempo_bits is None
                &&& q.preset_dictionary_json == Some(preset_dictionary)
        }),
        e matches MusicEventView::ExtendedTempo(x) ==> ({
            let q = encode_spec(e);
                &&& q.kind == "extendedTempo"@
                &&& q.channel is None
                &&& q.key is None
                &&& q.velocity is None
                &&& q.duration_bits is None
                &&& q.message_type is None
                &&& q.value is None
                &&& q.pressure is None
                &&& q.program_number is None
                &&& q.data is None
                &&& q.size_in_bytes is None
                &&& q.meta_type is None
                &&& q.midi_note_bits is None
                &&& q.velocity_float_bits is None
                &&& q.instrument_id is None
                &&& q.group_id is None
                &&& q.parameter_id is None
                &&& q.scope is None
                &&& q.element is None
                &&& q.value_float_bits is None
                &&& q.tempo_bits == Some(x.tempo_bits)
                &&& q.preset_dictionary_json is None
        }),
{
}


/// A payload that names a kind and carries every field that kind uses decodes to the
/// event of that kind whose fields are the payload fields of the same name (type codes
/// decoded to the type `t` or `m` they stand for); payload fields the kind does not use
/// play no part.
pub proof fn lemma_decode_takes_payload_fields(
    p: MusicEventPayloadView,
    t: MidiControlChangeMessageType,
    m: MidiMetaEventType,
)
    ensures
        (p.kind == "midiNote"@ && p.channel is Some && p.key is Some && p.velocity is Some && p.duration_bits is Some) ==> decode_spec(p) == Ok::<MusicEventView, Seq<char>>(MusicEventView::MidiNote(MidiNoteEvent { channel: p.channel->0, key: p.key->0, velocity: p.velocity->0, duration_bits: p.duration_bits->0 })),
        (p.kind == "midiControlChange"@ && p.channel is Some && p.message_type is Some && p.value is Some && MidiControlChangeMessageType::from_raw_value(p.message_type->0) == Some(t)) ==> decode_spec(p) == Ok::<MusicEventView, Seq<char>>(MusicEventView::MidiControlChange(MidiControlChangeEvent { channel: p.channel->0, message_type: t, value: p.value->0 })),
        (p.kind == "midiPolyPressure"@ && p.channel is Some && p.key is Some && p.pressure is Some) ==> decode_spec(p) == Ok::<MusicEventView, Seq<char>>(MusicEventView::MidiPolyPressure(MidiPolyPressureEvent { channel: p.channel->0, key: p.key->0, pressure: p.pressure->0 })),
        (p.kind == "midiProgramChange"@ && p.channel is Some && p.program_number is Some) ==> decode_spec(p) == Ok::<MusicEventView, Seq<char>>(MusicEventView::MidiProgramChange(MidiProgramChangeEvent { channel: p.channel->0, program_number: p.program_number->0 })),
        (p.kind == "midiChannelPressure"@ && p.channel is Some && p.pressure is Some) ==> decode_spec(p) == Ok::<MusicEventView, Seq<char>>(MusicEventView::MidiChannelPressure(MidiChannelPressureEvent { channel: p.channel->0, pressure: p.pressure->0 })),
        (p.kind == "midiPitchBend"@ && p.channel is Some && p.value is Some) ==> decode_spec(p) == Ok::<MusicEventView, Seq<char>>(MusicEventView::MidiPitchBend(MidiPitchBendEvent { channel: p.channel->0, value: p.value->0 })),
        (p.kind == "midiSysex"@ && p.data is Some) ==> decode_spec(p) == Ok::<MusicEventView, Seq<char>>(MusicEventView::MidiSysex { data: p.data->0, reported_size_in_bytes: p.size_in_bytes }),
        (p.kind == "midiMeta"@ && p.meta_type is Some && p.data is Some && MidiMetaEventType::from_raw_value(p.meta_type->0) == Some(m)) ==> decode_spec(p) == Ok::<MusicEventView, Seq<char>>(MusicEventView::MidiMeta { meta_type: m, data: p.data->0 }),
        (p.kind == "musicUser"@ && p.data is Some) ==> decode_spec(p) == Ok::<MusicEventView, Seq<char>>(MusicEventView::MusicUser { data: p.data->0, reported_size_in_bytes: p.size_in_bytes }),
        (p.kind == "extendedNoteOn"@ && p.midi_note_bits is Some && p.velocity_float_bits is Some && p.instrument_id is Some && p.group_id is Some && p.duration_bits is Some) ==> decode_spec(p) == Ok::<MusicEventView, Seq<char>>(MusicEventView::ExtendedNoteOn(ExtendedNoteOnEvent { midi_note_bits: p.midi_note_bits->0, velocity_bits: p.velocity_float_bits->0, instrument_id: p.instrument_id->0, group_id: p.group_id->0, duration_bits: p.duration_bits->0 })),
        (p.kind == "parameter"@ && p.parameter_id is Some && p.scope is Some && p.element is Some && p.value_float_bits is Some) ==> decode_spec(p) == Ok::<MusicEventView, Seq<char>>(MusicEventView::Parameter(ParameterEvent { parameter_id: p.parameter_id->0, scope: p.scope->0, element: p.element->0, value_bits: p.value_float_bits->0 })),
        (p.kind == "extendedTempo"@ && p.tempo_bits is Some) ==> decode_spec(p) == Ok::<MusicEventView, Seq<char>>(MusicEventView::ExtendedTempo(ExtendedTempoEvent { tempo_bits: p.tempo_bits->0 })),
{
    reveal_strlit("midiNote");
    reveal_strlit("midiControlChange");
    reveal_strlit("midiPolyPressure");
    reveal_strlit("midiProgramChange");
    reveal_strlit("midiChannelPressure");
    reveal_strlit("midiPitchBend");
    reveal_strlit("midiSysex");
    reveal_strlit("midiMeta");
    reveal_strlit("musicUser");
    reveal_strlit("extendedNoteOn");
    reveal_strlit("parameter");
    reveal_strlit("auPreset");
    reveal_strlit("extendedTempo");
    assert("midiNote"@[0] == 'm' && "midiNote"@[1] == 'i' && "midiNote"@[4] == 'N');
    assert("midiControlChange"@[0] == 'm' && "midiControlChange"@[1] == 'i' && "midiControlChange"@[4] == 'C');
    assert("midiPolyPressure"@[0] == 'm' && "midiPolyPressure"@[1] == 'i' && "midiPolyPressure"@[4] == 'P');
    assert("midiProgramChange"@[0] == 'm' && "midiProgramChange"@[1] == 'i' && "midiProgramChange"@[4] == 'P');
    assert("midiChannelPressure"@[0] == 'm' && "midiChannelPressure"@[1] == 'i' && "midiChannelPressure"@[4] == 'C');
    assert("midiPitchBend"@[0] == 'm' && "midiPitchBend"@[1] == 'i' && "midiPitchBend"@[4] == 'P');
    assert("midiSysex"@[0] == 'm' && "midiSysex"@[1] == 'i' && "midiSysex"@[4] == 'S');
    assert("midiMeta"@[0] == 'm' && "midiMeta"@[1] == 'i' && "midiMeta"@[4] == 'M');
    assert("musicUser"@[0] == 'm' && "musicUser"@[1] == 'u' && "musicUser"@[4] == 'c');
    assert("extendedNoteOn"@[0] == 'e' && "extendedNoteOn"@[1] == 'x' && "extendedNoteOn"@[4] == 'n');
    assert("parameter"@[0] == 'p' && "parameter"@[1] == 'a' && "parameter"@[4] == 'm');
    assert("auPreset"@[0] == 'a' && "auPreset"@[1] == 'u' && "auPreset"@[4] == 'e');
    assert("extendedTempo"@[0] == 'e' && "extendedTempo"@[1] == 'x' && "extendedTempo"@[4] == 'n');
}


} // verus!
