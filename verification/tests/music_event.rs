use avaudio::error::AVAudioError;
use avaudio::music_event::{
    au_preset_from_parts, missing_field, require, AUPresetEvent, ExtendedNoteOnEvent, ExtendedTempoEvent,
    MidiChannelPressureEvent, MidiControlChangeEvent, MidiControlChangeMessageType,
    MidiMetaEvent, MidiMetaEventType, MidiNoteEvent, MidiPitchBendEvent, MidiPolyPressureEvent,
    MidiProgramChangeEvent, MidiSysexEvent, MusicEvent, MusicEventPayload, MusicUserEvent,
    ParameterEvent,
};

fn sample_events() -> Vec<MusicEvent> {
    vec![
        MusicEvent::MidiNote(MidiNoteEvent::new(0, 60, 96, 1.0f64.to_bits())),
        MusicEvent::MidiControlChange(MidiControlChangeEvent::new(
            2,
            MidiControlChangeMessageType::Sustain,
            127,
        )),
        MusicEvent::MidiPolyPressure(MidiPolyPressureEvent::new(1, 64, 30)),
        MusicEvent::MidiProgramChange(MidiProgramChangeEvent::new(3, 41)),
        MusicEvent::MidiChannelPressure(MidiChannelPressureEvent::new(4, 99)),
        MusicEvent::MidiPitchBend(MidiPitchBendEvent::new(5, 8192)),
        MusicEvent::MidiSysex(MidiSysexEvent::new(vec![0xf0, 1, 2, 0xf7])),
        MusicEvent::MidiMeta(MidiMetaEvent::new(MidiMetaEventType::TrackName, b"lead".to_vec())),
        MusicEvent::MusicUser(MusicUserEvent::new(vec![1, 2, 3, 4])),
        MusicEvent::ExtendedNoteOn(ExtendedNoteOnEvent::new(
            60.5f32.to_bits(),
            0.75f32.to_bits(),
            7,
            1,
            2.0f64.to_bits(),
        )),
        MusicEvent::Parameter(ParameterEvent::new(10, 0, 0, 0.25f32.to_bits())),
        MusicEvent::AUPreset(AUPresetEvent::new(0, 0, "{\"name\":\"warm\"}".to_string())),
        MusicEvent::ExtendedTempo(ExtendedTempoEvent::new(120.0f64.to_bits())),
    ]
}

#[test]
fn every_event_survives_payload_roundtrip() {
    for event in sample_events() {
        let payload = MusicEventPayload::from_event(&event);
        assert_eq!(MusicEvent::try_from_payload(payload), Ok(event));
    }
}

#[test]
fn note_payload_carries_only_note_fields() {
    let event = MusicEvent::MidiNote(MidiNoteEvent::new(0, 60, 96, 1.0f64.to_bits()));
    let payload = MusicEventPayload::from_event(&event);
    assert_eq!(payload.kind, "midiNote");
    assert_eq!(payload.channel, Some(0));
    assert_eq!(payload.key, Some(60));
    assert_eq!(payload.velocity, Some(96));
    assert_eq!(payload.duration_bits, Some(1.0f64.to_bits()));
    assert_eq!(payload.value, None);
    assert_eq!(payload.data, None);
    assert_eq!(payload.tempo_bits, None);
}

#[test]
fn control_change_payload_uses_raw_message_type() {
    let event = MusicEvent::MidiControlChange(MidiControlChangeEvent::new(
        1,
        MidiControlChangeMessageType::MonoModeOff,
        5,
    ));
    let payload = MusicEventPayload::from_event(&event);
    assert_eq!(payload.kind, "midiControlChange");
    assert_eq!(payload.message_type, Some(127));
}

fn blank(kind: &str) -> MusicEventPayload {
    let event = MusicEvent::ExtendedTempo(ExtendedTempoEvent::new(0));
    let mut payload = MusicEventPayload::from_event(&event);
    payload.kind = kind.to_string();
    payload.tempo_bits = None;
    payload
}

#[test]
fn decoding_reports_first_missing_field() {
    let mut payload = blank("midiNote");
    payload.channel = Some(1);
    assert_eq!(
        MusicEvent::try_from_payload(payload),
        Err(AVAudioError::InvalidArgument(
            "missing `key` for `midiNote` music event payload".into()
        )),
    );
    assert_eq!(
        MusicEvent::try_from_payload(blank("parameter")),
        Err(AVAudioError::InvalidArgument(
            "missing `parameterId` for `parameter` music event payload".into()
        )),
    );
}

#[test]
fn decoding_rejects_unknown_kind() {
    assert_eq!(
        MusicEvent::try_from_payload(blank("bogus")),
        Err(AVAudioError::InvalidArgument("unsupported music event kind `bogus`".into())),
    );
}

#[test]
fn decoding_rejects_unknown_type_codes() {
    let mut payload = blank("midiControlChange");
    payload.channel = Some(0);
    payload.message_type = Some(3);
    payload.value = Some(0);
    assert_eq!(
        MusicEvent::try_from_payload(payload),
        Err(AVAudioError::InvalidArgument(
            "unsupported MIDI control-change message type 3".into()
        )),
    );
    let mut payload = blank("midiMeta");
    payload.meta_type = Some(-2);
    assert_eq!(
        MusicEvent::try_from_payload(payload),
        Err(AVAudioError::InvalidArgument("unsupported MIDI meta-event type -2".into())),
    );
}

#[test]
fn byte_events_default_missing_data_to_empty() {
    let mut payload = blank("midiSysex");
    payload.size_in_bytes = Some(9);
    let event = MusicEvent::try_from_payload(payload).unwrap();
    match event {
        MusicEvent::MidiSysex(sysex) => {
            assert!(sysex.data.is_empty());
            assert_eq!(sysex.size_in_bytes(), 9);
        }
        other => panic!("unexpected event {other:?}"),
    }
    let event = MusicEvent::try_from_payload(blank("musicUser")).unwrap();
    assert_eq!(event, MusicEvent::MusicUser(MusicUserEvent::new(Vec::new())));
}

#[test]
fn preset_dictionary_is_normalized_json() {
    let mut payload = blank("auPreset");
    payload.scope = Some(1);
    payload.element = Some(2);
    payload.preset_dictionary_json = Some("{ \"gain\" : 3 }".into());
    assert_eq!(
        MusicEvent::try_from_payload(payload),
        Ok(MusicEvent::AUPreset(AUPresetEvent::new(1, 2, "{\"gain\":3}".into()))),
    );
    let mut payload = blank("auPreset");
    payload.scope = Some(1);
    payload.element = Some(2);
    assert_eq!(
        MusicEvent::try_from_payload(payload),
        Ok(MusicEvent::AUPreset(AUPresetEvent::new(1, 2, "{}".into()))),
    );
}

#[test]
fn preset_dictionary_parse_errors_are_reported_first() {
    let mut payload = blank("auPreset");
    payload.preset_dictionary_json = Some("{".into());
    match MusicEvent::try_from_payload(payload) {
        Err(AVAudioError::InvalidArgument(message)) => {
            assert!(message.starts_with("failed to decode AVAUPresetEvent dictionary JSON: "));
            assert!(message.len() > "failed to decode AVAUPresetEvent dictionary JSON: ".len());
        }
        other => panic!("unexpected result {other:?}"),
    }
}

#[test]
fn type_codes_roundtrip_and_reject_gaps() {
    assert_eq!(MidiControlChangeMessageType::Pan.as_raw(), 10);
    assert_eq!(
        MidiControlChangeMessageType::try_from_raw(91),
        Ok(MidiControlChangeMessageType::ReverbLevel)
    );
    assert_eq!(MidiMetaEventType::Tempo.as_raw(), 0x51);
    assert_eq!(MidiMetaEventType::try_from_raw(0x2f), Ok(MidiMetaEventType::EndOfTrack));
    assert_eq!(
        MidiMetaEventType::try_from_raw(0x08),
        Err(AVAudioError::InvalidArgument("unsupported MIDI meta-event type 8".into()))
    );
}

#[test]
fn sizes_fall_back_to_data_length() {
    let mut user = MusicUserEvent::new(vec![0; 5]);
    assert_eq!(user.size_in_bytes(), 5);
    user.reported_size_in_bytes = Some(2);
    assert_eq!(user.size_in_bytes(), 2);
}

#[test]
fn require_and_missing_field_messages() {
    assert_eq!(require(Some(3u8), "x", "y"), Ok(3));
    assert_eq!(
        require::<u8>(None, "tempo", "extendedTempo"),
        Err(missing_field("tempo", "extendedTempo")),
    );
    assert_eq!(
        missing_field("tempo", "extendedTempo"),
        AVAudioError::InvalidArgument(
            "missing `tempo` for `extendedTempo` music event payload".into()
        ),
    );
}

#[test]
fn au_preset_from_normalized_dictionary() {
    assert_eq!(
        au_preset_from_parts(Some(1), Some(2), Some(Ok("{\"a\":1}".to_string()))),
        Ok(MusicEvent::AUPreset(AUPresetEvent::new(1, 2, "{\"a\":1}".to_string())))
    );
    assert_eq!(
        au_preset_from_parts(Some(1), Some(2), None),
        Ok(MusicEvent::AUPreset(AUPresetEvent::new(1, 2, "{}".to_string())))
    );
}

#[test]
fn au_preset_reports_dictionary_error_before_missing_fields() {
    assert_eq!(
        au_preset_from_parts(None, None, Some(Err("boom".to_string()))),
        Err(AVAudioError::InvalidArgument(
            "failed to decode AVAUPresetEvent dictionary JSON: boom".into()
        ))
    );
    assert_eq!(
        au_preset_from_parts(None, Some(2), None),
        Err(AVAudioError::InvalidArgument(
            "missing `scope` for `auPreset` music event payload".into()
        ))
    );
    assert_eq!(
        au_preset_from_parts(Some(1), None, Some(Ok("[]".to_string()))),
        Err(AVAudioError::InvalidArgument(
            "missing `element` for `auPreset` music event payload".into()
        ))
    );
}
