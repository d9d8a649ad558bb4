use avaudio::application::{AudioApplication, AudioApplicationRecordPermission};
use avaudio::async_api::{
    tap_stream_settings, PlayerNodeCompletionEvent, RecorderEvent, SimplePlayerEvent,
    TAP_BUFFER_STREAM_MAX_CAPACITY,
};
use avaudio::converter::{
    AudioConverterInputStatus, AudioConverterOutputStatus, AudioConverterPrimeMethod,
};
use avaudio::engine::{
    AudioEngineManualRenderingError, AudioEngineManualRenderingInfo,
    AudioEngineManualRenderingMode, AudioEngineManualRenderingStatus,
};
use avaudio::error::AVAudioError;
use avaudio::io_node::{
    AudioVoiceProcessingOtherAudioDuckingConfiguration, AudioVoiceProcessingOtherAudioDuckingLevel,
    AudioVoiceProcessingSpeechActivityEvent,
};
use avaudio::mixing::{
    decode_point_source_in_head_mode, decode_rendering_algorithm, decode_source_mode,
    Audio3DMixingPointSourceInHeadMode, Audio3DMixingRenderingAlgorithm, Audio3DMixingSourceMode,
};
use avaudio::player::{AudioPlayerNodeBufferOptions, AudioPlayerNodeCompletionCallbackType};
use avaudio::music_track::{BeatRange, TrackEventAction, MUSIC_TIME_STAMP_END_OF_TRACK_BITS};
use avaudio::recorder::{bus_to_i32, channel_to_i32, recorder_settings};
use avaudio::routing_arbiter::{
    routing_begin_outcome, AudioRoutingArbitrationCategory, AudioRoutingArbiter,
};
use avaudio::sequencer::{track_index, MusicSequenceLoadOptions};
use avaudio::session::AudioSession;
use avaudio::session_types::{
    fourcc, AudioSessionActivationOptions, AudioSessionInterruptionOptions,
    AudioSessionPromptStyle, AudioSessionRouteChangeReason, AudioSessionSetActiveOptions,
    AudioStereoOrientation,
};
use avaudio::settings::{AudioContentSource, AudioDynamicRangeControlConfiguration, AudioQuality};

#[test]
fn record_permission_codes() {
    assert_eq!(
        AudioApplicationRecordPermission::from_raw(0),
        AudioApplicationRecordPermission::Undetermined
    );
    assert_eq!(
        AudioApplicationRecordPermission::from_raw(1),
        AudioApplicationRecordPermission::Denied
    );
    assert_eq!(
        AudioApplicationRecordPermission::from_raw(2),
        AudioApplicationRecordPermission::Granted
    );
    assert_eq!(
        AudioApplicationRecordPermission::from_raw(9),
        AudioApplicationRecordPermission::Other(9)
    );
    assert_eq!(AudioApplication::shared(), AudioApplication);
}

#[test]
fn converter_prime_method_roundtrip() {
    for raw in [0i64, 1, 2, 3, -5] {
        assert_eq!(AudioConverterPrimeMethod::from_raw(raw).as_raw(), raw);
    }
    assert_eq!(AudioConverterPrimeMethod::from_raw(2), AudioConverterPrimeMethod::Unprimed);
    assert_eq!(AudioConverterPrimeMethod::Pre.as_raw(), 0);
    assert_eq!(AudioConverterPrimeMethod::from_raw(77), AudioConverterPrimeMethod::Other(77));
}

#[test]
fn converter_status_codes() {
    assert_eq!(AudioConverterInputStatus::from_raw(1), AudioConverterInputStatus::NoDataNow);
    assert_eq!(AudioConverterInputStatus::from_raw(5), AudioConverterInputStatus::Other(5));
    assert_eq!(AudioConverterOutputStatus::from_raw(3), AudioConverterOutputStatus::Error);
    assert_eq!(AudioConverterOutputStatus::from_raw(2), AudioConverterOutputStatus::EndOfStream);
}

#[test]
fn converter_bridge_results() {
    assert_eq!(
        AudioConverterOutputStatus::from_bridge(1, String::new()),
        Ok(AudioConverterOutputStatus::InputRanDry)
    );
    assert_eq!(
        AudioConverterOutputStatus::from_bridge(-2, "bad".into()),
        Err(AVAudioError::FormatError("bad".into()))
    );
    assert_eq!(
        AudioConverterOutputStatus::from_bridge(-100, "odd".into()),
        Err(AVAudioError::OperationFailed("unknown status -100: odd".into()))
    );
    assert_eq!(
        AudioConverterOutputStatus::from_bridge(i64::MIN, "huge".into()),
        Err(AVAudioError::OperationFailed("huge".into()))
    );
}

#[test]
fn conversion_result_from_status() {
    assert_eq!(AudioConverterOutputStatus::HaveData.into_conversion_result(), Ok(()));
    assert_eq!(AudioConverterOutputStatus::EndOfStream.into_conversion_result(), Ok(()));
    assert_eq!(
        AudioConverterOutputStatus::Error.into_conversion_result(),
        Err(AVAudioError::OperationFailed(
            "converter returned an error status without an NSError".into()
        ))
    );
    assert!(AudioConverterOutputStatus::Other(9)
        .into_conversion_result()
        .is_err());
}

#[test]
fn manual_rendering_codes() {
    assert_eq!(
        AudioEngineManualRenderingError::from_raw(-80801),
        AudioEngineManualRenderingError::Initialized
    );
    assert_eq!(
        AudioEngineManualRenderingError::from_raw(3),
        AudioEngineManualRenderingError::Other(3)
    );
    assert_eq!(
        AudioEngineManualRenderingMode::from_raw(1),
        AudioEngineManualRenderingMode::Realtime
    );
    assert_eq!(AudioEngineManualRenderingMode::Offline.as_raw(), 0);
    assert_eq!(AudioEngineManualRenderingMode::Other(8).as_raw(), 8);
    let info = AudioEngineManualRenderingInfo {
        is_in_manual_rendering_mode: true,
        manual_rendering_mode_raw: 0,
        manual_rendering_maximum_frame_count: 512,
        manual_rendering_sample_time: 0,
    };
    assert_eq!(info.manual_rendering_mode(), AudioEngineManualRenderingMode::Offline);
}

#[test]
fn manual_rendering_status_from_bridge() {
    assert_eq!(
        AudioEngineManualRenderingStatus::from_bridge(-1, String::new()),
        Ok(AudioEngineManualRenderingStatus::Error)
    );
    assert_eq!(
        AudioEngineManualRenderingStatus::from_bridge(2, String::new()),
        Ok(AudioEngineManualRenderingStatus::CannotDoInCurrentContext)
    );
    assert_eq!(
        AudioEngineManualRenderingStatus::from_bridge(i64::MIN, "render failed".into()),
        Err(AVAudioError::EngineError("render failed".into()))
    );
}

#[test]
fn ducking_codes() {
    assert_eq!(
        AudioVoiceProcessingOtherAudioDuckingLevel::from_raw(20),
        AudioVoiceProcessingOtherAudioDuckingLevel::Mid
    );
    assert_eq!(AudioVoiceProcessingOtherAudioDuckingLevel::Max.as_raw(), 30);
    assert_eq!(
        AudioVoiceProcessingOtherAudioDuckingLevel::from_raw(15).as_raw(),
        15
    );
    let config = AudioVoiceProcessingOtherAudioDuckingConfiguration::from_bridge_fields(true, 10);
    assert_eq!(
        config,
        AudioVoiceProcessingOtherAudioDuckingConfiguration::new(
            true,
            AudioVoiceProcessingOtherAudioDuckingLevel::Min
        )
    );
    assert_eq!(
        AudioVoiceProcessingSpeechActivityEvent::from_raw(1),
        AudioVoiceProcessingSpeechActivityEvent::Ended
    );
    assert_eq!(
        AudioVoiceProcessingSpeechActivityEvent::from_raw(4),
        AudioVoiceProcessingSpeechActivityEvent::Other(4)
    );
}

#[test]
fn mixing_decoders() {
    assert_eq!(decode_rendering_algorithm(5), Ok(Audio3DMixingRenderingAlgorithm::StereoPassThrough));
    assert_eq!(
        decode_rendering_algorithm(4),
        Err(AVAudioError::OperationFailed(
            "unknown AVAudio3DMixingRenderingAlgorithm raw value: 4".into()
        ))
    );
    assert_eq!(decode_source_mode(3), Ok(Audio3DMixingSourceMode::AmbienceBed));
    assert_eq!(
        decode_source_mode(-1),
        Err(AVAudioError::OperationFailed(
            "unknown AVAudio3DMixingSourceMode raw value: -1".into()
        ))
    );
    assert_eq!(
        decode_point_source_in_head_mode(1),
        Ok(Audio3DMixingPointSourceInHeadMode::Bypass)
    );
    assert_eq!(
        decode_point_source_in_head_mode(2),
        Err(AVAudioError::OperationFailed(
            "unknown AVAudio3DMixingPointSourceInHeadMode raw value: 2".into()
        ))
    );
    for v in [
        Audio3DMixingRenderingAlgorithm::EqualPowerPanning,
        Audio3DMixingRenderingAlgorithm::Hrtf,
        Audio3DMixingRenderingAlgorithm::Auto,
    ] {
        assert_eq!(decode_rendering_algorithm(v.as_raw()), Ok(v));
    }
    assert_eq!(Audio3DMixingSourceMode::PointSource.as_raw(), 2);
    assert_eq!(Audio3DMixingPointSourceInHeadMode::Mono.as_raw(), 0);
}

#[test]
fn routing_categories_and_outcomes() {
    assert_eq!(
        AudioRoutingArbitrationCategory::from_raw(2),
        AudioRoutingArbitrationCategory::PlayAndRecordVoice
    );
    assert_eq!(AudioRoutingArbitrationCategory::Playback.as_raw(), 0);
    assert_eq!(AudioRoutingArbitrationCategory::from_raw(40).as_raw(), 40);
    assert_eq!(AudioRoutingArbiter::shared(), AudioRoutingArbiter);
    assert_eq!(routing_begin_outcome(None, None), (false, None));
    assert_eq!(
        routing_begin_outcome(Some("{}".into()), Some((true, None))),
        (true, None)
    );
    assert_eq!(
        routing_begin_outcome(Some("not json".into()), None),
        (false, Some("not json".to_string()))
    );
}

#[test]
fn completion_and_delegate_events() {
    assert_eq!(
        PlayerNodeCompletionEvent::from_kind(2),
        PlayerNodeCompletionEvent::DataPlayedBack
    );
    assert_eq!(PlayerNodeCompletionEvent::from_kind(-3), PlayerNodeCompletionEvent::Other(-3));
    assert_eq!(
        RecorderEvent::from_kind(1, None),
        Some(RecorderEvent::DidFinishRecording { successfully: true })
    );
    assert_eq!(
        RecorderEvent::from_kind(2, Some("disk full".into())),
        Some(RecorderEvent::EncodeError {
            message: "disk full".into()
        })
    );
    assert_eq!(
        RecorderEvent::from_kind(2, None),
        Some(RecorderEvent::EncodeError {
            message: String::new()
        })
    );
    assert_eq!(RecorderEvent::from_kind(7, None), None);
    assert_eq!(
        SimplePlayerEvent::from_kind(0, None),
        Some(SimplePlayerEvent::DidFinishPlaying { successfully: false })
    );
    assert_eq!(
        SimplePlayerEvent::from_kind(2, Some("corrupt".into())),
        Some(SimplePlayerEvent::DecodeError {
            message: "corrupt".into()
        })
    );
    assert_eq!(SimplePlayerEvent::from_kind(3, None), None);
}

#[test]
fn tap_stream_parameters() {
    assert_eq!(tap_stream_settings(0, 8), Ok((0, 8)));
    assert_eq!(
        tap_stream_settings(3, 1_000_000),
        Ok((3, TAP_BUFFER_STREAM_MAX_CAPACITY))
    );
    assert_eq!(
        tap_stream_settings(0, 0),
        Err(AVAudioError::InvalidArgument(
            "TapBufferStream capacity must be greater than 0".into()
        ))
    );
    if usize::BITS > 32 {
        let bus = (u32::MAX as usize) + 1;
        assert_eq!(
            tap_stream_settings(bus, 4),
            Err(AVAudioError::InvalidArgument(
                "bus index exceeds UInt32 range".into()
            ))
        );
        assert_eq!(
            tap_stream_settings(bus, 0),
            Err(AVAudioError::InvalidArgument(
                "TapBufferStream capacity must be greater than 0".into()
            ))
        );
    }
}

#[test]
fn index_conversions() {
    assert_eq!(channel_to_i32(3), Ok(3));
    assert_eq!(bus_to_i32(0), Ok(0));
    assert_eq!(
        bus_to_i32(i32::MAX as usize + 1),
        Err(AVAudioError::InvalidArgument(
            "bus index exceeds Int32 range".into()
        ))
    );
    assert_eq!(
        channel_to_i32(i32::MAX as usize + 1),
        Err(AVAudioError::InvalidArgument(
            "channel index exceeds Int32 range".into()
        ))
    );
    assert_eq!(track_index(5), Ok(5));
    assert_eq!(
        track_index(usize::MAX),
        Err(AVAudioError::InvalidArgument(
            "track index exceeds isize::MAX".into()
        ))
    );
}

#[test]
fn recorder_setting_checks() {
    assert_eq!(recorder_settings(2, 16), Ok((2, 16)));
    assert_eq!(
        recorder_settings(u32::MAX, u32::MAX),
        Err(AVAudioError::InvalidArgument(
            "channel count exceeds Int32 range".into()
        ))
    );
    assert_eq!(
        recorder_settings(1, u32::MAX),
        Err(AVAudioError::InvalidArgument(
            "bit depth exceeds Int32 range".into()
        ))
    );
}

#[test]
fn load_options_flags() {
    assert_eq!(MusicSequenceLoadOptions::none().bits(), 0);
    assert_eq!(MusicSequenceLoadOptions::preserve_tracks().bits(), 0);
    assert_eq!(MusicSequenceLoadOptions::channels_to_tracks().bits(), 1);
    let both = MusicSequenceLoadOptions::from_bits(1) | MusicSequenceLoadOptions::from_bits(4);
    assert_eq!(both.bits(), 5);
    assert!(both.contains(MusicSequenceLoadOptions::channels_to_tracks()));
    assert!(both.contains(MusicSequenceLoadOptions::none()));
    assert!(!MusicSequenceLoadOptions::none().contains(MusicSequenceLoadOptions::channels_to_tracks()));
    assert_eq!((both & MusicSequenceLoadOptions::from_bits(4)).bits(), 4);
    assert_eq!(MusicSequenceLoadOptions::default().bits(), 0);
}

#[test]
fn session_option_flags() {
    assert_eq!(AudioSessionActivationOptions::none().bits(), 0);
    assert_eq!(AudioSessionActivationOptions::default().bits(), 0);
    assert_eq!(AudioSessionInterruptionOptions::should_resume().bits(), 1);
    assert_eq!(
        AudioSessionSetActiveOptions::notify_others_on_deactivation().bits(),
        1
    );
    let merged =
        AudioSessionInterruptionOptions::should_resume() | AudioSessionInterruptionOptions::from_bits(2);
    assert!(merged.contains(AudioSessionInterruptionOptions::should_resume()));
    assert!(!AudioSessionInterruptionOptions::from_bits(2)
        .contains(AudioSessionInterruptionOptions::should_resume()));
    assert_eq!(
        (AudioSessionSetActiveOptions::from_bits(3) & AudioSessionSetActiveOptions::from_bits(6)).bits(),
        2
    );
}

#[test]
fn session_enum_codes() {
    assert_eq!(fourcc(*b"none"), 0x6e6f_6e65);
    assert_eq!(AudioSessionPromptStyle::NoPrompt.as_raw(), 0x6e6f_6e65);
    assert_eq!(AudioSessionPromptStyle::Short.as_raw(), 0x7368_7274);
    assert_eq!(AudioSessionPromptStyle::Normal.as_raw(), 0x6e72_6d6c);
    assert_eq!(AudioSessionRouteChangeReason::WakeFromSleep.as_raw(), 6);
    assert_eq!(AudioSessionRouteChangeReason::RouteConfigurationChange.as_raw(), 8);
    assert_eq!(AudioStereoOrientation::LandscapeLeft.as_raw(), 4);
    assert_eq!(AudioStereoOrientation::NoOrientation.as_raw(), 0);
}

#[test]
fn settings_codes() {
    assert_eq!(AudioQuality::Max.as_raw(), 0x7f);
    assert_eq!(AudioQuality::Medium.as_raw(), 0x40);
    assert_eq!(AudioDynamicRangeControlConfiguration::NoControl.as_raw(), 0);
    assert_eq!(AudioDynamicRangeControlConfiguration::Capture.as_raw(), 4);
    assert_eq!(AudioContentSource::Unspecified.as_raw(), -1);
    assert_eq!(AudioContentSource::Passthrough.as_raw(), 42);
    assert_eq!(AudioContentSource::ApplePassthrough.as_raw(), 10);
}

#[test]
fn session_is_unavailable() {
    assert_eq!(
        AudioSession::is_other_audio_playing(),
        Err(AVAudioError::Unsupported(
            "AVAudioSession is unavailable on macOS".into()
        ))
    );
    assert_eq!(
        AudioSession::is_other_audio_playing().unwrap_err().to_string(),
        "unsupported: AVAudioSession is unavailable on macOS"
    );
}

#[test]
fn track_event_actions() {
    let keep = TrackEventAction::default();
    assert_eq!(keep.resolve(42), (42, false));
    let moved = TrackEventAction {
        new_beat_bits: Some(2.0f64.to_bits()),
        remove: false,
    };
    assert_eq!(moved.resolve(1.0f64.to_bits()), (2.0f64.to_bits(), false));
    let removed = TrackEventAction {
        new_beat_bits: None,
        remove: true,
    };
    assert_eq!(removed.resolve(7), (7, true));
    assert_eq!(MUSIC_TIME_STAMP_END_OF_TRACK_BITS, f64::MAX.to_bits());
    let range = BeatRange::new(0.5f64.to_bits(), 4.0f64.to_bits());
    assert_eq!(f64::from_bits(range.start_bits), 0.5);
    assert_eq!(f64::from_bits(range.length_bits), 4.0);
}

#[test]
fn option_assign_operators() {
    let mut opts = MusicSequenceLoadOptions::none();
    opts |= MusicSequenceLoadOptions::channels_to_tracks();
    assert_eq!(opts.bits(), 1);
    opts &= MusicSequenceLoadOptions::none();
    assert_eq!(opts.bits(), 0);
    let mut session = AudioSessionSetActiveOptions::from_bits(0);
    session |= AudioSessionSetActiveOptions::notify_others_on_deactivation();
    assert!(session.contains(AudioSessionSetActiveOptions::notify_others_on_deactivation()));
    let mut activation = AudioSessionActivationOptions::from_bits(7);
    activation &= AudioSessionActivationOptions::from_bits(2);
    assert_eq!(activation.bits(), 2);
}

#[test]
fn player_buffer_options_and_callback_types() {
    assert_eq!(AudioPlayerNodeBufferOptions::loops().bits(), 1);
    assert_eq!(AudioPlayerNodeBufferOptions::interrupts().bits(), 2);
    assert_eq!(AudioPlayerNodeBufferOptions::interrupts_at_loop().bits(), 4);
    let mut both = AudioPlayerNodeBufferOptions::loops() | AudioPlayerNodeBufferOptions::interrupts();
    assert!(both.contains(AudioPlayerNodeBufferOptions::loops()));
    assert!(!both.contains(AudioPlayerNodeBufferOptions::interrupts_at_loop()));
    both &= AudioPlayerNodeBufferOptions::interrupts();
    assert_eq!(both.bits(), 2);
    assert_eq!(AudioPlayerNodeBufferOptions::default().bits(), 0);
    for (ty, event) in [
        (
            AudioPlayerNodeCompletionCallbackType::DataConsumed,
            PlayerNodeCompletionEvent::DataConsumed,
        ),
        (
            AudioPlayerNodeCompletionCallbackType::DataRendered,
            PlayerNodeCompletionEvent::DataRendered,
        ),
        (
            AudioPlayerNodeCompletionCallbackType::DataPlayedBack,
            PlayerNodeCompletionEvent::DataPlayedBack,
        ),
    ] {
        assert_eq!(PlayerNodeCompletionEvent::from_kind(ty.as_raw() as i32), event);
    }
}
