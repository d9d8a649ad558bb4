use avaudio::error::{
    from_swift, AVAudioError, STATUS_CALLBACK_ERROR, STATUS_ENGINE_ERROR, STATUS_FILE_ERROR,
    STATUS_FORMAT_ERROR, STATUS_INVALID_ARGUMENT, STATUS_OPERATION_FAILED, STATUS_PLAYER_ERROR,
};
use avaudio::text::{append_int_decimal, append_nat_decimal};

#[test]
fn display_formats_format_errors() {
    assert_eq!(
        AVAudioError::FormatError("bad format".into()).to_string(),
        "audio format error: bad format",
    );
}

#[test]
fn display_formats_callback_errors() {
    assert_eq!(
        AVAudioError::CallbackError("callback dropped".into()).to_string(),
        "audio callback error: callback dropped",
    );
}

#[test]
fn from_swift_maps_known_status_codes() {
    assert_eq!(
        from_swift(STATUS_FILE_ERROR, String::new()),
        AVAudioError::FileError(String::new()),
    );
    assert_eq!(
        from_swift(STATUS_ENGINE_ERROR, String::new()),
        AVAudioError::EngineError(String::new()),
    );
}

#[test]
fn from_swift_uses_operation_failed_for_unknown_statuses() {
    assert_eq!(
        from_swift(77, String::new()),
        AVAudioError::OperationFailed("unknown status 77: ".into()),
    );
}

#[test]
fn from_swift_keeps_messages_for_every_known_code() {
    let m = || String::from("boom");
    assert_eq!(from_swift(STATUS_INVALID_ARGUMENT, m()), AVAudioError::InvalidArgument(m()));
    assert_eq!(from_swift(STATUS_FORMAT_ERROR, m()), AVAudioError::FormatError(m()));
    assert_eq!(from_swift(STATUS_PLAYER_ERROR, m()), AVAudioError::PlayerError(m()));
    assert_eq!(from_swift(STATUS_CALLBACK_ERROR, m()), AVAudioError::CallbackError(m()));
    assert_eq!(from_swift(STATUS_OPERATION_FAILED, m()), AVAudioError::OperationFailed(m()));
}

#[test]
fn from_swift_renders_negative_and_extreme_unknown_codes() {
    assert_eq!(
        from_swift(-8, "x".into()),
        AVAudioError::OperationFailed("unknown status -8: x".into()),
    );
    assert_eq!(
        from_swift(0, String::new()),
        AVAudioError::OperationFailed("unknown status 0: ".into()),
    );
    assert_eq!(
        from_swift(i32::MIN, String::new()),
        AVAudioError::OperationFailed("unknown status -2147483648: ".into()),
    );
}

#[test]
fn display_prefixes_of_every_variant() {
    assert_eq!(AVAudioError::InvalidArgument("a".into()).to_string(), "invalid argument: a");
    assert_eq!(AVAudioError::FileError("a".into()).to_string(), "audio file error: a");
    assert_eq!(AVAudioError::EngineError("a".into()).to_string(), "audio engine error: a");
    assert_eq!(AVAudioError::PlayerError("a".into()).to_string(), "audio player error: a");
    assert_eq!(AVAudioError::OperationFailed("a".into()).to_string(), "operation failed: a");
    assert_eq!(AVAudioError::Unsupported("a".into()).to_string(), "unsupported: a");
}

#[test]
fn decimal_rendering_matches_std() {
    for v in [0i64, 7, 10, 99, 100, 12345, -1, -10, -987654321, i64::MAX, i64::MIN] {
        let mut s = String::from("<");
        append_int_decimal(&mut s, v);
        assert_eq!(s, format!("<{v}"));
    }
    let mut s = String::new();
    append_nat_decimal(&mut s, u64::MAX);
    assert_eq!(s, u64::MAX.to_string());
}
