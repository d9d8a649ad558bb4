//! Errors produced by the AVFAudio bridge, and the mapping from bridge status codes.

use vstd::prelude::*;
use vstd::string::*;

use crate::text::{append_int_decimal, int_decimal};

verus! {

/// Status code: success.
pub const STATUS_OK: i32 = 0;
/// Status code: invalid caller input.
pub const STATUS_INVALID_ARGUMENT: i32 = -1;
/// Status code: file or format creation failed.
pub const STATUS_FORMAT_ERROR: i32 = -2;
/// Status code: audio file I/O failed.
pub const STATUS_FILE_ERROR: i32 = -3;
/// Status code: engine creation or graph configuration failed.
pub const STATUS_ENGINE_ERROR: i32 = -4;
/// Status code: player-node creation or scheduling failed.
pub const STATUS_PLAYER_ERROR: i32 = -5;
/// Status code: callback installation or dispatch failed.
pub const STATUS_CALLBACK_ERROR: i32 = -6;
/// Status code: a generic operation failed.
pub const STATUS_OPERATION_FAILED: i32 = -7;

/// Top-level error type returned by fallible APIs in this crate.
#[derive(Debug, Clone, PartialEq, Eq)]
#[non_exhaustive]
pub enum AVAudioError {
    /// Invalid caller input (UTF-8 / NUL / unsupported configuration).
    InvalidArgument(String),
    /// File or format creation failed.
    FormatError(String),
    /// Audio file I/O failed.
    FileError(String),
    /// Engine creation or graph configuration failed.
    EngineError(String),
    /// Player-node creation or scheduling failed.
    PlayerError(String),
    /// Callback installation or dispatch failed.
    CallbackError(String),
    /// A generic operation failed.
    OperationFailed(String),
    /// The requested API is not available on this platform.
    Unsupported(String),
}

impl AVAudioError {
    /// The fixed text that precedes the message when the error is displayed.
    pub open spec fn display_prefix(self) -> Seq<char> {
        match self {
            AVAudioError::InvalidArgument(_) => "invalid argument: "@,
            AVAudioError::FormatError(_) => "audio format error: "@,
            AVAudioError::FileError(_) => "audio file error: "@,
            AVAudioError::EngineError(_) => "audio engine error: "@,
            AVAudioError::PlayerError(_) => "audio player error: "@,
            AVAudioError::CallbackError(_) => "audio callback error: "@,
            AVAudioError::OperationFailed(_) => "operation failed: "@,
            AVAudioError::Unsupported(_) => "unsupported: "@,
        }
    }

    /// The message carried by the error.
    pub open spec fn message(self) -> Seq<char> {
        match self {
            AVAudioError::InvalidArgument(m) => m@,
            AVAudioError::FormatError(m) => m@,
            AVAudioError::FileError(m) => m@,
            AVAudioError::EngineError(m) => m@,
            AVAudioError::PlayerError(m) => m@,
            AVAudioError::CallbackError(m) => m@,
            AVAudioError::OperationFailed(m) => m@,
            AVAudioError::Unsupported(m) => m@,
        }
    }

    /// The displayed text: a kind-specific prefix followed by the message.
    pub open spec fn display_text(self) -> Seq<char> {
        self.display_prefix() + self.message()
    }

    /// Renders the error as human-readable text (prefix then message).
    pub fn to_string(&self) -> (s: String)
        ensures
            s@ == self.display_text(),
    {
        let (prefix, message) = match self {
            AVAudioError::InvalidArgument(m) => ("invalid argument: ", m),
            AVAudioError::FormatError(m) => ("audio format error: ", m),
            AVAudioError::FileError(m) => ("audio file error: ", m),
            AVAudioError::EngineError(m) => ("audio engine error: ", m),
            AVAudioError::PlayerError(m) => ("audio player error: ", m),
            AVAudioError::CallbackError(m) => ("audio callback error: ", m),
            AVAudioError::OperationFailed(m) => ("operation failed: ", m),
            AVAudioError::Unsupported(m) => ("unsupported: ", m),
        };
        let mut s = String::from_str(prefix);
        s.append(message.as_str());
        s
    }
}

/// Whether `e` is the error that bridge `status` maps to for the given message text.
pub open spec fn is_status_error(status: i32, message: Seq<char>, e: AVAudioError) -> bool {
    if status == STATUS_INVALID_ARGUMENT {
        e is InvalidArgument && e.message() == message
    } else if status == STATUS_FORMAT_ERROR {
        e is FormatError && e.message() == message
    } else if status == STATUS_FILE_ERROR {
        e is FileError && e.message() == message
    } else if status == STATUS_ENGINE_ERROR {
        e is EngineError && e.message() == message
    } else if status == STATUS_PLAYER_ERROR {
        e is PlayerError && e.message() == message
    } else if status == STATUS_CALLBACK_ERROR {
        e is CallbackError && e.message() == message
    } else if status == STATUS_OPERATION_FAILED {
        e is OperationFailed && e.message() == message
    } else {
        e is OperationFailed && e.message() == "unknown status "@ + int_decimal(status as int)
            + ": "@ + message
    }
}

/// Maps a bridge status code and its (already decoded) error message to an error value.
///
/// Known codes select the matching variant and keep the message as it is; any other
/// code yields `OperationFailed("unknown status <code>: <message>")`.
pub fn from_swift(status: i32, message: String) -> (e: AVAudioError)
    ensures
        is_status_error(status, message@, e),
{
    if status == STATUS_INVALID_ARGUMENT {
        AVAudioError::InvalidArgument(message)
    } else if status == STATUS_FORMAT_ERROR {
        AVAudioError::FormatError(message)
    } else if status == STATUS_FILE_ERROR {
        AVAudioError::FileError(message)
    } else if status == STATUS_ENGINE_ERROR {
        AVAudioError::EngineError(message)
    } else if status == STATUS_PLAYER_ERROR {
        AVAudioError::PlayerError(message)
    } else if status == STATUS_CALLBACK_ERROR {
        AVAudioError::CallbackError(message)
    } else if status == STATUS_OPERATION_FAILED {
        AVAudioError::OperationFailed(message)
    } else {
        let mut text = String::from_str("unknown status ");
        append_int_decimal(&mut text, status as i64);
        text.append(": ");
        text.append(message.as_str());
        AVAudioError::OperationFailed(text)
    }
}

/// The bridge's status codes: 0 is success, -1 to -7 name the error kinds in the order
/// invalid argument, format, file, engine, player, callback, generic failure; each
/// known code yields its kind carrying the bridge's message unchanged, and every other
/// code a generic failure that names the code before the message.
pub proof fn lemma_status_codes(message: Seq<char>, e: AVAudioError, status: i32)
    ensures
        STATUS_OK == 0,
        is_status_error(-1i32, message, e) <==> e is InvalidArgument
            && e.message() == message,
        is_status_error(-2i32, message, e) <==> e is FormatError
            && e.message() == message,
        is_status_error(-3i32, message, e) <==> e is FileError
            && e.message() == message,
        is_status_error(-4i32, message, e) <==> e is EngineError
            && e.message() == message,
        is_status_error(-5i32, message, e) <==> e is PlayerError
            && e.message() == message,
        is_status_error(-6i32, message, e) <==> e is CallbackError
            && e.message() == message,
        is_status_error(-7i32, message, e) <==> e is OperationFailed && e.message() == message,
        (status < -7 || status > -1) ==> (is_status_error(status, message, e) <==> e
            is OperationFailed && e.message() == "unknown status "@ + int_decimal(status as int)
            + ": "@ + message),
{
}

} // verus!
