//! Event values delivered by the asynchronous notification streams, and the
//! parameter checks made when a tap stream is set up.

use vstd::prelude::*;
use vstd::string::*;

use crate::error::AVAudioError;

verus! {

/// Delivered whenever the engine configuration changes.
#[derive(Debug, Clone, Copy, PartialEq, Eq, Structural)]
pub struct ConfigChangeEvent;

/// A player-node completion callback type, as reported by the bridge.
#[derive(Debug, Clone, Copy, PartialEq, Eq, Structural)]
#[non_exhaustive]
pub enum PlayerNodeCompletionEvent {
    DataConsumed,
    DataRendered,
    DataPlayedBack,
    Other(i64),
}

impl PlayerNodeCompletionEvent {
    /// The event that a bridge kind code stands for; unknown codes are kept in `Other`.
    pub open spec fn of_kind(kind: i32) -> Self {
        if kind == 0 {
            PlayerNodeCompletionEvent::DataConsumed
        } else if kind == 1 {
            PlayerNodeCompletionEvent::DataRendered
        } else if kind == 2 {
            PlayerNodeCompletionEvent::DataPlayedBack
        } else {
            PlayerNodeCompletionEvent::Other(kind as i64)
        }
    }

    /// Maps a bridge kind code to its event; unknown codes are kept in `Other`.
    pub fn from_kind(kind: i32) -> (r: Self)
        ensures
            r == Self::of_kind(kind),
    {
        match kind {
            0 => PlayerNodeCompletionEvent::DataConsumed,
            1 => PlayerNodeCompletionEvent::DataRendered,
            2 => PlayerNodeCompletionEvent::DataPlayedBack,
            other => PlayerNodeCompletionEvent::Other(other as i64),
        }
    }
}

/// A recorder delegate callback.
#[derive(Debug, Clone, PartialEq, Eq)]
#[non_exhaustive]
pub enum RecorderEvent {
    DidFinishRecording { successfully: bool },
    EncodeError { message: String },
}

impl RecorderEvent {
    /// The event for a bridge callback of the given kind: `0`/`1` finish recording
    /// (unsuccessfully/successfully), `2` is an encode error whose message is the
    /// callback's text (empty when none was given); other kinds deliver nothing.
    pub fn from_kind(kind: i32, message: Option<String>) -> (r: Option<Self>)
        ensures
            kind == 0 ==> r == Some(RecorderEvent::DidFinishRecording { successfully: false }),
            kind == 1 ==> r == Some(RecorderEvent::DidFinishRecording { successfully: true }),
            kind == 2 ==> (r matches Some(RecorderEvent::EncodeError { message: m }) && m@ == (
            match message {
                Some(s) => s@,
                None => Seq::<char>::empty(),
            })),
            kind != 0 && kind != 1 && kind != 2 ==> r is None,
    {
        match kind {
            0 => Some(RecorderEvent::DidFinishRecording { successfully: false }),
            1 => Some(RecorderEvent::DidFinishRecording { successfully: true }),
            2 => {
                let message = match message {
                    Some(s) => s,
                    None => String::new(),
                };
                Some(RecorderEvent::EncodeError { message })
            },
            _ => None,
        }
    }
}

/// A simple-player delegate callback.
#[derive(Debug, Clone, PartialEq, Eq)]
#[non_exhaustive]
pub enum SimplePlayerEvent {
    DidFinishPlaying { successfully: bool },
    DecodeError { message: String },
}

impl SimplePlayerEvent {
    /// The event for a bridge callback of the given kind: `0`/`1` finish playing
    /// (unsuccessfully/successfully), `2` is a decode error whose message is the
    /// callback's text (empty when none was given); other kinds deliver nothing.
    pub fn from_kind(kind: i32, message: Option<String>) -> (r: Option<Self>)
        ensures
            kind == 0 ==> r == Some(SimplePlayerEvent::DidFinishPlaying { successfully: false }),
            kind == 1 ==> r == Some(SimplePlayerEvent::DidFinishPlaying { successfully: true }),
            kind == 2 ==> (r matches Some(SimplePlayerEvent::DecodeError { message: m }) && m@ == (
            match message {
                Some(s) => s@,
                None => Seq::<char>::empty(),
            })),
            kind != 0 && kind != 1 && kind != 2 ==> r is None,
    {
        match kind {
            0 => Some(SimplePlayerEvent::DidFinishPlaying { successfully: false }),
            1 => Some(SimplePlayerEvent::DidFinishPlaying { successfully: true }),
            2 => {
                let message = match message {
                    Some(s) => s,
                    None => String::new(),
                };
                Some(SimplePlayerEvent::DecodeError { message })
            },
            _ => None,
        }
    }
}

/// Async entry points for `AVAudioApplication`.
#[derive(Debug, Clone, Copy, PartialEq, Eq, Structural)]
pub struct AsyncAudioApplication;

/// The largest number of tap events a tap stream buffers; larger requests are clamped.
pub const TAP_BUFFER_STREAM_MAX_CAPACITY: usize = 4096;

/// Checks the parameters of a tap stream and returns the bus as the bridge's `u32` and
/// the ring capacity to allocate (the request clamped to the maximum).
///
/// A zero capacity and a bus beyond `u32::MAX` are `InvalidArgument` errors, checked in
/// that order.
pub fn tap_stream_settings(bus: usize, capacity: usize) -> (r: Result<(u32, usize), AVAudioError>)
    ensures
        capacity == 0 ==> (r matches Err(e) && e is InvalidArgument && e.message()
            == "TapBufferStream capacity must be greater than 0"@),
        capacity != 0 && bus > u32::MAX ==> (r matches Err(e) && e is InvalidArgument
            && e.message() == "bus index exceeds UInt32 range"@),
        capacity != 0 && bus <= u32::MAX ==> r == Ok::<(u32, usize), AVAudioError>(
            (
                bus as u32,
                if capacity < TAP_BUFFER_STREAM_MAX_CAPACITY {
                    capacity
                } else {
                    TAP_BUFFER_STREAM_MAX_CAPACITY
                },
            ),
        ),
{
    if capacity == 0 {
        return Err(
            AVAudioError::InvalidArgument(
                String::from_str("TapBufferStream capacity must be greater than 0"),
            ),
        );
    }
    if bus > 0xffff_ffffusize {
        return Err(AVAudioError::InvalidArgument(String::from_str("bus index exceeds UInt32 range")));
    }
    let ring_capacity = if capacity < TAP_BUFFER_STREAM_MAX_CAPACITY {
        capacity
    } else {
        TAP_BUFFER_STREAM_MAX_CAPACITY
    };
    Ok((bus as u32, ring_capacity))
}

/// Which raw code decodes to which `PlayerNodeCompletionEvent` value: each known code to its own value,
/// and every other code to none of them.
pub proof fn lemma_player_node_completion_event_decoding(kind: i32)
    ensures
        (PlayerNodeCompletionEvent::of_kind(kind) == PlayerNodeCompletionEvent::DataConsumed) <==> kind == 0,
        (PlayerNodeCompletionEvent::of_kind(kind) == PlayerNodeCompletionEvent::DataRendered) <==> kind == 1,
        (PlayerNodeCompletionEvent::of_kind(kind) == PlayerNodeCompletionEvent::DataPlayedBack) <==> kind == 2,
        (kind != 0 && kind != 1 && kind != 2) ==> PlayerNodeCompletionEvent::of_kind(kind) == PlayerNodeCompletionEvent::Other(kind as i64),
{
}

} // verus!
