//! Session queries; `AVAudioSession` does not exist on macOS, so they report that.

use vstd::prelude::*;
use vstd::string::*;

use crate::error::AVAudioError;

verus! {

/// Lightweight access to `AVAudioSession`-like session data.
#[derive(Debug, Clone, Copy, PartialEq, Eq, Structural)]
pub struct AudioSession;

/// The message of the error every session query reports.
pub open spec fn unavailable_text() -> Seq<char> {
    "AVAudioSession is unavailable on macOS"@
}

/// The error every session query reports: the API is unavailable on macOS.
pub fn unavailable() -> (e: AVAudioError)
    ensures
        e is Unsupported && e.message() == unavailable_text(),
{
    AVAudioError::Unsupported(String::from_str("AVAudioSession is unavailable on macOS"))
}

impl AudioSession {
    /// Returns whether other audio is currently playing; `AVAudioSession` is unavailable
    /// on macOS, so this is always the `Unsupported` error.
    pub fn is_other_audio_playing() -> (r: Result<bool, AVAudioError>)
        ensures
            r matches Err(e) && e is Unsupported && e.message() == unavailable_text(),
    {
        Err(unavailable())
    }
}

} // verus!
