//! Application-level record-permission state and the shared application handle.

use vstd::prelude::*;

verus! {

/// Record-permission state reported by `AVAudioApplication`.
#[derive(Debug, Clone, Copy, PartialEq, Eq, Hash, Structural)]
#[non_exhaustive]
pub enum AudioApplicationRecordPermission {
    /// The app has not yet asked for permission.
    Undetermined,
    /// The user denied permission.
    Denied,
    /// The user granted permission.
    Granted,
    /// An unknown future permission state.
    Other(i32),
}

impl AudioApplicationRecordPermission {
    /// The value that a raw code stands for; unknown codes are kept in `Other`.
    pub open spec fn of_raw(raw: i32) -> Self {
        if raw == 0 {
            AudioApplicationRecordPermission::Undetermined
        } else if raw == 1 {
            AudioApplicationRecordPermission::Denied
        } else if raw == 2 {
            AudioApplicationRecordPermission::Granted
        } else {
            AudioApplicationRecordPermission::Other(raw)
        }
    }

    /// Maps a raw code to its value; unknown codes are kept in `Other`.
    pub fn from_raw(raw: i32) -> (r: Self)
        ensures
            r == Self::of_raw(raw),
    {
        match raw {
            0 => AudioApplicationRecordPermission::Undetermined,
            1 => AudioApplicationRecordPermission::Denied,
            2 => AudioApplicationRecordPermission::Granted,
            other => AudioApplicationRecordPermission::Other(other),
        }
    }
}

/// Access to the process-wide `AVAudioApplication.shared` singleton.
#[derive(Debug, Clone, Copy, PartialEq, Eq, Structural)]
pub struct AudioApplication;

impl AudioApplication {
    /// Returns the shared application audio object.
    pub fn shared() -> (r: Self)
        ensures
            r == AudioApplication,
    {
        AudioApplication
    }
}

/// Which raw code decodes to which `AudioApplicationRecordPermission` value: each known code to its own value,
/// and every other code to none of them.
pub proof fn lemma_audio_application_record_permission_decoding(raw: i32)
    ensures
        (AudioApplicationRecordPermission::of_raw(raw) == AudioApplicationRecordPermission::Undetermined) <==> raw == 0,
        (AudioApplicationRecordPermission::of_raw(raw) == AudioApplicationRecordPermission::Denied) <==> raw == 1,
        (AudioApplicationRecordPermission::of_raw(raw) == AudioApplicationRecordPermission::Granted) <==> raw == 2,
        (raw != 0 && raw != 1 && raw != 2) ==> AudioApplicationRecordPermission::of_raw(raw) == AudioApplicationRecordPermission::Other(raw),
{
}

} // verus!
