//! Shared numeric type aliases and the plain metadata records the bridge reports.

use vstd::prelude::*;

verus! {

/// Mirrors `AVAudioNodeBus`.
pub type AudioNodeBus = usize;
/// Mirrors `AVAudioFrameCount`.
pub type AudioFrameCount = u32;
/// Mirrors `AVAudioFramePosition`.
pub type AudioFramePosition = i64;
/// Mirrors `AVAudioPacketCount`.
pub type AudioPacketCount = u32;
/// Mirrors `AVAudioChannelCount`.
pub type AudioChannelCount = u32;
/// Mirrors `AudioChannelLayoutTag`.
pub type AudioChannelLayoutTag = u32;

/// Mirrors `kAudioChannelLayoutTag_Mono`.
pub const AUDIO_CHANNEL_LAYOUT_TAG_MONO: AudioChannelLayoutTag = (100u32 << 16u32) | 1u32;
/// Mirrors `kAudioChannelLayoutTag_Stereo`.
pub const AUDIO_CHANNEL_LAYOUT_TAG_STEREO: AudioChannelLayoutTag = (101u32 << 16u32) | 2u32;

/// Channel-layout metadata.
#[derive(Debug, Clone, Copy, PartialEq, Eq, Structural)]
pub struct AudioChannelLayoutInfo {
    pub layout_tag: AudioChannelLayoutTag,
    pub channel_count: AudioChannelCount,
}

/// Compressed-buffer metadata.
#[derive(Debug, Clone, Copy, PartialEq, Eq, Structural)]
pub struct AudioCompressedBufferInfo {
    pub packet_capacity: AudioPacketCount,
    pub packet_count: AudioPacketCount,
    pub maximum_packet_size: usize,
    pub byte_capacity: u32,
    pub byte_length: u32,
}

/// Connection-point metadata: the bus and the raw identity of the node.
#[derive(Debug, Clone, Copy, PartialEq, Eq, Structural)]
pub struct AudioConnectionPointInfo {
    pub bus: AudioNodeBus,
    pub node_raw: u64,
}

/// Player-node state reported by the bridge.
#[derive(Debug, Clone, Copy, PartialEq, Eq, Structural)]
pub struct AudioPlayerNodeInfo {
    pub is_playing: bool,
}

impl AudioConnectionPointInfo {
    /// Whether the connection point refers to the node whose raw identity is `node_raw`.
    pub fn points_to(&self, node_raw: u64) -> (r: bool)
        ensures
            r == (self.node_raw == node_raw),
    {
        self.node_raw == node_raw
    }
}

} // verus!
