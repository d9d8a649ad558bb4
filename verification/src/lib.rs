//! Verified value logic for the AVFAudio bridge: raw-code conversions,
//! music-event payload encoding, PCM buffer geometry and error reporting.

pub mod text;
pub mod error;
pub mod music_event;
pub mod json;
pub mod application;
pub mod converter;
pub mod engine;
pub mod io_node;
pub mod routing_arbiter;
pub mod format;
pub mod session_types;
pub mod settings;
pub mod mixing;
pub mod async_api;
pub mod pcm_buffer;
pub mod sequencer;
pub mod session;
pub mod recorder;
pub mod types;
pub mod music_track;
pub mod player;
