//! Argument checks of the recorder and of node bus indices.

use vstd::prelude::*;
use vstd::string::*;

use crate::error::AVAudioError;

verus! {

/// Converts a `usize` to the bridge's `i32`, or reports `message` as `InvalidArgument`.
fn to_i32_or(value: usize, message: &str) -> (r: Result<i32, AVAudioError>)
    ensures
        value <= i32::MAX ==> r == Ok::<i32, AVAudioError>(value as i32),
        value > i32::MAX ==> (r matches Err(e) && e is InvalidArgument && e.message() == message@),
{
    if value <= 0x7fff_ffffusize {
        Ok(value as i32)
    } else {
        Err(AVAudioError::InvalidArgument(String::from_str(message)))
    }
}

/// Converts a meter channel index to the bridge's `i32`.
pub fn channel_to_i32(channel: usize) -> (r: Result<i32, AVAudioError>)
    ensures
        channel <= i32::MAX ==> r == Ok::<i32, AVAudioError>(channel as i32),
        channel > i32::MAX ==> (r matches Err(e) && e is InvalidArgument && e.message()
            == "channel index exceeds Int32 range"@),
{
    to_i32_or(channel, "channel index exceeds Int32 range")
}

/// Converts a node bus index to the bridge's `i32`.
pub fn bus_to_i32(bus: usize) -> (r: Result<i32, AVAudioError>)
    ensures
        bus <= i32::MAX ==> r == Ok::<i32, AVAudioError>(bus as i32),
        bus > i32::MAX ==> (r matches Err(e) && e is InvalidArgument && e.message()
            == "bus index exceeds Int32 range"@),
{
    to_i32_or(bus, "bus index exceeds Int32 range")
}

/// Checks the numeric recorder settings and converts them to the bridge's `i32`s: the
/// channel count first, then the bit depth.
pub fn recorder_settings(channels: u32, bit_depth: u32) -> (r: Result<(i32, i32), AVAudioError>)
    ensures
        channels > i32::MAX ==> (r matches Err(e) && e is InvalidArgument && e.message()
            == "channel count exceeds Int32 range"@),
        channels <= i32::MAX && bit_depth > i32::MAX ==> (r matches Err(e) && e
            is InvalidArgument && e.message() == "bit depth exceeds Int32 range"@),
        channels <= i32::MAX && bit_depth <= i32::MAX ==> r == Ok::<(i32, i32), AVAudioError>(
            (channels as i32, bit_depth as i32),
        ),
{
    let channels = to_i32_or(channels as usize, "channel count exceeds Int32 range")?;
    let bit_depth = to_i32_or(bit_depth as usize, "bit depth exceeds Int32 range")?;
    Ok((channels, bit_depth))
}

} // verus!
