//! Constants and small pure rules of the audio backend's interface.

use vstd::prelude::*;
use crate::device::Device;

verus! {

/// Sample format: one channel, 16 bit.
pub const AL_FORMAT_MONO16: i32 = 0x1101;
/// Sample format: two channels, 16 bit.
pub const AL_FORMAT_STEREO16: i32 = 0x1103;
/// Sample format: four channels, 16 bit.
pub const AL_FORMAT_QUAD16: i32 = 0x1205;
/// Sample format: 5.1 channels, 16 bit.
pub const AL_FORMAT_51CHN16: i32 = 0x120B;
/// Sample format: 6.1 channels, 16 bit.
pub const AL_FORMAT_61CHN16: i32 = 0x120E;
/// Sample format: 7.1 channels, 16 bit.
pub const AL_FORMAT_71CHN16: i32 = 0x1211;

/// No error is pending.
pub const AL_NO_ERROR: i32 = 0;
/// A name (a voice or buffer identifier) was not valid.
pub const AL_INVALID_NAME: i32 = 0xA001;
/// An enumeration value was not valid.
pub const AL_INVALID_ENUM: i32 = 0xA002;
/// A value was out of range.
pub const AL_INVALID_VALUE: i32 = 0xA003;
/// The operation is not legal in the current state.
pub const AL_INVALID_OPERATION: i32 = 0xA004;
/// The backend ran out of memory or of identifiers.
pub const AL_OUT_OF_MEMORY: i32 = 0xA005;

/// Sample rate of the capture device, in Hz.
pub const CAPTURE_SAMPLE_RATE: i32 = 44100;

/// An open output or capture device, by its handle. Handle 0 is no device.
#[derive(Clone, Copy, PartialEq, Eq, Debug, Structural)]
pub struct ALCdevice {
    /// The handle.
    pub handle: usize,
}

/// A playback context, by its handle. Handle 0 is no context.
#[derive(Clone, Copy, PartialEq, Eq, Debug, Structural)]
pub struct ALCcontext {
    /// The handle.
    pub handle: usize,
}

/// The backend format for a channel count, if there is one.
pub open spec fn channels_format(channels: i32) -> Option<i32> {
    if channels == 1 {
        Some(AL_FORMAT_MONO16)
    } else if channels == 2 {
        Some(AL_FORMAT_STEREO16)
    } else if channels == 4 {
        Some(AL_FORMAT_QUAD16)
    } else if channels == 5 {
        Some(AL_FORMAT_51CHN16)
    } else if channels == 6 {
        Some(AL_FORMAT_61CHN16)
    } else if channels == 7 {
        Some(AL_FORMAT_71CHN16)
    } else {
        None
    }
}

/// Whether a channel count has a backend format.
pub open spec fn supported_channels(channels: i32) -> bool {
    channels == 1 || channels == 2 || channels == 4 || channels == 5 || channels == 6
        || channels == 7
}

/// Maps a channel count to the 16-bit backend format that carries it.
pub fn get_channels_format(channels: i32) -> (format: Option<i32>)
    ensures
        format == channels_format(channels),
        format.is_some() <==> supported_channels(channels),
{
    match channels {
        1 => Some(AL_FORMAT_MONO16),
        2 => Some(AL_FORMAT_STEREO16),
        4 => Some(AL_FORMAT_QUAD16),
        5 => Some(AL_FORMAT_51CHN16),
        6 => Some(AL_FORMAT_61CHN16),
        7 => Some(AL_FORMAT_71CHN16),
        _ => None,
    }
}

/// The text that describes a backend error code; none for "no error".
pub open spec fn error_text(code: i32) -> Option<Seq<char>> {
    if code == AL_NO_ERROR {
        None
    } else if code == AL_INVALID_NAME {
        Some("OpenAL error : Invalid name paramater passed to AL call."@)
    } else if code == AL_INVALID_ENUM {
        Some("OpenAL error : Invalid enum parameter passed to AL call."@)
    } else if code == AL_INVALID_VALUE {
        Some("OpenAL error : Invalid value parameter passed to AL call."@)
    } else if code == AL_INVALID_OPERATION {
        Some("OpenAL error : Illegal AL call."@)
    } else if code == AL_OUT_OF_MEMORY {
        Some("OpenAL error : Not enough memory."@)
    } else {
        Some("OpenAL internal error : Unknow error."@)
    }
}

/// Describes a backend error code in words; `None` when the code says that
/// nothing went wrong.
pub fn error_message(code: i32) -> (message: Option<String>)
    ensures
        match message {
            Some(text) => error_text(code) == Some(text@),
            None => error_text(code).is_none(),
        },
{
    if code == AL_NO_ERROR {
        None
    } else if code == AL_INVALID_NAME {
        Some("OpenAL error : Invalid name paramater passed to AL call.".to_owned())
    } else if code == AL_INVALID_ENUM {
        Some("OpenAL error : Invalid enum parameter passed to AL call.".to_owned())
    } else if code == AL_INVALID_VALUE {
        Some("OpenAL error : Invalid value parameter passed to AL call.".to_owned())
    } else if code == AL_INVALID_OPERATION {
        Some("OpenAL error : Illegal AL call.".to_owned())
    } else if code == AL_OUT_OF_MEMORY {
        Some("OpenAL error : Not enough memory.".to_owned())
    } else {
        Some("OpenAL internal error : Unknow error.".to_owned())
    }
}

/// Reads the pending error of the device, which clears it, and describes
/// it in words; `None` when nothing went wrong.
pub fn openal_has_error(dev: &mut Device) -> (message: Option<String>)
    ensures
        final(dev)@ == old(dev)@.clear_error(),
        match message {
            Some(text) => error_text(old(dev)@.error) == Some(text@),
            None => old(dev)@.error == AL_NO_ERROR,
        },
{
    error_message(dev.get_error())
}

} // verus!
