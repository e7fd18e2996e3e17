//! Audio playback layer: preloaded sounds that share their samples,
//! streamed music, and recording.
//!
//! The library decides and keeps the books; it touches no hardware. The
//! audio backend is a [`device::Device`]: a deterministic account of the
//! voices, buffers, context and capture device, which logs every request
//! as a command for a driver to perform and learns of what the hardware
//! did through explicit events. The decoder is a [`sndfile::SndFile`]: a
//! decoded file, read in chunks.
//!
//! Every operation on a sound or a music begins with the context check of
//! [`internal::OpenAlData`], in the scope of the caller.

pub mod audio_controller;
pub mod audio_tags;
pub mod device;
pub mod init;
pub mod internal;
pub mod music;
pub mod openal;
pub mod record_context;
pub mod recorder;
pub mod sndfile;
pub mod sound;
pub mod sound_data;
pub mod states;

pub use crate::audio_controller::AudioController;
pub use crate::audio_tags::{AudioTags, Tags};
pub use crate::init::{init, init_in};
pub use crate::music::Music;
pub use crate::record_context::RecordContext;
pub use crate::recorder::Recorder;
pub use crate::sound::Sound;
pub use crate::sound_data::SoundData;
pub use crate::states::State;
