//! The preloaded sample store: a whole file decoded once into one buffer
//! that any number of sounds can share.

use vstd::prelude::*;
use crate::audio_tags::{get_sound_tags, tags_of, AudioTags, Tags};
use crate::device::{Device, DeviceModel};
use crate::internal::{ContextScope, OpenAlData};
use crate::openal::{channels_format, get_channels_format, AL_NO_ERROR};
use crate::sndfile::{SndFile, SndFileModel, SndInfo};

verus! {

/// A share of a buffer that holds a whole decoded file. Each value is one
/// holder of the buffer; the buffer is deleted when the last holder lets
/// go of it.
pub struct SoundData {
    sound_tags: Tags,
    snd_info: SndInfo,
    nb_sample: i64,
    al_buffer: u32,
}

impl SoundData {
    /// The buffer that holds the samples.
    pub closed spec fn buffer(&self) -> u32 {
        self.al_buffer
    }

    /// The format description of the decoded file.
    pub closed spec fn info(&self) -> SndInfo {
        self.snd_info
    }

    /// How many samples the file has.
    pub closed spec fn samples(&self) -> i64 {
        self.nb_sample
    }

    /// The device after the samples of a file went into a new buffer.
    pub open spec fn uploaded(dev: DeviceModel, file: SndFileModel, format: i32) -> DeviceModel {
        dev.gen_buffer().buffer_data(
            dev.next_buffer(),
            format,
            file.chunk((file.info.channels * file.info.frames) as i64),
            file.info.samplerate,
        )
    }

    /// Whether a file loads on `dev`: its channel count has a format, its
    /// sample count fits, and the backend reports no error after the
    /// upload.
    pub open spec fn loads(dev: DeviceModel, file: SndFileModel) -> bool {
        &&& channels_format(file.info.channels).is_some()
        &&& file.info.channels * file.info.frames <= i64::MAX
        &&& Self::uploaded(dev, file, channels_format(file.info.channels).unwrap()).error
            == AL_NO_ERROR
    }

    /// The device after an attempt to load a file: on success with the new
    /// buffer; on a backend error with the error read and the new buffer
    /// deleted again; otherwise as it was.
    pub open spec fn load_device(dev: DeviceModel, file: SndFileModel) -> DeviceModel {
        if channels_format(file.info.channels).is_none() || file.info.channels * file.info.frames
            > i64::MAX {
            dev
        } else {
            let up = Self::uploaded(dev, file, channels_format(file.info.channels).unwrap());
            if up.error == AL_NO_ERROR {
                up
            } else if dev.next_buffer() != 0 {
                up.clear_error().release_buffer(dev.next_buffer())
            } else {
                up.clear_error()
            }
        }
    }

    /// Decodes an opened file whole into one new buffer. Nothing is made,
    /// and nothing stays behind on the device, when there is no context,
    /// the file could not be opened, its channel count has no format, or
    /// the backend reports an error.
    pub fn new(scope: &mut ContextScope, dev: &mut Device, file: Result<SndFile, String>) -> (data:
        Option<SoundData>)
        requires
            file is Ok ==> file->Ok_0.wf(),
        ensures
            ({
                let c = OpenAlData::checked(*old(scope), old(dev)@);
                &&& *final(scope) == c.scope
                &&& final(dev)@ == (if c.result.is_ok() && file is Ok {
                    Self::load_device(c.device, file->Ok_0@)
                } else {
                    c.device
                })
                &&& data.is_some() <==> (c.result.is_ok() && file is Ok && Self::loads(
                    c.device,
                    file->Ok_0@,
                ))
                &&& match data {
                    Some(d) => {
                        &&& d.buffer() == c.device.next_buffer()
                        &&& d.info() == file->Ok_0@.info
                        &&& d.samples() == file->Ok_0@.info.channels * file->Ok_0@.info.frames
                        &&& tags_of(d.tags(), &file->Ok_0)
                    },
                    None => true,
                }
            }),
    {
        match OpenAlData::check_al_context(scope, dev) {
            Ok(_) => {},
            Err(_) => {
                return None;
            },
        }
        let mut file = match file {
            Ok(f) => f,
            Err(_) => {
                return None;
            },
        };
        let infos = file.get_sndinfo();
        let format = match get_channels_format(infos.channels) {
            Some(fmt) => fmt,
            None => {
                return None;
            },
        };
        let nb_sample = match (infos.channels as i64).checked_mul(infos.frames) {
            Some(n) => n,
            None => {
                proof {
                    file.lemma_wf();
                }
                return None;
            },
        };
        let sound_tags = get_sound_tags(&file);
        let samples = file.read_i16(nb_sample);
        let buffer_id = dev.gen_buffer();
        dev.buffer_data(buffer_id, format, samples, infos.samplerate);
        if dev.get_error() != AL_NO_ERROR {
            if buffer_id != 0 {
                dev.release_buffer(buffer_id);
            }
            return None;
        }
        Some(SoundData { sound_tags, snd_info: infos, nb_sample, al_buffer: buffer_id })
    }

    /// The format description of the decoded file.
    pub fn get_sndinfo(&self) -> (info: SndInfo)
        ensures
            info == self.info(),
    {
        self.snd_info
    }

    /// The buffer that holds the samples.
    pub fn get_buffer(&self) -> (buffer: u32)
        ensures
            buffer == self.buffer(),
    {
        self.al_buffer
    }

    /// How many samples the file has.
    pub fn get_nb_sample(&self) -> (count: i64)
        ensures
            count == self.samples(),
    {
        self.nb_sample
    }

    /// Another share of the same buffer, for another holder. `None`, with
    /// the device unchanged, when the buffer is gone or cannot take
    /// another holder.
    pub fn share(&self, dev: &mut Device) -> (other: Option<SoundData>)
        ensures
            other.is_some() <==> old(dev)@.can_retain(self.buffer()),
            final(dev)@ == old(dev)@.retain_buffer(self.buffer()),
            match other {
                Some(o) => o == *self,
                None => true,
            },
    {
        if dev.retain_buffer(self.al_buffer) {
            Some(
                SoundData {
                    sound_tags: self.sound_tags.copy(),
                    snd_info: self.snd_info,
                    nb_sample: self.nb_sample,
                    al_buffer: self.al_buffer,
                },
            )
        } else {
            None
        }
    }

    /// Lets go of this share; the last holder's release deletes the
    /// buffer.
    pub fn release(self, dev: &mut Device)
        ensures
            final(dev)@ == old(dev)@.release_buffer(self.buffer()),
    {
        dev.release_buffer(self.al_buffer);
    }
}

impl AudioTags for SoundData {
    closed spec fn tags(&self) -> Tags {
        self.sound_tags
    }

    fn get_tags(&self) -> (tags: Tags) {
        self.sound_tags.copy()
    }
}

/// Where a file does not load, the attempt leaves nothing behind: every
/// buffer that is live afterwards was live before, and no voice changed.
pub proof fn lemma_failed_load_leaves_nothing(dev: DeviceModel, file: SndFileModel)
    requires
        !SoundData::loads(dev, file),
    ensures
        forall|buffer: u32| #[trigger]
            SoundData::load_device(dev, file).has_buffer(buffer) ==> dev.has_buffer(buffer),
        SoundData::load_device(dev, file).voices == dev.voices,
{
}

/// A file loads exactly when the backend has a format for its channel
/// count, on a device that can still give out a buffer and has no error
/// pending.
pub proof fn lemma_load_needs_format(dev: DeviceModel, file: SndFileModel)
    requires
        dev.error == AL_NO_ERROR,
        dev.can_gen_buffer(),
        file.info.channels * file.info.frames <= i64::MAX,
    ensures
        SoundData::loads(dev, file) <==> crate::openal::supported_channels(file.info.channels),
{
}

/// A loaded file is in its buffer whole: the buffer holds the samples from
/// the read position of the file on, in the format of its channel count
/// and at its sample rate, for one holder.
pub proof fn lemma_loaded_whole(dev: DeviceModel, file: SndFileModel)
    requires
        SoundData::loads(dev, file),
        file.position <= file.samples.len(),
        file.samples.len() == file.info.frames * file.info.channels,
    ensures
        ({
            let d = SoundData::load_device(dev, file);
            let b = dev.next_buffer();
            &&& d.has_buffer(b)
            &&& !dev.has_buffer(b)
            &&& d.buffer(b).data == file.remaining()
            &&& d.buffer(b).format == channels_format(file.info.channels).unwrap()
            &&& d.buffer(b).rate == file.info.samplerate
            &&& d.buffer(b).holders == 1
        }),
{
    assert(file.info.frames * file.info.channels == file.info.channels * file.info.frames)
        by (nonlinear_arith);
}

} // verus!
