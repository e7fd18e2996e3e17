//! Play music by streaming: the file is decoded chunk by chunk into two
//! buffers that take turns on the queue of one voice.
//!
//! `play` fills and queues both buffers and starts the voice. After that a
//! driver calls `tick` at a fixed interval: each tick refills the buffers
//! that the voice has finished, oldest first, and puts them back on the
//! queue; when the voice has stopped, the tick detaches the buffers and
//! streaming is over.
//!
//! The chunks come from the file that the music holds, or from the caller:
//! `play_with` takes the first two chunks, `chunks_due` says how many more
//! are wanted, and `refill` takes one. A caller that reads the file chunk
//! by chunk has only the chunks in flight in memory.

use vstd::prelude::*;
use crate::audio_controller::{after, pause_source, scope_after, set_source_looping,
    set_source_relative, source_looping, source_relative, source_state, stop_source,
    AudioController};
use crate::audio_tags::{get_sound_tags, tags_of, AudioTags, Tags};
use crate::device::{BufferModel, Command, Device, DeviceModel, VoiceModel};
use crate::internal::{ContextScope, OpenAlData};
use crate::openal::{channels_format, get_channels_format, AL_NO_ERROR};
use crate::sndfile::{SeekMode, SndFile, SndFileModel, SndInfo};
use crate::states::State;

verus! {

/// How many samples a chunk holds unless told otherwise.
pub const DEFAULT_CHUNK: i32 = 50000;

/// How long a driver waits between two ticks, and after stopping a voice
/// before its buffers are used again, in milliseconds.
pub const POLL_INTERVAL_MS: u64 = 50;

/// What a stream feeds and how.
pub struct Plan {
    /// The voice that plays.
    pub source: u32,
    /// The two buffers.
    pub first: u32,
    pub second: u32,
    /// The backend format of the samples.
    pub format: i32,
    /// Frames per second.
    pub rate: i32,
    /// Samples per chunk.
    pub chunk: i32,
}

/// The two things a stream changes: the device and the file being read.
pub struct Stream {
    pub device: DeviceModel,
    pub file: SndFileModel,
}

impl Plan {
    /// With the next chunk of the file uploaded into `buffer`.
    pub open spec fn filled(self, s: Stream, buffer: u32) -> Stream {
        Stream {
            device: s.device.buffer_data(
                buffer,
                self.format,
                s.file.chunk(self.chunk as i64),
                self.rate,
            ),
            file: s.file.read(self.chunk as i64),
        }
    }

    /// With both buffers filled, queued in that order, and the voice
    /// started.
    pub open spec fn started(self, s: Stream) -> Stream {
        let s2 = self.filled(self.filled(s, self.first), self.second);
        Stream {
            device: s2.device.queue_buffer(self.source, self.first).queue_buffer(
                self.source,
                self.second,
            ).play(self.source),
            file: s2.file,
        }
    }

    /// After a play request: a paused voice resumes in place; otherwise a
    /// playing voice is stopped, what an earlier run left on the voice is
    /// detached, the file is rewound, and streaming starts.
    pub open spec fn played(self, s: Stream) -> Stream {
        if s.device.state_of(self.source) == State::Paused {
            Stream { device: s.device.play(self.source), file: s.file }
        } else {
            let d1 = if s.device.state_of(self.source) == State::Playing {
                s.device.stop(self.source)
            } else {
                s.device
            };
            self.started(
                Stream {
                    device: d1.bind_buffer(self.source, 0),
                    file: s.file.seek(0, SeekMode::SeekSet),
                },
            )
        }
    }

    /// With the oldest processed buffer taken off the queue, filled with
    /// the next chunk and put back at the end of the queue.
    pub open spec fn refilled_one(self, s: Stream) -> Stream {
        let buffer = s.device.unqueue_result(self.source);
        let f = self.filled(
            Stream { device: s.device.unqueue_buffer(self.source), file: s.file },
            buffer,
        );
        Stream { device: f.device.queue_buffer(self.source, buffer), file: f.file }
    }

    /// The device with the oldest processed buffer taken off the queue,
    /// filled with `chunk` and put back at the end of the queue.
    pub open spec fn fed(self, dev: DeviceModel, chunk: Seq<i16>) -> DeviceModel {
        let buffer = dev.unqueue_result(self.source);
        dev.unqueue_buffer(self.source).buffer_data(
            buffer,
            self.format,
            chunk,
            self.rate,
        ).queue_buffer(self.source, buffer)
    }

    /// The device with `first` and `second` in the two buffers, both
    /// queued in that order, and the voice started.
    pub open spec fn started_with(self, dev: DeviceModel, first: Seq<i16>, second: Seq<i16>)
        -> DeviceModel {
        dev.buffer_data(self.first, self.format, first, self.rate).buffer_data(
            self.second,
            self.format,
            second,
            self.rate,
        ).queue_buffer(self.source, self.first).queue_buffer(self.source, self.second).play(
            self.source,
        )
    }

    /// The device after a play request that brings its first two chunks
    /// along: a paused voice resumes in place and the chunks are not used;
    /// otherwise a playing voice is stopped, what an earlier run left on
    /// the voice is detached, and streaming starts with the two chunks.
    pub open spec fn played_with(self, dev: DeviceModel, first: Seq<i16>, second: Seq<i16>)
        -> DeviceModel {
        if dev.state_of(self.source) == State::Paused {
            dev.play(self.source)
        } else {
            let stopped = if dev.state_of(self.source) == State::Playing {
                dev.stop(self.source)
            } else {
                dev
            };
            self.started_with(stopped.bind_buffer(self.source, 0), first, second)
        }
    }

    /// With `count` processed buffers refilled, one after the other.
    pub open spec fn refilled(self, s: Stream, count: nat) -> Stream
        decreases count,
    {
        if count == 0 {
            s
        } else {
            self.refilled(self.refilled_one(s), (count - 1) as nat)
        }
    }

    /// How many buffers a tick refills: every processed one while the
    /// voice plays, none otherwise.
    pub open spec fn due(self, dev: DeviceModel) -> nat {
        if dev.state_of(self.source) == State::Playing && dev.has_source(self.source) {
            dev.voice(self.source).processed
        } else {
            0
        }
    }

    /// Whether a tick ends streaming: the voice has stopped.
    pub open spec fn ends(self, s: Stream) -> bool {
        self.refilled(s, self.due(s.device)).device.state_of(self.source) == State::Stopped
    }

    /// After one tick of the refill loop: the processed buffers refilled
    /// in the order of the queue; then, if the voice has stopped, the
    /// buffers detached from it.
    pub open spec fn ticked(self, s: Stream) -> Stream {
        let r = self.refilled(s, self.due(s.device));
        if self.ends(s) {
            Stream { device: r.device.bind_buffer(self.source, 0), file: r.file }
        } else {
            r
        }
    }
}

/// A streamed music: one voice, two buffers and the file they are filled
/// from.
pub struct Music {
    al_source: u32,
    al_buffers: [u32; 2],
    file: SndFile,
    file_infos: SndInfo,
    sample_to_read: i32,
    sample_format: i32,
    sound_tags: Tags,
    streaming: bool,
}

/// The device after a failed attempt to make a music: the error read, and
/// whatever was created deleted again.
pub open spec fn cleaned(dev: DeviceModel, source: u32, first: u32, second: u32) -> DeviceModel {
    let d0 = dev.clear_error();
    let d1 = if second != 0 { d0.delete_buffer(second) } else { d0 };
    let d2 = if first != 0 { d1.delete_buffer(first) } else { d1 };
    let d3 = if source != 0 { d2.delete_source(source) } else { d2 };
    d3.clear_error()
}

impl Music {
    /// What the stream feeds and how.
    pub closed spec fn plan(&self) -> Plan {
        Plan {
            source: self.al_source,
            first: self.al_buffers@[0],
            second: self.al_buffers@[1],
            format: self.sample_format,
            rate: self.file_infos.samplerate,
            chunk: self.sample_to_read,
        }
    }

    /// The file the music is read from.
    pub closed spec fn file(&self) -> SndFileModel {
        self.file@
    }

    /// Whether the refill loop is to run.
    pub closed spec fn streaming(&self) -> bool {
        self.streaming
    }

    /// The format description of the file.
    pub closed spec fn info(&self) -> SndInfo {
        self.file_infos
    }

    /// The device with a new voice and two new buffers.
    pub open spec fn allocated(dev: DeviceModel) -> DeviceModel {
        dev.gen_source().gen_buffer().gen_buffer()
    }

    /// The voice that `allocated` creates.
    pub open spec fn new_source(dev: DeviceModel) -> u32 {
        dev.next_source()
    }

    /// The first buffer that `allocated` creates.
    pub open spec fn new_first(dev: DeviceModel) -> u32 {
        dev.gen_source().next_buffer()
    }

    /// The second buffer that `allocated` creates.
    pub open spec fn new_second(dev: DeviceModel) -> u32 {
        dev.gen_source().gen_buffer().next_buffer()
    }

    /// Whether a music can be made of a file on `dev`: the channel count
    /// has a format and the backend reports no error after the voice and
    /// the buffers were created.
    pub open spec fn makes(dev: DeviceModel, info: SndInfo) -> bool {
        channels_format(info.channels).is_some() && Self::allocated(dev).error == AL_NO_ERROR
    }

    /// The device after an attempt to make a music.
    pub open spec fn made_device(dev: DeviceModel, info: SndInfo) -> DeviceModel {
        if Self::makes(dev, info) {
            Self::allocated(dev)
        } else {
            cleaned(
                Self::allocated(dev),
                Self::new_source(dev),
                Self::new_first(dev),
                Self::new_second(dev),
            )
        }
    }

    /// Makes a music from an opened file, with one voice and two buffers.
    /// `None` where there is no context, the file could not be opened, its
    /// channel count has no format, or the backend reports an error; the
    /// voice and the buffers are then deleted again.
    pub fn new(scope: &mut ContextScope, dev: &mut Device, file: Result<SndFile, String>) -> (music:
        Option<Music>)
        requires
            file is Ok ==> file->Ok_0.wf(),
        ensures
            ({
                let c = OpenAlData::checked(*old(scope), old(dev)@);
                &&& *final(scope) == c.scope
                &&& final(dev)@ == (if c.result.is_ok() && file is Ok {
                    Self::made_device(c.device, file->Ok_0@.info)
                } else {
                    c.device
                })
                &&& music.is_some() <==> (c.result.is_ok() && file is Ok && Self::makes(
                    c.device,
                    file->Ok_0@.info,
                ))
                &&& match music {
                    Some(m) => {
                        &&& m.wf()
                        &&& m.plan() == (Plan {
                            source: Self::new_source(c.device),
                            first: Self::new_first(c.device),
                            second: Self::new_second(c.device),
                            format: channels_format(file->Ok_0@.info.channels).unwrap(),
                            rate: file->Ok_0@.info.samplerate,
                            chunk: DEFAULT_CHUNK,
                        })
                        &&& m.file() == file->Ok_0@
                        &&& m.info() == file->Ok_0@.info
                        &&& !m.streaming()
                        &&& tags_of(m.tags(), &file->Ok_0)
                    },
                    None => true,
                }
            }),
    {
        match OpenAlData::check_al_context(scope, dev) {
            Ok(_) => {},
            Err(_) => {
                return None;
            },
        }
        let file = match file {
            Ok(f) => f,
            Err(_) => {
                return None;
            },
        };
        let infos = file.get_sndinfo();
        let source_id = dev.gen_source();
        let first = dev.gen_buffer();
        let second = dev.gen_buffer();
        let format = get_channels_format(infos.channels);
        let error = dev.get_error();
        match format {
            Some(fmt) => {
                if error == AL_NO_ERROR {
                    let sound_tags = get_sound_tags(&file);
                    return Some(
                        Music {
                            al_source: source_id,
                            al_buffers: [first, second],
                            file,
                            file_infos: infos,
                            sample_to_read: DEFAULT_CHUNK,
                            sample_format: fmt,
                            sound_tags,
                            streaming: false,
                        },
                    );
                }
            },
            None => {},
        }
        if second != 0 {
            dev.delete_buffer(second);
        }
        if first != 0 {
            dev.delete_buffer(first);
        }
        if source_id != 0 {
            dev.delete_source(source_id);
        }
        let _ = dev.get_error();
        None
    }

    /// What `wf` says of the file of the music: whole frames of at least
    /// one channel, and a read position inside the samples.
    pub proof fn lemma_file_whole(&self)
        requires
            self.wf(),
        ensures
            self.file().info.channels >= 1,
            self.file().info.frames >= 0,
            self.file().samples.len() == self.file().info.frames * self.file().info.channels,
            self.file().position <= self.file().samples.len(),
    {
        self.file.lemma_wf();
    }

    /// How many samples a chunk holds.
    pub fn get_chunk_size(&self) -> (chunk: i32)
        ensures
            chunk == self.plan().chunk,
    {
        self.sample_to_read
    }

    /// Sets how many samples a chunk holds, from the next chunk on.
    pub fn set_chunk_size(&mut self, chunk: i32)
        requires
            old(self).wf(),
        ensures
            final(self).wf(),
            final(self).plan() == (Plan { chunk, ..old(self).plan() }),
            final(self).tags() == old(self).tags(),
            final(self).file() == old(self).file(),
            final(self).streaming() == old(self).streaming(),
            final(self).info() == old(self).info(),
    {
        self.sample_to_read = chunk;
    }

    /// Whether the refill loop is to run: a driver calls `tick` at every
    /// interval while this holds.
    pub fn is_streaming(&self) -> (streaming: bool)
        ensures
            streaming == self.streaming(),
    {
        self.streaming
    }

    fn fill(&mut self, dev: &mut Device, buffer: u32)
        requires
            old(self).wf(),
        ensures
            final(self).wf(),
            final(self).plan() == old(self).plan(),
            final(self).streaming() == old(self).streaming(),
            final(self).info() == old(self).info(),
            final(self).tags() == old(self).tags(),
            (Stream { device: final(dev)@, file: final(self).file() }) == old(self).plan().filled(
                Stream { device: old(dev)@, file: old(self).file() },
                buffer,
            ),
    {
        let samples = self.file.read_i16(self.sample_to_read as i64);
        dev.buffer_data(buffer, self.sample_format, samples, self.file_infos.samplerate);
    }

    fn process_music(&mut self, dev: &mut Device)
        requires
            old(self).wf(),
        ensures
            final(self).wf(),
            final(self).plan() == old(self).plan(),
            final(self).streaming(),
            final(self).info() == old(self).info(),
            final(self).tags() == old(self).tags(),
            (Stream { device: final(dev)@, file: final(self).file() }) == old(self).plan().started(
                Stream { device: old(dev)@, file: old(self).file() },
            ),
    {
        let first = self.al_buffers[0];
        let second = self.al_buffers[1];
        self.fill(dev, first);
        self.fill(dev, second);
        dev.queue_buffer(self.al_source, first);
        dev.queue_buffer(self.al_source, second);
        dev.source_play(self.al_source);
        self.streaming = true;
    }

    /// One tick of the refill loop. While the voice plays, every buffer it
    /// has finished is taken off the queue, oldest first, filled with the
    /// next chunk of the file and put back at the end of the queue. If the
    /// voice has stopped, the buffers are detached from it and streaming is
    /// over. Says whether the loop goes on. Without a context, or when not
    /// streaming, nothing happens.
    pub fn tick(&mut self, scope: &mut ContextScope, dev: &mut Device) -> (goes_on: bool)
        requires
            old(self).wf(),
        ensures
            final(self).wf(),
            final(self).plan() == old(self).plan(),
            final(self).info() == old(self).info(),
            final(self).tags() == old(self).tags(),
            *final(scope) == scope_after(*old(scope), old(dev)@),
            ({
                let c = OpenAlData::checked(*old(scope), old(dev)@);
                let s = Stream { device: c.device, file: old(self).file() };
                if c.result.is_ok() && old(self).streaming() {
                    &&& (Stream { device: final(dev)@, file: final(self).file() })
                        == old(self).plan().ticked(s)
                    &&& goes_on == !old(self).plan().ends(s)
                    &&& final(self).streaming() == goes_on
                } else {
                    &&& final(dev)@ == c.device
                    &&& final(self).file() == old(self).file()
                    &&& final(self).streaming() == old(self).streaming()
                    &&& !goes_on
                }
            }),
    {
        if !OpenAlData::check_al_context(scope, dev).is_ok() || !self.streaming {
            return false;
        }
        let ghost plan = self.plan();
        let ghost start = Stream { device: dev@, file: self.file() };
        let due: usize = if dev.source_state(self.al_source) == State::Playing {
            dev.buffers_processed(self.al_source)
        } else {
            0
        };
        let mut done: usize = 0;
        while done < due
            invariant
                done <= due,
                self.wf(),
                self.plan() == plan,
                self.streaming(),
                self.info() == old(self).info(),
                self.tags() == old(self).tags(),
                plan.refilled(start, due as nat) == plan.refilled(
                    Stream { device: dev@, file: self.file() },
                    (due - done) as nat,
                ),
            decreases due - done,
        {
            let buffer = dev.unqueue_buffer(self.al_source);
            self.fill(dev, buffer);
            dev.queue_buffer(self.al_source, buffer);
            done = done + 1;
        }
        if dev.source_state(self.al_source) == State::Stopped {
            dev.bind_buffer(self.al_source, 0);
            self.streaming = false;
            false
        } else {
            true
        }
    }

    /// How many chunks the music is due: one for every buffer that the
    /// voice has finished, while it plays and streaming is on; none
    /// otherwise, and none without a context.
    pub fn chunks_due(&self, scope: &mut ContextScope, dev: &mut Device) -> (count: usize)
        ensures
            *final(scope) == scope_after(*old(scope), old(dev)@),
            final(dev)@ == OpenAlData::checked(*old(scope), old(dev)@).device,
            count == (if OpenAlData::checked(*old(scope), old(dev)@).result.is_ok()
                && self.streaming() {
                self.plan().due(final(dev)@)
            } else {
                0
            }),
    {
        if !OpenAlData::check_al_context(scope, dev).is_ok() || !self.streaming {
            return 0;
        }
        if dev.source_state(self.al_source) == State::Playing {
            dev.buffers_processed(self.al_source)
        } else {
            0
        }
    }

    /// Refills one buffer with a chunk that the caller has read: the
    /// oldest buffer that the voice has finished is taken off the queue,
    /// filled with `chunk` and put back at the end of the queue. Says
    /// whether that was done: nothing happens unless a chunk is due. The
    /// file of the music is not read.
    pub fn refill(&mut self, scope: &mut ContextScope, dev: &mut Device, chunk: Vec<i16>) -> (done:
        bool)
        ensures
            *final(self) == *old(self),
            *final(scope) == scope_after(*old(scope), old(dev)@),
            ({
                let c = OpenAlData::checked(*old(scope), old(dev)@);
                &&& done == (c.result.is_ok() && old(self).streaming() && old(self).plan().due(
                    c.device,
                ) > 0)
                &&& final(dev)@ == (if done {
                    old(self).plan().fed(c.device, chunk@)
                } else {
                    c.device
                })
            }),
    {
        if self.chunks_due(scope, dev) == 0 {
            return false;
        }
        let buffer = dev.unqueue_buffer(self.al_source);
        dev.buffer_data(buffer, self.sample_format, chunk, self.file_infos.samplerate);
        dev.queue_buffer(self.al_source, buffer);
        true
    }

    /// Plays the music with chunks that the caller has read. A paused
    /// music resumes in place and the chunks are not used. Otherwise a
    /// playing voice is stopped, and streaming starts with `first` and
    /// `second` in the two buffers; the caller then feeds the music with
    /// `chunks_due` and `refill`, and calls `tick` to end streaming once
    /// the voice has stopped. The file of the music is not read.
    pub fn play_with(
        &mut self,
        scope: &mut ContextScope,
        dev: &mut Device,
        first: Vec<i16>,
        second: Vec<i16>,
    )
        ensures
            final(self).plan() == old(self).plan(),
            final(self).info() == old(self).info(),
            final(self).tags() == old(self).tags(),
            final(self).file() == old(self).file(),
            final(self).wf() == old(self).wf(),
            *final(scope) == scope_after(*old(scope), old(dev)@),
            ({
                let c = OpenAlData::checked(*old(scope), old(dev)@);
                if c.result.is_ok() {
                    &&& final(dev)@ == old(self).plan().played_with(c.device, first@, second@)
                    &&& final(self).streaming() == (old(self).streaming() || c.device.state_of(
                        old(self).source(),
                    ) != State::Paused)
                } else {
                    &&& final(dev)@ == c.device
                    &&& final(self).streaming() == old(self).streaming()
                }
            }),
    {
        if !OpenAlData::check_al_context(scope, dev).is_ok() {
            return ;
        }
        match dev.source_state(self.al_source) {
            State::Paused => {
                dev.source_play(self.al_source);
            },
            state => {
                match state {
                    State::Playing => {
                        dev.source_stop(self.al_source);
                    },
                    _ => {},
                }
                dev.bind_buffer(self.al_source, 0);
                let rate = self.file_infos.samplerate;
                dev.buffer_data(self.al_buffers[0], self.sample_format, first, rate);
                dev.buffer_data(self.al_buffers[1], self.sample_format, second, rate);
                dev.queue_buffer(self.al_source, self.al_buffers[0]);
                dev.queue_buffer(self.al_source, self.al_buffers[1]);
                dev.source_play(self.al_source);
                self.streaming = true;
            },
        }
    }

    /// Ends the music: deletes its voice and its buffers.
    pub fn release(self, dev: &mut Device)
        ensures
            final(dev)@ == old(dev)@.delete_source(self.plan().source).delete_buffer(
                self.plan().first,
            ).delete_buffer(self.plan().second),
    {
        dev.delete_source(self.al_source);
        dev.delete_buffer(self.al_buffers[0]);
        dev.delete_buffer(self.al_buffers[1]);
    }
}

impl AudioTags for Music {
    closed spec fn tags(&self) -> Tags {
        self.sound_tags
    }

    fn get_tags(&self) -> (tags: Tags) {
        self.sound_tags.copy()
    }
}

impl AudioController for Music {
    closed spec fn wf(&self) -> bool {
        self.file.wf()
    }

    open spec fn source(&self) -> u32 {
        self.plan().source
    }

    fn voice(&self) -> (id: u32) {
        self.al_source
    }

    open spec fn played_on(&self, dev: DeviceModel) -> DeviceModel {
        self.plan().played(Stream { device: dev, file: self.file() }).device
    }

    /// Resumes a paused music in place. Otherwise starts it from the
    /// beginning of the file: both buffers filled, queued and the voice
    /// started; the refill loop is then to run.
    fn play(&mut self, scope: &mut ContextScope, dev: &mut Device)
        ensures
            final(self).plan() == old(self).plan(),
            final(self).info() == old(self).info(),
            final(self).tags() == old(self).tags(),
            ({
                let c = OpenAlData::checked(*old(scope), old(dev)@);
                let s = Stream { device: c.device, file: old(self).file() };
                if c.result.is_ok() {
                    &&& (Stream { device: final(dev)@, file: final(self).file() })
                        == old(self).plan().played(s)
                    &&& final(self).streaming() == (old(self).streaming() || c.device.state_of(
                        old(self).source(),
                    ) != State::Paused)
                } else {
                    &&& final(dev)@ == c.device
                    &&& final(self).file() == old(self).file()
                    &&& final(self).streaming() == old(self).streaming()
                }
            }),
    {
        if !OpenAlData::check_al_context(scope, dev).is_ok() {
            return ;
        }
        match dev.source_state(self.al_source) {
            State::Paused => {
                dev.source_play(self.al_source);
            },
            state => {
                match state {
                    State::Playing => {
                        dev.source_stop(self.al_source);
                    },
                    _ => {},
                }
                dev.bind_buffer(self.al_source, 0);
                let _ = self.file.seek(0, SeekMode::SeekSet);
                self.process_music(dev);
            },
        }
    }

    fn pause(&mut self, scope: &mut ContextScope, dev: &mut Device) {
        pause_source(scope, dev, self.al_source);
    }

    fn stop(&mut self, scope: &mut ContextScope, dev: &mut Device) {
        stop_source(scope, dev, self.al_source);
    }

    fn is_playing(&self, scope: &mut ContextScope, dev: &mut Device) -> (playing: bool) {
        match self.get_state(scope, dev) {
            State::Playing => true,
            _ => false,
        }
    }

    fn get_state(&self, scope: &mut ContextScope, dev: &mut Device) -> (state: State) {
        source_state(scope, dev, self.al_source)
    }

    fn set_looping(&mut self, scope: &mut ContextScope, dev: &mut Device, looping: bool) {
        set_source_looping(scope, dev, self.al_source, looping);
    }

    fn is_looping(&self, scope: &mut ContextScope, dev: &mut Device) -> (looping: bool) {
        source_looping(scope, dev, self.al_source)
    }

    fn set_relative(&mut self, scope: &mut ContextScope, dev: &mut Device, relative: bool) {
        set_source_relative(scope, dev, self.al_source, relative);
    }

    fn is_relative(&self, scope: &mut ContextScope, dev: &mut Device) -> (relative: bool) {
        source_relative(scope, dev, self.al_source)
    }
}

impl Plan {
    /// The voice and both buffers of the plan are live on `dev`, and the
    /// buffers are two.
    pub open spec fn fits(self, dev: DeviceModel) -> bool {
        &&& dev.has_source(self.source)
        &&& dev.has_buffer(self.first)
        &&& dev.has_buffer(self.second)
        &&& self.first != self.second
    }
}

/// A music that was made fits the device: its voice is live and in its
/// initial state, with nothing bound or queued, and its two buffers are
/// live and are two.
pub proof fn lemma_new_music_fits(plan: Plan, dev: DeviceModel, info: SndInfo)
    requires
        Music::makes(dev, info),
        plan.source == Music::new_source(dev),
        plan.first == Music::new_first(dev),
        plan.second == Music::new_second(dev),
    ensures
        plan.fits(Music::made_device(dev, info)),
        Music::made_device(dev, info).state_of(plan.source) == State::Initial,
        !Music::made_device(dev, info).voice(plan.source).has_audio(),
        !dev.has_source(plan.source),
        !dev.has_buffer(plan.first),
        !dev.has_buffer(plan.second),
{
}

/// With a context, a music that fits the device plays after a play
/// request, whatever its state was, and the refill loop is then to run
/// unless the music was paused and not streaming. The buffers stay live.
pub proof fn lemma_play_music(music: Music, scope: ContextScope, dev: DeviceModel)
    requires
        dev.current != 0 || scope.data.is_some(),
        music.wf(),
        music.plan().fits(dev),
    ensures
        ({
            let d = after(scope, dev, |x: DeviceModel| music.played_on(x));
            &&& d.state_of(music.source()) == State::Playing
            &&& music.plan().fits(d)
        }),
{
    music.lemma_file_whole();
    let s = Stream { device: dev, file: music.file() };
    if dev.state_of(music.plan().source) != State::Paused {
        lemma_play_starts(music.plan(), s);
    }
}

/// With a context, a tick on a music whose voice has stopped, by request
/// or because the stream ran out, ends streaming and leaves nothing on the
/// voice: no buffer bound, none queued. The tick deletes no buffer and
/// reads nothing from the file.
pub proof fn lemma_tick_detaches(plan: Plan, s: Stream)
    requires
        plan.fits(s.device),
        s.device.state_of(plan.source) == State::Stopped,
    ensures
        plan.ends(s),
        plan.ticked(s).file == s.file,
        plan.ticked(s).device.has_source(plan.source),
        !plan.ticked(s).device.voice(plan.source).has_audio(),
        plan.ticked(s).device.voice(plan.source).queue.len() == 0,
        plan.ticked(s).device.state_of(plan.source) == State::Stopped,
        plan.ticked(s).device.buffers == s.device.buffers,
        plan.fits(plan.ticked(s).device),
{
}

/// A music that is not paused plays after a play request, with its two
/// buffers on the queue in their order, none of them processed, and the
/// first two chunks of the file in them.
pub proof fn lemma_play_starts(plan: Plan, s: Stream)
    requires
        plan.fits(s.device),
        s.device.state_of(plan.source) != State::Paused,
        s.file.info.frames >= 0,
    ensures
        ({
            let p = plan.played(s);
            let rewound = s.file.seek(0, SeekMode::SeekSet);
            &&& plan.fits(p.device)
            &&& p.device.state_of(plan.source) == State::Playing
            &&& p.device.voice(plan.source).queue == seq![plan.first, plan.second]
            &&& p.device.voice(plan.source).processed == 0
            &&& p.device.voice(plan.source).bound == 0
            &&& rewound.position == 0
            &&& p.device.buffer(plan.first).data == rewound.chunk(plan.chunk as i64)
            &&& p.device.buffer(plan.second).data == rewound.read(plan.chunk as i64).chunk(
                plan.chunk as i64,
            )
            &&& p.file == rewound.read(plan.chunk as i64).read(plan.chunk as i64)
        }),
{
    let n = plan.chunk as i64;
    let rewound = s.file.seek(0, SeekMode::SeekSet);
    assert(0 * (s.file.info.channels as int) == 0);
    assert(rewound.position == 0);
    let d1 = if s.device.state_of(plan.source) == State::Playing {
        s.device.stop(plan.source)
    } else {
        s.device
    };
    assert(d1.has_source(plan.source) && !d1.voice(plan.source).active());
    let d2 = d1.bind_buffer(plan.source, 0);
    assert(d2.voice(plan.source) == d1.voice(plan.source).bound_to(0));
    assert(d2.buffers == s.device.buffers);
    let f1 = plan.filled(Stream { device: d2, file: rewound }, plan.first);
    assert(f1.device.has_buffer(plan.first) && f1.device.has_buffer(plan.second));
    assert(f1.device.buffer(plan.first).data == rewound.chunk(n));
    let f2 = plan.filled(f1, plan.second);
    assert(f2.device.has_buffer(plan.first) && f2.device.has_buffer(plan.second));
    assert(f2.device.buffer(plan.first).data == rewound.chunk(n));
    assert(f2.device.buffer(plan.second).data == rewound.read(n).chunk(n));
    assert(f2.device.voice(plan.source) == d2.voice(plan.source));
    let q1 = f2.device.queue_buffer(plan.source, plan.first);
    assert(q1.voice(plan.source) == d2.voice(plan.source).queued(plan.first));
    let q2 = q1.queue_buffer(plan.source, plan.second);
    assert(q2.voice(plan.source) == q1.voice(plan.source).queued(plan.second));
    assert(q2.voice(plan.source).queue =~= seq![plan.first, plan.second]);
    assert(q2.buffers == f2.device.buffers);
    let p = plan.played(s);
    assert(p.device == q2.play(plan.source));
    assert(p.device.voice(plan.source) == q2.voice(plan.source).played());
    assert(p.file == f2.file);
}

/// A paused music plays again after a play request, at the place where it
/// was paused: the file, the queue and the buffers are as before.
pub proof fn lemma_play_resumes_stream(plan: Plan, s: Stream)
    requires
        s.device.has_source(plan.source),
        s.device.state_of(plan.source) == State::Paused,
    ensures
        plan.played(s).file == s.file,
        plan.played(s).device.state_of(plan.source) == State::Playing,
        plan.played(s).device.voice(plan.source).queue == s.device.voice(plan.source).queue,
        plan.played(s).device.voice(plan.source).processed == s.device.voice(
            plan.source,
        ).processed,
        plan.played(s).device.buffers == s.device.buffers,
{
}

/// A file shorter than two chunks is used up by the start of streaming.
/// The voice then stops on its own once the hardware has played both
/// buffers, and the next tick detaches the buffers and ends streaming: no
/// buffer stays on the voice.
pub proof fn lemma_short_stream_ends(plan: Plan, s: Stream)
    requires
        plan.fits(s.device),
        s.device.state_of(plan.source) != State::Paused,
        s.file.info.frames >= 0,
        plan.chunk > 0,
        s.file.samples.len() < 2 * plan.chunk,
    ensures
        ({
            let p = plan.played(s);
            let q = p.device.advance(plan.source).advance(plan.source);
            let t = plan.ticked(Stream { device: q, file: p.file });
            &&& p.file.position == p.file.samples.len()
            &&& p.device.state_of(plan.source) == State::Playing
            &&& p.device.advance(plan.source).state_of(plan.source) == State::Playing
            &&& q.state_of(plan.source) == State::Stopped
            &&& plan.ends(Stream { device: q, file: p.file })
            &&& t.device.state_of(plan.source) == State::Stopped
            &&& !t.device.voice(plan.source).has_audio()
        }),
{
    lemma_play_starts(plan, s);
}

/// The queue with its first `count` buffers moved to the end, in order.
pub open spec fn rotated(queue: Seq<u32>, count: nat) -> Seq<u32>
    recommends
        count <= queue.len(),
{
    queue.subrange(count as int, queue.len() as int) + queue.subrange(0, count as int)
}

/// Whether refilling can go ahead on the voice of the plan: the voice is
/// live with a queue and at least `count` processed buffers, and every
/// buffer on the queue is live.
pub open spec fn refillable(plan: Plan, dev: DeviceModel, count: nat) -> bool {
    &&& dev.has_source(plan.source)
    &&& dev.voice(plan.source).bound == 0
    &&& count <= dev.voice(plan.source).processed <= dev.voice(plan.source).queue.len()
    &&& forall|i: int|
        0 <= i < dev.voice(plan.source).queue.len() ==> dev.has_buffer(
            #[trigger] dev.voice(plan.source).queue[i],
        )
}

/// Reading the chunks from the file of the music and bringing them along
/// come to the same: a refill from the file is a refill with the next
/// chunk of the file, and a play request that reads the file is a play
/// request with the first two chunks of the rewound file.
pub proof fn lemma_file_is_fed(plan: Plan, s: Stream)
    ensures
        plan.refilled_one(s) == (Stream {
            device: plan.fed(s.device, s.file.chunk(plan.chunk as i64)),
            file: s.file.read(plan.chunk as i64),
        }),
        plan.played(s).device == plan.played_with(
            s.device,
            s.file.seek(0, SeekMode::SeekSet).chunk(plan.chunk as i64),
            s.file.seek(0, SeekMode::SeekSet).read(plan.chunk as i64).chunk(plan.chunk as i64),
        ),
{
}

/// Once every chunk that was due has been brought along, a tick reads
/// nothing from the file: it only ends streaming, detaching the buffers, if
/// the voice has stopped.
pub proof fn lemma_tick_after_feeding(plan: Plan, s: Stream)
    requires
        plan.due(s.device) == 0,
    ensures
        plan.ticked(s).file == s.file,
        plan.ends(s) == (s.device.state_of(plan.source) == State::Stopped),
        plan.ticked(s).device == (if s.device.state_of(plan.source) == State::Stopped {
            s.device.bind_buffer(plan.source, 0)
        } else {
            s.device
        }),
{
}

/// A chunk that is brought along goes where the next chunk of the file
/// would have gone: into the oldest processed buffer, which moves to the
/// end of the queue. No other buffer and nothing else about the voice
/// changes, and one chunk fewer is due.
pub proof fn lemma_fed(plan: Plan, dev: DeviceModel, chunk: Seq<i16>)
    requires
        refillable(plan, dev, 1),
    ensures
        ({
            let v = dev.voice(plan.source);
            let head = v.queue[0];
            let after = plan.fed(dev, chunk);
            &&& after.has_source(plan.source)
            &&& after.voice(plan.source) == (VoiceModel {
                queue: v.queue.subrange(1, v.queue.len() as int).push(head),
                processed: (v.processed - 1) as nat,
                ..v
            })
            &&& after.buffers == dev.buffers.update(
                head - 1,
                BufferModel { format: plan.format, rate: plan.rate, data: chunk, ..dev.buffer(head) },
            )
            &&& plan.due(after) == plan.due(dev) - (if dev.state_of(plan.source)
                == State::Playing {
                1nat
            } else {
                0nat
            })
        }),
{
    let v = dev.voice(plan.source);
    assert(dev.has_buffer(v.queue[0]));
    assert(plan.fed(dev, chunk).voice(plan.source).queue =~= v.queue.subrange(
        1,
        v.queue.len() as int,
    ).push(v.queue[0]));
}

/// One refill takes the oldest buffer off the queue, uploads the next
/// chunk of the file into it and puts it at the end of the queue; no other
/// buffer and nothing else about the voice changes, and refilling can go
/// on.
pub proof fn lemma_refilled_one(plan: Plan, s: Stream, count: nat)
    requires
        refillable(plan, s.device, count),
        count > 0,
    ensures
        ({
            let one = plan.refilled_one(s);
            let v = s.device.voice(plan.source);
            let head = v.queue[0];
            &&& refillable(plan, one.device, (count - 1) as nat)
            &&& one.device.voice(plan.source) == (VoiceModel {
                queue: v.queue.subrange(1, v.queue.len() as int).push(head),
                processed: (v.processed - 1) as nat,
                ..v
            })
            &&& one.device.voices.len() == s.device.voices.len()
            &&& s.device.has_buffer(head)
            &&& one.device.buffers == s.device.buffers.update(
                head - 1,
                BufferModel {
                    format: plan.format,
                    rate: plan.rate,
                    data: s.file.chunk(plan.chunk as i64),
                    ..s.device.buffer(head)
                },
            )
            &&& one.file == s.file.read(plan.chunk as i64)
        }),
{
    let one = plan.refilled_one(s);
    let v = s.device.voice(plan.source);
    let head = v.queue[0];
    let w = one.device.voice(plan.source);
    assert(s.device.has_buffer(head));
    assert(w.queue =~= v.queue.subrange(1, v.queue.len() as int).push(head));
    assert forall|i: int| 0 <= i < w.queue.len() implies one.device.has_buffer(
        #[trigger] w.queue[i],
    ) by {
        if i < w.queue.len() - 1 {
            assert(w.queue[i] == v.queue[i + 1]);
            assert(s.device.has_buffer(v.queue[i + 1]));
        } else {
            assert(w.queue[i] == head);
        }
    }
}

/// Refilled buffers go back on the queue in the order in which they came
/// off it: after `count` refills the queue is the old queue with its first
/// `count` buffers moved to the end, in order. Nothing else about the voice
/// changes but the count of processed buffers.
pub proof fn lemma_refill_keeps_order(plan: Plan, s: Stream, count: nat)
    requires
        refillable(plan, s.device, count),
    ensures
        ({
            let r = plan.refilled(s, count);
            let v = s.device.voice(plan.source);
            &&& r.device.has_source(plan.source)
            &&& r.device.voice(plan.source) == (VoiceModel {
                queue: rotated(v.queue, count),
                processed: (v.processed - count) as nat,
                ..v
            })
            &&& r.device.voices.len() == s.device.voices.len()
            &&& r.device.buffers.len() == s.device.buffers.len()
        }),
    decreases count,
{
    let v = s.device.voice(plan.source);
    if count == 0 {
        assert(rotated(v.queue, 0) =~= v.queue);
    } else {
        let one = plan.refilled_one(s);
        lemma_refilled_one(plan, s, count);
        lemma_refill_keeps_order(plan, one, (count - 1) as nat);
        assert(rotated(one.device.voice(plan.source).queue, (count - 1) as nat) =~= rotated(
            v.queue,
            count,
        ));
    }
}

/// Refilling deletes nothing: a buffer that is live stays live through any
/// number of refills.
pub proof fn lemma_refill_keeps_live(plan: Plan, s: Stream, count: nat, buffer: u32)
    requires
        refillable(plan, s.device, count),
        s.device.has_buffer(buffer),
    ensures
        plan.refilled(s, count).device.has_buffer(buffer),
    decreases count,
{
    if count > 0 {
        lemma_refilled_one(plan, s, count);
        lemma_refill_keeps_live(plan, plan.refilled_one(s), (count - 1) as nat, buffer);
    }
}

/// A music that fits the device still fits it after a tick, whether the
/// tick refills, detaches or does nothing: the voice and both buffers stay
/// live.
pub proof fn lemma_tick_keeps_fit(plan: Plan, s: Stream)
    requires
        plan.fits(s.device),
        refillable(plan, s.device, plan.due(s.device)),
    ensures
        plan.fits(plan.ticked(s).device),
{
    let due = plan.due(s.device);
    lemma_refill_keeps_order(plan, s, due);
    lemma_refill_keeps_live(plan, s, due, plan.first);
    lemma_refill_keeps_live(plan, s, due, plan.second);
}

/// The commands of refilling `buffers`, one after the other: each in turn
/// is taken off the queue, filled, and put back on the queue.
pub open spec fn refill_commands(plan: Plan, buffers: Seq<u32>) -> Seq<Command>
    decreases buffers.len(),
{
    if buffers.len() == 0 {
        Seq::empty()
    } else {
        seq![
            Command::UnqueueBuffer { source: plan.source },
            Command::BufferData { buffer: buffers[0], format: plan.format, rate: plan.rate },
            Command::QueueBuffer { source: plan.source, buffer: buffers[0] },
        ] + refill_commands(plan, buffers.subrange(1, buffers.len() as int))
    }
}

/// The buffers that a tick puts back on the queue are those it took off,
/// in the same order, each exactly once: the commands of `count` refills
/// are, for each of the first `count` buffers of the queue in turn, that
/// buffer taken off, filled, and put back.
pub proof fn lemma_refill_commands(plan: Plan, s: Stream, count: nat)
    requires
        refillable(plan, s.device, count),
    ensures
        plan.refilled(s, count).device.log == s.device.log + refill_commands(
            plan,
            s.device.voice(plan.source).queue.subrange(0, count as int),
        ),
    decreases count,
{
    let v = s.device.voice(plan.source);
    let taken = v.queue.subrange(0, count as int);
    if count == 0 {
        assert(s.device.log + Seq::<Command>::empty() =~= s.device.log);
    } else {
        let one = plan.refilled_one(s);
        let w = one.device.voice(plan.source);
        let head = v.queue[0];
        lemma_refilled_one(plan, s, count);
        assert(one.device.log =~= s.device.log + seq![
            Command::UnqueueBuffer { source: plan.source },
            Command::BufferData { buffer: head, format: plan.format, rate: plan.rate },
            Command::QueueBuffer { source: plan.source, buffer: head },
        ]);
        lemma_refill_commands(plan, one, (count - 1) as nat);
        assert(w.queue.subrange(0, count - 1) =~= taken.subrange(1, taken.len() as int));
        assert(taken[0] == head);
        assert(plan.refilled(s, count).device.log =~= s.device.log + refill_commands(
            plan,
            taken,
        ));
    }
}

/// The file after `times` reads of `items` samples each.
pub open spec fn read_on(file: SndFileModel, items: i64, times: nat) -> SndFileModel
    decreases times,
{
    if times == 0 {
        file
    } else {
        read_on(file.read(items), items, (times - 1) as nat)
    }
}

/// No buffer is on the queue twice.
pub open spec fn distinct(queue: Seq<u32>) -> bool {
    forall|i: int, j: int| 0 <= i < j < queue.len() ==> queue[i] != queue[j]
}

/// A refill touches only the buffers it takes off the queue: a live buffer
/// that is not among the first `count` of the queue is after `count`
/// refills as it was.
pub proof fn lemma_refill_leaves_others(plan: Plan, s: Stream, count: nat, buffer: u32)
    requires
        refillable(plan, s.device, count),
        s.device.has_buffer(buffer),
        forall|i: int| 0 <= i < count ==> s.device.voice(plan.source).queue[i] != buffer,
    ensures
        plan.refilled(s, count).device.has_buffer(buffer),
        plan.refilled(s, count).device.buffer(buffer) == s.device.buffer(buffer),
    decreases count,
{
    if count > 0 {
        let v = s.device.voice(plan.source);
        let one = plan.refilled_one(s);
        let w = one.device.voice(plan.source);
        lemma_refilled_one(plan, s, count);
        assert(v.queue[0] != buffer);
        assert forall|i: int| 0 <= i < count - 1 implies w.queue[i] != buffer by {
            assert(w.queue[i] == v.queue[i + 1]);
        }
        lemma_refill_leaves_others(plan, one, (count - 1) as nat, buffer);
    }
}

/// Chunks go into the buffers in the order of the queue: after `count`
/// refills of a queue that holds no buffer twice, the buffer that was at
/// place `i` of the queue holds the chunk that the `i`-th read of the file
/// gave, and the file is read on by `count` chunks.
pub proof fn lemma_refill_fills_in_order(plan: Plan, s: Stream, count: nat)
    requires
        refillable(plan, s.device, count),
        distinct(s.device.voice(plan.source).queue),
    ensures
        plan.refilled(s, count).file == read_on(s.file, plan.chunk as i64, count),
        forall|i: int|
            #![trigger s.device.voice(plan.source).queue[i]]
            0 <= i < count ==> plan.refilled(s, count).device.has_buffer(
                s.device.voice(plan.source).queue[i],
            ) && plan.refilled(s, count).device.buffer(
                s.device.voice(plan.source).queue[i],
            ).data == read_on(s.file, plan.chunk as i64, i as nat).chunk(plan.chunk as i64),
    decreases count,
{
    if count > 0 {
        let v = s.device.voice(plan.source);
        let n = plan.chunk as i64;
        let one = plan.refilled_one(s);
        let r = plan.refilled(s, count);
        let head = v.queue[0];
        let w = one.device.voice(plan.source);
        lemma_refilled_one(plan, s, count);
        assert forall|i: int, j: int| 0 <= i < j < w.queue.len() implies w.queue[i]
            != w.queue[j] by {
            if j < w.queue.len() - 1 {
                assert(w.queue[i] == v.queue[i + 1] && w.queue[j] == v.queue[j + 1]);
            } else {
                assert(w.queue[i] == v.queue[i + 1] && w.queue[j] == v.queue[0]);
            }
        }
        lemma_refill_fills_in_order(plan, one, (count - 1) as nat);
        lemma_read_on_shift(s.file, n, (count - 1) as nat);
        assert forall|i: int| 0 <= i < count - 1 implies w.queue[i] != head by {
            assert(w.queue[i] == v.queue[i + 1]);
        }
        lemma_refill_leaves_others(plan, one, (count - 1) as nat, head);
        assert forall|i: int|
            #![trigger v.queue[i]]
            0 <= i < count implies r.device.has_buffer(v.queue[i]) && r.device.buffer(
            v.queue[i],
        ).data == read_on(s.file, n, i as nat).chunk(n) by {
            if i > 0 {
                assert(w.queue[i - 1] == v.queue[i]);
                lemma_read_on_shift(s.file, n, (i - 1) as nat);
            }
        }
    }
}

/// Reading once and then `times` times is reading `times + 1` times, and
/// the same holds of reading `times` times and then once.
pub proof fn lemma_read_on_shift(file: SndFileModel, items: i64, times: nat)
    ensures
        read_on(file.read(items), items, times) == read_on(file, items, times + 1),
        read_on(file, items, times).read(items) == read_on(file, items, times + 1),
    decreases times,
{
    if times > 0 {
        lemma_read_on_shift(file.read(items), items, (times - 1) as nat);
    } else {
        assert(read_on(file.read(items), items, 0) == file.read(items));
    }
}

/// Where a music cannot be made, the attempt leaves nothing behind: every
/// voice and every buffer that is live afterwards was live before.
pub proof fn lemma_failed_music_leaves_nothing(dev: DeviceModel, info: SndInfo)
    requires
        !Music::makes(dev, info),
    ensures
        forall|source: u32| #[trigger]
            Music::made_device(dev, info).has_source(source) ==> dev.has_source(source),
        forall|buffer: u32| #[trigger]
            Music::made_device(dev, info).has_buffer(buffer) ==> dev.has_buffer(buffer),
{
}

/// A music is made exactly of the files whose channel count the backend
/// has a format for, on a device that can still give out a voice and two
/// buffers and has no error pending.
pub proof fn lemma_music_needs_format(dev: DeviceModel, info: SndInfo)
    requires
        dev.error == AL_NO_ERROR,
        dev.can_gen_source(),
        dev.buffers.len() + 1 < u32::MAX,
    ensures
        Music::makes(dev, info) <==> crate::openal::supported_channels(info.channels),
{
}

} // verus!
