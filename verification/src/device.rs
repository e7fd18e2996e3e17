//! The audio device as the library sees it: voices, buffers, the pending
//! error, the playback context and the capture device.
//!
//! The device is deterministic. Whatever the hardware does on its own
//! (finishing a buffer, stopping, failing, capturing samples) enters
//! through an explicit event (`advance`, `sync`, `report_error`,
//! `capture_feed`). Every request to the hardware is also written to a log
//! of commands, which a driver performs.

use vstd::prelude::*;
use crate::states::State;
use crate::openal::{AL_NO_ERROR, AL_INVALID_NAME, AL_INVALID_VALUE, AL_INVALID_OPERATION,
    AL_OUT_OF_MEMORY};

verus! {

/// A request to the hardware, in the order issued.
#[derive(Clone, Copy, PartialEq, Eq, Debug, Structural)]
pub enum Command {
    /// Create the voice with this identifier.
    GenSource(u32),
    /// Delete a voice.
    DeleteSource(u32),
    /// Create the buffer with this identifier.
    GenBuffer(u32),
    /// Delete a buffer.
    DeleteBuffer(u32),
    /// Upload the samples the device now holds for `buffer`.
    BufferData { buffer: u32, format: i32, rate: i32 },
    /// Bind `buffer` to `source` as its only buffer; 0 detaches.
    BindBuffer { source: u32, buffer: u32 },
    /// Append `buffer` to the queue of `source`.
    QueueBuffer { source: u32, buffer: u32 },
    /// Take the oldest processed buffer off the queue of `source`.
    UnqueueBuffer { source: u32 },
    /// Start or resume a voice.
    Play(u32),
    /// Pause a voice.
    Pause(u32),
    /// Stop a voice.
    Stop(u32),
    /// Set the looping flag of a voice.
    SetLooping { source: u32, looping: bool },
    /// Set whether a voice's position is relative to the listener.
    SetRelative { source: u32, relative: bool },
    /// Open the default output device, to be known by the handle
    /// `device`; handle 0 says that the device does not expect it to open.
    OpenDevice { device: usize },
    /// Create a context on an output device, to be known by the handle
    /// `context`; handle 0 says that the device does not expect it to be
    /// created.
    CreateContext { device: usize, context: usize },
    /// Make a context current.
    MakeContextCurrent { context: usize },
    /// Destroy a context.
    DestroyContext { context: usize },
    /// Close an output device.
    CloseDevice { device: usize },
    /// Open the default capture device, to be known by the handle
    /// `device`; handle 0 says that the device does not expect it to open.
    CaptureOpenDevice { rate: i32, format: i32, size: i32, device: usize },
    /// Close a capture device.
    CaptureCloseDevice { device: usize },
    /// Start capturing.
    CaptureStart { device: usize },
    /// Stop capturing.
    CaptureStop { device: usize },
}

/// What a voice is, as a mathematical value.
pub struct VoiceModel {
    pub live: bool,
    pub state: State,
    /// The statically bound buffer; 0 is none.
    pub bound: u32,
    /// The queued buffers, oldest first.
    pub queue: Seq<u32>,
    /// How many buffers at the head of the queue have been played.
    pub processed: nat,
    pub looping: bool,
    pub relative: bool,
}

impl VoiceModel {
    /// A freshly created voice.
    pub open spec fn fresh() -> VoiceModel {
        VoiceModel {
            live: true,
            state: State::Initial,
            bound: 0,
            queue: Seq::empty(),
            processed: 0,
            looping: false,
            relative: false,
        }
    }

    /// Whether the voice has anything to play.
    pub open spec fn has_audio(self) -> bool {
        self.bound != 0 || self.queue.len() > 0
    }

    /// After a play request: a paused voice resumes in place; any other
    /// starts from the beginning, and stops at once when it has no audio.
    pub open spec fn played(self) -> VoiceModel {
        if self.state == State::Paused {
            VoiceModel { state: State::Playing, ..self }
        } else {
            VoiceModel {
                state: if self.has_audio() { State::Playing } else { State::Stopped },
                processed: 0,
                ..self
            }
        }
    }

    /// After a pause request: only a playing voice pauses.
    pub open spec fn paused(self) -> VoiceModel {
        if self.state == State::Playing {
            VoiceModel { state: State::Paused, ..self }
        } else {
            self
        }
    }

    /// After a stop request: stopped, with every queued buffer released.
    pub open spec fn stopped(self) -> VoiceModel {
        VoiceModel { state: State::Stopped, processed: self.queue.len(), ..self }
    }

    /// After the hardware finished what the voice was playing: the next
    /// queued buffer counts as processed; a voice with nothing left stops.
    pub open spec fn advanced(self) -> VoiceModel {
        if self.state != State::Playing {
            self
        } else if self.processed < self.queue.len() {
            VoiceModel {
                processed: self.processed + 1,
                state: if self.processed + 1 == self.queue.len() {
                    State::Stopped
                } else {
                    State::Playing
                },
                ..self
            }
        } else if self.looping && self.bound != 0 {
            self
        } else {
            VoiceModel { state: State::Stopped, ..self }
        }
    }

    /// Whether the voice is playing or paused.
    pub open spec fn active(self) -> bool {
        self.state == State::Playing || self.state == State::Paused
    }

    /// With `buffer` as the only buffer; 0 leaves the voice with no audio.
    pub open spec fn bound_to(self, buffer: u32) -> VoiceModel {
        VoiceModel { bound: buffer, queue: Seq::empty(), processed: 0, ..self }
    }

    /// With `buffer` at the end of the queue.
    pub open spec fn queued(self, buffer: u32) -> VoiceModel {
        VoiceModel { queue: self.queue.push(buffer), ..self }
    }

    /// Whether a processed buffer can be taken off the queue.
    pub open spec fn can_unqueue(self) -> bool {
        self.processed > 0 && self.queue.len() > 0
    }

    /// Without the oldest buffer of the queue.
    pub open spec fn unqueued(self) -> VoiceModel {
        VoiceModel {
            queue: self.queue.subrange(1, self.queue.len() as int),
            processed: (self.processed - 1) as nat,
            ..self
        }
    }
}

/// What a buffer is, as a mathematical value.
pub struct BufferModel {
    pub live: bool,
    pub format: i32,
    pub rate: i32,
    pub data: Seq<i16>,
    /// How many holders share the buffer; the last to let go deletes it.
    pub holders: nat,
}

/// The capture device, as a mathematical value.
pub struct CaptureModel {
    /// The handle under which it is open; 0 when closed.
    pub handle: usize,
    pub running: bool,
    /// Samples captured and not yet taken.
    pub pending: Seq<i16>,
}

/// What the machine offers. A driver sets this from what it finds.
#[derive(Clone, Copy, PartialEq, Eq, Debug, Structural)]
pub struct Hardware {
    /// The default output device can be opened.
    pub output: bool,
    /// A context can be created on it.
    pub context: bool,
    /// A context can be made current.
    pub activation: bool,
    /// The backend has the capture extension.
    pub capture_extension: bool,
    /// The default capture device can be opened.
    pub capture: bool,
}

/// The whole device, as a mathematical value.
pub struct DeviceModel {
    pub voices: Seq<VoiceModel>,
    pub buffers: Seq<BufferModel>,
    pub error: i32,
    pub log: Seq<Command>,
    pub hardware: Hardware,
    /// The handle of the current context; 0 is none.
    pub current: usize,
    /// How many handles were given out.
    pub handles: usize,
    pub capture: CaptureModel,
}

impl DeviceModel {
    /// With one more command in the log.
    pub open spec fn note(self, command: Command) -> DeviceModel {
        DeviceModel { log: self.log.push(command), ..self }
    }

    /// With `code` pending, unless an earlier error still is.
    pub open spec fn raise(self, code: i32) -> DeviceModel {
        DeviceModel { error: if self.error == AL_NO_ERROR { code } else { self.error }, ..self }
    }

    /// Whether `source` names a live voice.
    pub open spec fn has_source(self, source: u32) -> bool {
        1 <= source <= self.voices.len() && self.voices[source - 1].live
    }

    /// Whether `buffer` names a live buffer.
    pub open spec fn has_buffer(self, buffer: u32) -> bool {
        1 <= buffer <= self.buffers.len() && self.buffers[buffer - 1].live
    }

    /// The voice that `source` names.
    pub open spec fn voice(self, source: u32) -> VoiceModel
        recommends
            self.has_source(source),
    {
        self.voices[source - 1]
    }

    /// The buffer that `buffer` names.
    pub open spec fn buffer(self, buffer: u32) -> BufferModel
        recommends
            self.has_buffer(buffer),
    {
        self.buffers[buffer - 1]
    }

    /// With `voice` in the place of the voice that `source` names.
    pub open spec fn with_voice(self, source: u32, voice: VoiceModel) -> DeviceModel {
        DeviceModel { voices: self.voices.update(source - 1, voice), ..self }
    }

    /// Whether another voice can be created.
    pub open spec fn can_gen_source(self) -> bool {
        self.voices.len() < u32::MAX
    }

    /// The identifier that creating a voice returns; 0 on failure.
    pub open spec fn next_source(self) -> u32 {
        if self.can_gen_source() { (self.voices.len() + 1) as u32 } else { 0 }
    }

    /// After creating a voice.
    pub open spec fn gen_source(self) -> DeviceModel {
        let d = self.note(Command::GenSource(self.next_source()));
        if self.can_gen_source() {
            DeviceModel { voices: d.voices.push(VoiceModel::fresh()), ..d }
        } else {
            d.raise(AL_OUT_OF_MEMORY)
        }
    }

    /// Whether another buffer can be created.
    pub open spec fn can_gen_buffer(self) -> bool {
        self.buffers.len() < u32::MAX
    }

    /// The identifier that creating a buffer returns; 0 on failure.
    pub open spec fn next_buffer(self) -> u32 {
        if self.can_gen_buffer() { (self.buffers.len() + 1) as u32 } else { 0 }
    }

    /// After creating a buffer.
    pub open spec fn gen_buffer(self) -> DeviceModel {
        let d = self.note(Command::GenBuffer(self.next_buffer()));
        if self.can_gen_buffer() {
            DeviceModel {
                buffers: d.buffers.push(
                    BufferModel { live: true, format: 0, rate: 0, data: Seq::empty(), holders: 1 },
                ),
                ..d
            }
        } else {
            d.raise(AL_OUT_OF_MEMORY)
        }
    }

    /// After deleting a voice.
    pub open spec fn delete_source(self, source: u32) -> DeviceModel {
        let d = self.note(Command::DeleteSource(source));
        if d.has_source(source) {
            d.with_voice(source, VoiceModel { live: false, ..d.voice(source) })
        } else {
            d.raise(AL_INVALID_NAME)
        }
    }

    /// After deleting a buffer.
    pub open spec fn delete_buffer(self, buffer: u32) -> DeviceModel {
        let d = self.note(Command::DeleteBuffer(buffer));
        if d.has_buffer(buffer) {
            DeviceModel {
                buffers: d.buffers.update(
                    buffer - 1,
                    BufferModel { live: false, holders: 0, ..d.buffer(buffer) },
                ),
                ..d
            }
        } else {
            d.raise(AL_INVALID_NAME)
        }
    }

    /// After uploading `data` into a buffer.
    pub open spec fn buffer_data(self, buffer: u32, format: i32, data: Seq<i16>, rate: i32)
        -> DeviceModel {
        let d = self.note(Command::BufferData { buffer, format, rate });
        if d.has_buffer(buffer) {
            DeviceModel {
                buffers: d.buffers.update(
                    buffer - 1,
                    BufferModel { format, rate, data, ..d.buffer(buffer) },
                ),
                ..d
            }
        } else {
            d.raise(AL_INVALID_NAME)
        }
    }

    /// Whether another holder can share `buffer`.
    pub open spec fn can_retain(self, buffer: u32) -> bool {
        self.has_buffer(buffer) && self.buffer(buffer).holders < usize::MAX
    }

    /// After one more holder took a share of `buffer`.
    pub open spec fn retain_buffer(self, buffer: u32) -> DeviceModel {
        if self.can_retain(buffer) {
            DeviceModel {
                buffers: self.buffers.update(
                    buffer - 1,
                    BufferModel {
                        holders: self.buffer(buffer).holders + 1,
                        ..self.buffer(buffer)
                    },
                ),
                ..self
            }
        } else {
            self
        }
    }

    /// After a holder let go of `buffer`: deleted when it was the last.
    pub open spec fn release_buffer(self, buffer: u32) -> DeviceModel {
        if !self.has_buffer(buffer) {
            self
        } else if self.buffer(buffer).holders > 1 {
            DeviceModel {
                buffers: self.buffers.update(
                    buffer - 1,
                    BufferModel {
                        holders: (self.buffer(buffer).holders - 1) as nat,
                        ..self.buffer(buffer)
                    },
                ),
                ..self
            }
        } else {
            self.delete_buffer(buffer)
        }
    }

    /// After binding a buffer to a voice (0 detaches).
    pub open spec fn bind_buffer(self, source: u32, buffer: u32) -> DeviceModel {
        let d = self.note(Command::BindBuffer { source, buffer });
        if !d.has_source(source) {
            d.raise(AL_INVALID_NAME)
        } else if buffer != 0 && !d.has_buffer(buffer) {
            d.raise(AL_INVALID_VALUE)
        } else if d.voice(source).active() {
            d.raise(AL_INVALID_OPERATION)
        } else {
            d.with_voice(source, d.voice(source).bound_to(buffer))
        }
    }

    /// After queueing a buffer on a voice.
    pub open spec fn queue_buffer(self, source: u32, buffer: u32) -> DeviceModel {
        let d = self.note(Command::QueueBuffer { source, buffer });
        if !d.has_source(source) || !d.has_buffer(buffer) {
            d.raise(AL_INVALID_NAME)
        } else if d.voice(source).bound != 0 {
            d.raise(AL_INVALID_OPERATION)
        } else {
            d.with_voice(source, d.voice(source).queued(buffer))
        }
    }

    /// Whether unqueueing from `source` yields a buffer.
    pub open spec fn can_unqueue(self, source: u32) -> bool {
        self.has_source(source) && self.voice(source).can_unqueue()
    }

    /// The buffer that unqueueing from `source` returns; 0 when there is none.
    pub open spec fn unqueue_result(self, source: u32) -> u32 {
        if self.can_unqueue(source) { self.voice(source).queue[0] } else { 0 }
    }

    /// After unqueueing the oldest processed buffer of a voice.
    pub open spec fn unqueue_buffer(self, source: u32) -> DeviceModel {
        let d = self.note(Command::UnqueueBuffer { source });
        if !d.has_source(source) {
            d.raise(AL_INVALID_NAME)
        } else if !d.voice(source).can_unqueue() {
            d.raise(AL_INVALID_VALUE)
        } else {
            d.with_voice(source, d.voice(source).unqueued())
        }
    }

    /// After a play request.
    pub open spec fn play(self, source: u32) -> DeviceModel {
        let d = self.note(Command::Play(source));
        if d.has_source(source) {
            d.with_voice(source, d.voice(source).played())
        } else {
            d.raise(AL_INVALID_NAME)
        }
    }

    /// After a pause request.
    pub open spec fn pause(self, source: u32) -> DeviceModel {
        let d = self.note(Command::Pause(source));
        if d.has_source(source) {
            d.with_voice(source, d.voice(source).paused())
        } else {
            d.raise(AL_INVALID_NAME)
        }
    }

    /// After a stop request.
    pub open spec fn stop(self, source: u32) -> DeviceModel {
        let d = self.note(Command::Stop(source));
        if d.has_source(source) {
            d.with_voice(source, d.voice(source).stopped())
        } else {
            d.raise(AL_INVALID_NAME)
        }
    }

    /// After the hardware finished what `source` was playing.
    pub open spec fn advance(self, source: u32) -> DeviceModel {
        if self.has_source(source) {
            self.with_voice(source, self.voice(source).advanced())
        } else {
            self
        }
    }

    /// Whether the hardware, having played `processed` buffers of the
    /// queue of `source`, is ahead of the device: the voice plays and has
    /// fewer processed buffers than that, with more on its queue.
    pub open spec fn behind(self, source: u32, processed: nat) -> bool {
        &&& self.has_source(source)
        &&& self.state_of(source) == State::Playing
        &&& self.voice(source).processed < processed
        &&& self.voice(source).processed < self.voice(source).queue.len()
    }

    /// After the device caught up with a hardware that has played
    /// `processed` buffers of the queue of `source`: one `advance` for each
    /// buffer the device was behind.
    pub open spec fn caught_up(self, source: u32, processed: nat) -> DeviceModel
        decreases processed - self.voice(source).processed,
    {
        if self.behind(source, processed) {
            self.advance(source).caught_up(source, processed)
        } else {
            self
        }
    }

    /// After a report of the hardware on the voice `source`: how many
    /// buffers of its queue it has played, and whether it has stopped. Only
    /// a voice that the device takes to be playing is moved. A voice with
    /// a queue catches up with the count; a voice without one stops when
    /// the hardware has.
    pub open spec fn sync(self, source: u32, processed: nat, stopped: bool) -> DeviceModel {
        if !self.has_source(source) || self.state_of(source) != State::Playing {
            self
        } else if self.voice(source).queue.len() > 0 {
            self.caught_up(source, processed)
        } else if stopped {
            self.advance(source)
        } else {
            self
        }
    }

    /// After setting the looping flag.
    pub open spec fn set_looping(self, source: u32, looping: bool) -> DeviceModel {
        let d = self.note(Command::SetLooping { source, looping });
        if d.has_source(source) {
            d.with_voice(source, VoiceModel { looping, ..d.voice(source) })
        } else {
            d.raise(AL_INVALID_NAME)
        }
    }

    /// After setting the relative flag.
    pub open spec fn set_relative(self, source: u32, relative: bool) -> DeviceModel {
        let d = self.note(Command::SetRelative { source, relative });
        if d.has_source(source) {
            d.with_voice(source, VoiceModel { relative, ..d.voice(source) })
        } else {
            d.raise(AL_INVALID_NAME)
        }
    }

    /// The state that a query reports for `source`.
    pub open spec fn state_of(self, source: u32) -> State {
        if self.has_source(source) { self.voice(source).state } else { State::Initial }
    }

    /// Whether another handle can be given out.
    pub open spec fn can_handle(self) -> bool {
        self.handles < usize::MAX
    }

    /// The next handle to give out.
    pub open spec fn next_handle(self) -> usize {
        (self.handles + 1) as usize
    }

    /// With one more handle given out.
    pub open spec fn taken(self) -> DeviceModel {
        DeviceModel { handles: self.next_handle(), ..self }
    }

    /// Whether opening the default output device succeeds.
    pub open spec fn can_open_device(self) -> bool {
        self.hardware.output && self.can_handle()
    }

    /// The handle that opening the output device returns; 0 on failure.
    pub open spec fn open_device_result(self) -> usize {
        if self.can_open_device() { self.next_handle() } else { 0 }
    }

    /// After opening the default output device.
    pub open spec fn open_device(self) -> DeviceModel {
        let d = self.note(Command::OpenDevice { device: self.open_device_result() });
        if self.can_open_device() { d.taken() } else { d }
    }

    /// Whether creating a context on `device` succeeds.
    pub open spec fn can_create_context(self, device: usize) -> bool {
        device != 0 && self.hardware.context && self.can_handle()
    }

    /// The handle that creating a context returns; 0 on failure.
    pub open spec fn create_context_result(self, device: usize) -> usize {
        if self.can_create_context(device) { self.next_handle() } else { 0 }
    }

    /// After creating a context on `device`.
    pub open spec fn create_context(self, device: usize) -> DeviceModel {
        let d = self.note(
            Command::CreateContext { device, context: self.create_context_result(device) },
        );
        if self.can_create_context(device) { d.taken() } else { d }
    }

    /// After making `context` current, which succeeds where the hardware
    /// allows activation.
    pub open spec fn make_context_current(self, context: usize) -> DeviceModel {
        let d = self.note(Command::MakeContextCurrent { context });
        if self.hardware.activation { DeviceModel { current: context, ..d } } else { d }
    }

    /// After destroying `context`: no longer current.
    pub open spec fn destroy_context(self, context: usize) -> DeviceModel {
        let d = self.note(Command::DestroyContext { context });
        if self.current == context { DeviceModel { current: 0, ..d } } else { d }
    }

    /// After closing an output device.
    pub open spec fn close_device(self, device: usize) -> DeviceModel {
        self.note(Command::CloseDevice { device })
    }

    /// Whether opening the default capture device succeeds.
    pub open spec fn can_open_capture(self) -> bool {
        self.hardware.capture && self.can_handle()
    }

    /// The handle that opening the capture device returns; 0 on failure.
    pub open spec fn capture_open_result(self) -> usize {
        if self.can_open_capture() { self.next_handle() } else { 0 }
    }

    /// After opening the default capture device.
    pub open spec fn capture_open_device(self, rate: i32, format: i32, size: i32)
        -> DeviceModel {
        let d = self.note(
            Command::CaptureOpenDevice { rate, format, size, device: self.capture_open_result() },
        );
        if self.can_open_capture() {
            DeviceModel {
                capture: CaptureModel {
                    handle: self.next_handle(),
                    running: false,
                    pending: Seq::empty(),
                },
                ..d.taken()
            }
        } else {
            d
        }
    }

    /// Whether `device` is the open capture device.
    pub open spec fn is_capture(self, device: usize) -> bool {
        device != 0 && self.capture.handle == device
    }

    /// After closing a capture device.
    pub open spec fn capture_close_device(self, device: usize) -> DeviceModel {
        let d = self.note(Command::CaptureCloseDevice { device });
        if self.is_capture(device) {
            DeviceModel {
                capture: CaptureModel { handle: 0, running: false, pending: Seq::empty() },
                ..d
            }
        } else {
            d
        }
    }

    /// After starting capture.
    pub open spec fn capture_start(self, device: usize) -> DeviceModel {
        let d = self.note(Command::CaptureStart { device });
        if self.is_capture(device) {
            DeviceModel { capture: CaptureModel { running: true, ..self.capture }, ..d }
        } else {
            d
        }
    }

    /// After stopping capture.
    pub open spec fn capture_stop(self, device: usize) -> DeviceModel {
        let d = self.note(Command::CaptureStop { device });
        if self.is_capture(device) {
            DeviceModel { capture: CaptureModel { running: false, ..self.capture }, ..d }
        } else {
            d
        }
    }

    /// After the hardware captured `samples`: kept while capture runs.
    pub open spec fn capture_feed(self, samples: Seq<i16>) -> DeviceModel {
        if self.capture.running {
            DeviceModel {
                capture: CaptureModel { pending: self.capture.pending + samples, ..self.capture },
                ..self
            }
        } else {
            self
        }
    }

    /// How many captured samples wait on `device`.
    pub open spec fn capture_available(self, device: usize) -> nat {
        if self.is_capture(device) { self.capture.pending.len() } else { 0 }
    }

    /// The samples that taking everything from `device` returns.
    pub open spec fn capture_taken(self, device: usize) -> Seq<i16> {
        if self.is_capture(device) { self.capture.pending } else { Seq::empty() }
    }

    /// After taking every captured sample from `device`.
    pub open spec fn capture_drain(self, device: usize) -> DeviceModel {
        if self.is_capture(device) {
            DeviceModel {
                capture: CaptureModel { pending: Seq::empty(), ..self.capture },
                ..self
            }
        } else {
            self
        }
    }

    /// After reading the pending error, which clears it.
    pub open spec fn clear_error(self) -> DeviceModel {
        DeviceModel { error: AL_NO_ERROR, ..self }
    }
}

/// A voice of the device.
struct Voice {
    live: bool,
    state: State,
    bound: u32,
    queue: Vec<u32>,
    processed: usize,
    looping: bool,
    relative: bool,
}

impl View for Voice {
    type V = VoiceModel;

    closed spec fn view(&self) -> VoiceModel {
        VoiceModel {
            live: self.live,
            state: self.state,
            bound: self.bound,
            queue: self.queue@,
            processed: self.processed as nat,
            looping: self.looping,
            relative: self.relative,
        }
    }
}

impl Voice {
    fn play(&mut self)
        ensures
            final(self)@ == old(self)@.played(),
    {
        if self.state == State::Paused {
            self.state = State::Playing;
        } else {
            let has_audio = self.bound != 0 || self.queue.len() > 0;
            self.state = if has_audio { State::Playing } else { State::Stopped };
            self.processed = 0;
        }
    }

    fn pause(&mut self)
        ensures
            final(self)@ == old(self)@.paused(),
    {
        if self.state == State::Playing {
            self.state = State::Paused;
        }
    }

    fn stop(&mut self)
        ensures
            final(self)@ == old(self)@.stopped(),
    {
        self.state = State::Stopped;
        self.processed = self.queue.len();
    }

    fn advance(&mut self)
        ensures
            final(self)@ == old(self)@.advanced(),
    {
        if self.state == State::Playing {
            if self.processed < self.queue.len() {
                self.processed = self.processed + 1;
                if self.processed == self.queue.len() {
                    self.state = State::Stopped;
                }
            } else if !(self.looping && self.bound != 0) {
                self.state = State::Stopped;
            }
        }
    }

    fn bind(&mut self, buffer: u32)
        ensures
            final(self)@ == old(self)@.bound_to(buffer),
    {
        self.bound = buffer;
        self.queue.clear();
        self.processed = 0;
    }

    fn unqueue(&mut self) -> (buffer: u32)
        requires
            old(self)@.can_unqueue(),
        ensures
            final(self)@ == old(self)@.unqueued(),
            buffer == old(self)@.queue[0],
    {
        let buffer = self.queue.remove(0);
        self.processed = self.processed - 1;
        buffer
    }
}

/// A buffer of the device.
struct Buffer {
    live: bool,
    format: i32,
    rate: i32,
    data: Vec<i16>,
    holders: usize,
}

impl View for Buffer {
    type V = BufferModel;

    closed spec fn view(&self) -> BufferModel {
        BufferModel {
            live: self.live,
            format: self.format,
            rate: self.rate,
            data: self.data@,
            holders: self.holders as nat,
        }
    }
}

/// The audio device. Its value is a [`DeviceModel`].
pub struct Device {
    voices: Vec<Voice>,
    buffers: Vec<Buffer>,
    error: i32,
    log: Vec<Command>,
    hardware: Hardware,
    current: usize,
    handles: usize,
    capture_handle: usize,
    capture_running: bool,
    captured: Vec<i16>,
}

impl View for Device {
    type V = DeviceModel;

    closed spec fn view(&self) -> DeviceModel {
        DeviceModel {
            voices: Seq::new(self.voices@.len(), |i: int| self.voices@[i]@),
            buffers: Seq::new(self.buffers@.len(), |i: int| self.buffers@[i]@),
            error: self.error,
            log: self.log@,
            hardware: self.hardware,
            current: self.current,
            handles: self.handles,
            capture: CaptureModel {
                handle: self.capture_handle,
                running: self.capture_running,
                pending: self.captured@,
            },
        }
    }
}

impl Device {
    /// A device with no voice, no buffer, no context and an empty log, on a
    /// machine that offers `hardware`.
    pub fn new(hardware: Hardware) -> (device: Device)
        ensures
            device@ == (DeviceModel {
                voices: Seq::empty(),
                buffers: Seq::empty(),
                error: AL_NO_ERROR,
                log: Seq::empty(),
                hardware,
                current: 0,
                handles: 0,
                capture: CaptureModel { handle: 0, running: false, pending: Seq::empty() },
            }),
    {
        let device = Device {
            voices: Vec::new(),
            buffers: Vec::new(),
            error: AL_NO_ERROR,
            log: Vec::new(),
            hardware,
            current: 0,
            handles: 0,
            capture_handle: 0,
            capture_running: false,
            captured: Vec::new(),
        };
        proof {
            assert(device@.voices =~= Seq::empty());
            assert(device@.buffers =~= Seq::empty());
        }
        device
    }

    /// The device with one voice replaced is the model with that voice
    /// replaced.
    proof fn lemma_voice_replaced(before: Device, after: Device, source: u32)
        requires
            before@.has_source(source),
            after.voices@.len() == before.voices@.len(),
            forall|j: int|
                0 <= j < before.voices@.len() && j != source - 1 ==> after.voices@[j]
                    == before.voices@[j],
            after.buffers == before.buffers,
            after.error == before.error,
            after.log == before.log,
            after.hardware == before.hardware,
            after.current == before.current,
            after.handles == before.handles,
            after.capture_handle == before.capture_handle,
            after.capture_running == before.capture_running,
            after.captured == before.captured,
        ensures
            after@ == before@.with_voice(source, after.voices@[source - 1]@),
    {
        assert(after@.voices =~= before@.voices.update(source - 1, after.voices@[source - 1]@));
    }

    fn note(&mut self, command: Command)
        ensures
            final(self)@ == old(self)@.note(command),
    {
        self.log.push(command);
    }

    fn raise(&mut self, code: i32)
        ensures
            final(self)@ == old(self)@.raise(code),
    {
        if self.error == AL_NO_ERROR {
            self.error = code;
        }
    }

    /// Event: the hardware reported the error `code`. It becomes the
    /// pending error unless an earlier one still is.
    pub fn report_error(&mut self, code: i32)
        ensures
            final(self)@ == old(self)@.raise(code),
    {
        self.raise(code);
    }

    /// Whether `source` names a live voice.
    pub fn is_source(&self, source: u32) -> (live: bool)
        ensures
            live == self@.has_source(source),
    {
        source >= 1 && (source as usize) <= self.voices.len() && self.voices[(source - 1) as usize].live
    }

    /// Whether `buffer` names a live buffer.
    pub fn is_buffer(&self, buffer: u32) -> (live: bool)
        ensures
            live == self@.has_buffer(buffer),
    {
        buffer >= 1 && (buffer as usize) <= self.buffers.len() && self.buffers[(buffer - 1) as usize].live
    }

    /// Creates a voice and returns its identifier, or 0 with
    /// `AL_OUT_OF_MEMORY` pending when the identifiers are used up.
    pub fn gen_source(&mut self) -> (source: u32)
        ensures
            final(self)@ == old(self)@.gen_source(),
            source == old(self)@.next_source(),
    {
        if self.voices.len() < u32::MAX as usize {
            let source = (self.voices.len() + 1) as u32;
            self.note(Command::GenSource(source));
            self.voices.push(
                Voice {
                    live: true,
                    state: State::Initial,
                    bound: 0,
                    queue: Vec::new(),
                    processed: 0,
                    looping: false,
                    relative: false,
                },
            );
            proof {
                assert(self@.voices =~= old(self)@.voices.push(VoiceModel::fresh()));
            }
            source
        } else {
            self.note(Command::GenSource(0));
            self.raise(AL_OUT_OF_MEMORY);
            0
        }
    }

    /// Creates an empty buffer and returns its identifier, or 0 with
    /// `AL_OUT_OF_MEMORY` pending when the identifiers are used up.
    pub fn gen_buffer(&mut self) -> (buffer: u32)
        ensures
            final(self)@ == old(self)@.gen_buffer(),
            buffer == old(self)@.next_buffer(),
    {
        if self.buffers.len() < u32::MAX as usize {
            let buffer = (self.buffers.len() + 1) as u32;
            self.note(Command::GenBuffer(buffer));
            self.buffers.push(
                Buffer { live: true, format: 0, rate: 0, data: Vec::new(), holders: 1 },
            );
            proof {
                assert(self@.buffers =~= old(self)@.buffers.push(
                    BufferModel { live: true, format: 0, rate: 0, data: Seq::empty(), holders: 1 },
                ));
            }
            buffer
        } else {
            self.note(Command::GenBuffer(0));
            self.raise(AL_OUT_OF_MEMORY);
            0
        }
    }

    /// Deletes a voice; an unknown name leaves `AL_INVALID_NAME` pending.
    pub fn delete_source(&mut self, source: u32)
        ensures
            final(self)@ == old(self)@.delete_source(source),
    {
        self.note(Command::DeleteSource(source));
        if self.is_source(source) {
            let ghost before = *self;
            self.voices[(source - 1) as usize].live = false;
            proof {
                Self::lemma_voice_replaced(before, *self, source);
            }
        } else {
            self.raise(AL_INVALID_NAME);
        }
    }

    /// Deletes a buffer; an unknown name leaves `AL_INVALID_NAME` pending.
    pub fn delete_buffer(&mut self, buffer: u32)
        ensures
            final(self)@ == old(self)@.delete_buffer(buffer),
    {
        self.note(Command::DeleteBuffer(buffer));
        if self.is_buffer(buffer) {
            let ghost before = self@;
            self.buffers[(buffer - 1) as usize].live = false;
            self.buffers[(buffer - 1) as usize].holders = 0;
            proof {
                assert(self@.buffers =~= before.buffers.update(
                    buffer - 1,
                    BufferModel { live: false, holders: 0, ..before.buffer(buffer) },
                ));
            }
        } else {
            self.raise(AL_INVALID_NAME);
        }
    }

    /// Replaces what a buffer holds by `data`, in the given format and rate.
    pub fn buffer_data(&mut self, buffer: u32, format: i32, data: Vec<i16>, rate: i32)
        ensures
            final(self)@ == old(self)@.buffer_data(buffer, format, data@, rate),
    {
        self.note(Command::BufferData { buffer, format, rate });
        if self.is_buffer(buffer) {
            let ghost before = self@;
            let i = (buffer - 1) as usize;
            self.buffers[i].format = format;
            self.buffers[i].rate = rate;
            self.buffers[i].data = data;
            proof {
                assert(self@.buffers =~= before.buffers.update(
                    buffer - 1,
                    BufferModel { format, rate, data: data@, ..before.buffer(buffer) },
                ));
            }
        } else {
            self.raise(AL_INVALID_NAME);
        }
    }

    /// One more holder takes a share of `buffer`; says whether it could.
    pub fn retain_buffer(&mut self, buffer: u32) -> (done: bool)
        ensures
            done == old(self)@.can_retain(buffer),
            final(self)@ == old(self)@.retain_buffer(buffer),
    {
        if self.is_buffer(buffer) && self.buffers[(buffer - 1) as usize].holders < usize::MAX {
            let ghost before = self@;
            let i = (buffer - 1) as usize;
            self.buffers[i].holders = self.buffers[i].holders + 1;
            proof {
                assert(self@.buffers =~= before.buffers.update(
                    buffer - 1,
                    BufferModel {
                        holders: before.buffer(buffer).holders + 1,
                        ..before.buffer(buffer)
                    },
                ));
            }
            true
        } else {
            false
        }
    }

    /// A holder lets go of `buffer`; the last one deletes it.
    pub fn release_buffer(&mut self, buffer: u32)
        ensures
            final(self)@ == old(self)@.release_buffer(buffer),
    {
        if self.is_buffer(buffer) {
            let i = (buffer - 1) as usize;
            if self.buffers[i].holders > 1 {
                let ghost before = self@;
                self.buffers[i].holders = self.buffers[i].holders - 1;
                proof {
                    assert(self@.buffers =~= before.buffers.update(
                        buffer - 1,
                        BufferModel {
                            holders: (before.buffer(buffer).holders - 1) as nat,
                            ..before.buffer(buffer)
                        },
                    ));
                }
            } else {
                self.delete_buffer(buffer);
            }
        }
    }

    /// How many holders share `buffer`; 0 for an unknown name.
    pub fn buffer_holders(&self, buffer: u32) -> (count: usize)
        ensures
            count == (if self@.has_buffer(buffer) { self@.buffer(buffer).holders } else { 0 }),
    {
        if self.is_buffer(buffer) {
            self.buffers[(buffer - 1) as usize].holders
        } else {
            0
        }
    }

    /// Binds `buffer` to `source` as its only buffer; 0 detaches every
    /// buffer. Refused on a playing or paused voice.
    pub fn bind_buffer(&mut self, source: u32, buffer: u32)
        ensures
            final(self)@ == old(self)@.bind_buffer(source, buffer),
    {
        self.note(Command::BindBuffer { source, buffer });
        if !self.is_source(source) {
            self.raise(AL_INVALID_NAME);
        } else if buffer != 0 && !self.is_buffer(buffer) {
            self.raise(AL_INVALID_VALUE);
        } else {
            let i = (source - 1) as usize;
            if self.voices[i].state == State::Playing || self.voices[i].state == State::Paused {
                self.raise(AL_INVALID_OPERATION);
            } else {
                let ghost before = *self;
                self.voices[i].bind(buffer);
                proof {
                    Self::lemma_voice_replaced(before, *self, source);
                }
            }
        }
    }

    /// Appends `buffer` to the queue of `source`.
    pub fn queue_buffer(&mut self, source: u32, buffer: u32)
        ensures
            final(self)@ == old(self)@.queue_buffer(source, buffer),
    {
        self.note(Command::QueueBuffer { source, buffer });
        if !self.is_source(source) || !self.is_buffer(buffer) {
            self.raise(AL_INVALID_NAME);
        } else {
            let i = (source - 1) as usize;
            if self.voices[i].bound != 0 {
                self.raise(AL_INVALID_OPERATION);
            } else {
                let ghost before = *self;
                self.voices[i].queue.push(buffer);
                proof {
                    Self::lemma_voice_replaced(before, *self, source);
                }
            }
        }
    }

    /// Takes the oldest processed buffer off the queue of `source` and
    /// returns it; returns 0, with an error pending, when there is none.
    pub fn unqueue_buffer(&mut self, source: u32) -> (buffer: u32)
        ensures
            final(self)@ == old(self)@.unqueue_buffer(source),
            buffer == old(self)@.unqueue_result(source),
    {
        self.note(Command::UnqueueBuffer { source });
        if !self.is_source(source) {
            self.raise(AL_INVALID_NAME);
            0
        } else {
            let i = (source - 1) as usize;
            if self.voices[i].processed > 0 && self.voices[i].queue.len() > 0 {
                let ghost before = *self;
                let buffer = self.voices[i].unqueue();
                proof {
                    Self::lemma_voice_replaced(before, *self, source);
                }
                buffer
            } else {
                self.raise(AL_INVALID_VALUE);
                0
            }
        }
    }

    /// Starts a voice, or resumes a paused one in place.
    pub fn source_play(&mut self, source: u32)
        ensures
            final(self)@ == old(self)@.play(source),
    {
        self.note(Command::Play(source));
        if self.is_source(source) {
            let ghost before = *self;
            self.voices[(source - 1) as usize].play();
            proof {
                Self::lemma_voice_replaced(before, *self, source);
            }
        } else {
            self.raise(AL_INVALID_NAME);
        }
    }

    /// Pauses a playing voice.
    pub fn source_pause(&mut self, source: u32)
        ensures
            final(self)@ == old(self)@.pause(source),
    {
        self.note(Command::Pause(source));
        if self.is_source(source) {
            let ghost before = *self;
            self.voices[(source - 1) as usize].pause();
            proof {
                Self::lemma_voice_replaced(before, *self, source);
            }
        } else {
            self.raise(AL_INVALID_NAME);
        }
    }

    /// Stops a voice and releases its queued buffers.
    pub fn source_stop(&mut self, source: u32)
        ensures
            final(self)@ == old(self)@.stop(source),
    {
        self.note(Command::Stop(source));
        if self.is_source(source) {
            let ghost before = *self;
            self.voices[(source - 1) as usize].stop();
            proof {
                Self::lemma_voice_replaced(before, *self, source);
            }
        } else {
            self.raise(AL_INVALID_NAME);
        }
    }

    /// Event: the hardware finished what `source` was playing.
    pub fn advance(&mut self, source: u32)
        ensures
            final(self)@ == old(self)@.advance(source),
    {
        if self.is_source(source) {
            let ghost before = *self;
            self.voices[(source - 1) as usize].advance();
            proof {
                Self::lemma_voice_replaced(before, *self, source);
            }
        }
    }

    /// Event: the hardware reports that the voice `source` has played
    /// `processed` buffers of its queue, and whether it has stopped. The
    /// device catches up, one `advance` at a time.
    pub fn sync(&mut self, source: u32, processed: usize, stopped: bool)
        ensures
            final(self)@ == old(self)@.sync(source, processed as nat, stopped),
    {
        if !self.is_source(source) || self.source_state(source) != State::Playing {
            return ;
        }
        if self.buffers_queued(source) == 0 {
            if stopped {
                self.advance(source);
            }
            return ;
        }
        while self.source_state(source) == State::Playing && self.buffers_processed(source)
            < processed && self.buffers_processed(source) < self.buffers_queued(source)
            invariant
                self@.has_source(source),
                old(self)@.sync(source, processed as nat, stopped) == self@.caught_up(
                    source,
                    processed as nat,
                ),
            decreases processed - self@.voice(source).processed,
        {
            self.advance(source);
        }
    }

    /// Sets the looping flag of a voice.
    pub fn set_looping(&mut self, source: u32, looping: bool)
        ensures
            final(self)@ == old(self)@.set_looping(source, looping),
    {
        self.note(Command::SetLooping { source, looping });
        if self.is_source(source) {
            let ghost before = *self;
            self.voices[(source - 1) as usize].looping = looping;
            proof {
                Self::lemma_voice_replaced(before, *self, source);
            }
        } else {
            self.raise(AL_INVALID_NAME);
        }
    }

    /// Sets whether a voice's position is relative to the listener.
    pub fn set_relative(&mut self, source: u32, relative: bool)
        ensures
            final(self)@ == old(self)@.set_relative(source, relative),
    {
        self.note(Command::SetRelative { source, relative });
        if self.is_source(source) {
            let ghost before = *self;
            self.voices[(source - 1) as usize].relative = relative;
            proof {
                Self::lemma_voice_replaced(before, *self, source);
            }
        } else {
            self.raise(AL_INVALID_NAME);
        }
    }

    /// The state of a voice; `Initial` for an unknown name.
    pub fn source_state(&self, source: u32) -> (state: State)
        ensures
            state == self@.state_of(source),
    {
        if self.is_source(source) {
            self.voices[(source - 1) as usize].state
        } else {
            State::Initial
        }
    }

    /// The looping flag of a voice; `false` for an unknown name.
    pub fn get_looping(&self, source: u32) -> (looping: bool)
        ensures
            looping == (self@.has_source(source) && self@.voice(source).looping),
    {
        self.is_source(source) && self.voices[(source - 1) as usize].looping
    }

    /// The relative flag of a voice; `false` for an unknown name.
    pub fn get_relative(&self, source: u32) -> (relative: bool)
        ensures
            relative == (self@.has_source(source) && self@.voice(source).relative),
    {
        self.is_source(source) && self.voices[(source - 1) as usize].relative
    }

    /// How many buffers at the head of a voice's queue have been played; 0
    /// for an unknown name.
    pub fn buffers_processed(&self, source: u32) -> (count: usize)
        ensures
            count == (if self@.has_source(source) { self@.voice(source).processed } else { 0 }),
    {
        if self.is_source(source) {
            self.voices[(source - 1) as usize].processed
        } else {
            0
        }
    }

    /// How many buffers are on a voice's queue; 0 for an unknown name.
    pub fn buffers_queued(&self, source: u32) -> (count: usize)
        ensures
            count == (if self@.has_source(source) { self@.voice(source).queue.len() } else { 0 }),
    {
        if self.is_source(source) {
            self.voices[(source - 1) as usize].queue.len()
        } else {
            0
        }
    }

    /// What the machine offers.
    pub fn hardware(&self) -> (hardware: Hardware)
        ensures
            hardware == self@.hardware,
    {
        self.hardware
    }

    /// Event: the machine now offers `hardware`.
    pub fn set_hardware(&mut self, hardware: Hardware)
        ensures
            final(self)@ == (DeviceModel { hardware, ..old(self)@ }),
    {
        self.hardware = hardware;
    }

    fn take_handle(&mut self) -> (handle: usize)
        requires
            old(self)@.can_handle(),
        ensures
            final(self)@ == old(self)@.taken(),
            handle == old(self)@.next_handle(),
    {
        self.handles = self.handles + 1;
        self.handles
    }

    /// Opens the default output device; returns its handle, or 0.
    pub fn open_device(&mut self) -> (device: usize)
        ensures
            final(self)@ == old(self)@.open_device(),
            device == old(self)@.open_device_result(),
    {
        if self.hardware.output && self.handles < usize::MAX {
            self.note(Command::OpenDevice { device: self.handles + 1 });
            self.take_handle()
        } else {
            self.note(Command::OpenDevice { device: 0 });
            0
        }
    }

    /// Creates a context on `device`; returns its handle, or 0.
    pub fn create_context(&mut self, device: usize) -> (context: usize)
        ensures
            final(self)@ == old(self)@.create_context(device),
            context == old(self)@.create_context_result(device),
    {
        if device != 0 && self.hardware.context && self.handles < usize::MAX {
            self.note(Command::CreateContext { device, context: self.handles + 1 });
            self.take_handle()
        } else {
            self.note(Command::CreateContext { device, context: 0 });
            0
        }
    }

    /// Makes `context` current; says whether that succeeded.
    pub fn make_context_current(&mut self, context: usize) -> (done: bool)
        ensures
            final(self)@ == old(self)@.make_context_current(context),
            done == old(self)@.hardware.activation,
    {
        self.note(Command::MakeContextCurrent { context });
        if self.hardware.activation {
            self.current = context;
            true
        } else {
            false
        }
    }

    /// The handle of the current context; 0 when there is none.
    pub fn current_context(&self) -> (context: usize)
        ensures
            context == self@.current,
    {
        self.current
    }

    /// Destroys a context.
    pub fn destroy_context(&mut self, context: usize)
        ensures
            final(self)@ == old(self)@.destroy_context(context),
    {
        self.note(Command::DestroyContext { context });
        if self.current == context {
            self.current = 0;
        }
    }

    /// Closes an output device.
    pub fn close_device(&mut self, device: usize)
        ensures
            final(self)@ == old(self)@.close_device(device),
    {
        self.note(Command::CloseDevice { device });
    }

    /// Whether the backend has the capture extension.
    pub fn is_capture_extension_present(&self) -> (present: bool)
        ensures
            present == self@.hardware.capture_extension,
    {
        self.hardware.capture_extension
    }

    /// Opens the default capture device; returns its handle, or 0.
    pub fn capture_open_device(&mut self, rate: i32, format: i32, size: i32) -> (device: usize)
        ensures
            final(self)@ == old(self)@.capture_open_device(rate, format, size),
            device == old(self)@.capture_open_result(),
    {
        if self.hardware.capture && self.handles < usize::MAX {
            self.note(Command::CaptureOpenDevice { rate, format, size, device: self.handles + 1 });
            let handle = self.take_handle();
            self.capture_handle = handle;
            self.capture_running = false;
            self.captured.clear();
            handle
        } else {
            self.note(Command::CaptureOpenDevice { rate, format, size, device: 0 });
            0
        }
    }

    /// Closes a capture device and drops what it had captured.
    pub fn capture_close_device(&mut self, device: usize)
        ensures
            final(self)@ == old(self)@.capture_close_device(device),
    {
        self.note(Command::CaptureCloseDevice { device });
        if device != 0 && self.capture_handle == device {
            self.capture_handle = 0;
            self.capture_running = false;
            self.captured.clear();
        }
    }

    /// Starts capturing on `device`.
    pub fn capture_start(&mut self, device: usize)
        ensures
            final(self)@ == old(self)@.capture_start(device),
    {
        self.note(Command::CaptureStart { device });
        if device != 0 && self.capture_handle == device {
            self.capture_running = true;
        }
    }

    /// Stops capturing on `device`.
    pub fn capture_stop(&mut self, device: usize)
        ensures
            final(self)@ == old(self)@.capture_stop(device),
    {
        self.note(Command::CaptureStop { device });
        if device != 0 && self.capture_handle == device {
            self.capture_running = false;
        }
    }

    /// Event: the hardware captured `samples`.
    pub fn capture_feed(&mut self, samples: Vec<i16>)
        ensures
            final(self)@ == old(self)@.capture_feed(samples@),
    {
        if self.capture_running {
            let mut samples = samples;
            self.captured.append(&mut samples);
        }
    }

    /// How many captured samples wait on `device`.
    pub fn capture_available(&self, device: usize) -> (count: usize)
        ensures
            count == self@.capture_available(device),
    {
        if device != 0 && self.capture_handle == device {
            self.captured.len()
        } else {
            0
        }
    }

    /// Takes every captured sample that waits on `device`.
    pub fn capture_samples(&mut self, device: usize) -> (samples: Vec<i16>)
        ensures
            final(self)@ == old(self)@.capture_drain(device),
            samples@ == old(self)@.capture_taken(device),
    {
        let mut samples: Vec<i16> = Vec::new();
        if device != 0 && self.capture_handle == device {
            samples.append(&mut self.captured);
        }
        samples
    }

    /// How many commands wait in the log.
    pub fn pending_commands(&self) -> (count: usize)
        ensures
            count == self@.log.len(),
    {
        self.log.len()
    }

    /// Hands the logged commands to the driver, oldest first, and empties
    /// the log.
    pub fn take_commands(&mut self) -> (commands: Vec<Command>)
        ensures
            commands@ == old(self)@.log,
            final(self)@ == (DeviceModel { log: Seq::empty(), ..old(self)@ }),
    {
        let mut commands: Vec<Command> = Vec::new();
        commands.append(&mut self.log);
        commands
    }

    /// The samples a buffer holds; none for an unknown name.
    pub fn buffer_samples(&self, buffer: u32) -> (samples: Vec<i16>)
        ensures
            samples@ == (if self@.has_buffer(buffer) {
                self@.buffer(buffer).data
            } else {
                Seq::empty()
            }),
    {
        let mut samples: Vec<i16> = Vec::new();
        if self.is_buffer(buffer) {
            let data = &self.buffers[(buffer - 1) as usize].data;
            let mut i: usize = 0;
            while i < data.len()
                invariant
                    i <= data.len(),
                    samples@ == data@.subrange(0, i as int),
                decreases data.len() - i,
            {
                samples.push(data[i]);
                i = i + 1;
            }
        }
        samples
    }

    /// The buffer bound to a voice, 0 when none; 0 for an unknown name.
    pub fn bound_buffer(&self, source: u32) -> (buffer: u32)
        ensures
            buffer == (if self@.has_source(source) { self@.voice(source).bound } else { 0 }),
    {
        if self.is_source(source) {
            self.voices[(source - 1) as usize].bound
        } else {
            0
        }
    }

    /// The pending error code, which this call clears.
    pub fn get_error(&mut self) -> (code: i32)
        ensures
            code == old(self)@.error,
            final(self)@ == old(self)@.clear_error(),
    {
        let code = self.error;
        self.error = AL_NO_ERROR;
        code
    }
}

/// `count` holders let go of `buffer`, one after the other.
pub open spec fn released(dev: DeviceModel, buffer: u32, count: nat) -> DeviceModel
    decreases count,
{
    if count == 0 {
        dev
    } else {
        released(dev.release_buffer(buffer), buffer, (count - 1) as nat)
    }
}

/// A voice that has audio plays after a play request, whatever its state
/// was.
pub proof fn lemma_play_plays(dev: DeviceModel, source: u32)
    requires
        dev.has_source(source),
        dev.voice(source).has_audio(),
    ensures
        dev.play(source).state_of(source) == State::Playing,
{
}

/// A playing voice is paused after a pause request, and nothing else about
/// it changes.
pub proof fn lemma_pause_pauses(dev: DeviceModel, source: u32)
    requires
        dev.has_source(source),
        dev.state_of(source) == State::Playing,
    ensures
        dev.pause(source).state_of(source) == State::Paused,
        dev.pause(source).voice(source) == (VoiceModel { state: State::Paused, ..dev.voice(source) }),
{
}

/// A paused voice plays again after a play request, at the place where it
/// was paused: its queue and the count of processed buffers are as before.
pub proof fn lemma_play_resumes(dev: DeviceModel, source: u32)
    requires
        dev.has_source(source),
        dev.state_of(source) == State::Paused,
    ensures
        dev.play(source).state_of(source) == State::Playing,
        dev.play(source).voice(source) == (VoiceModel { state: State::Playing, ..dev.voice(source) }),
{
}

/// A voice is stopped after a stop request, whatever its state was.
pub proof fn lemma_stop_stops(dev: DeviceModel, source: u32)
    requires
        dev.has_source(source),
    ensures
        dev.stop(source).state_of(source) == State::Stopped,
{
}

/// A second stop request changes no voice and no buffer: only the log
/// grows.
pub proof fn lemma_stop_twice(dev: DeviceModel, source: u32)
    requires
        dev.has_source(source),
    ensures
        dev.stop(source).stop(source).state_of(source) == State::Stopped,
        dev.stop(source).stop(source) == dev.stop(source).note(Command::Stop(source)),
{
    let once = dev.stop(source);
    assert(once.stop(source).voices =~= once.voices);
}

/// A stop request on a voice that stopped on its own leaves it stopped,
/// with the same queue, binding and flags.
pub proof fn lemma_stop_on_stopped(dev: DeviceModel, source: u32)
    requires
        dev.has_source(source),
        dev.state_of(source) == State::Stopped,
    ensures
        dev.stop(source).voice(source) == (VoiceModel {
            processed: dev.voice(source).queue.len(),
            ..dev.voice(source)
        }),
{
}

/// The looping and relative flags read back as they were set.
pub proof fn lemma_flags_read_back(dev: DeviceModel, source: u32, flag: bool)
    requires
        dev.has_source(source),
    ensures
        dev.set_looping(source, flag).has_source(source),
        dev.set_looping(source, flag).voice(source).looping == flag,
        dev.set_relative(source, flag).has_source(source),
        dev.set_relative(source, flag).voice(source).relative == flag,
{
}

/// Transport requests and hardware progress on one voice leave every other
/// voice, and every buffer, as they were.
pub proof fn lemma_voices_independent(dev: DeviceModel, source: u32, other: u32)
    requires
        dev.has_source(other),
        source != other,
    ensures
        dev.play(source).has_source(other) && dev.play(source).voice(other) == dev.voice(other),
        dev.pause(source).has_source(other) && dev.pause(source).voice(other) == dev.voice(other),
        dev.stop(source).has_source(other) && dev.stop(source).voice(other) == dev.voice(other),
        dev.advance(source).has_source(other) && dev.advance(source).voice(other) == dev.voice(
            other,
        ),
        dev.play(source).buffers == dev.buffers,
        dev.pause(source).buffers == dev.buffers,
        dev.stop(source).buffers == dev.buffers,
        dev.advance(source).buffers == dev.buffers,
{
}

/// A shared buffer lives exactly as long as it has a holder: while fewer
/// holders than it has let go of it, it is live; when the last one lets
/// go, it is deleted.
pub proof fn lemma_buffer_outlives_holders(dev: DeviceModel, buffer: u32, count: nat)
    requires
        dev.has_buffer(buffer),
        dev.buffer(buffer).holders >= 1,
        count <= dev.buffer(buffer).holders,
    ensures
        count < dev.buffer(buffer).holders ==> released(dev, buffer, count).has_buffer(buffer)
            && released(dev, buffer, count).buffer(buffer).holders == dev.buffer(buffer).holders
            - count,
        count == dev.buffer(buffer).holders ==> !released(dev, buffer, count).has_buffer(buffer),
    decreases count,
{
    if count > 0 {
        let next = dev.release_buffer(buffer);
        if dev.buffer(buffer).holders > 1 {
            lemma_buffer_outlives_holders(next, buffer, (count - 1) as nat);
        } else {
            assert(released(next, buffer, 0) == next);
        }
    }
}

/// Taking a share of a buffer adds one holder and changes nothing else
/// about the buffer.
pub proof fn lemma_retain_counts(dev: DeviceModel, buffer: u32)
    requires
        dev.can_retain(buffer),
    ensures
        dev.retain_buffer(buffer).has_buffer(buffer),
        dev.retain_buffer(buffer).buffer(buffer) == (BufferModel {
            holders: dev.buffer(buffer).holders + 1,
            ..dev.buffer(buffer)
        }),
{
}

/// Catching up moves a playing voice with a queue to the count the
/// hardware reports, but not past the end of its queue, and never back; the
/// voice stops exactly when that uses up the queue. The queue, the binding
/// and the flags stay, and so does every other voice and every buffer.
pub proof fn lemma_caught_up(dev: DeviceModel, source: u32, processed: nat)
    requires
        dev.has_source(source),
        dev.state_of(source) == State::Playing,
        dev.voice(source).processed < dev.voice(source).queue.len(),
    ensures
        ({
            let v = dev.voice(source);
            let reached = if processed <= v.processed {
                v.processed
            } else if processed <= v.queue.len() {
                processed
            } else {
                v.queue.len()
            };
            &&& dev.caught_up(source, processed).has_source(source)
            &&& dev.caught_up(source, processed).voice(source) == (VoiceModel {
                processed: reached,
                state: if reached == v.queue.len() { State::Stopped } else { State::Playing },
                ..v
            })
            &&& dev.caught_up(source, processed).buffers == dev.buffers
            &&& dev.caught_up(source, processed).voices.len() == dev.voices.len()
            &&& forall|other: u32|
                other != source && dev.has_source(other) ==> dev.caught_up(
                    source,
                    processed,
                ).has_source(other) && #[trigger] dev.caught_up(source, processed).voice(other)
                    == dev.voice(other)
        }),
    decreases processed - dev.voice(source).processed,
{
    if dev.behind(source, processed) {
        let next = dev.advance(source);
        if next.state_of(source) == State::Playing {
            lemma_caught_up(next, source, processed);
        }
    }
}

/// A report that tells the device nothing new changes nothing: the same
/// report a second time leaves the device as the first left it.
pub proof fn lemma_sync_twice(dev: DeviceModel, source: u32, processed: nat, stopped: bool)
    requires
        dev.has_source(source),
        dev.state_of(source) == State::Playing,
        dev.voice(source).queue.len() > 0 ==> dev.voice(source).processed < dev.voice(
            source,
        ).queue.len(),
        dev.voice(source).queue.len() == 0 ==> !(dev.voice(source).looping && dev.voice(
            source,
        ).bound != 0),
    ensures
        dev.sync(source, processed, stopped).sync(source, processed, stopped) == dev.sync(
            source,
            processed,
            stopped,
        ),
{
    if dev.voice(source).queue.len() > 0 {
        lemma_caught_up(dev, source, processed);
        let once = dev.caught_up(source, processed);
        if once.state_of(source) == State::Playing {
            assert(!once.behind(source, processed));
        }
    }
}

} // verus!
