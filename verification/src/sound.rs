//! Play sounds that fit in memory: a voice bound to a shared buffer.

use vstd::prelude::*;
use crate::audio_controller::{after, context_ok, pause_source, scope_after, set_source_looping,
    set_source_relative, source_looping, source_relative, source_state, stop_source,
    AudioController};
use crate::audio_tags::{tags_of, AudioTags, Tags};
use crate::device::{BufferModel, Device, DeviceModel, VoiceModel};
use crate::internal::{ContextScope, OpenAlData};
use crate::openal::AL_NO_ERROR;
use crate::sndfile::SndFile;
use crate::sound_data::SoundData;
use crate::states::State;

verus! {

/// A voice bound to the buffer of a [`SoundData`], of which it holds a
/// share.
pub struct Sound {
    al_source: u32,
    sound_data: SoundData,
}

impl Sound {
    /// The sample store the sound plays.
    pub closed spec fn data(&self) -> SoundData {
        self.sound_data
    }

    /// The device after a voice was made and bound to `buffer`.
    pub open spec fn bound(dev: DeviceModel, buffer: u32) -> DeviceModel {
        dev.gen_source().bind_buffer(dev.next_source(), buffer)
    }

    /// The device after an attempt to make a sound on `buffer`: with the
    /// new voice on success; on a backend error with the error read, the
    /// voice deleted again and the share of the buffer let go.
    pub open spec fn made_device(dev: DeviceModel, buffer: u32) -> DeviceModel {
        let b = Self::bound(dev, buffer);
        if b.error == AL_NO_ERROR {
            b
        } else {
            let c = b.clear_error();
            let d = if dev.next_source() != 0 {
                c.delete_source(dev.next_source())
            } else {
                c
            };
            d.clear_error().release_buffer(buffer)
        }
    }

    /// Makes a sound from an opened file: decodes it whole, then binds a
    /// new voice to it. `None` where the sample store or the voice cannot
    /// be made.
    pub fn new(scope: &mut ContextScope, dev: &mut Device, file: Result<SndFile, String>) -> (sound:
        Option<Sound>)
        requires
            file is Ok ==> file->Ok_0.wf(),
        ensures
            ({
                let c = OpenAlData::checked(*old(scope), old(dev)@);
                let loaded = SoundData::load_device(c.device, file->Ok_0@);
                let loads = c.result.is_ok() && file is Ok && SoundData::loads(
                    c.device,
                    file->Ok_0@,
                );
                &&& *final(scope) == c.scope
                &&& final(dev)@ == (if loads {
                    Self::made_device(loaded, c.device.next_buffer())
                } else if c.result.is_ok() && file is Ok {
                    loaded
                } else {
                    c.device
                })
                &&& sound.is_some() <==> (loads && Self::bound(
                    loaded,
                    c.device.next_buffer(),
                ).error == AL_NO_ERROR)
                &&& match sound {
                    Some(s) => {
                        &&& s.source() == loaded.next_source()
                        &&& s.data().buffer() == c.device.next_buffer()
                        &&& s.data().info() == file->Ok_0@.info
                        &&& s.data().samples() == file->Ok_0@.info.channels
                            * file->Ok_0@.info.frames
                        &&& tags_of(s.tags(), &file->Ok_0)
                    },
                    None => true,
                }
            }),
    {
        match OpenAlData::check_al_context(scope, dev) {
            Ok(_) => {},
            Err(_) => {
                return None;
            },
        }
        let s_data = match SoundData::new(scope, dev, file) {
            Some(s_d) => s_d,
            None => {
                return None;
            },
        };
        Sound::new_with_data(scope, dev, s_data)
    }

    /// Makes a sound that plays an existing sample store, whose share it
    /// takes over. `None`, with the share let go, where there is no
    /// context or the voice cannot be made.
    pub fn new_with_data(scope: &mut ContextScope, dev: &mut Device, sound_data: SoundData) -> (sound:
        Option<Sound>)
        ensures
            *final(scope) == scope_after(*old(scope), old(dev)@),
            final(dev)@ == (if context_ok(*old(scope), old(dev)@) {
                Self::made_device(
                    OpenAlData::checked(*old(scope), old(dev)@).device,
                    sound_data.buffer(),
                )
            } else {
                OpenAlData::checked(*old(scope), old(dev)@).device.release_buffer(
                    sound_data.buffer(),
                )
            }),
            sound.is_some() <==> (context_ok(*old(scope), old(dev)@) && Self::bound(
                OpenAlData::checked(*old(scope), old(dev)@).device,
                sound_data.buffer(),
            ).error == AL_NO_ERROR),
            match sound {
                Some(s) => s.source() == OpenAlData::checked(
                    *old(scope),
                    old(dev)@,
                ).device.next_source() && s.data() == sound_data,
                None => true,
            },
    {
        match OpenAlData::check_al_context(scope, dev) {
            Ok(_) => {},
            Err(_) => {
                sound_data.release(dev);
                return None;
            },
        }
        let source_id = dev.gen_source();
        dev.bind_buffer(source_id, sound_data.get_buffer());
        if dev.get_error() != AL_NO_ERROR {
            if source_id != 0 {
                dev.delete_source(source_id);
            }
            let _ = dev.get_error();
            sound_data.release(dev);
            return None;
        }
        Some(Sound { al_source: source_id, sound_data })
    }

    /// Another share of the sample store the sound plays; `None` where the
    /// buffer cannot take another holder.
    pub fn get_datas(&self, dev: &mut Device) -> (data: Option<SoundData>)
        ensures
            data.is_some() <==> old(dev)@.can_retain(self.data().buffer()),
            final(dev)@ == old(dev)@.retain_buffer(self.data().buffer()),
            match data {
                Some(d) => d == self.data(),
                None => true,
            },
    {
        self.sound_data.share(dev)
    }

    /// The device after the attempt to bind the voice `source` to the buffer
    /// `next`: a paused voice is stopped first, since the backend binds no
    /// buffer to a voice that plays or is paused.
    pub open spec fn attempted(dev: DeviceModel, source: u32, next: u32) -> DeviceModel {
        let stopped = if dev.state_of(source) == State::Paused {
            dev.stop(source)
        } else {
            dev
        };
        stopped.bind_buffer(source, next)
    }

    /// Whether the voice `source` takes the buffer `next`: it is not
    /// playing, and after the attempt it is bound to `next`.
    pub open spec fn takes(dev: DeviceModel, source: u32, next: u32) -> bool {
        &&& dev.state_of(source) != State::Playing
        &&& Self::attempted(dev, source, next).has_source(source)
        &&& Self::attempted(dev, source, next).voice(source).bound == next
    }

    /// The device after a request to rebind the voice `source` from
    /// `current` to `next`. While the voice plays nothing is tried and the
    /// new share is let go. Otherwise the bind is attempted: where the
    /// voice takes the new buffer the old share is let go; where the
    /// backend refuses the bind the new share is.
    pub open spec fn rebound(dev: DeviceModel, source: u32, current: u32, next: u32)
        -> DeviceModel {
        if dev.state_of(source) == State::Playing {
            dev.release_buffer(next)
        } else if Self::takes(dev, source, next) {
            Self::attempted(dev, source, next).release_buffer(current)
        } else {
            Self::attempted(dev, source, next).release_buffer(next)
        }
    }

    /// Whether a request to rebind the voice `source` to `next` goes
    /// through: there is a context and the voice takes the buffer.
    pub open spec fn rebinds(scope: ContextScope, dev: DeviceModel, source: u32, next: u32)
        -> bool {
        context_ok(scope, dev) && Self::takes(
            OpenAlData::checked(scope, dev).device,
            source,
            next,
        )
    }

    /// Makes the sound play another sample store, whose share it takes
    /// over. Refused while the sound is playing, and without a context; a
    /// paused sound is stopped first. Where the request is refused, or the
    /// backend refuses the bind, the sound keeps its store and the new
    /// share is let go: the sound always holds the store its voice is bound
    /// to.
    pub fn set_datas(&mut self, scope: &mut ContextScope, dev: &mut Device, sound_data: SoundData)
        ensures
            final(self).source() == old(self).source(),
            *final(scope) == scope_after(*old(scope), old(dev)@),
            final(self).data() == (if Self::rebinds(
                *old(scope),
                old(dev)@,
                old(self).source(),
                sound_data.buffer(),
            ) {
                sound_data
            } else {
                old(self).data()
            }),
            final(dev)@ == (if context_ok(*old(scope), old(dev)@) {
                Self::rebound(
                    OpenAlData::checked(*old(scope), old(dev)@).device,
                    old(self).source(),
                    old(self).data().buffer(),
                    sound_data.buffer(),
                )
            } else {
                OpenAlData::checked(*old(scope), old(dev)@).device.release_buffer(
                    sound_data.buffer(),
                )
            }),
    {
        match OpenAlData::check_al_context(scope, dev) {
            Ok(_) => {},
            Err(_) => {
                sound_data.release(dev);
                return ;
            },
        }
        match dev.source_state(self.al_source) {
            State::Playing => {
                sound_data.release(dev);
                return ;
            },
            State::Paused => {
                dev.source_stop(self.al_source);
            },
            _ => {},
        }
        let next = sound_data.get_buffer();
        dev.bind_buffer(self.al_source, next);
        if dev.is_source(self.al_source) && dev.bound_buffer(self.al_source) == next {
            let mut previous = sound_data;
            core::mem::swap(&mut self.sound_data, &mut previous);
            previous.release(dev);
        } else {
            sound_data.release(dev);
        }
    }

    /// Whether the sound is whole on `dev`: its voice is live and bound to
    /// the buffer of its store, which is live.
    pub open spec fn live_on(&self, dev: DeviceModel) -> bool {
        &&& dev.has_source(self.source())
        &&& dev.has_buffer(self.data().buffer())
        &&& dev.voice(self.source()).bound == self.data().buffer()
    }

    /// Ends the sound: deletes its voice and lets go of its share of the
    /// sample store.
    pub fn release(self, dev: &mut Device)
        ensures
            final(dev)@ == old(dev)@.delete_source(self.source()).release_buffer(
                self.data().buffer(),
            ),
    {
        dev.delete_source(self.al_source);
        self.sound_data.release(dev);
    }
}

impl AudioTags for Sound {
    open spec fn tags(&self) -> Tags {
        self.data().tags()
    }

    fn get_tags(&self) -> (tags: Tags) {
        self.sound_data.get_tags()
    }
}

impl AudioController for Sound {
    open spec fn wf(&self) -> bool {
        true
    }

    closed spec fn source(&self) -> u32 {
        self.al_source
    }

    fn voice(&self) -> (id: u32) {
        self.al_source
    }

    open spec fn played_on(&self, dev: DeviceModel) -> DeviceModel {
        dev.play(self.source()).clear_error()
    }

    /// Starts the voice, or resumes it in place if it was paused; then
    /// reads the pending error.
    fn play(&mut self, scope: &mut ContextScope, dev: &mut Device)
        ensures
            *final(self) == *old(self),
    {
        if OpenAlData::check_al_context(scope, dev).is_ok() {
            dev.source_play(self.al_source);
            let _ = dev.get_error();
        }
    }

    fn pause(&mut self, scope: &mut ContextScope, dev: &mut Device) {
        pause_source(scope, dev, self.al_source);
    }

    fn stop(&mut self, scope: &mut ContextScope, dev: &mut Device) {
        stop_source(scope, dev, self.al_source);
    }

    fn is_playing(&self, scope: &mut ContextScope, dev: &mut Device) -> (playing: bool) {
        match self.get_state(scope, dev) {
            State::Playing => true,
            _ => false,
        }
    }

    fn get_state(&self, scope: &mut ContextScope, dev: &mut Device) -> (state: State) {
        source_state(scope, dev, self.al_source)
    }

    fn set_looping(&mut self, scope: &mut ContextScope, dev: &mut Device, looping: bool) {
        set_source_looping(scope, dev, self.al_source, looping);
    }

    fn is_looping(&self, scope: &mut ContextScope, dev: &mut Device) -> (looping: bool) {
        source_looping(scope, dev, self.al_source)
    }

    fn set_relative(&mut self, scope: &mut ContextScope, dev: &mut Device, relative: bool) {
        set_source_relative(scope, dev, self.al_source, relative);
    }

    fn is_relative(&self, scope: &mut ContextScope, dev: &mut Device) -> (relative: bool) {
        source_relative(scope, dev, self.al_source)
    }
}

/// Where the voice of a sound cannot be made, the attempt leaves no voice
/// behind: every voice that is live afterwards was live before.
pub proof fn lemma_failed_sound_leaves_nothing(dev: DeviceModel, buffer: u32)
    requires
        Sound::bound(dev, buffer).error != AL_NO_ERROR,
    ensures
        forall|source: u32| #[trigger]
            Sound::made_device(dev, buffer).has_source(source) ==> dev.has_source(source),
{
}

/// A sound made on a live buffer, on a device that can still give out a
/// voice and has no error pending, is bound to that buffer and plays after
/// a play request.
pub proof fn lemma_sound_plays(dev: DeviceModel, buffer: u32)
    requires
        dev.error == AL_NO_ERROR,
        dev.can_gen_source(),
        dev.has_buffer(buffer),
    ensures
        ({
            let made = Sound::made_device(dev, buffer);
            let source = dev.next_source();
            &&& Sound::bound(dev, buffer).error == AL_NO_ERROR
            &&& made.has_source(source)
            &&& made.voice(source).bound == buffer
            &&& made.state_of(source) == State::Initial
            &&& made.play(source).clear_error().state_of(source) == State::Playing
        }),
{
}

/// Two sounds on one buffer do not touch each other: what one is asked to
/// do leaves the state of the other as it was, and the buffer live.
pub proof fn lemma_shared_sounds_independent(dev: DeviceModel, one: u32, other: u32, buffer: u32)
    requires
        dev.has_source(one),
        dev.has_source(other),
        one != other,
        dev.has_buffer(buffer),
        dev.voice(one).bound == buffer,
        dev.voice(other).bound == buffer,
    ensures
        dev.play(one).clear_error().state_of(one) == State::Playing,
        dev.play(one).clear_error().state_of(other) == dev.state_of(other),
        dev.stop(one).state_of(one) == State::Stopped,
        dev.stop(one).state_of(other) == dev.state_of(other),
        dev.play(one).clear_error().has_buffer(buffer),
        dev.stop(one).has_buffer(buffer),
{
}

/// A voice that is not playing takes a live buffer, whatever its state:
/// after the request it is bound to the new buffer, and a voice that was
/// paused is stopped.
pub proof fn lemma_rebound_binds(dev: DeviceModel, source: u32, current: u32, next: u32)
    requires
        dev.has_source(source),
        dev.has_buffer(next),
        dev.state_of(source) != State::Playing,
    ensures
        Sound::takes(dev, source, next),
        Sound::rebound(dev, source, current, next).has_source(source),
        Sound::rebound(dev, source, current, next).voice(source).bound == next,
        Sound::rebound(dev, source, current, next).state_of(source) == (if dev.state_of(source)
            == State::Paused {
            State::Stopped
        } else {
            dev.state_of(source)
        }),
        next != current ==> Sound::rebound(dev, source, current, next).has_buffer(next),
        Sound::rebound(dev, source, current, next) == Sound::attempted(
            dev,
            source,
            next,
        ).release_buffer(current),
{
}

/// While the voice plays, a request to rebind it changes no voice: only
/// the new share is let go.
pub proof fn lemma_rebound_refused_while_playing(
    dev: DeviceModel,
    source: u32,
    current: u32,
    next: u32,
)
    requires
        dev.state_of(source) == State::Playing,
    ensures
        !Sound::takes(dev, source, next),
        Sound::rebound(dev, source, current, next) == dev.release_buffer(next),
        Sound::rebound(dev, source, current, next).voices == dev.voices,
{
}

/// Where the backend refuses the bind, because the voice or the new buffer
/// is gone, the voice does not take the buffer: the binding of a live
/// voice stays as it was and the new share is let go.
pub proof fn lemma_rebound_refused_by_backend(
    dev: DeviceModel,
    source: u32,
    current: u32,
    next: u32,
)
    requires
        dev.state_of(source) != State::Playing,
        !dev.has_source(source) || (next != 0 && !dev.has_buffer(next) && dev.voice(
            source,
        ).bound != next),
    ensures
        !Sound::takes(dev, source, next),
        Sound::rebound(dev, source, current, next) == Sound::attempted(
            dev,
            source,
            next,
        ).release_buffer(next),
        dev.has_source(source) ==> Sound::rebound(dev, source, current, next).voice(
            source,
        ).bound == dev.voice(source).bound,
{
}

/// A sound that is whole on the device stays whole through a request to
/// rebind it to another live buffer, whether the request goes through or
/// not, as long as its old buffer has another holder when it stays.
pub proof fn lemma_set_datas_keeps_whole(dev: DeviceModel, source: u32, current: u32, next: u32)
    requires
        dev.has_source(source),
        dev.has_buffer(current),
        dev.has_buffer(next),
        dev.voice(source).bound == current,
        next != current,
        dev.buffer(next).holders >= 2,
    ensures
        ({
            let after = Sound::rebound(dev, source, current, next);
            let held = if Sound::takes(dev, source, next) { next } else { current };
            &&& after.has_source(source)
            &&& after.voice(source).bound == held
            &&& after.has_buffer(held)
        }),
{
}

/// A sound that was made is whole: its voice is live, in its initial
/// state, and bound to the buffer of its store, which is live.
pub proof fn lemma_new_sound_whole(dev: DeviceModel, buffer: u32)
    requires
        Sound::bound(dev, buffer).error == AL_NO_ERROR,
        buffer != 0,
    ensures
        Sound::made_device(dev, buffer).has_source(dev.next_source()),
        Sound::made_device(dev, buffer).voice(dev.next_source()).bound == buffer,
        Sound::made_device(dev, buffer).state_of(dev.next_source()) == State::Initial,
        Sound::made_device(dev, buffer).has_buffer(buffer),
        dev.has_buffer(buffer),
{
}

/// With a context, a sound that is whole plays after a play request,
/// whatever its state was; it stays whole, a paused sound resumes where it
/// was, and no buffer changes.
pub proof fn lemma_play_sound(sound: Sound, scope: ContextScope, dev: DeviceModel)
    requires
        dev.current != 0 || scope.data.is_some(),
        sound.live_on(dev),
    ensures
        ({
            let d = after(scope, dev, |x: DeviceModel| sound.played_on(x));
            &&& d.state_of(sound.source()) == State::Playing
            &&& sound.live_on(d)
            &&& d.buffers == dev.buffers
            &&& dev.state_of(sound.source()) == State::Paused ==> d.voice(sound.source()) == (
            VoiceModel { state: State::Playing, ..dev.voice(sound.source()) })
        }),
{
}

/// With a context, what one sound is asked to do leaves another sound as
/// it was, also where both play the same store: the other's voice is
/// untouched, it stays whole, and the buffer is neither changed nor
/// deleted.
pub proof fn lemma_other_sound_untouched(one: Sound, other: Sound, scope: ContextScope, dev: DeviceModel)
    requires
        dev.current != 0 || scope.data.is_some(),
        one.live_on(dev),
        other.live_on(dev),
        one.source() != other.source(),
    ensures
        ({
            let played = after(scope, dev, |x: DeviceModel| one.played_on(x));
            let paused = after(scope, dev, |x: DeviceModel| x.pause(one.source()));
            let stopped = after(scope, dev, |x: DeviceModel| x.stop(one.source()));
            &&& played.state_of(one.source()) == State::Playing
            &&& stopped.state_of(one.source()) == State::Stopped
            &&& played.voice(other.source()) == dev.voice(other.source())
            &&& paused.voice(other.source()) == dev.voice(other.source())
            &&& stopped.voice(other.source()) == dev.voice(other.source())
            &&& other.live_on(played) && other.live_on(paused) && other.live_on(stopped)
            &&& played.buffers == dev.buffers
            &&& paused.buffers == dev.buffers
            &&& stopped.buffers == dev.buffers
        }),
{
}

/// Ending a sound deletes its voice and nothing else while its store has
/// another holder: every other voice is as it was, and the buffer stays,
/// with one holder fewer.
pub proof fn lemma_release_sound(sound: Sound, other: u32, dev: DeviceModel)
    requires
        sound.live_on(dev),
        dev.buffer(sound.data().buffer()).holders >= 2,
        dev.has_source(other),
        other != sound.source(),
    ensures
        ({
            let d = dev.delete_source(sound.source()).release_buffer(sound.data().buffer());
            &&& !d.has_source(sound.source())
            &&& d.has_source(other)
            &&& d.voice(other) == dev.voice(other)
            &&& d.has_buffer(sound.data().buffer())
            &&& d.buffer(sound.data().buffer()) == (BufferModel {
                holders: (dev.buffer(sound.data().buffer()).holders - 1) as nat,
                ..dev.buffer(sound.data().buffer())
            })
        }),
{
}

} // verus!
