//! The transport controls that a sound and a music share.

use vstd::prelude::*;
use crate::device::{Device, DeviceModel};
use crate::internal::{ContextScope, OpenAlData};
use crate::states::State;

verus! {

/// The device after an operation that begins with the context check: where
/// the check fails, the operation does nothing more.
pub open spec fn after(
    scope: ContextScope,
    dev: DeviceModel,
    op: spec_fn(DeviceModel) -> DeviceModel,
) -> DeviceModel {
    let c = OpenAlData::checked(scope, dev);
    if c.result.is_ok() {
        op(c.device)
    } else {
        c.device
    }
}

/// The scope after the context check.
pub open spec fn scope_after(scope: ContextScope, dev: DeviceModel) -> ContextScope {
    OpenAlData::checked(scope, dev).scope
}

/// Whether the context check passes.
pub open spec fn context_ok(scope: ContextScope, dev: DeviceModel) -> bool {
    OpenAlData::checked(scope, dev).result.is_ok()
}

/// Where a context is current, or the scope has its data, an operation does
/// just what it is for: the context check changes nothing.
pub proof fn lemma_after_live(
    scope: ContextScope,
    dev: DeviceModel,
    op: spec_fn(DeviceModel) -> DeviceModel,
)
    requires
        dev.current != 0 || scope.data.is_some(),
    ensures
        context_ok(scope, dev),
        scope_after(scope, dev) == scope,
        after(scope, dev, op) == op(dev),
{
}

/// With a context, a stop request leaves a live voice stopped, whatever its
/// state was, and a second stop request changes no voice and no buffer.
pub proof fn lemma_stop_leaves_stopped(scope: ContextScope, dev: DeviceModel, source: u32)
    requires
        dev.current != 0 || scope.data.is_some(),
        dev.has_source(source),
    ensures
        ({
            let once = after(scope, dev, |d: DeviceModel| d.stop(source));
            let twice = after(scope_after(scope, dev), once, |d: DeviceModel| d.stop(source));
            &&& once.state_of(source) == State::Stopped
            &&& twice.state_of(source) == State::Stopped
            &&& twice.voices == once.voices
            &&& twice.buffers == once.buffers
        }),
{
    let once = dev.stop(source);
    assert(once.stop(source).voices =~= once.voices);
}

/// With a context, a pause request leaves a playing voice paused and any
/// other voice in its state.
pub proof fn lemma_pause_leaves_paused(scope: ContextScope, dev: DeviceModel, source: u32)
    requires
        dev.current != 0 || scope.data.is_some(),
        dev.has_source(source),
    ensures
        after(scope, dev, |d: DeviceModel| d.pause(source)).state_of(source) == (if dev.state_of(
            source,
        ) == State::Playing {
            State::Paused
        } else {
            dev.state_of(source)
        }),
{
}

/// With a context, the flags of a live voice read back as they were set.
pub proof fn lemma_flags_set(scope: ContextScope, dev: DeviceModel, source: u32, flag: bool)
    requires
        dev.current != 0 || scope.data.is_some(),
        dev.has_source(source),
    ensures
        after(scope, dev, |d: DeviceModel| d.set_looping(source, flag)).has_source(source),
        after(scope, dev, |d: DeviceModel| d.set_looping(source, flag)).voice(source).looping
            == flag,
        after(scope, dev, |d: DeviceModel| d.set_relative(source, flag)).has_source(source),
        after(scope, dev, |d: DeviceModel| d.set_relative(source, flag)).voice(source).relative
            == flag,
{
}

/// Pauses the voice `source`, if there is a context.
pub fn pause_source(scope: &mut ContextScope, dev: &mut Device, source: u32)
    ensures
        *final(scope) == scope_after(*old(scope), old(dev)@),
        final(dev)@ == after(*old(scope), old(dev)@, |d: DeviceModel| d.pause(source)),
{
    if OpenAlData::check_al_context(scope, dev).is_ok() {
        dev.source_pause(source);
    }
}

/// Stops the voice `source`, if there is a context.
pub fn stop_source(scope: &mut ContextScope, dev: &mut Device, source: u32)
    ensures
        *final(scope) == scope_after(*old(scope), old(dev)@),
        final(dev)@ == after(*old(scope), old(dev)@, |d: DeviceModel| d.stop(source)),
{
    if OpenAlData::check_al_context(scope, dev).is_ok() {
        dev.source_stop(source);
    }
}

/// The state of the voice `source`; `Initial` without a context.
pub fn source_state(scope: &mut ContextScope, dev: &mut Device, source: u32) -> (state: State)
    ensures
        *final(scope) == scope_after(*old(scope), old(dev)@),
        final(dev)@ == OpenAlData::checked(*old(scope), old(dev)@).device,
        state == (if context_ok(*old(scope), old(dev)@) {
            final(dev)@.state_of(source)
        } else {
            State::Initial
        }),
{
    if OpenAlData::check_al_context(scope, dev).is_ok() {
        dev.source_state(source)
    } else {
        State::Initial
    }
}

/// Sets the looping flag of the voice `source`, if there is a context.
pub fn set_source_looping(scope: &mut ContextScope, dev: &mut Device, source: u32, looping: bool)
    ensures
        *final(scope) == scope_after(*old(scope), old(dev)@),
        final(dev)@ == after(
            *old(scope),
            old(dev)@,
            |d: DeviceModel| d.set_looping(source, looping),
        ),
{
    if OpenAlData::check_al_context(scope, dev).is_ok() {
        dev.set_looping(source, looping);
    }
}

/// The looping flag of the voice `source`; `false` without a context.
pub fn source_looping(scope: &mut ContextScope, dev: &mut Device, source: u32) -> (looping: bool)
    ensures
        *final(scope) == scope_after(*old(scope), old(dev)@),
        final(dev)@ == OpenAlData::checked(*old(scope), old(dev)@).device,
        looping == (context_ok(*old(scope), old(dev)@) && final(dev)@.has_source(source)
            && final(dev)@.voice(source).looping),
{
    if OpenAlData::check_al_context(scope, dev).is_ok() {
        dev.get_looping(source)
    } else {
        false
    }
}

/// Sets the relative flag of the voice `source`, if there is a context.
pub fn set_source_relative(scope: &mut ContextScope, dev: &mut Device, source: u32, relative: bool)
    ensures
        *final(scope) == scope_after(*old(scope), old(dev)@),
        final(dev)@ == after(
            *old(scope),
            old(dev)@,
            |d: DeviceModel| d.set_relative(source, relative),
        ),
{
    if OpenAlData::check_al_context(scope, dev).is_ok() {
        dev.set_relative(source, relative);
    }
}

/// The relative flag of the voice `source`; `false` without a context.
pub fn source_relative(scope: &mut ContextScope, dev: &mut Device, source: u32) -> (relative: bool)
    ensures
        *final(scope) == scope_after(*old(scope), old(dev)@),
        final(dev)@ == OpenAlData::checked(*old(scope), old(dev)@).device,
        relative == (context_ok(*old(scope), old(dev)@) && final(dev)@.has_source(source)
            && final(dev)@.voice(source).relative),
{
    if OpenAlData::check_al_context(scope, dev).is_ok() {
        dev.get_relative(source)
    } else {
        false
    }
}

/// What an audio source offers: transport controls and the flags of its
/// voice. Every operation begins with the context check of the scope and
/// does nothing more where that fails.
pub trait AudioController: Sized {
    /// What holds of every value of the type.
    spec fn wf(&self) -> bool;

    /// The voice of the audio source.
    spec fn source(&self) -> u32;

    /// The identifier of the voice of the audio source.
    fn voice(&self) -> (id: u32)
        ensures
            id == self.source(),
    ;

    /// The device after this audio source was asked to play, on a device
    /// with a context.
    spec fn played_on(&self, dev: DeviceModel) -> DeviceModel;

    /// Play or resume the audio source.
    fn play(&mut self, scope: &mut ContextScope, dev: &mut Device)
        requires
            old(self).wf(),
        ensures
            final(self).wf(),
            final(self).source() == old(self).source(),
            *final(scope) == scope_after(*old(scope), old(dev)@),
            final(dev)@ == after(
                *old(scope),
                old(dev)@,
                |d: DeviceModel| old(self).played_on(d),
            ),
    ;

    /// Pause the audio source.
    fn pause(&mut self, scope: &mut ContextScope, dev: &mut Device)
        requires
            old(self).wf(),
        ensures
            *final(self) == *old(self),
            *final(scope) == scope_after(*old(scope), old(dev)@),
            final(dev)@ == after(
                *old(scope),
                old(dev)@,
                |d: DeviceModel| d.pause(old(self).source()),
            ),
    ;

    /// Stop the audio source.
    fn stop(&mut self, scope: &mut ContextScope, dev: &mut Device)
        requires
            old(self).wf(),
        ensures
            *final(self) == *old(self),
            *final(scope) == scope_after(*old(scope), old(dev)@),
            final(dev)@ == after(
                *old(scope),
                old(dev)@,
                |d: DeviceModel| d.stop(old(self).source()),
            ),
    ;

    /// Whether the audio source is playing.
    fn is_playing(&self, scope: &mut ContextScope, dev: &mut Device) -> (playing: bool)
        ensures
            *final(scope) == scope_after(*old(scope), old(dev)@),
            final(dev)@ == OpenAlData::checked(*old(scope), old(dev)@).device,
            playing == (context_ok(*old(scope), old(dev)@) && final(dev)@.state_of(self.source())
                == State::Playing),
    ;

    /// The state of the audio source; `Initial` without a context.
    fn get_state(&self, scope: &mut ContextScope, dev: &mut Device) -> (state: State)
        ensures
            *final(scope) == scope_after(*old(scope), old(dev)@),
            final(dev)@ == OpenAlData::checked(*old(scope), old(dev)@).device,
            state == (if context_ok(*old(scope), old(dev)@) {
                final(dev)@.state_of(self.source())
            } else {
                State::Initial
            }),
    ;

    /// Set the audio source looping or not.
    fn set_looping(&mut self, scope: &mut ContextScope, dev: &mut Device, looping: bool)
        ensures
            *final(self) == *old(self),
            *final(scope) == scope_after(*old(scope), old(dev)@),
            final(dev)@ == after(
                *old(scope),
                old(dev)@,
                |d: DeviceModel| d.set_looping(old(self).source(), looping),
            ),
    ;

    /// Whether the audio source is looping; `false` without a context.
    fn is_looping(&self, scope: &mut ContextScope, dev: &mut Device) -> (looping: bool)
        ensures
            *final(scope) == scope_after(*old(scope), old(dev)@),
            final(dev)@ == OpenAlData::checked(*old(scope), old(dev)@).device,
            looping == (context_ok(*old(scope), old(dev)@) && final(dev)@.has_source(self.source())
                && final(dev)@.voice(self.source()).looping),
    ;

    /// Set the position of the audio source relative to the listener or
    /// absolute.
    fn set_relative(&mut self, scope: &mut ContextScope, dev: &mut Device, relative: bool)
        ensures
            *final(self) == *old(self),
            *final(scope) == scope_after(*old(scope), old(dev)@),
            final(dev)@ == after(
                *old(scope),
                old(dev)@,
                |d: DeviceModel| d.set_relative(old(self).source(), relative),
            ),
    ;

    /// Whether the audio source is relative to the listener; `false`
    /// without a context.
    fn is_relative(&self, scope: &mut ContextScope, dev: &mut Device) -> (relative: bool)
        ensures
            *final(scope) == scope_after(*old(scope), old(dev)@),
            final(dev)@ == OpenAlData::checked(*old(scope), old(dev)@).device,
            relative == (context_ok(*old(scope), old(dev)@) && final(dev)@.has_source(
                self.source(),
            ) && final(dev)@.voice(self.source()).relative),
    ;
}

} // verus!
