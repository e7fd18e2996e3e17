//! The playback context of a scope, made on first use.
//!
//! A scope is a logical unit of execution with its own storage. The first
//! operation that needs audio in a scope opens the output device and makes
//! a context current, unless a context is current already. The capture
//! device belongs to the scope that made the playback context.

use vstd::prelude::*;
use crate::device::{Command, Device, DeviceModel};
use crate::openal::{ALCcontext, ALCdevice, AL_FORMAT_MONO16, CAPTURE_SAMPLE_RATE};
use crate::record_context;
use crate::record_context::RecordContext;

verus! {

/// Why a context could not be had.
#[derive(Clone, Copy, PartialEq, Eq, Debug, Structural)]
pub enum ContextError {
    /// The default output device cannot be opened.
    DeviceOpenError,
    /// The context cannot be created.
    ContextCreateError,
    /// The context cannot be made current.
    ContextActivationError,
    /// The input context was asked for in a scope that did not make the
    /// playback context.
    ScopeViolation,
    /// The backend has no capture support.
    CaptureExtensionUnavailable,
    /// The default capture device cannot be opened.
    CaptureDeviceOpenError,
}

impl ContextError {
    /// The text of the error.
    pub open spec fn text(self) -> Seq<char> {
        match self {
            ContextError::DeviceOpenError => "Internal error: cannot open the default device."@,
            ContextError::ContextCreateError => "Internal error: cannot create the OpenAL context."@,
            ContextError::ContextActivationError =>
                "Internal error: cannot make the OpenAL context current."@,
            ContextError::ScopeViolation =>
                "Error: you must request the input context, in the task where you initialize ears."@,
            ContextError::CaptureExtensionUnavailable =>
                "Error: no input device available on your system."@,
            ContextError::CaptureDeviceOpenError =>
                "Internal error: cannot open the default capture device."@,
        }
    }

    /// The error in words, for a diagnostic.
    pub fn message(self) -> (message: String)
        ensures
            message@ == self.text(),
    {
        match self {
            ContextError::DeviceOpenError =>
                "Internal error: cannot open the default device.".to_owned(),
            ContextError::ContextCreateError =>
                "Internal error: cannot create the OpenAL context.".to_owned(),
            ContextError::ContextActivationError =>
                "Internal error: cannot make the OpenAL context current.".to_owned(),
            ContextError::ScopeViolation =>
                "Error: you must request the input context, in the task where you initialize ears.".to_owned(),
            ContextError::CaptureExtensionUnavailable =>
                "Error: no input device available on your system.".to_owned(),
            ContextError::CaptureDeviceOpenError =>
                "Internal error: cannot open the default capture device.".to_owned(),
        }
    }
}

/// The handles a scope owns once it has made the playback context.
#[derive(Clone, Copy, PartialEq, Eq, Debug, Structural)]
pub struct OpenAlData {
    /// The playback context.
    pub al_context: ALCcontext,
    /// The output device.
    pub al_device: ALCdevice,
    /// The capture device; handle 0 until input is first asked for.
    pub al_capt_device: ALCdevice,
}

/// The storage of one scope: its context data, once made.
#[derive(Clone, Copy, PartialEq, Eq, Debug, Structural)]
pub struct ContextScope {
    /// The context data of this scope.
    pub data: Option<OpenAlData>,
}

/// What comes of making a context: the device afterwards, and the data or
/// the error.
pub struct Made {
    pub device: DeviceModel,
    pub result: Result<OpenAlData, ContextError>,
}

/// What comes of a context check: the scope and the device afterwards, and
/// the error if there is one.
pub struct Checked {
    pub scope: ContextScope,
    pub device: DeviceModel,
    pub result: Result<(), ContextError>,
}

/// What comes of an input context check.
pub struct CheckedInput {
    pub scope: ContextScope,
    pub device: DeviceModel,
    pub result: Result<RecordContext, ContextError>,
}

impl OpenAlData {
    /// Making a context on `dev`: open the output device, create a context
    /// on it, make it current; the first step that fails decides the error.
    pub open spec fn made(dev: DeviceModel) -> Made {
        let device = dev.open_device_result();
        let d1 = dev.open_device();
        if device == 0 {
            Made { device: d1, result: Err(ContextError::DeviceOpenError) }
        } else {
            let context = d1.create_context_result(device);
            let d2 = d1.create_context(device);
            if context == 0 {
                Made { device: d2, result: Err(ContextError::ContextCreateError) }
            } else {
                let d3 = d2.make_context_current(context);
                if !d2.hardware.activation {
                    Made { device: d3, result: Err(ContextError::ContextActivationError) }
                } else {
                    Made {
                        device: d3,
                        result: Ok(
                            OpenAlData {
                                al_context: ALCcontext { handle: context },
                                al_device: ALCdevice { handle: device },
                                al_capt_device: ALCdevice { handle: 0 },
                            },
                        ),
                    }
                }
            }
        }
    }

    fn new(dev: &mut Device) -> (result: Result<OpenAlData, ContextError>)
        ensures
            final(dev)@ == Self::made(old(dev)@).device,
            result == Self::made(old(dev)@).result,
    {
        let device = dev.open_device();
        if device == 0 {
            return Err(ContextError::DeviceOpenError);
        }
        let context = dev.create_context(device);
        if context == 0 {
            return Err(ContextError::ContextCreateError);
        }
        if !dev.make_context_current(context) {
            return Err(ContextError::ContextActivationError);
        }
        Ok(
            OpenAlData {
                al_context: ALCcontext { handle: context },
                al_device: ALCdevice { handle: device },
                al_capt_device: ALCdevice { handle: 0 },
            },
        )
    }

    /// The context check: nothing to do where a context is current or the
    /// scope has its data; otherwise a context is made and kept in the
    /// scope.
    pub open spec fn checked(scope: ContextScope, dev: DeviceModel) -> Checked {
        if dev.current != 0 || scope.data.is_some() {
            Checked { scope, device: dev, result: Ok(()) }
        } else {
            let made = Self::made(dev);
            match made.result {
                Ok(data) => Checked {
                    scope: ContextScope { data: Some(data) },
                    device: made.device,
                    result: Ok(()),
                },
                Err(e) => Checked { scope, device: made.device, result: Err(e) },
            }
        }
    }

    /// Makes sure that a playback context exists, making one in this scope
    /// if none is current and the scope has none.
    pub fn check_al_context(scope: &mut ContextScope, dev: &mut Device) -> (result: Result<
        (),
        ContextError,
    >)
        ensures
            *final(scope) == Self::checked(*old(scope), old(dev)@).scope,
            final(dev)@ == Self::checked(*old(scope), old(dev)@).device,
            result == Self::checked(*old(scope), old(dev)@).result,
    {
        if dev.current_context() != 0 {
            return Ok(());
        }
        match scope.data {
            Some(_) => Ok(()),
            None => {
                match OpenAlData::new(dev) {
                    Ok(al_data) => {
                        scope.data = Some(al_data);
                        Ok(())
                    },
                    Err(err) => Err(err),
                }
            },
        }
    }

    /// The input check of a scope: a scope without context data is
    /// refused; one whose capture device is open hands it out; otherwise
    /// the capture device is opened, mono, 16 bit, 44.1 kHz, if the backend
    /// can capture.
    pub open spec fn input_checked(scope: ContextScope, dev: DeviceModel) -> CheckedInput {
        match scope.data {
            None => CheckedInput { scope, device: dev, result: Err(ContextError::ScopeViolation) },
            Some(data) => {
                if data.al_capt_device.handle != 0 {
                    CheckedInput {
                        scope,
                        device: dev,
                        result: Ok(record_context::RecordContext::of(data.al_capt_device)),
                    }
                } else if !dev.hardware.capture_extension {
                    CheckedInput {
                        scope,
                        device: dev,
                        result: Err(ContextError::CaptureExtensionUnavailable),
                    }
                } else {
                    let handle = dev.capture_open_result();
                    let d = dev.capture_open_device(
                        CAPTURE_SAMPLE_RATE,
                        AL_FORMAT_MONO16,
                        CAPTURE_SAMPLE_RATE,
                    );
                    if handle == 0 {
                        CheckedInput {
                            scope,
                            device: d,
                            result: Err(ContextError::CaptureDeviceOpenError),
                        }
                    } else {
                        CheckedInput {
                            scope: ContextScope {
                                data: Some(
                                    OpenAlData { al_capt_device: ALCdevice { handle }, ..data },
                                ),
                            },
                            device: d,
                            result: Ok(record_context::RecordContext::of(ALCdevice { handle })),
                        }
                    }
                }
            },
        }
    }

    fn is_input_context_init(scope: &mut ContextScope, dev: &mut Device) -> (result: Result<
        RecordContext,
        ContextError,
    >)
        ensures
            *final(scope) == Self::input_checked(*old(scope), old(dev)@).scope,
            final(dev)@ == Self::input_checked(*old(scope), old(dev)@).device,
            result == Self::input_checked(*old(scope), old(dev)@).result,
    {
        match scope.data {
            Some(data) => {
                if data.al_capt_device.handle != 0 {
                    Ok(record_context::new(data.al_capt_device))
                } else if !dev.is_capture_extension_present() {
                    Err(ContextError::CaptureExtensionUnavailable)
                } else {
                    let handle = dev.capture_open_device(
                        CAPTURE_SAMPLE_RATE,
                        AL_FORMAT_MONO16,
                        CAPTURE_SAMPLE_RATE,
                    );
                    if handle == 0 {
                        Err(ContextError::CaptureDeviceOpenError)
                    } else {
                        let cap_device = ALCdevice { handle };
                        scope.data = Some(
                            OpenAlData {
                                al_context: data.al_context,
                                al_device: data.al_device,
                                al_capt_device: cap_device,
                            },
                        );
                        Ok(record_context::new(cap_device))
                    }
                }
            },
            None => Err(ContextError::ScopeViolation),
        }
    }

    /// The whole input context check: the context check first, then, if it
    /// passed, the input check of the scope.
    pub open spec fn input_context_checked(scope: ContextScope, dev: DeviceModel)
        -> CheckedInput {
        let c = Self::checked(scope, dev);
        match c.result {
            Ok(_) => Self::input_checked(c.scope, c.device),
            Err(e) => CheckedInput { scope: c.scope, device: c.device, result: Err(e) },
        }
    }

    /// Makes sure that the input context exists and hands out a reference
    /// to the capture device. The scope must be the one that made the
    /// playback context.
    pub fn check_al_input_context(scope: &mut ContextScope, dev: &mut Device) -> (result: Result<
        RecordContext,
        ContextError,
    >)
        ensures
            *final(scope) == Self::input_context_checked(*old(scope), old(dev)@).scope,
            final(dev)@ == Self::input_context_checked(*old(scope), old(dev)@).device,
            result == Self::input_context_checked(*old(scope), old(dev)@).result,
    {
        if dev.current_context() != 0 {
            OpenAlData::is_input_context_init(scope, dev)
        } else {
            match OpenAlData::check_al_context(scope, dev) {
                Ok(_) => OpenAlData::is_input_context_init(scope, dev),
                Err(err) => Err(err),
            }
        }
    }
}

impl ContextScope {
    /// A scope that has made no context.
    pub fn new() -> (scope: ContextScope)
        ensures
            scope.data.is_none(),
    {
        ContextScope { data: None }
    }

    /// The device after the scope ended: the playback context destroyed,
    /// then the capture device closed if it was open, then the output
    /// device closed.
    pub open spec fn torn_down(self, dev: DeviceModel) -> DeviceModel {
        match self.data {
            None => dev,
            Some(data) => {
                let d1 = dev.destroy_context(data.al_context.handle);
                let d2 = if data.al_capt_device.handle != 0 {
                    d1.capture_close_device(data.al_capt_device.handle)
                } else {
                    d1
                };
                d2.close_device(data.al_device.handle)
            },
        }
    }

    /// Ends the scope: releases what it owns, the capture device before the
    /// output device, and forgets it.
    pub fn teardown(&mut self, dev: &mut Device)
        ensures
            final(self).data.is_none(),
            final(dev)@ == old(self).torn_down(old(dev)@),
    {
        match self.data {
            Some(data) => {
                dev.destroy_context(data.al_context.handle);
                if data.al_capt_device.handle != 0 {
                    dev.capture_close_device(data.al_capt_device.handle);
                }
                dev.close_device(data.al_device.handle);
                self.data = None;
            },
            None => {},
        }
    }
}

/// Where a context is current, or the scope has its data, the context check
/// passes and changes nothing.
pub proof fn lemma_check_is_idle(scope: ContextScope, dev: DeviceModel)
    requires
        dev.current != 0 || scope.data.is_some(),
    ensures
        OpenAlData::checked(scope, dev) == (Checked { scope, device: dev, result: Ok(()) }),
{
}

/// The context check passes a second time, and then changes nothing.
pub proof fn lemma_check_twice(scope: ContextScope, dev: DeviceModel)
    requires
        OpenAlData::checked(scope, dev).result.is_ok(),
    ensures
        ({
            let c = OpenAlData::checked(scope, dev);
            OpenAlData::checked(c.scope, c.device) == c
        }),
{
}

/// On a machine with no context yet, the check fails exactly where the
/// hardware falls short, with the error of the first step that fails.
pub proof fn lemma_check_errors(scope: ContextScope, dev: DeviceModel)
    requires
        dev.current == 0,
        scope.data.is_none(),
        dev.handles < usize::MAX - 1,
    ensures
        OpenAlData::checked(scope, dev).result == (if !dev.hardware.output {
            Err::<(), ContextError>(ContextError::DeviceOpenError)
        } else if !dev.hardware.context {
            Err(ContextError::ContextCreateError)
        } else if !dev.hardware.activation {
            Err(ContextError::ContextActivationError)
        } else {
            Ok(())
        }),
        OpenAlData::checked(scope, dev).result.is_ok() ==> OpenAlData::checked(
            scope,
            dev,
        ).device.current != 0,
{
}

/// A scope that did not make the playback context is refused the input
/// context: where another scope's context is current and this scope has
/// no data, the request fails as a scope violation and changes nothing.
pub proof fn lemma_input_needs_own_scope(scope: ContextScope, dev: DeviceModel)
    requires
        scope.data.is_none(),
        dev.current != 0,
    ensures
        OpenAlData::input_context_checked(scope, dev) == (CheckedInput {
            scope,
            device: dev,
            result: Err(ContextError::ScopeViolation),
        }),
{
}

/// The scope that made the playback context gets the input context where
/// the machine can capture, and gets the same capture device each time.
pub proof fn lemma_input_in_own_scope(scope: ContextScope, dev: DeviceModel)
    requires
        scope.data.is_some(),
        scope.data.unwrap().al_capt_device.handle == 0,
        dev.hardware.capture_extension,
        dev.hardware.capture,
        dev.can_handle(),
    ensures
        ({
            let first = OpenAlData::input_context_checked(scope, dev);
            let second = OpenAlData::input_context_checked(first.scope, first.device);
            &&& first.result.is_ok()
            &&& second.result == first.result
            &&& second.device == first.device
            &&& second.scope == first.scope
        }),
{
}

/// Ending a scope closes the capture device before the output device, and
/// destroys the context before both.
pub proof fn lemma_teardown_order(scope: ContextScope, dev: DeviceModel)
    requires
        scope.data.is_some(),
        scope.data.unwrap().al_capt_device.handle != 0,
    ensures
        scope.torn_down(dev).log == dev.log + seq![
            Command::DestroyContext { context: scope.data.unwrap().al_context.handle },
            Command::CaptureCloseDevice { device: scope.data.unwrap().al_capt_device.handle },
            Command::CloseDevice { device: scope.data.unwrap().al_device.handle },
        ],
{
}

} // verus!
