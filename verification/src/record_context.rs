//! The context needed to make a recorder.

use vstd::prelude::*;
use crate::openal::ALCdevice;

verus! {

/// A reference to the shared capture device. It does not own the device.
#[derive(Clone, Copy, PartialEq, Eq, Debug, Structural)]
pub struct RecordContext {
    capt_device: ALCdevice,
}

impl RecordContext {
    /// The capture device referred to.
    pub closed spec fn device(self) -> ALCdevice {
        self.capt_device
    }

    /// The record context that refers to `capt_device`.
    pub closed spec fn of(capt_device: ALCdevice) -> RecordContext {
        RecordContext { capt_device }
    }

    /// A record context is known by the device it refers to.
    pub proof fn lemma_of(capt_device: ALCdevice)
        ensures
            Self::of(capt_device).device() == capt_device,
    {
    }
}

/// The record context that refers to `capt_device`.
pub fn new(capt_device: ALCdevice) -> (ctxt: RecordContext)
    ensures
        ctxt == RecordContext::of(capt_device),
        ctxt.device() == capt_device,
{
    RecordContext { capt_device }
}

/// The capture device that `ctxt` refers to.
pub fn get(ctxt: RecordContext) -> (capt_device: ALCdevice)
    ensures
        capt_device == ctxt.device(),
{
    ctxt.capt_device
}

} // verus!
