//! Initialization of a scope ahead of first use (optional).

use vstd::prelude::*;
use crate::device::Device;
use crate::internal::{ContextScope, OpenAlData};
use crate::record_context::RecordContext;

verus! {

/// Makes sure that the playback context exists; says whether it does.
pub fn init(scope: &mut ContextScope, dev: &mut Device) -> (done: bool)
    ensures
        *final(scope) == OpenAlData::checked(*old(scope), old(dev)@).scope,
        final(dev)@ == OpenAlData::checked(*old(scope), old(dev)@).device,
        done == OpenAlData::checked(*old(scope), old(dev)@).result.is_ok(),
{
    match OpenAlData::check_al_context(scope, dev) {
        Ok(_) => true,
        Err(_) => false,
    }
}

/// Makes sure that the input context exists; hands out the reference to
/// the capture device, or `None`.
pub fn init_in(scope: &mut ContextScope, dev: &mut Device) -> (ctxt: Option<RecordContext>)
    ensures
        *final(scope) == OpenAlData::input_context_checked(*old(scope), old(dev)@).scope,
        final(dev)@ == OpenAlData::input_context_checked(*old(scope), old(dev)@).device,
        ctxt == (match OpenAlData::input_context_checked(*old(scope), old(dev)@).result {
            Ok(c) => Some(c),
            Err(_) => None,
        }),
{
    match OpenAlData::check_al_input_context(scope, dev) {
        Ok(ctxt) => Some(ctxt),
        Err(_) => None,
    }
}

} // verus!
