use std::sync::Arc;
use vstd::prelude::*;
use wgpu::{Device, ErrorFilter};

verus! {

/// A shared device together with a count of the error scopes pushed
/// through this value. Pushing runs on the calling task, so a scope is in
/// place before any operation that the task awaits afterwards.
pub struct ScopedDevice {
    pub device: Arc<Device>,
    pub pushed: Ghost<nat>,
}

impl ScopedDevice {
    /// Wraps a device; no scope has been pushed through the result yet.
    pub fn new(device: Arc<Device>) -> (r: ScopedDevice)
        ensures
            r.device == device,
            r.pushed@ == 0,
    {
        ScopedDevice { device, pushed: Ghost(0) }
    }

    /// Opens an error scope on the device that captures the errors that pass
    /// `filter`, until the matching pop.
    pub fn push_error_scope(&mut self, filter: ErrorFilter)
        ensures
            final(self).device == old(self).device,
            final(self).pushed@ == old(self).pushed@ + 1,
    {
        push_error_scope(self, filter);
    }
}

/// Relies on wgpu::Device::push_error_scope, which pushes a scope for
/// `filter` onto the device's stack of error scopes, one per call.
#[verifier::external_body]
fn push_error_scope(d: &mut ScopedDevice, filter: ErrorFilter)
    ensures
        final(d).device == old(d).device,
        final(d).pushed@ == old(d).pushed@ + 1,
{
    d.device.push_error_scope(filter)
}

} // verus!
