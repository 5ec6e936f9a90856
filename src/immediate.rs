use vstd::prelude::*;
use wgpu::{Device, Features, ImageCopyTexture, Limits, Texture};

use crate::dispatch::{Operation, Strategy};

verus! {

/// An operation that does no blocking work, so it runs directly on the
/// calling task, in the order the task issues it.
pub enum ImmediateCall<'a> {
    Features { device: &'a Device },
    Limits { device: &'a Device },
    StartCapture { device: &'a Device },
    StopCapture { device: &'a Device },
    AsImageCopy { texture: &'a Texture },
}

/// What an immediate call hands back; a copy view borrows its texture.
pub enum ImmediateProduct<'a> {
    Done,
    Features(Features),
    Limits(Limits),
    ImageCopy(ImageCopyTexture<'a>),
}

/// The kind of product each immediate operation hands back.
pub open spec fn immediate_product_fits(op: Operation, p: ImmediateProduct) -> bool {
    match op {
        Operation::Features => p is Features,
        Operation::Limits => p is Limits,
        Operation::StartCapture | Operation::StopCapture => p is Done,
        Operation::AsImageCopy => p is ImageCopy,
        _ => false,
    }
}

impl<'a> ImmediateCall<'a> {
    pub open spec fn operation_spec(&self) -> Operation {
        match self {
            ImmediateCall::Features { .. } => Operation::Features,
            ImmediateCall::Limits { .. } => Operation::Limits,
            ImmediateCall::StartCapture { .. } => Operation::StartCapture,
            ImmediateCall::StopCapture { .. } => Operation::StopCapture,
            ImmediateCall::AsImageCopy { .. } => Operation::AsImageCopy,
        }
    }

    /// The operation this call performs.
    pub fn operation(&self) -> (r: Operation)
        ensures
            r == self.operation_spec(),
    {
        match self {
            ImmediateCall::Features { .. } => Operation::Features,
            ImmediateCall::Limits { .. } => Operation::Limits,
            ImmediateCall::StartCapture { .. } => Operation::StartCapture,
            ImmediateCall::StopCapture { .. } => Operation::StopCapture,
            ImmediateCall::AsImageCopy { .. } => Operation::AsImageCopy,
        }
    }

    /// Performs the operation and hands back its result.
    pub fn run(self) -> (r: ImmediateProduct<'a>)
        ensures
            immediate_product_fits(self.operation_spec(), r),
    {
        match self {
            ImmediateCall::Features { device } => ImmediateProduct::Features(features(device)),
            ImmediateCall::Limits { device } => ImmediateProduct::Limits(limits(device)),
            ImmediateCall::StartCapture { device } => {
                start_capture(device);
                ImmediateProduct::Done
            },
            ImmediateCall::StopCapture { device } => {
                stop_capture(device);
                ImmediateProduct::Done
            },
            ImmediateCall::AsImageCopy { texture } => ImmediateProduct::ImageCopy(
                as_image_copy(texture),
            ),
        }
    }
}

/// Every call that runs directly is an operation that does no blocking work.
pub proof fn lemma_immediate_calls_are_immediate(call: &ImmediateCall)
    ensures
        call.operation_spec().strategy_spec() == Strategy::Immediate,
{
}

/// Relies on wgpu::Device::features: the features the device was made with.
#[verifier::external_body]
fn features(device: &Device) -> Features {
    device.features()
}

/// Relies on wgpu::Device::limits: the limits the device was made with.
#[verifier::external_body]
fn limits(device: &Device) -> Limits {
    device.limits()
}

/// Relies on wgpu::Device::start_capture.
#[verifier::external_body]
fn start_capture(device: &Device) {
    device.start_capture()
}

/// Relies on wgpu::Device::stop_capture.
#[verifier::external_body]
fn stop_capture(device: &Device) {
    device.stop_capture()
}

/// Relies on wgpu::Texture::as_image_copy: a copy view of the whole
/// texture, borrowing it.
#[verifier::external_body]
fn as_image_copy<'a>(texture: &'a Texture) -> ImageCopyTexture<'a> {
    texture.as_image_copy()
}

} // verus!
