use vstd::prelude::*;
use wgpu::{
    BindGroupDescriptor, ComputePipelineDescriptor, Device, PipelineLayoutDescriptor,
    RenderBundleEncoderDescriptor, RenderPipelineDescriptor, Texture, TextureViewDescriptor,
};

use crate::dispatch::{Operation, Strategy};

verus! {

/// A pinned operation with the borrows it runs under. It must run on the
/// thread that holds those borrows; a panic raised by it unwinds that
/// thread as a direct call would.
pub enum PinnedCall<'a> {
    CreateRenderBundleEncoder { device: &'a Device, desc: &'a RenderBundleEncoderDescriptor<'a> },
    CreateBindGroup { device: &'a Device, desc: &'a BindGroupDescriptor<'a> },
    CreatePipelineLayout { device: &'a Device, desc: &'a PipelineLayoutDescriptor<'a> },
    CreateRenderPipeline { device: &'a Device, desc: &'a RenderPipelineDescriptor<'a> },
    CreateComputePipeline { device: &'a Device, desc: &'a ComputePipelineDescriptor<'a> },
    CreateView { texture: &'a Texture, desc: &'a TextureViewDescriptor<'a> },
    Destroy { texture: &'a Texture },
}

impl<'a> PinnedCall<'a> {
    pub open spec fn operation_spec(&self) -> Operation {
        match self {
            PinnedCall::CreateRenderBundleEncoder { .. } => Operation::CreateRenderBundleEncoder,
            PinnedCall::CreateBindGroup { .. } => Operation::CreateBindGroup,
            PinnedCall::CreatePipelineLayout { .. } => Operation::CreatePipelineLayout,
            PinnedCall::CreateRenderPipeline { .. } => Operation::CreateRenderPipeline,
            PinnedCall::CreateComputePipeline { .. } => Operation::CreateComputePipeline,
            PinnedCall::CreateView { .. } => Operation::CreateView,
            PinnedCall::Destroy { .. } => Operation::Destroy,
        }
    }

    /// The operation this call performs.
    pub fn operation(&self) -> (r: Operation)
        ensures
            r == self.operation_spec(),
    {
        match self {
            PinnedCall::CreateRenderBundleEncoder { .. } => Operation::CreateRenderBundleEncoder,
            PinnedCall::CreateBindGroup { .. } => Operation::CreateBindGroup,
            PinnedCall::CreatePipelineLayout { .. } => Operation::CreatePipelineLayout,
            PinnedCall::CreateRenderPipeline { .. } => Operation::CreateRenderPipeline,
            PinnedCall::CreateComputePipeline { .. } => Operation::CreateComputePipeline,
            PinnedCall::CreateView { .. } => Operation::CreateView,
            PinnedCall::Destroy { .. } => Operation::Destroy,
        }
    }
}

/// Every call that runs where its borrows live is a pinned operation.
pub proof fn lemma_pinned_calls_are_pinned(call: &PinnedCall)
    ensures
        call.operation_spec().strategy_spec() == Strategy::Pinned,
{
}

/// Every pinned operation has a call form that keeps its borrows.
pub proof fn lemma_pinned_has_call(op: Operation)
    requires
        op.strategy_spec() == Strategy::Pinned,
    ensures
        exists|c: PinnedCall| #[trigger] c.operation_spec() == op,
{
    let device: &Device = arbitrary();
    let texture: &Texture = arbitrary();
    let c = match op {
        Operation::CreateRenderBundleEncoder => PinnedCall::CreateRenderBundleEncoder {
            device,
            desc: arbitrary(),
        },
        Operation::CreateBindGroup => PinnedCall::CreateBindGroup { device, desc: arbitrary() },
        Operation::CreatePipelineLayout => PinnedCall::CreatePipelineLayout {
            device,
            desc: arbitrary(),
        },
        Operation::CreateRenderPipeline => PinnedCall::CreateRenderPipeline {
            device,
            desc: arbitrary(),
        },
        Operation::CreateComputePipeline => PinnedCall::CreateComputePipeline {
            device,
            desc: arbitrary(),
        },
        Operation::CreateView => PinnedCall::CreateView { texture, desc: arbitrary() },
        _ => PinnedCall::Destroy { texture },
    };
    assert(c.operation_spec() == op);
}

} // verus!
