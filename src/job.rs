use std::sync::Arc;
use vstd::prelude::*;
use wgpu::{
    BindGroupLayoutEntry, BufferUsages, Device, Maintain, QueryType, Queue, SamplerDescriptor,
    ShaderSource, TextureDimension, TextureFormat, TextureUsages,
};

use crate::dispatch::{Operation, Strategy};

verus! {

/// An owned buffer descriptor.
pub struct BufferSpec {
    pub label: Option<String>,
    pub size: u64,
    pub usage: BufferUsages,
    pub mapped_at_creation: bool,
}

/// An owned descriptor of a buffer created with initial contents.
pub struct BufferInitSpec {
    pub label: Option<String>,
    pub contents: Vec<u8>,
    pub usage: BufferUsages,
}

/// An owned texture descriptor.
pub struct TextureSpec {
    pub label: Option<String>,
    pub width: u32,
    pub height: u32,
    pub depth_or_array_layers: u32,
    pub mip_level_count: u32,
    pub sample_count: u32,
    pub dimension: TextureDimension,
    pub format: TextureFormat,
    pub usage: TextureUsages,
}

/// An owned sampler descriptor: the label is held apart from the sampling
/// settings, whose own label is not used.
pub struct SamplerSpec {
    pub label: Option<String>,
    pub settings: SamplerDescriptor<'static>,
}

/// An owned query set descriptor.
pub struct QuerySetSpec {
    pub label: Option<String>,
    pub ty: QueryType,
    pub count: u32,
}

/// An owned shader module descriptor; the source holds owned text or words.
pub struct ShaderModuleSpec {
    pub label: Option<String>,
    pub source: ShaderSource<'static>,
}

/// An owned descriptor of a shader module given as SPIR-V words.
pub struct SpirvSpec {
    pub label: Option<String>,
    pub source: Vec<u32>,
}

/// An owned bind group layout descriptor.
pub struct BindGroupLayoutSpec {
    pub label: Option<String>,
    pub entries: Vec<BindGroupLayoutEntry>,
}

/// A relocatable operation with everything it reads owned: the handles are
/// shared references of their own, so the job may run on any thread and
/// outlive its caller. Once started on a worker, a job runs to completion
/// whatever becomes of the task that awaits it.
pub enum Job {
    Poll { device: Arc<Device>, maintain: Maintain },
    CreateShaderModule { device: Arc<Device>, desc: ShaderModuleSpec },
    CreateShaderModuleUnchecked { device: Arc<Device>, desc: ShaderModuleSpec },
    CreateShaderModuleSpirv { device: Arc<Device>, desc: SpirvSpec },
    CreateBindGroupLayout { device: Arc<Device>, desc: BindGroupLayoutSpec },
    CreateCommandEncoder { device: Arc<Device>, label: Option<String> },
    CreateBuffer { device: Arc<Device>, desc: BufferSpec },
    CreateTexture { device: Arc<Device>, desc: TextureSpec },
    CreateSampler { device: Arc<Device>, desc: SamplerSpec },
    CreateQuerySet { device: Arc<Device>, desc: QuerySetSpec },
    CreateBufferInit { device: Arc<Device>, desc: BufferInitSpec },
    CreateTextureWithData {
        device: Arc<Device>,
        queue: Arc<Queue>,
        desc: TextureSpec,
        data: Vec<u8>,
    },
}

impl Job {
    pub open spec fn operation_spec(&self) -> Operation {
        match self {
            Job::Poll { .. } => Operation::Poll,
            Job::CreateShaderModule { .. } => Operation::CreateShaderModule,
            Job::CreateShaderModuleUnchecked { .. } => Operation::CreateShaderModuleUnchecked,
            Job::CreateShaderModuleSpirv { .. } => Operation::CreateShaderModuleSpirv,
            Job::CreateBindGroupLayout { .. } => Operation::CreateBindGroupLayout,
            Job::CreateCommandEncoder { .. } => Operation::CreateCommandEncoder,
            Job::CreateBuffer { .. } => Operation::CreateBuffer,
            Job::CreateTexture { .. } => Operation::CreateTexture,
            Job::CreateSampler { .. } => Operation::CreateSampler,
            Job::CreateQuerySet { .. } => Operation::CreateQuerySet,
            Job::CreateBufferInit { .. } => Operation::CreateBufferInit,
            Job::CreateTextureWithData { .. } => Operation::CreateTextureWithData,
        }
    }

    /// The operation this job performs.
    pub fn operation(&self) -> (r: Operation)
        ensures
            r == self.operation_spec(),
    {
        match self {
            Job::Poll { .. } => Operation::Poll,
            Job::CreateShaderModule { .. } => Operation::CreateShaderModule,
            Job::CreateShaderModuleUnchecked { .. } => Operation::CreateShaderModuleUnchecked,
            Job::CreateShaderModuleSpirv { .. } => Operation::CreateShaderModuleSpirv,
            Job::CreateBindGroupLayout { .. } => Operation::CreateBindGroupLayout,
            Job::CreateCommandEncoder { .. } => Operation::CreateCommandEncoder,
            Job::CreateBuffer { .. } => Operation::CreateBuffer,
            Job::CreateTexture { .. } => Operation::CreateTexture,
            Job::CreateSampler { .. } => Operation::CreateSampler,
            Job::CreateQuerySet { .. } => Operation::CreateQuerySet,
            Job::CreateBufferInit { .. } => Operation::CreateBufferInit,
            Job::CreateTextureWithData { .. } => Operation::CreateTextureWithData,
        }
    }
}

} // verus!

verus! {

/// Only relocatable work is ever packaged for a worker thread.
pub proof fn lemma_jobs_are_relocatable(job: &Job)
    ensures
        job.operation_spec().strategy_spec() == Strategy::Relocatable,
{
}

/// Every relocatable operation can be packaged as a job, so none of them has
/// to block the executor's thread.
pub proof fn lemma_relocatable_has_job(op: Operation)
    requires
        op.strategy_spec() == Strategy::Relocatable,
    ensures
        exists|j: Job| #[trigger] j.operation_spec() == op,
{
    let device: Arc<Device> = arbitrary();
    let label: Option<String> = arbitrary();
    let j = match op {
        Operation::Poll => Job::Poll { device, maintain: arbitrary() },
        Operation::CreateShaderModule => Job::CreateShaderModule { device, desc: arbitrary() },
        Operation::CreateShaderModuleUnchecked => Job::CreateShaderModuleUnchecked {
            device,
            desc: arbitrary(),
        },
        Operation::CreateShaderModuleSpirv => Job::CreateShaderModuleSpirv { device, desc: arbitrary() },
        Operation::CreateBindGroupLayout => Job::CreateBindGroupLayout { device, desc: arbitrary() },
        Operation::CreateCommandEncoder => Job::CreateCommandEncoder { device, label },
        Operation::CreateBuffer => Job::CreateBuffer { device, desc: arbitrary() },
        Operation::CreateTexture => Job::CreateTexture { device, desc: arbitrary() },
        Operation::CreateSampler => Job::CreateSampler { device, desc: arbitrary() },
        Operation::CreateQuerySet => Job::CreateQuerySet { device, desc: arbitrary() },
        Operation::CreateBufferInit => Job::CreateBufferInit { device, desc: arbitrary() },
        _ => Job::CreateTextureWithData {
            device,
            queue: arbitrary(),
            desc: arbitrary(),
            data: arbitrary(),
        },
    };
    assert(j.operation_spec() == op);
}

} // verus!
