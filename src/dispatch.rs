use vstd::prelude::*;

verus! {

/// One operation of the bridged surface of a device or a texture.
#[derive(Clone, Copy, Debug, PartialEq, Eq, Structural)]
pub enum Operation {
    Poll,
    Features,
    Limits,
    CreateShaderModule,
    CreateShaderModuleUnchecked,
    CreateShaderModuleSpirv,
    CreateCommandEncoder,
    CreateRenderBundleEncoder,
    CreateBindGroup,
    CreateBindGroupLayout,
    CreatePipelineLayout,
    CreateRenderPipeline,
    CreateComputePipeline,
    CreateBuffer,
    CreateTexture,
    CreateSampler,
    CreateQuerySet,
    OnUncapturedError,
    PushErrorScope,
    PopErrorScope,
    StartCapture,
    StopCapture,
    CreateBufferInit,
    CreateTextureWithData,
    CreateView,
    Destroy,
    AsImageCopy,
}

/// The ownership shape of an operation's signature.
#[derive(Clone, Copy, Debug, PartialEq, Eq, Structural)]
pub struct Shape {
    /// Every argument, handles included, can be turned into a value that
    /// owns its data and does not depend on the caller's stack frame.
    pub inputs_ownable: bool,
    /// The result borrows from the call site (not merely from the handle).
    pub result_tied_to_call: bool,
    /// The operation may block the thread that runs it.
    pub blocking: bool,
}

/// Where an operation runs.
#[derive(Clone, Copy, Debug, PartialEq, Eq, Structural)]
pub enum Strategy {
    /// Moved, with owned inputs, to a thread outside the executor's pool.
    Relocatable,
    /// Run on the calling thread, after telling the executor that the
    /// current task is about to block.
    Pinned,
    /// Run directly: the operation does no blocking work.
    Immediate,
}

/// The classification rule: an operation that does no blocking work runs
/// directly; otherwise it is relocatable exactly when its inputs can be
/// owned and its result does not borrow from the call site.
pub open spec fn strategy_of(s: Shape) -> Strategy {
    if !s.blocking {
        Strategy::Immediate
    } else if s.inputs_ownable && !s.result_tied_to_call {
        Strategy::Relocatable
    } else {
        Strategy::Pinned
    }
}

/// Applies the classification rule to a shape.
pub fn classify(s: Shape) -> (r: Strategy)
    ensures
        r == strategy_of(s),
{
    if !s.blocking {
        Strategy::Immediate
    } else if s.inputs_ownable && !s.result_tied_to_call {
        Strategy::Relocatable
    } else {
        Strategy::Pinned
    }
}

pub open spec fn shape_of(inputs_ownable: bool, result_tied_to_call: bool, blocking: bool) -> Shape {
    Shape { inputs_ownable, result_tied_to_call, blocking }
}

impl Operation {
    /// The shape of each operation's signature.
    ///
    /// Device handles are reference counted, so a device operation's inputs
    /// are ownable unless its descriptor borrows other resources (layouts,
    /// modules, buffers); shader sources and layout entries are copied into
    /// owned values. Texture operations take the texture by plain borrow.
    /// Getters, error-scope and capture calls and the whole-texture copy view
    /// do no blocking work. A render bundle encoder borrows the call.
    pub open spec fn shape_spec(self) -> Shape {
        match self {
            Operation::Poll => shape_of(true, false, true),
            Operation::Features => shape_of(true, false, false),
            Operation::Limits => shape_of(true, false, false),
            Operation::CreateShaderModule => shape_of(true, false, true),
            Operation::CreateShaderModuleUnchecked => shape_of(true, false, true),
            Operation::CreateShaderModuleSpirv => shape_of(true, false, true),
            Operation::CreateCommandEncoder => shape_of(true, false, true),
            Operation::CreateRenderBundleEncoder => shape_of(false, true, true),
            Operation::CreateBindGroup => shape_of(false, false, true),
            Operation::CreateBindGroupLayout => shape_of(true, false, true),
            Operation::CreatePipelineLayout => shape_of(false, false, true),
            Operation::CreateRenderPipeline => shape_of(false, false, true),
            Operation::CreateComputePipeline => shape_of(false, false, true),
            Operation::CreateBuffer => shape_of(true, false, true),
            Operation::CreateTexture => shape_of(true, false, true),
            Operation::CreateSampler => shape_of(true, false, true),
            Operation::CreateQuerySet => shape_of(true, false, true),
            Operation::OnUncapturedError => shape_of(true, false, false),
            Operation::PushErrorScope => shape_of(true, false, false),
            Operation::PopErrorScope => shape_of(true, false, false),
            Operation::StartCapture => shape_of(true, false, false),
            Operation::StopCapture => shape_of(true, false, false),
            Operation::CreateBufferInit => shape_of(true, false, true),
            Operation::CreateTextureWithData => shape_of(true, false, true),
            Operation::CreateView => shape_of(false, false, true),
            Operation::Destroy => shape_of(false, false, true),
            Operation::AsImageCopy => shape_of(false, false, false),
        }
    }

    pub open spec fn strategy_spec(self) -> Strategy {
        strategy_of(self.shape_spec())
    }

    /// The shape of this operation's signature.
    pub fn shape(&self) -> (r: Shape)
        ensures
            r == self.shape_spec(),
    {
        match self {
            Operation::Poll => Shape { inputs_ownable: true, result_tied_to_call: false, blocking: true },
            Operation::Features
            | Operation::Limits
            | Operation::OnUncapturedError
            | Operation::PushErrorScope
            | Operation::PopErrorScope
            | Operation::StartCapture
            | Operation::StopCapture => Shape { inputs_ownable: true, result_tied_to_call: false, blocking: false },
            Operation::AsImageCopy => Shape { inputs_ownable: false, result_tied_to_call: false, blocking: false },
            Operation::CreateRenderBundleEncoder => Shape { inputs_ownable: false, result_tied_to_call: true, blocking: true },
            Operation::CreateBindGroup
            | Operation::CreatePipelineLayout
            | Operation::CreateRenderPipeline
            | Operation::CreateComputePipeline
            | Operation::CreateView
            | Operation::Destroy => Shape { inputs_ownable: false, result_tied_to_call: false, blocking: true },
            Operation::CreateShaderModule
            | Operation::CreateShaderModuleUnchecked
            | Operation::CreateShaderModuleSpirv
            | Operation::CreateBindGroupLayout
            | Operation::CreateCommandEncoder
            | Operation::CreateBuffer
            | Operation::CreateTexture
            | Operation::CreateSampler
            | Operation::CreateQuerySet
            | Operation::CreateBufferInit
            | Operation::CreateTextureWithData => Shape { inputs_ownable: true, result_tied_to_call: false, blocking: true },
        }
    }

    /// Where this operation runs.
    pub fn strategy(&self) -> (r: Strategy)
        ensures
            r == self.strategy_spec(),
    {
        classify(self.shape())
    }
}

} // verus!

verus! {

/// An operation whose inputs borrow from the caller, or whose result borrows
/// from the call site, is never moved to another thread: it runs where the
/// borrowed data lives.
pub proof fn lemma_borrows_stay_on_caller(op: Operation)
    requires
        !op.shape_spec().inputs_ownable || op.shape_spec().result_tied_to_call,
    ensures
        op.strategy_spec() != Strategy::Relocatable,
{
}

/// Every operation that may block is taken off the executor's plain path:
/// it is either moved to a worker thread or run after the executor was told
/// that the task blocks.
pub proof fn lemma_blocking_never_immediate(op: Operation)
    requires
        op.shape_spec().blocking,
    ensures
        op.strategy_spec() == Strategy::Relocatable || op.strategy_spec() == Strategy::Pinned,
{
}

/// Error-scope calls run directly on the calling task, so a push, the
/// operations awaited after it and the matching pop reach the device in the
/// order the task issued them.
pub proof fn lemma_error_scope_calls_stay_inline()
    ensures
        Operation::PushErrorScope.strategy_spec() == Strategy::Immediate,
        Operation::PopErrorScope.strategy_spec() == Strategy::Immediate,
{
}

} // verus!
