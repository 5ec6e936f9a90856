use wgpu_async_bridge::dispatch::{classify, Operation, Shape, Strategy};

const RELOCATABLE: [Operation; 12] = [
    Operation::Poll,
    Operation::CreateShaderModule,
    Operation::CreateShaderModuleUnchecked,
    Operation::CreateShaderModuleSpirv,
    Operation::CreateBindGroupLayout,
    Operation::CreateCommandEncoder,
    Operation::CreateBuffer,
    Operation::CreateTexture,
    Operation::CreateSampler,
    Operation::CreateQuerySet,
    Operation::CreateBufferInit,
    Operation::CreateTextureWithData,
];

const PINNED: [Operation; 7] = [
    Operation::CreateRenderBundleEncoder,
    Operation::CreateBindGroup,
    Operation::CreatePipelineLayout,
    Operation::CreateRenderPipeline,
    Operation::CreateComputePipeline,
    Operation::CreateView,
    Operation::Destroy,
];

const IMMEDIATE: [Operation; 8] = [
    Operation::Features,
    Operation::Limits,
    Operation::OnUncapturedError,
    Operation::PushErrorScope,
    Operation::PopErrorScope,
    Operation::StartCapture,
    Operation::StopCapture,
    Operation::AsImageCopy,
];

fn shape(inputs_ownable: bool, result_tied_to_call: bool, blocking: bool) -> Shape {
    Shape { inputs_ownable, result_tied_to_call, blocking }
}

#[test]
fn non_blocking_shapes_run_immediately() {
    for ownable in [false, true] {
        for tied in [false, true] {
            assert_eq!(classify(shape(ownable, tied, false)), Strategy::Immediate);
        }
    }
}

#[test]
fn owned_blocking_shape_is_relocatable() {
    assert_eq!(classify(shape(true, false, true)), Strategy::Relocatable);
}

#[test]
fn borrowed_input_is_pinned() {
    assert_eq!(classify(shape(false, false, true)), Strategy::Pinned);
}

#[test]
fn call_tied_result_is_pinned() {
    assert_eq!(classify(shape(true, true, true)), Strategy::Pinned);
    assert_eq!(classify(shape(false, true, true)), Strategy::Pinned);
}

#[test]
fn relocatable_operations() {
    for op in RELOCATABLE {
        assert_eq!(op.strategy(), Strategy::Relocatable, "{:?}", op);
        let s = op.shape();
        assert!(s.inputs_ownable && !s.result_tied_to_call && s.blocking, "{:?}", op);
    }
}

#[test]
fn pinned_operations() {
    for op in PINNED {
        assert_eq!(op.strategy(), Strategy::Pinned, "{:?}", op);
        assert!(op.shape().blocking, "{:?}", op);
    }
}

#[test]
fn immediate_operations() {
    for op in IMMEDIATE {
        assert_eq!(op.strategy(), Strategy::Immediate, "{:?}", op);
        assert!(!op.shape().blocking, "{:?}", op);
    }
}

#[test]
fn render_bundle_encoder_borrows_the_call() {
    assert!(Operation::CreateRenderBundleEncoder.shape().result_tied_to_call);
    assert_eq!(Operation::CreateRenderBundleEncoder.strategy(), Strategy::Pinned);
}

#[test]
fn buffer_creation_is_relocatable_and_destroy_pinned() {
    assert_eq!(Operation::CreateBuffer.strategy(), Strategy::Relocatable);
    assert_eq!(Operation::Destroy.strategy(), Strategy::Pinned);
}

#[test]
fn error_scope_calls_run_immediately() {
    assert_eq!(Operation::PushErrorScope.strategy(), Strategy::Immediate);
    assert_eq!(Operation::PopErrorScope.strategy(), Strategy::Immediate);
}

#[test]
fn every_operation_has_one_strategy() {
    assert_eq!(RELOCATABLE.len() + PINNED.len() + IMMEDIATE.len(), 27);
    for op in RELOCATABLE.iter().chain(PINNED.iter()).chain(IMMEDIATE.iter()) {
        assert_eq!(op.strategy(), classify(op.shape()), "{:?}", op);
    }
}

#[test]
fn owned_descriptors_make_shader_and_layout_creation_relocatable() {
    for op in [Operation::CreateShaderModule, Operation::CreateBindGroupLayout] {
        assert!(op.shape().inputs_ownable, "{:?}", op);
        assert_eq!(op.strategy(), Strategy::Relocatable, "{:?}", op);
    }
}

#[test]
fn whole_texture_copy_view_runs_immediately() {
    let s = Operation::AsImageCopy.shape();
    assert!(!s.blocking && !s.result_tied_to_call);
    assert_eq!(Operation::AsImageCopy.strategy(), Strategy::Immediate);
}
