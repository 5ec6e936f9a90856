use vstd::prelude::*;

verus! {

#[verifier::external_type_specification]
#[verifier::external_body]
pub struct ExDevice(wgpu::Device);

#[verifier::external_type_specification]
#[verifier::external_body]
pub struct ExQueue(wgpu::Queue);

#[verifier::external_type_specification]
#[verifier::external_body]
pub struct ExTexture(wgpu::Texture);

#[verifier::external_type_specification]
#[verifier::external_body]
pub struct ExMaintain(wgpu::Maintain);

#[verifier::external_type_specification]
#[verifier::external_body]
pub struct ExBufferUsages(wgpu::BufferUsages);

#[verifier::external_type_specification]
#[verifier::external_body]
pub struct ExTextureUsages(wgpu::TextureUsages);

#[verifier::external_type_specification]
#[verifier::external_body]
pub struct ExTextureFormat(wgpu::TextureFormat);

#[verifier::external_type_specification]
#[verifier::external_body]
pub struct ExTextureDimension(wgpu::TextureDimension);

#[verifier::external_type_specification]
#[verifier::external_body]
pub struct ExQueryType(wgpu::QueryType);

#[verifier::external_type_specification]
#[verifier::external_body]
pub struct ExSamplerDescriptor<'a>(wgpu::SamplerDescriptor<'a>);

} // verus!

verus! {

#[verifier::external_type_specification]
#[verifier::external_body]
#[verifier::reject_recursive_types(T)]
pub struct ExImageCopyTextureBase<T>(wgpu::ImageCopyTextureBase<T>);

#[verifier::external_type_specification]
#[verifier::external_body]
pub struct ExRenderBundleEncoderDescriptor<'a>(wgpu::RenderBundleEncoderDescriptor<'a>);

#[verifier::external_type_specification]
#[verifier::external_body]
pub struct ExBindGroupDescriptor<'a>(wgpu::BindGroupDescriptor<'a>);

#[verifier::external_type_specification]
#[verifier::external_body]
pub struct ExPipelineLayoutDescriptor<'a>(wgpu::PipelineLayoutDescriptor<'a>);

#[verifier::external_type_specification]
#[verifier::external_body]
pub struct ExRenderPipelineDescriptor<'a>(wgpu::RenderPipelineDescriptor<'a>);

#[verifier::external_type_specification]
#[verifier::external_body]
pub struct ExComputePipelineDescriptor<'a>(wgpu::ComputePipelineDescriptor<'a>);

#[verifier::external_type_specification]
#[verifier::external_body]
pub struct ExTextureViewDescriptor<'a>(wgpu::TextureViewDescriptor<'a>);

} // verus!

verus! {

#[verifier::external_type_specification]
#[verifier::external_body]
pub struct ExFeatures(wgpu::Features);

#[verifier::external_type_specification]
#[verifier::external_body]
pub struct ExLimits(wgpu::Limits);

#[verifier::external_type_specification]
#[verifier::external_body]
pub struct ExErrorFilter(wgpu::ErrorFilter);

} // verus!

verus! {

#[verifier::external_type_specification]
#[verifier::external_body]
pub struct ExShaderSource<'a>(wgpu::ShaderSource<'a>);

#[verifier::external_type_specification]
#[verifier::external_body]
pub struct ExBindGroupLayoutEntry(wgpu::BindGroupLayoutEntry);

} // verus!
