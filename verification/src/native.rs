//! Declarations of the native wgpu handle types, so that they can stand in
//! signatures and fields of the wrappers. Each is opaque: this layer never
//! reads inside a native handle.

use vstd::prelude::*;
use wgpu::Sampler as NativeSampler;
use wgpu::SurfaceTexture as NativeSurfaceFrame;
use wgpu::Texture as NativeGpuTexture;
use wgpu::TextureView as NativeGpuView;
use wgpu::wgt::TextureViewDescriptor as NativeViewDescriptor;

verus! {

#[verifier::external_type_specification]
#[verifier::external_body]
pub struct ExGpuTexture(NativeGpuTexture);

#[verifier::external_type_specification]
#[verifier::external_body]
pub struct ExGpuView(NativeGpuView);

#[verifier::external_type_specification]
#[verifier::external_body]
pub struct ExSurfaceFrame(NativeSurfaceFrame);

#[verifier::external_type_specification]
#[verifier::external_body]
pub struct ExGpuSampler(NativeSampler);

#[verifier::external_type_specification]
#[verifier::external_body]
#[verifier::reject_recursive_types(L)]
pub struct ExViewDescriptor<L>(NativeViewDescriptor<L>);

} // verus!
