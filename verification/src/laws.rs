//! Laws of the wrapper layer, stated over the public contracts.
//!
//! Each proof function here states a property of every possible outcome of
//! the named operations, not of chosen values: `cloned::<T>(a, b)` says that
//! `b` is a possible result of cloning `a`, and `call_ensures` says the same
//! of the other operations.

use vstd::prelude::*;
use vstd::pervasive::cloned;
use crate::handle::ErasedHandle;
use crate::texture::Sampler;
use crate::texture::Texture;
use crate::texture::TextureView;

verus! {

/// Cloning an erased handle shares the resource: every possible clone owns
/// the very same native value as the original.
pub proof fn handle_clone_shares_value<T>(a: ErasedHandle<T>, b: ErasedHandle<T>)
    requires
        cloned::<ErasedHandle<T>>(a, b),
    ensures
        b.value() == a.value(),
{
}

/// Whatever `try_unwrap` returns, it never returns a different resource:
/// every `Some` outcome carries exactly the value the handle owned.
pub proof fn unwrap_returns_wrapped_value<T>(h: ErasedHandle<T>, r: Option<T>)
    requires
        call_ensures(ErasedHandle::<T>::try_unwrap, (h,), r),
    ensures
        r matches Some(t) ==> t == h.value(),
{
}

/// A texture's identity is stable across clones, and the clone shares the
/// underlying native texture: cloning never creates a new logical resource.
pub proof fn texture_clone_keeps_identity(a: Texture, b: Texture)
    requires
        cloned::<Texture>(a, b),
    ensures
        b.spec_id() == a.spec_id(),
        b.spec_texture() == a.spec_texture(),
{
}

/// A texture view's identity is stable across clones, and the clone presents
/// the same native view and wraps the same frame, if any.
pub proof fn texture_view_clone_keeps_identity(a: TextureView, b: TextureView)
    requires
        cloned::<TextureView>(a, b),
    ensures
        b.spec_id() == a.spec_id(),
        b.spec_view() == a.spec_view(),
        b.spec_frame() == a.spec_frame(),
{
}

/// A sampler's identity is stable across clones, and the clone shares the
/// underlying native sampler.
pub proof fn sampler_clone_keeps_identity(a: Sampler, b: Sampler)
    requires
        cloned::<Sampler>(a, b),
    ensures
        b.spec_id() == a.spec_id(),
        b.spec_sampler() == a.spec_sampler(),
{
}

/// On a plain texture view, `take_surface_texture` returns nothing, on every
/// possible outcome: no frame exists to take.
pub proof fn plain_view_yields_no_frame(v: TextureView, r: Option<wgpu::SurfaceTexture>)
    requires
        v.spec_frame() is None,
        call_ensures(TextureView::take_surface_texture, (v,), r),
    ensures
        r is None,
{
}

/// When `take_surface_texture` does return a frame, it is exactly the frame
/// that was wrapped: the view never hands out a different resource.
pub proof fn taken_frame_is_the_wrapped_frame(v: TextureView, r: Option<wgpu::SurfaceTexture>)
    requires
        call_ensures(TextureView::take_surface_texture, (v,), r),
    ensures
        r matches Some(f) ==> v.spec_frame() == Some(f),
{
}

} // verus!
