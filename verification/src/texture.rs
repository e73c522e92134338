//! Identity-carrying wrappers over native GPU resources: textures, texture
//! views and samplers.
//!
//! Each wrapper couples a fresh identity with shared ownership of the native
//! handle. Cloning a wrapper shares the underlying resource and keeps the
//! same identity: the identity belongs to the logical resource, not to one
//! clone of it. A [`TextureView`] additionally unifies two handle kinds — a
//! plain view, and a view derived from a swapchain-acquired frame, where the
//! view must be released strictly before the frame.

use vstd::prelude::*;
use crate::frame::FrameBacked;
use crate::handle::ErasedHandle;
use crate::id::SamplerId;
use crate::id::TextureId;
use crate::id::TextureViewId;

verus! {

/// Relies on wgpu's `Texture::create_view`: produces a view of `texture` as
/// described by `desc`. A native-layer failure (device loss, an invalid
/// descriptor) is fatal inside the call and propagates to the caller; this
/// layer does not retry or recover.
#[verifier::external_body]
fn native_create_view(texture: &wgpu::Texture, desc: &wgpu::TextureViewDescriptor) -> wgpu::TextureView {
    texture.create_view(desc)
}

/// Relies on wgpu's `Texture::create_view`, applied to the frame's own
/// texture with the default view descriptor. A native-layer failure is fatal
/// inside the call and propagates to the caller.
#[verifier::external_body]
fn native_frame_view(frame: &wgpu::SurfaceTexture) -> wgpu::TextureView {
    frame.texture.create_view(&Default::default())
}

/// A GPU-accessible texture: a fresh identity coupled with shared ownership
/// of the native texture handle.
pub struct Texture {
    id: TextureId,
    value: ErasedHandle<wgpu::Texture>,
}

impl Texture {
    /// The identity assigned when the native texture was wrapped.
    pub closed spec fn spec_id(&self) -> TextureId {
        self.id
    }

    /// The wrapped native texture.
    pub closed spec fn spec_texture(&self) -> wgpu::Texture {
        self.value.value()
    }

    /// Wraps a native texture: assigns a fresh identity and takes shared
    /// ownership of the handle. Never fails.
    pub fn from_native(value: wgpu::Texture) -> (r: Self)
        ensures
            r.spec_texture() == value,
    {
        Texture { id: TextureId::fresh(), value: ErasedHandle::wrap(value) }
    }

    /// Returns the [`TextureId`].
    #[verifier::when_used_as_spec(spec_id)]
    pub fn id(&self) -> (r: TextureId)
        ensures
            r == self.spec_id(),
    {
        self.id
    }

    /// Borrows the native texture.
    pub fn texture(&self) -> (r: &wgpu::Texture)
        ensures
            *r == self.spec_texture(),
    {
        self.value.get()
    }

    /// Creates a view of this texture, wrapped as a plain [`TextureView`]
    /// with a fresh identity. A native-layer failure inside wgpu is fatal to
    /// the caller; it is not retried or recovered here.
    pub fn create_view(&self, desc: &wgpu::TextureViewDescriptor) -> (r: TextureView)
        ensures
            r.spec_frame() is None,
    {
        TextureView::from_view(native_create_view(self.value.get(), desc))
    }
}

impl Clone for Texture {
    /// The clone shares the underlying native texture and exposes the same
    /// identity: cloning does not create a new logical resource.
    fn clone(&self) -> (r: Self)
        ensures
            r == *self,
    {
        Texture { id: self.id, value: self.value.clone() }
    }
}

/// The payload of a [`TextureView`]: either a plain native view, or a view
/// derived from a swapchain-acquired frame together with that frame.
pub enum TextureViewValue {
    /// A plain native texture view.
    TextureView(ErasedHandle<wgpu::TextureView>),
    /// A view derived from a swapchain frame, paired with the frame itself.
    /// The pair releases the view strictly before the frame.
    SurfaceTexture(FrameBacked<wgpu::TextureView, wgpu::SurfaceTexture>),
}

/// A texture view with a stable identity, over either a plain native view or
/// a view derived from a swapchain-acquired frame.
pub struct TextureView {
    id: TextureViewId,
    value: TextureViewValue,
}

impl TextureView {
    /// The identity assigned when the native view or frame was wrapped.
    pub closed spec fn spec_id(&self) -> TextureViewId {
        self.id
    }

    /// The native view this value presents: for the plain variant the stored
    /// view, for the frame-backed variant the view derived from the frame.
    pub closed spec fn spec_view(&self) -> wgpu::TextureView {
        match self.value {
            TextureViewValue::TextureView(h) => h.value(),
            TextureViewValue::SurfaceTexture(p) => p.view_value(),
        }
    }

    /// The wrapped swapchain frame: `Some` exactly on the frame-backed
    /// variant.
    pub closed spec fn spec_frame(&self) -> Option<wgpu::SurfaceTexture> {
        match self.value {
            TextureViewValue::TextureView(_) => None,
            TextureViewValue::SurfaceTexture(p) => Some(p.frame_value()),
        }
    }

    /// Wraps a plain native view with a fresh identity. Never fails.
    pub fn from_view(view: wgpu::TextureView) -> (r: Self)
        ensures
            r.spec_view() == view,
            r.spec_frame() is None,
    {
        TextureView {
            id: TextureViewId::fresh(),
            value: TextureViewValue::TextureView(ErasedHandle::wrap(view)),
        }
    }

    /// Wraps a swapchain-acquired frame: derives a native view from it with
    /// default view parameters, and takes shared ownership of both, with the
    /// view ahead of the frame so that teardown releases the view strictly
    /// before the frame. Never fails in this layer.
    pub fn from_frame(frame: wgpu::SurfaceTexture) -> (r: Self)
        ensures
            r.spec_frame() == Some(frame),
    {
        let view = native_frame_view(&frame);
        TextureView {
            id: TextureViewId::fresh(),
            value: TextureViewValue::SurfaceTexture(FrameBacked::new(view, frame)),
        }
    }

    /// Returns the [`TextureViewId`].
    #[verifier::when_used_as_spec(spec_id)]
    pub fn id(&self) -> (r: TextureViewId)
        ensures
            r == self.spec_id(),
    {
        self.id
    }

    /// Consumes this view and returns the wrapped swapchain frame, but only
    /// when this view is frame-backed and no other clone of it still shares
    /// the frame. On the plain variant the result is always `None`. When
    /// another clone is alive the result is `None` and the frame stays owned
    /// through the remaining clones, releasable once they are dropped. The
    /// derived view held by this value is released either way.
    pub fn take_surface_texture(self) -> (r: Option<wgpu::SurfaceTexture>)
        ensures
            self.spec_frame() is None ==> r is None,
            r matches Some(f) ==> self.spec_frame() == Some(f),
    {
        match self.value {
            TextureViewValue::TextureView(_) => None,
            TextureViewValue::SurfaceTexture(pair) => pair.take_frame(),
        }
    }

    /// Borrows the native view, whichever variant holds it: callers needing
    /// view semantics never branch on the variant.
    pub fn texture_view(&self) -> (r: &wgpu::TextureView)
        ensures
            *r == self.spec_view(),
    {
        match &self.value {
            TextureViewValue::TextureView(h) => h.get(),
            TextureViewValue::SurfaceTexture(p) => p.view(),
        }
    }
}

impl Clone for TextureView {
    /// The clone shares the underlying view (and frame, on the frame-backed
    /// variant) and exposes the same identity.
    fn clone(&self) -> (r: Self)
        ensures
            r == *self,
    {
        let value = match &self.value {
            TextureViewValue::TextureView(h) => TextureViewValue::TextureView(h.clone()),
            TextureViewValue::SurfaceTexture(p) => TextureViewValue::SurfaceTexture(p.clone()),
        };
        TextureView { id: self.id, value }
    }
}

/// A sampler: a fresh identity coupled with shared ownership of the native
/// sampler handle.
pub struct Sampler {
    id: SamplerId,
    value: ErasedHandle<wgpu::Sampler>,
}

impl Sampler {
    /// The identity assigned when the native sampler was wrapped.
    pub closed spec fn spec_id(&self) -> SamplerId {
        self.id
    }

    /// The wrapped native sampler.
    pub closed spec fn spec_sampler(&self) -> wgpu::Sampler {
        self.value.value()
    }

    /// Wraps a native sampler: assigns a fresh identity and takes shared
    /// ownership of the handle. Never fails.
    pub fn from_native(value: wgpu::Sampler) -> (r: Self)
        ensures
            r.spec_sampler() == value,
    {
        Sampler { id: SamplerId::fresh(), value: ErasedHandle::wrap(value) }
    }

    /// Returns the [`SamplerId`].
    #[verifier::when_used_as_spec(spec_id)]
    pub fn id(&self) -> (r: SamplerId)
        ensures
            r == self.spec_id(),
    {
        self.id
    }

    /// Borrows the native sampler.
    pub fn sampler(&self) -> (r: &wgpu::Sampler)
        ensures
            *r == self.spec_sampler(),
    {
        self.value.get()
    }
}

impl Clone for Sampler {
    /// The clone shares the underlying native sampler and exposes the same
    /// identity: cloning does not create a new logical resource.
    fn clone(&self) -> (r: Self)
        ensures
            r == *self,
    {
        Sampler { id: self.id, value: self.value.clone() }
    }
}

} // verus!
