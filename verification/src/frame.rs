//! A view handle paired with the swapchain frame it was derived from.
//!
//! A view derived from a swapchain-acquired frame references frame-owned
//! memory, so the view must be released strictly before the frame. The pair
//! keeps both handles in one value and guarantees that order on both paths
//! out of it: [`FrameBacked::take_frame`] releases the view before it tries
//! to reclaim the frame, and on drop the `view` field is declared ahead of
//! the `frame` field, so Rust's guaranteed struct drop order (declaration
//! order) releases the view first.

use vstd::prelude::*;
use crate::handle::ErasedHandle;

verus! {

/// A derived view together with the frame it borrows from, released in that
/// order.
pub struct FrameBacked<V, F> {
    // The order of these two fields carries the teardown guarantee: struct
    // fields drop in declaration order, so the view is released before the
    // frame whenever a `FrameBacked` value is dropped whole.
    view: ErasedHandle<V>,
    frame: ErasedHandle<F>,
}

impl<V, F> FrameBacked<V, F> {
    /// The native view value.
    pub closed spec fn view_value(&self) -> V {
        self.view.value()
    }

    /// The native frame value.
    pub closed spec fn frame_value(&self) -> F {
        self.frame.value()
    }

    /// Takes ownership of a view derived from `frame` and of `frame` itself.
    pub fn new(view: V, frame: F) -> (r: Self)
        ensures
            r.view_value() == view,
            r.frame_value() == frame,
    {
        FrameBacked { view: ErasedHandle::wrap(view), frame: ErasedHandle::wrap(frame) }
    }

    /// Borrows the derived view.
    pub fn view(&self) -> (r: &V)
        ensures
            *r == self.view_value(),
    {
        self.view.get()
    }

    /// Consumes the pair and reclaims the native frame, but only when no
    /// clone of the pair is still alive. The derived view is released first,
    /// before the frame is reclaimed or handed back to its other owners.
    pub fn take_frame(self) -> (r: Option<F>)
        ensures
            r matches Some(f) ==> f == self.frame_value(),
    {
        let FrameBacked { view, frame } = self;
        // Release the view before touching the frame it borrows from.
        {
            let _view = view;
        }
        frame.try_unwrap()
    }
}

impl<V, F> Clone for FrameBacked<V, F> {
    /// Shares both underlying resources: the clone refers to the same view
    /// and the same frame.
    fn clone(&self) -> (r: Self)
        ensures
            r == *self,
    {
        FrameBacked { view: self.view.clone(), frame: self.frame.clone() }
    }
}

} // verus!
