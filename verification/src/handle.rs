//! Shared-ownership container for a native resource value.
//!
//! An [`ErasedHandle`] owns exactly one native resource. Cloning it produces
//! another owning reference to the *same* underlying resource; the resource
//! lives as long as the longest-surviving clone. Sole ownership can be
//! reclaimed with [`ErasedHandle::try_unwrap`], which succeeds only when no
//! other clone exists.

use std::sync::Arc;
use vstd::prelude::*;

verus! {

/// A reference-counted handle that owns a native resource value of type `T`.
pub struct ErasedHandle<T> {
    inner: Arc<T>,
}

/// Relies on std's `Arc::clone`: the result is another owning reference to
/// the same underlying value.
#[verifier::external_body]
fn arc_clone<T>(a: &Arc<T>) -> (r: Arc<T>)
    ensures
        r == a,
{
    Arc::clone(a)
}

/// Relies on std's `Arc::try_unwrap`: it returns the inner value exactly when
/// the argument is the sole strong reference, and otherwise hands the `Arc`
/// back (here dropped, which leaves the value owned by the other clones).
#[verifier::external_body]
fn arc_try_unwrap<T>(a: Arc<T>) -> (r: Option<T>)
    ensures
        r matches Some(t) ==> t == a,
{
    Arc::try_unwrap(a).ok()
}

impl<T> ErasedHandle<T> {
    /// The native resource value this handle owns.
    pub closed spec fn value(&self) -> T {
        *self.inner
    }

    /// Takes ownership of `native`; the new handle is its sole owner.
    pub fn wrap(native: T) -> (r: Self)
        ensures
            r.value() == native,
    {
        ErasedHandle { inner: Arc::new(native) }
    }

    /// Borrows the owned native resource.
    pub fn get(&self) -> (r: &T)
        ensures
            *r == self.value(),
    {
        &*self.inner
    }

    /// Consumes this handle and reclaims the native resource, but only when
    /// no other clone exists. When another clone is still alive the result is
    /// `None` and the resource stays owned, and usable, through the remaining
    /// clones.
    pub fn try_unwrap(self) -> (r: Option<T>)
        ensures
            r matches Some(t) ==> t == self.value(),
    {
        arc_try_unwrap(self.inner)
    }
}

impl<T> Clone for ErasedHandle<T> {
    /// Another owning reference to the same resource; both handles stay
    /// valid and refer to the same value.
    fn clone(&self) -> (r: Self)
        ensures
            r == *self,
    {
        ErasedHandle { inner: arc_clone(&self.inner) }
    }
}

} // verus!
