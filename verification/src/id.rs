//! Globally unique identities for wrapped resources.
//!
//! Each wrapper kind carries its own identity type, assigned once when the
//! native resource is wrapped and immutable thereafter. An identity is never
//! derived from the native handle's bit pattern or address: native handles
//! may alias across logically distinct resources, or may not support
//! equality at all. Higher layers compare and hash wrapped resources purely
//! by these identities.

use vstd::prelude::*;

verus! {

/// Relies on `bevy_utils::Uuid::new_v4` (a random version-4 UUID), taken as
/// its 128-bit value. Nothing is assumed of the value: distinctness from
/// earlier draws holds only with overwhelming probability, not certainty.
#[verifier::external_body]
fn fresh_uuid_bits() -> u128 {
    bevy_utils::Uuid::new_v4().as_u128()
}

/// A `Texture` identifier.
#[derive(Copy, Clone, Hash, Eq, PartialEq, Structural, Debug)]
pub struct TextureId(u128);

/// A `TextureView` identifier.
#[derive(Copy, Clone, Hash, Eq, PartialEq, Structural, Debug)]
pub struct TextureViewId(u128);

/// A `Sampler` identifier.
#[derive(Copy, Clone, Hash, Eq, PartialEq, Structural, Debug)]
pub struct SamplerId(u128);

impl TextureId {
    /// Draws a fresh identity for a newly wrapped texture.
    pub(crate) fn fresh() -> Self {
        TextureId(fresh_uuid_bits())
    }
}

impl TextureViewId {
    /// Draws a fresh identity for a newly wrapped texture view.
    pub(crate) fn fresh() -> Self {
        TextureViewId(fresh_uuid_bits())
    }
}

impl SamplerId {
    /// Draws a fresh identity for a newly wrapped sampler.
    pub(crate) fn fresh() -> Self {
        SamplerId(fresh_uuid_bits())
    }
}

} // verus!
