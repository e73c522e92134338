//! Identity and shared-ownership wrappers for GPU resource handles.
//!
//! Native textures, texture views and samplers produced by the graphics
//! device are opaque handles: they may not support equality at all, and two
//! logically distinct resources may alias the same handle value. This crate
//! wraps each of them with
//!
//! - a stable, copyable, hashable identity assigned once at construction,
//! - cheap shared-ownership cloning, so the same resource can sit in many
//!   cache entries and bind groups without being re-created, and
//! - for views derived from a swapchain-acquired frame, a teardown order
//!   that releases the view strictly before the frame it borrows from.

pub mod frame;
pub mod handle;
pub mod id;
pub mod laws;
mod native;
pub mod texture;
