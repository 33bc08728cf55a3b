//! A wgpu-backed drawing surface for the piet 2D graphics abstraction.
//!
//! The crate holds the rules of the backend: the save/restore stack of a
//! render context, the negotiation and upkeep of a surface's presentation
//! parameters, the registry of opened devices, and the policy of one present
//! cycle. Every function is verified against the contract that it carries.

pub mod context;
pub mod device;
pub mod hashed;
pub mod hashing;
pub mod lifecycle;
pub mod mesh;
pub mod renderer;
pub mod scan;
pub mod shader;
pub mod surface;
pub mod text;

use vstd::prelude::*;

pub use ahash::{AHasher, RandomState};
pub use context::{Brush, ContextError, WgpuImage, WgpuRenderContext};
pub use hashbrown;
pub use hashed::Hashed;
pub use hashing::{EntityHash, EntityHasher, FixedState, PassHash, PassHasher};
pub use text::WgpuText;

verus! {

/// The value of `T` that `Default` gives: a short way to write it, above
/// all for the fields that a struct literal leaves out.
pub fn default<T: Default>() -> (r: T)
    ensures
        call_ensures(T::default, (), r),
{
    T::default()
}

} // verus!
