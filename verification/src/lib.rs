//! Bookkeeping that keeps a renderer from issuing graphics-driver calls the
//! device does not need.
//!
//! Two caches live here. The [`state_cache::StateCache`] gathers the render
//! state that materials ask for and, on commit, names only the device calls
//! whose effect differs from what the device already has. The
//! [`context::EngineContext`] remembers which program, mesh buffer and
//! textures are bound, by identity and without owning them, and hands out
//! texture units with a least-recently-used policy that prefers units whose
//! texture has been freed.
//!
//! Nothing in this crate talks to a device: the caches return the calls to
//! make, or run a binding callback that the caller supplies.

pub mod resource;
pub mod texture_units;
pub mod context;
pub mod render_state;
pub mod device;
pub mod state_cache;
pub mod shader;
