//! Render-state synchronization for a 2D quad renderer.
//!
//! The crate keeps a CPU-side scene description in step with GPU-resident
//! buffers and bind groups. It owns the generational asset arenas, decides
//! once per frame which GPU resources actually changed, and describes the
//! required GPU mutations as plain commands that a thin device layer carries
//! out. Device identities (buffers, bind groups) are tracked as stable
//! numeric handles so that identity-changing operations, such as growing a
//! buffer, are visible in the contracts.

pub mod array_buffer;
pub mod dense_storage;
pub mod instance;
pub mod render_state;
pub mod textures;
pub mod uniforms;
pub mod update_render_state;

pub use dense_storage::{DenseStorage, DenseStorageIndex};
