//! Thin, checked facades over an ECS host's deferred command buffer.
//!
//! Every facade only appends requests to the buffer it was built from. The
//! contracts say exactly which requests are appended, and in which order;
//! applying them to the world stays the host's business.

pub mod button;
pub mod despawner;
pub mod lifecycle;
pub mod payload;
pub mod requests;
pub mod resource;
pub mod spawner;
