//! Host-side logic of a progressive GPU ray tracer.
//!
//! The crate decides what the host does each frame: which layouts and
//! pipelines to create, which buffers to fill with which bytes, which compute
//! pass to dispatch against which image pairing, and which image to present.
//! Every decision is a function on plain values with a proved contract; the
//! caller performs the GPU work.
//!
//! Floating-point lanes are carried as their 32-bit patterns throughout.

pub mod bindings;
pub mod camera;
pub mod dispatch;
pub mod images;
pub mod pipeline;
pub mod scheduler;
pub mod sphere;
pub mod upload;
