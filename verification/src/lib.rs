//! A verified model of the frame-synchronization core of a real-time
//! renderer: swapchain lifecycle, per-image graphics state, and the
//! frame scheduler that orders acquire, submit and present while
//! recovering from an invalidated presentation surface.
//!
//! The library works on plain values (extents, image counts, token
//! identifiers). The unverified shell that talks to the GPU performs
//! each outside call and feeds its outcome back into the scheduler.

pub mod device;
pub mod error;
pub mod graphics;
pub mod laws;
pub mod mesh;
pub mod renderer;
pub mod shader;
pub mod swapchain;
pub mod uniform;
