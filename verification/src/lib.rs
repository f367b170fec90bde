//! Lifecycle core of a capacity-bounded particle simulation.
//!
//! Time is counted in whole nanoseconds. A particle is alive while its age is
//! below its lifetime; the store keeps the alive particles packed at the front
//! of one of two equally sized buffers, and the stages (compact, update,
//! emit) move them between the two.

pub mod compute_pipeline;
pub mod dispatch;
pub mod emission;
pub mod input;
pub mod laws;
pub mod particle;
pub mod render;
pub mod renderer;
pub mod stages;
pub mod store;
pub mod system;
pub mod timer;
