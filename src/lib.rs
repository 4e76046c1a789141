//! Verified control logic of a Monte-Carlo path tracer: the bounded random
//! walk of the radiance integrator, the candidate cells of the random scene,
//! and the byte layout of rendered pixels.
pub mod framebuffer;
pub mod grid;
pub mod integrator;
