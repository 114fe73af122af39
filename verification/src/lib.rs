//! A generative visualization core: a grid of nodes orbiting their resting
//! centers, reacting in size and color to a single oscillating attractor.
//!
//! All geometry is carried in fixed-point milli-units (1 unit = 1000), so the
//! simulation arithmetic is exact integer arithmetic. Trigonometric signals
//! (the attractor's sinusoids, each node's bearing toward the attractor) enter
//! as already-scaled values in [-1000, 1000] supplied by the host loop.

pub mod attractor;
pub mod export;
pub mod grid;
pub mod math;
pub mod node;
pub mod rect;
pub mod rng;
pub mod sim;

pub use math::SCALE;
