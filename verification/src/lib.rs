//! A verified fixed-point core for a small real-time rendering demo:
//! vector and matrix math, look-at and perspective camera builders, a
//! time-driven model animator, a tangent-space normal-mapping shading
//! model, and the per-frame driver that composes them.
//!
//! Scalars are signed 64-bit fixed-point numbers: a raw value `r` stands
//! for the real number `r / SCALE`. All arithmetic is exact integer
//! arithmetic with truncation toward zero, so every result is pinned down
//! by its contract.

pub mod animator;
pub mod camera;
pub mod error;
pub mod fixed;
pub mod frame;
pub mod mat;
pub mod shading;
pub mod trig;
pub mod vec3;
pub mod vertex;

pub use fixed::SCALE;
