//! Data-validity errors of the math core. Every computation here is a
//! pure function of its inputs, so these mark bad inputs, not transient
//! faults; nothing is retried.

use vstd::prelude::*;

verus! {

/// The inputs a function of this library rejects rather than letting a
/// degenerate value propagate silently.
#[derive(Clone, Copy, Debug, PartialEq, Eq, Structural)]
pub enum MathError {
    /// A zero-length vector was passed where a direction is needed.
    DegenerateVector,
    /// Near/far planes that are non-positive or inverted, or a field of
    /// view with no usable tangent.
    InvalidFrustum,
    /// Screen-space derivatives too short to span a tangent basis.
    DegenerateTangentFrame,
}

} // verus!
