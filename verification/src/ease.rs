//! Easing-curve selectors.
//!
//! An easing selector names a pure function from a linear progress fraction
//! to an eased one.  Applying the curve is owned by the external scheduler:
//! the update operation receives the progress fraction already eased, so the
//! selector is stored and compared here but never evaluated.

use vstd::prelude::*;

verus! {

/// Names the easing curve an animation should be driven with.
#[derive(Clone, Copy, Debug, PartialEq, Eq, Structural)]
pub enum EaseType {
    Linear,
    Quad,
    Cubic,
    Quint,
    Sine,
    Expo,
}

} // verus!
