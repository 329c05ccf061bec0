//! Core of a value-interpolation ("tweening") animation engine.
//!
//! Given a mutable property on some drawable object, the library computes the
//! property's value at a point in time from a start value, an end
//! specification, a time window and an easing selector.  Times and property
//! values are fixed-point integers; the progress fraction is scaled so that
//! `PROGRESS_ONE` stands for 1.0.

use vstd::prelude::*;

pub mod ease;
pub mod interp;
pub mod properties;
pub mod entity_ref;
pub mod animation;
pub mod variant;
pub mod store;
pub mod batch;

verus! {

/// The scaled representation of a progress fraction of 1.0.
pub const PROGRESS_ONE: i64 = 1000;

} // verus!
