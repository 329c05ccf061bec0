//! The closed set of animatable property types.
//!
//! Each type stores fixed-point coordinates and implements the
//! `Interpolate` contract coordinatewise.

use vstd::prelude::*;
use crate::interp::{lerp, lerp_i64, lemma_lerp_identity, lemma_lerp_zero, lemma_lerp_one,
    Interpolate};

verus! {

/// A stroke colour, as fixed-point red, green, blue and alpha channels.
#[derive(Clone, Copy, Debug, PartialEq, Eq, Structural)]
pub struct StrokeColor {
    pub red: i64,
    pub green: i64,
    pub blue: i64,
    pub alpha: i64,
}

/// A fill colour, as fixed-point red, green, blue and alpha channels.
#[derive(Clone, Copy, Debug, PartialEq, Eq, Structural)]
pub struct FillColor {
    pub red: i64,
    pub green: i64,
    pub blue: i64,
    pub alpha: i64,
}

/// A position in the plane, as fixed-point coordinates.
#[derive(Clone, Copy, Debug, PartialEq, Eq, Structural)]
pub struct Position {
    pub x: i64,
    pub y: i64,
}

/// An orientation, as a fixed-point angle.
#[derive(Clone, Copy, Debug, PartialEq, Eq, Structural)]
pub struct Angle {
    pub value: i64,
}

/// An extent, as fixed-point width and height.
#[derive(Clone, Copy, Debug, PartialEq, Eq, Structural)]
pub struct Size {
    pub width: i64,
    pub height: i64,
}

/// An opacity, as a fixed-point fraction.
#[derive(Clone, Copy, Debug, PartialEq, Eq, Structural)]
pub struct Opacity {
    pub value: i64,
}

/// How far along its path a shape is drawn, as a fixed-point fraction.
#[derive(Clone, Copy, Debug, PartialEq, Eq, Structural)]
pub struct PathCompletion {
    pub value: i64,
}

impl Interpolate for StrokeColor {
    open spec fn in_range(self, bound: int) -> bool {
        &&& -bound <= self.red <= bound
        &&& -bound <= self.green <= bound
        &&& -bound <= self.blue <= bound
        &&& -bound <= self.alpha <= bound
    }

    open spec fn lerped(self, end: Self, progress: int) -> Self {
        StrokeColor {
            red: lerp(self.red as int, end.red as int, progress) as i64,
            green: lerp(self.green as int, end.green as int, progress) as i64,
            blue: lerp(self.blue as int, end.blue as int, progress) as i64,
            alpha: lerp(self.alpha as int, end.alpha as int, progress) as i64,
        }
    }

    open spec fn offset_spec(self, delta: Self) -> Self {
        StrokeColor {
            red: (self.red + delta.red) as i64,
            green: (self.green + delta.green) as i64,
            blue: (self.blue + delta.blue) as i64,
            alpha: (self.alpha + delta.alpha) as i64,
        }
    }

    proof fn lemma_lerped_identity(self, progress: int) {
        lemma_lerp_identity(self.red as int, progress);
        lemma_lerp_identity(self.green as int, progress);
        lemma_lerp_identity(self.blue as int, progress);
        lemma_lerp_identity(self.alpha as int, progress);
    }

    proof fn lemma_lerped_zero(self, end: Self) {
        lemma_lerp_zero(self.red as int, end.red as int);
        lemma_lerp_zero(self.green as int, end.green as int);
        lemma_lerp_zero(self.blue as int, end.blue as int);
        lemma_lerp_zero(self.alpha as int, end.alpha as int);
    }

    proof fn lemma_lerped_one(self, end: Self) {
        lemma_lerp_one(self.red as int, end.red as int);
        lemma_lerp_one(self.green as int, end.green as int);
        lemma_lerp_one(self.blue as int, end.blue as int);
        lemma_lerp_one(self.alpha as int, end.alpha as int);
    }

    proof fn lemma_in_range_widen(self, bound1: int, bound2: int) {
    }

    proof fn lemma_offset_in_range(self, delta: Self) {
    }

    fn check_in_range(&self, bound: i64) -> bool {
        -(bound as i128) <= self.red as i128
            && self.red as i128 <= bound as i128
            && -(bound as i128) <= self.green as i128
            && self.green as i128 <= bound as i128
            && -(bound as i128) <= self.blue as i128
            && self.blue as i128 <= bound as i128
            && -(bound as i128) <= self.alpha as i128
            && self.alpha as i128 <= bound as i128
    }

    fn interp(&self, end: &Self, progress: i64) -> Self {
        StrokeColor {
            red: lerp_i64(self.red, end.red, progress),
            green: lerp_i64(self.green, end.green, progress),
            blue: lerp_i64(self.blue, end.blue, progress),
            alpha: lerp_i64(self.alpha, end.alpha, progress),
        }
    }

    fn offset(&self, delta: &Self) -> Self {
        StrokeColor {
            red: self.red + delta.red,
            green: self.green + delta.green,
            blue: self.blue + delta.blue,
            alpha: self.alpha + delta.alpha,
        }
    }
}

impl Interpolate for FillColor {
    open spec fn in_range(self, bound: int) -> bool {
        &&& -bound <= self.red <= bound
        &&& -bound <= self.green <= bound
        &&& -bound <= self.blue <= bound
        &&& -bound <= self.alpha <= bound
    }

    open spec fn lerped(self, end: Self, progress: int) -> Self {
        FillColor {
            red: lerp(self.red as int, end.red as int, progress) as i64,
            green: lerp(self.green as int, end.green as int, progress) as i64,
            blue: lerp(self.blue as int, end.blue as int, progress) as i64,
            alpha: lerp(self.alpha as int, end.alpha as int, progress) as i64,
        }
    }

    open spec fn offset_spec(self, delta: Self) -> Self {
        FillColor {
            red: (self.red + delta.red) as i64,
            green: (self.green + delta.green) as i64,
            blue: (self.blue + delta.blue) as i64,
            alpha: (self.alpha + delta.alpha) as i64,
        }
    }

    proof fn lemma_lerped_identity(self, progress: int) {
        lemma_lerp_identity(self.red as int, progress);
        lemma_lerp_identity(self.green as int, progress);
        lemma_lerp_identity(self.blue as int, progress);
        lemma_lerp_identity(self.alpha as int, progress);
    }

    proof fn lemma_lerped_zero(self, end: Self) {
        lemma_lerp_zero(self.red as int, end.red as int);
        lemma_lerp_zero(self.green as int, end.green as int);
        lemma_lerp_zero(self.blue as int, end.blue as int);
        lemma_lerp_zero(self.alpha as int, end.alpha as int);
    }

    proof fn lemma_lerped_one(self, end: Self) {
        lemma_lerp_one(self.red as int, end.red as int);
        lemma_lerp_one(self.green as int, end.green as int);
        lemma_lerp_one(self.blue as int, end.blue as int);
        lemma_lerp_one(self.alpha as int, end.alpha as int);
    }

    proof fn lemma_in_range_widen(self, bound1: int, bound2: int) {
    }

    proof fn lemma_offset_in_range(self, delta: Self) {
    }

    fn check_in_range(&self, bound: i64) -> bool {
        -(bound as i128) <= self.red as i128
            && self.red as i128 <= bound as i128
            && -(bound as i128) <= self.green as i128
            && self.green as i128 <= bound as i128
            && -(bound as i128) <= self.blue as i128
            && self.blue as i128 <= bound as i128
            && -(bound as i128) <= self.alpha as i128
            && self.alpha as i128 <= bound as i128
    }

    fn interp(&self, end: &Self, progress: i64) -> Self {
        FillColor {
            red: lerp_i64(self.red, end.red, progress),
            green: lerp_i64(self.green, end.green, progress),
            blue: lerp_i64(self.blue, end.blue, progress),
            alpha: lerp_i64(self.alpha, end.alpha, progress),
        }
    }

    fn offset(&self, delta: &Self) -> Self {
        FillColor {
            red: self.red + delta.red,
            green: self.green + delta.green,
            blue: self.blue + delta.blue,
            alpha: self.alpha + delta.alpha,
        }
    }
}

impl Interpolate for Position {
    open spec fn in_range(self, bound: int) -> bool {
        &&& -bound <= self.x <= bound
        &&& -bound <= self.y <= bound
    }

    open spec fn lerped(self, end: Self, progress: int) -> Self {
        Position {
            x: lerp(self.x as int, end.x as int, progress) as i64,
            y: lerp(self.y as int, end.y as int, progress) as i64,
        }
    }

    open spec fn offset_spec(self, delta: Self) -> Self {
        Position { x: (self.x + delta.x) as i64, y: (self.y + delta.y) as i64 }
    }

    proof fn lemma_lerped_identity(self, progress: int) {
        lemma_lerp_identity(self.x as int, progress);
        lemma_lerp_identity(self.y as int, progress);
    }

    proof fn lemma_lerped_zero(self, end: Self) {
        lemma_lerp_zero(self.x as int, end.x as int);
        lemma_lerp_zero(self.y as int, end.y as int);
    }

    proof fn lemma_lerped_one(self, end: Self) {
        lemma_lerp_one(self.x as int, end.x as int);
        lemma_lerp_one(self.y as int, end.y as int);
    }

    proof fn lemma_in_range_widen(self, bound1: int, bound2: int) {
    }

    proof fn lemma_offset_in_range(self, delta: Self) {
    }

    fn check_in_range(&self, bound: i64) -> bool {
        -(bound as i128) <= self.x as i128
            && self.x as i128 <= bound as i128
            && -(bound as i128) <= self.y as i128
            && self.y as i128 <= bound as i128
    }

    fn interp(&self, end: &Self, progress: i64) -> Self {
        Position {
            x: lerp_i64(self.x, end.x, progress),
            y: lerp_i64(self.y, end.y, progress),
        }
    }

    fn offset(&self, delta: &Self) -> Self {
        Position { x: self.x + delta.x, y: self.y + delta.y }
    }
}

impl Interpolate for Angle {
    open spec fn in_range(self, bound: int) -> bool {
        -bound <= self.value <= bound
    }

    open spec fn lerped(self, end: Self, progress: int) -> Self {
        Angle { value: lerp(self.value as int, end.value as int, progress) as i64 }
    }

    open spec fn offset_spec(self, delta: Self) -> Self {
        Angle { value: (self.value + delta.value) as i64 }
    }

    proof fn lemma_lerped_identity(self, progress: int) {
        lemma_lerp_identity(self.value as int, progress);
    }

    proof fn lemma_lerped_zero(self, end: Self) {
        lemma_lerp_zero(self.value as int, end.value as int);
    }

    proof fn lemma_lerped_one(self, end: Self) {
        lemma_lerp_one(self.value as int, end.value as int);
    }

    proof fn lemma_in_range_widen(self, bound1: int, bound2: int) {
    }

    proof fn lemma_offset_in_range(self, delta: Self) {
    }

    fn check_in_range(&self, bound: i64) -> bool {
        -(bound as i128) <= self.value as i128
            && self.value as i128 <= bound as i128
    }

    fn interp(&self, end: &Self, progress: i64) -> Self {
        Angle { value: lerp_i64(self.value, end.value, progress) }
    }

    fn offset(&self, delta: &Self) -> Self {
        Angle { value: self.value + delta.value }
    }
}

impl Interpolate for Size {
    open spec fn in_range(self, bound: int) -> bool {
        &&& -bound <= self.width <= bound
        &&& -bound <= self.height <= bound
    }

    open spec fn lerped(self, end: Self, progress: int) -> Self {
        Size {
            width: lerp(self.width as int, end.width as int, progress) as i64,
            height: lerp(self.height as int, end.height as int, progress) as i64,
        }
    }

    open spec fn offset_spec(self, delta: Self) -> Self {
        Size {
            width: (self.width + delta.width) as i64,
            height: (self.height + delta.height) as i64,
        }
    }

    proof fn lemma_lerped_identity(self, progress: int) {
        lemma_lerp_identity(self.width as int, progress);
        lemma_lerp_identity(self.height as int, progress);
    }

    proof fn lemma_lerped_zero(self, end: Self) {
        lemma_lerp_zero(self.width as int, end.width as int);
        lemma_lerp_zero(self.height as int, end.height as int);
    }

    proof fn lemma_lerped_one(self, end: Self) {
        lemma_lerp_one(self.width as int, end.width as int);
        lemma_lerp_one(self.height as int, end.height as int);
    }

    proof fn lemma_in_range_widen(self, bound1: int, bound2: int) {
    }

    proof fn lemma_offset_in_range(self, delta: Self) {
    }

    fn check_in_range(&self, bound: i64) -> bool {
        -(bound as i128) <= self.width as i128
            && self.width as i128 <= bound as i128
            && -(bound as i128) <= self.height as i128
            && self.height as i128 <= bound as i128
    }

    fn interp(&self, end: &Self, progress: i64) -> Self {
        Size {
            width: lerp_i64(self.width, end.width, progress),
            height: lerp_i64(self.height, end.height, progress),
        }
    }

    fn offset(&self, delta: &Self) -> Self {
        Size { width: self.width + delta.width, height: self.height + delta.height }
    }
}

impl Interpolate for Opacity {
    open spec fn in_range(self, bound: int) -> bool {
        -bound <= self.value <= bound
    }

    open spec fn lerped(self, end: Self, progress: int) -> Self {
        Opacity { value: lerp(self.value as int, end.value as int, progress) as i64 }
    }

    open spec fn offset_spec(self, delta: Self) -> Self {
        Opacity { value: (self.value + delta.value) as i64 }
    }

    proof fn lemma_lerped_identity(self, progress: int) {
        lemma_lerp_identity(self.value as int, progress);
    }

    proof fn lemma_lerped_zero(self, end: Self) {
        lemma_lerp_zero(self.value as int, end.value as int);
    }

    proof fn lemma_lerped_one(self, end: Self) {
        lemma_lerp_one(self.value as int, end.value as int);
    }

    proof fn lemma_in_range_widen(self, bound1: int, bound2: int) {
    }

    proof fn lemma_offset_in_range(self, delta: Self) {
    }

    fn check_in_range(&self, bound: i64) -> bool {
        -(bound as i128) <= self.value as i128
            && self.value as i128 <= bound as i128
    }

    fn interp(&self, end: &Self, progress: i64) -> Self {
        Opacity { value: lerp_i64(self.value, end.value, progress) }
    }

    fn offset(&self, delta: &Self) -> Self {
        Opacity { value: self.value + delta.value }
    }
}

impl Interpolate for PathCompletion {
    open spec fn in_range(self, bound: int) -> bool {
        -bound <= self.value <= bound
    }

    open spec fn lerped(self, end: Self, progress: int) -> Self {
        PathCompletion { value: lerp(self.value as int, end.value as int, progress) as i64 }
    }

    open spec fn offset_spec(self, delta: Self) -> Self {
        PathCompletion { value: (self.value + delta.value) as i64 }
    }

    proof fn lemma_lerped_identity(self, progress: int) {
        lemma_lerp_identity(self.value as int, progress);
    }

    proof fn lemma_lerped_zero(self, end: Self) {
        lemma_lerp_zero(self.value as int, end.value as int);
    }

    proof fn lemma_lerped_one(self, end: Self) {
        lemma_lerp_one(self.value as int, end.value as int);
    }

    proof fn lemma_in_range_widen(self, bound1: int, bound2: int) {
    }

    proof fn lemma_offset_in_range(self, delta: Self) {
    }

    fn check_in_range(&self, bound: i64) -> bool {
        -(bound as i128) <= self.value as i128
            && self.value as i128 <= bound as i128
    }

    fn interp(&self, end: &Self, progress: i64) -> Self {
        PathCompletion { value: lerp_i64(self.value, end.value, progress) }
    }

    fn offset(&self, delta: &Self) -> Self {
        PathCompletion { value: self.value + delta.value }
    }
}

} // verus!
