//! The interpolatable-value contract and the fixed-point interpolation law.
//!
//! Property values are fixed-point integers.  A progress fraction is scaled
//! by `PROGRESS_ONE`: the value `PROGRESS_ONE` stands for a fraction of 1.0.
//! Progress values outside `[0, PROGRESS_ONE]` are allowed and extrapolate
//! linearly; no clamping is performed here.

use vstd::prelude::*;
use vstd::arithmetic::div_mod::{lemma_div_by_multiple, lemma_div_is_ordered, lemma_div_pos_is_pos};
use crate::PROGRESS_ONE;

verus! {

/// Largest magnitude allowed for a caller-supplied property value or delta.
pub const VALUE_BOUND: i64 = 1_073_741_824;

/// Largest magnitude an end value can reach: the sum of a begin value and a
/// relative delta, each bounded by `VALUE_BOUND`.
pub const END_BOUND: i64 = 2_147_483_648;

/// Largest magnitude allowed for a scaled progress fraction.
pub const PROGRESS_BOUND: i64 = 2_147_483_648;

/// Integer division rounding toward zero, as the executable code computes it
/// on a possibly negative numerator.
pub open spec fn div_toward_zero(n: int, d: int) -> int {
    if n >= 0 {
        n / d
    } else {
        -((-n) / d)
    }
}

/// The interpolation law on one fixed-point coordinate: the value `b` moved
/// toward `e` by the scaled progress fraction `p`.
pub open spec fn lerp(b: int, e: int, p: int) -> int {
    b + div_toward_zero((e - b) * p, PROGRESS_ONE as int)
}

/// Interpolating a coordinate toward itself leaves it unchanged, whatever the
/// progress fraction.
pub proof fn lemma_lerp_identity(v: int, p: int)
    ensures
        lerp(v, v, p) == v,
{
    assert((v - v) * p == 0) by (nonlinear_arith);
}

/// At progress zero the interpolation returns the begin value exactly.
pub proof fn lemma_lerp_zero(b: int, e: int)
    ensures
        lerp(b, e, 0) == b,
{
    assert((e - b) * 0 == 0) by (nonlinear_arith);
}

/// At full progress the interpolation returns the end value exactly.
pub proof fn lemma_lerp_one(b: int, e: int)
    ensures
        lerp(b, e, PROGRESS_ONE as int) == e,
{
    let one = PROGRESS_ONE as int;
    if e >= b {
        assert((e - b) * one >= 0) by (nonlinear_arith)
            requires
                e - b >= 0,
                one > 0,
        ;
        lemma_div_by_multiple(e - b, one);
    } else {
        assert((e - b) * one < 0 && -((e - b) * one) == (b - e) * one) by (nonlinear_arith)
            requires
                e - b < 0,
                one > 0,
        ;
        lemma_div_by_multiple(b - e, one);
    }
}

/// Executable fixed-point interpolation of one coordinate, exact with respect
/// to `lerp`.
pub fn lerp_i64(b: i64, e: i64, p: i64) -> (r: i64)
    requires
        -END_BOUND <= b && b <= END_BOUND,
        -END_BOUND <= e && e <= END_BOUND,
        -PROGRESS_BOUND <= p && p <= PROGRESS_BOUND,
    ensures
        r == lerp(b as int, e as int, p as int),
{
    let diff: i128 = (e as i128) - (b as i128);
    assert(-9223372036854775808i128 <= diff * (p as i128) && diff * (p as i128)
        <= 9223372036854775808i128) by (nonlinear_arith)
        requires
            -4294967296i128 <= diff && diff <= 4294967296i128,
            -2147483648i128 <= (p as i128) && (p as i128) <= 2147483648i128,
    ;
    let num: i128 = diff * (p as i128);
    let q: i128 = if num >= 0 {
        let un: u128 = num as u128;
        proof {
            lemma_div_is_ordered(un as int, 9223372036854775808, PROGRESS_ONE as int);
            lemma_div_pos_is_pos(un as int, PROGRESS_ONE as int);
        }
        (un / (PROGRESS_ONE as u128)) as i128
    } else {
        let un: u128 = (-num) as u128;
        proof {
            lemma_div_is_ordered(un as int, 9223372036854775808, PROGRESS_ONE as int);
            lemma_div_pos_is_pos(un as int, PROGRESS_ONE as int);
        }
        -((un / (PROGRESS_ONE as u128)) as i128)
    };
    assert(q == div_toward_zero(num as int, PROGRESS_ONE as int));
    (b as i128 + q) as i64
}

/// The capability contract each supported property type implements: given a
/// begin value, an end value and a scaled progress fraction, produce the
/// interpolated value; and form the sum of a value and a delta, for relative
/// end specifications.
pub trait Interpolate: Sized + Copy {
    /// Every coordinate of the value lies within `bound` in magnitude.
    spec fn in_range(self, bound: int) -> bool;

    /// The value whose coordinates interpolate those of `self` toward those
    /// of `end` at the scaled progress fraction `progress`.
    spec fn lerped(self, end: Self, progress: int) -> Self;

    /// The coordinatewise sum of `self` and `delta`.
    spec fn offset_spec(self, delta: Self) -> Self;

    /// Interpolating a value toward itself returns it unchanged: identity
    /// when begin and end coincide.
    proof fn lemma_lerped_identity(self, progress: int)
        ensures
            self.lerped(self, progress) == self,
    ;

    /// At progress zero the interpolated value is the begin value exactly.
    proof fn lemma_lerped_zero(self, end: Self)
        ensures
            self.lerped(end, 0) == self,
    ;

    /// At full progress the interpolated value is the end value exactly.
    proof fn lemma_lerped_one(self, end: Self)
        ensures
            self.lerped(end, PROGRESS_ONE as int) == end,
    ;

    /// A range bound widens monotonically.
    proof fn lemma_in_range_widen(self, bound1: int, bound2: int)
        requires
            self.in_range(bound1),
            bound1 <= bound2,
        ensures
            self.in_range(bound2),
    ;

    /// The sum of two values bounded by `VALUE_BOUND` is bounded by
    /// `END_BOUND`.
    proof fn lemma_offset_in_range(self, delta: Self)
        requires
            self.in_range(VALUE_BOUND as int),
            delta.in_range(VALUE_BOUND as int),
        ensures
            self.offset_spec(delta).in_range(END_BOUND as int),
    ;

    /// Decide whether every coordinate lies within `bound` in magnitude, so
    /// that callers outside verified code can test the range preconditions.
    fn check_in_range(&self, bound: i64) -> (r: bool)
        ensures
            r == self.in_range(bound as int),
    ;

    /// Interpolate `self` toward `end` at `progress`.
    fn interp(&self, end: &Self, progress: i64) -> (r: Self)
        requires
            self.in_range(END_BOUND as int),
            end.in_range(END_BOUND as int),
            -PROGRESS_BOUND <= progress && progress <= PROGRESS_BOUND,
        ensures
            r == self.lerped(*end, progress as int),
    ;

    /// Add the delta `delta` to `self`, coordinatewise.
    fn offset(&self, delta: &Self) -> (r: Self)
        requires
            self.in_range(VALUE_BOUND as int),
            delta.in_range(VALUE_BOUND as int),
        ensures
            r == self.offset_spec(*delta),
    ;
}

} // verus!
