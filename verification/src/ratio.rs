//! Exact slopes.

use vstd::prelude::*;
use crate::arith::fits_i32;
use crate::arith::floor_div;
use crate::arith::mul_div_floor;
use crate::arith::mul_wide;

verus! {

/// The exact quotient `num / den` of two integers: a scale factor between
/// document units and screen units, kept unrounded so that rounding happens
/// once, when the factor is applied.
#[derive(Clone, Copy, Debug)]
pub struct Ratio {
    num: i64,
    den: i64,
}

impl Ratio {
    /// The numerator.
    pub closed spec fn spec_num(self) -> int {
        self.num as int
    }

    /// The denominator. Never zero in a value that executable code holds.
    pub closed spec fn spec_den(self) -> int {
        self.den as int
    }

    /// The denominator is not zero.
    #[verifier::type_invariant]
    spec fn nonzero_den(self) -> bool {
        self.den != 0
    }

    /// `self` and `other` stand for the same rational number.
    pub open spec fn same_value(self, other: Ratio) -> bool {
        self.spec_num() * other.spec_den() == other.spec_num() * self.spec_den()
    }

    /// `self` stands for `k` times the rational number that `other` stands
    /// for.
    pub open spec fn is_multiple_of(self, k: int, other: Ratio) -> bool {
        self.spec_num() * other.spec_den() == k * other.spec_num() * self.spec_den()
    }

    /// `v` times the ratio, rounded down.
    pub open spec fn spec_apply(self, v: int) -> int {
        floor_div(v * self.spec_num(), self.spec_den())
    }

    /// The ratio `num / den`, or `None` when `den` is zero.
    pub fn new(num: i64, den: i64) -> (r: Option<Ratio>)
        ensures
            (den == 0) == (r is None),
            r matches Some(q) ==> q.spec_num() == num && q.spec_den() == den,
    {
        if den == 0 {
            None
        } else {
            Some(Ratio { num, den })
        }
    }

    /// The numerator.
    pub fn num(&self) -> (n: i64)
        ensures
            n == self.spec_num(),
    {
        self.num
    }

    /// The denominator, which is not zero.
    pub fn den(&self) -> (d: i64)
        ensures
            d == self.spec_den(),
            d != 0,
    {
        proof {
            use_type_invariant(self);
        }
        self.den
    }

    /// The reciprocal `den / num`, or `None` when the ratio is zero.
    pub fn recip(&self) -> (r: Option<Ratio>)
        ensures
            (self.spec_num() == 0) == (r is None),
            r matches Some(q) ==> q.spec_num() == self.spec_den() && q.spec_den()
                == self.spec_num(),
    {
        Ratio::new(self.den, self.num)
    }

    /// Whether the two ratios stand for the same rational number.
    pub fn equals(&self, other: &Ratio) -> (b: bool)
        ensures
            b == self.same_value(*other),
    {
        mul_wide(self.num, other.den) == mul_wide(other.num, self.den)
    }

    /// `v` times the ratio, rounded down, or `None` when that does not fit a
    /// coordinate.
    pub fn apply(&self, v: i32) -> (r: Option<i32>)
        ensures
            fits_i32(self.spec_apply(v as int)) == (r is Some),
            r matches Some(w) ==> w == self.spec_apply(v as int),
    {
        proof {
            use_type_invariant(self);
        }
        let q: i128 = mul_div_floor(v as i64, self.num, self.den);
        if i32::MIN as i128 <= q && q <= i32::MAX as i128 {
            Some(q as i32)
        } else {
            None
        }
    }
}

} // verus!
