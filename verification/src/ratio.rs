//! Exact non-negative fractions, compared by cross-multiplication.

use vstd::prelude::*;

verus! {

/// The fraction `num / den`.
#[derive(Clone, Copy, Debug, PartialEq, Eq, Structural)]
pub struct Ratio {
    pub num: u32,
    pub den: u32,
}

impl Ratio {
    /// A ratio denotes a number only when its denominator is positive.
    pub open spec fn wf(self) -> bool {
        self.den > 0
    }

    /// `self <= other` as fractions with positive denominators.
    pub open spec fn le(self, other: Ratio) -> bool {
        self.num * other.den <= other.num * self.den
    }

    /// `self == other` as fractions with positive denominators.
    pub open spec fn same(self, other: Ratio) -> bool {
        self.num * other.den == other.num * self.den
    }

    pub fn new(num: u32, den: u32) -> (res: Ratio)
        ensures
            res == (Ratio { num, den }),
    {
        Ratio { num, den }
    }

    /// The whole number `n`, as `n / 1`.
    pub fn whole(n: u32) -> (res: Ratio)
        ensures
            res == (Ratio { num: n, den: 1 }),
    {
        Ratio { num: n, den: 1 }
    }

    /// Decides `self <= other` without rounding.
    pub fn at_most(&self, other: &Ratio) -> (res: bool)
        ensures
            res == self.le(*other),
    {
        let lhs: u64 = Self::cross(self.num, other.den);
        let rhs: u64 = Self::cross(other.num, self.den);
        lhs <= rhs
    }

    /// Decides whether two ratios denote the same number.
    pub fn same_value(&self, other: &Ratio) -> (res: bool)
        ensures
            res == self.same(*other),
    {
        let lhs: u64 = Self::cross(self.num, other.den);
        let rhs: u64 = Self::cross(other.num, self.den);
        lhs == rhs
    }

    fn cross(a: u32, b: u32) -> (res: u64)
        ensures
            res == a * b,
    {
        proof {
            vstd::arithmetic::mul::lemma_mul_upper_bound(
                a as int,
                u32::MAX as int,
                b as int,
                u32::MAX as int,
            );
        }
        (a as u64) * (b as u64)
    }
}

} // verus!
