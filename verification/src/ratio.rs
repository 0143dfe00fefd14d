//! Exact fractions.
//!
//! Asset allocations, bond fractions and capital-gains ratios are exact
//! rationals `num / den`.  Keeping them exact (rather than as rounded
//! fixed-point numbers) lets the allocation and rebalancing algorithms hit
//! their targets to the cent.

use vstd::prelude::*;

verus! {

use crate::money::muldiv;
use crate::money::frac_mul;
use crate::money::lemma_i64_mul_fits_i128;
use crate::money::DEN_CAP;

/// An exact fraction `num / den`.  A well-formed ratio has a positive
/// denominator and is at most one; the numerator may be negative (an
/// underwater asset has a negative gains ratio).
#[derive(Clone, Copy, Debug)]
pub struct Ratio {
    pub num: i64,
    pub den: i64,
}

impl Ratio {
    /// Well-formedness: positive denominator within machine bounds, and a
    /// value of at most one.
    pub open spec fn wf(self) -> bool {
        1 <= self.den <= DEN_CAP && -DEN_CAP <= self.num <= self.den
    }

    /// A well-formed ratio that also lies in `[0, 1]`.
    pub open spec fn is_fraction(self) -> bool {
        self.wf() && 0 <= self.num
    }

    pub fn new(num: i64, den: i64) -> (r: Ratio)
        requires
            1 <= den <= DEN_CAP,
            -DEN_CAP <= num <= den,
        ensures
            r == (Ratio { num, den }),
            r.wf(),
    {
        Ratio { num, den }
    }

    /// The fraction zero.
    pub fn zero() -> (r: Ratio)
        ensures
            r == (Ratio { num: 0, den: 1 }),
            r.is_fraction(),
    {
        Ratio { num: 0, den: 1 }
    }

    /// The fraction one.
    pub fn one() -> (r: Ratio)
        ensures
            r == (Ratio { num: 1, den: 1 }),
            r.is_fraction(),
    {
        Ratio { num: 1, den: 1 }
    }

    /// The share `v * num / den` of an amount of money, rounded down.
    pub fn apply(&self, v: i64) -> (r: i64)
        requires
            self.is_fraction(),
            0 <= v,
        ensures
            r == muldiv(v as int, self.num as int, self.den as int),
            0 <= r <= v,
    {
        frac_mul(v, self.num, self.den)
    }
}

impl PartialEq for Ratio {
    /// Two ratios are equal when they denote the same rational number.
    fn eq(&self, other: &Ratio) -> (r: bool) {
        proof {
            lemma_i64_mul_fits_i128(self.num as int, other.den as int);
            lemma_i64_mul_fits_i128(other.num as int, self.den as int);
        }
        (self.num as i128) * (other.den as i128) == (other.num as i128) * (self.den as i128)
    }
}

impl vstd::std_specs::cmp::PartialEqSpecImpl for Ratio {
    open spec fn obeys_eq_spec() -> bool {
        true
    }

    open spec fn eq_spec(&self, other: &Ratio) -> bool {
        self.num * other.den == other.num * self.den
    }
}

/// A ratio built from an amount and a whole, applied back to the whole,
/// recovers the amount exactly: `(v * (part/v)) == part`.  This is why the
/// allocation solver can hand out per-account fractions without losing cents.
pub proof fn lemma_ratio_of_part_exact(part: int, whole: int)
    requires
        1 <= whole,
        0 <= part,
    ensures
        muldiv(whole, part, whole) == part,
{
    vstd::arithmetic::div_mod::lemma_div_multiples_vanish(part, whole);
    vstd::arithmetic::mul::lemma_mul_is_commutative(whole, part);
}

} // verus!
