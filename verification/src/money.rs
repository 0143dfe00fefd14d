//! Money and fixed-point arithmetic.
//!
//! Money is counted in cents (`i64`).  Rates of return, expense ratios and
//! inflation rates are fixed-point numbers scaled by [`RATE_SCALE`] (parts
//! per million).  Amounts are kept in `[0, MONEY_CAP]`; operations that could
//! grow past the cap saturate there, so every operation is total.

use vstd::prelude::*;

verus! {

use vstd::arithmetic::div_mod::lemma_div_is_ordered;
use vstd::arithmetic::div_mod::lemma_div_multiples_vanish;
use vstd::arithmetic::div_mod::lemma_div_pos_is_pos;
use vstd::arithmetic::div_mod::lemma_fundamental_div_mod;
use vstd::arithmetic::mul::lemma_mul_inequality;
use vstd::arithmetic::mul::lemma_mul_is_commutative;
use vstd::arithmetic::mul::lemma_mul_nonnegative;

/// Largest amount of money the simulator tracks, in cents ($100 trillion).
/// Values saturate here rather than overflowing.
pub const MONEY_CAP: i64 = 10_000_000_000_000_000;

/// Fixed-point scale for rates: parts per million.  A rate of `50_000`
/// means 5%.
pub const RATE_SCALE: i64 = 1_000_000;

/// Upper bound on the denominator of an exact fraction (`Ratio`), large
/// enough for the total value of a whole household (several accounts, each
/// at most `MONEY_CAP`).
pub const DEN_CAP: i64 = 100_000_000_000_000_000;

/// Upper bound on a yearly rate of return, in parts per million (a
/// million-fold gain); keeps fixed-point products inside machine range.
pub const RATE_CAP: i64 = 1_000_000_000_000;

/// Upper bound on the cumulative inflation factor (scaled by
/// `RATE_SCALE`): a million-fold rise in prices.
pub const INFLATION_CAP: i64 = 1_000_000_000_000;

/// Saturate an amount at `MONEY_CAP`.
pub open spec fn capped(x: int) -> int {
    if x > MONEY_CAP as int {
        MONEY_CAP as int
    } else {
        x
    }
}

/// `v * num / den`, rounded down.  The basic fixed-point operation; all
/// callers keep the arguments non-negative, where rounding down and
/// truncation agree.
pub open spec fn muldiv(v: int, num: int, den: int) -> int
    recommends
        1 <= den,
{
    (v * num) / den
}

/// `0 <= v*num/den <= v` whenever the multiplier is a fraction at most one.
pub proof fn lemma_muldiv_le(v: int, num: int, den: int)
    requires
        0 <= v,
        1 <= den,
        0 <= num <= den,
    ensures
        0 <= muldiv(v, num, den) <= v,
{
    lemma_mul_nonnegative(v, num);
    lemma_div_pos_is_pos(v * num, den);
    lemma_mul_inequality(num, den, v);
    lemma_mul_is_commutative(num, v);
    lemma_mul_is_commutative(den, v);
    lemma_div_is_ordered(v * num, v * den, den);
    lemma_div_multiples_vanish(v, den);
    lemma_mul_is_commutative(den, v);
}

/// `v*num/den` is monotone in `v` for a fixed non-negative multiplier.
pub proof fn lemma_muldiv_monotone(v1: int, v2: int, num: int, den: int)
    requires
        v1 <= v2,
        0 <= num,
        1 <= den,
    ensures
        muldiv(v1, num, den) <= muldiv(v2, num, den),
{
    lemma_mul_inequality(v1, v2, num);
    lemma_div_is_ordered(v1 * num, v2 * num, den);
}

/// The division error of `muldiv` is less than one unit of the denominator:
/// `v*num - den < muldiv(v, num, den) * den <= v*num`.
pub proof fn lemma_muldiv_error(v: int, num: int, den: int)
    requires
        1 <= den,
    ensures
        v * num - den < muldiv(v, num, den) * den <= v * num,
{
    lemma_fundamental_div_mod(v * num, den);
    lemma_mul_is_commutative(den, (v * num) / den);
}

/// Splitting a numerator across a division loses less than one unit:
/// `(a + b)/d <= a/d + b/d + 1`, and the sum of parts never exceeds the whole.
pub proof fn lemma_div_add_bounds(a: int, b: int, d: int)
    requires
        1 <= d,
        0 <= a,
        0 <= b,
    ensures
        a / d + b / d <= (a + b) / d <= a / d + b / d + 1,
{
    lemma_fundamental_div_mod(a, d);
    lemma_fundamental_div_mod(b, d);
    lemma_fundamental_div_mod(a + b, d);
    let qa = a / d;
    let ra = a % d;
    let qb = b / d;
    let rb = b % d;
    let qs = (a + b) / d;
    let rs = (a + b) % d;
    assert(qa + qb <= qs <= qa + qb + 1) by (nonlinear_arith)
        requires
            1 <= d,
            a == d * qa + ra,
            0 <= ra < d,
            b == d * qb + rb,
            0 <= rb < d,
            a + b == d * qs + rs,
            0 <= rs < d;
}

/// Dividing zero yields zero.
pub proof fn lemma_zero_div(d: int)
    requires
        1 <= d,
    ensures
        0int / d == 0,
{
    lemma_div_multiples_vanish(0, d);
    assert(d * 0 == 0);
}

/// Dividing by one changes nothing.
pub proof fn lemma_div_by_one(x: int)
    ensures
        x / 1 == x,
{
    lemma_div_multiples_vanish(x, 1);
    assert(1 * x == x);
}

/// The product of two `i64` values always fits in `i128`.
pub proof fn lemma_i64_mul_fits_i128(a: int, b: int)
    by (nonlinear_arith)
    requires
        i64::MIN <= a <= i64::MAX,
        i64::MIN <= b <= i64::MAX,
    ensures
        i128::MIN <= a * b <= i128::MAX,
{
}

/// Exact `v * num / den` for a fractional multiplier (`num <= den`); the
/// result never exceeds `v`.
pub fn frac_mul(v: i64, num: i64, den: i64) -> (r: i64)
    requires
        0 <= v,
        1 <= den,
        0 <= num <= den,
    ensures
        r == muldiv(v as int, num as int, den as int),
        0 <= r <= v,
{
    proof {
        lemma_i64_mul_fits_i128(v as int, num as int);
        lemma_muldiv_le(v as int, num as int, den as int);
    }
    ((v as i128) * (num as i128) / (den as i128)) as i64
}

/// `v * num / den` for a multiplier that may exceed one, saturated at
/// `MONEY_CAP`.
pub fn scale_mul_capped(v: i64, num: i64, den: i64) -> (r: i64)
    requires
        0 <= v,
        1 <= den,
        0 <= num,
    ensures
        r == capped(muldiv(v as int, num as int, den as int)),
        0 <= r <= MONEY_CAP,
{
    proof {
        lemma_i64_mul_fits_i128(v as int, num as int);
        lemma_mul_nonnegative(v as int, num as int);
        lemma_div_pos_is_pos((v as int) * (num as int), den as int);
    }
    let wide: i128 = (v as i128) * (num as i128) / (den as i128);
    if wide > MONEY_CAP as i128 {
        MONEY_CAP
    } else {
        wide as i64
    }
}

/// Saturating addition of two amounts.
pub fn add_capped(a: i64, b: i64) -> (r: i64)
    requires
        0 <= a,
        0 <= b,
    ensures
        r == capped(a + b),
        0 <= r <= MONEY_CAP,
{
    if a > MONEY_CAP - b {
        MONEY_CAP
    } else {
        a + b
    }
}

} // verus!
