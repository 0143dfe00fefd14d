//! Taxes on retirement income for a married couple in Illinois, filing
//! jointly.  Neither spouse has wages, so there is no payroll tax.
//!
//! The federal component stacks capital gains on top of ordinary income:
//! the gains occupy the income interval `[i, i + cg)`, and each gains
//! bracket taxes the part of that interval falling inside it, so ordinary
//! income fills the lower brackets first.
//!
//! All amounts are cents; all rates parts per million.  Each component is
//! computed exactly in scaled units and rounded down to a whole cent once,
//! which keeps every component monotone in both income and gains.

use vstd::prelude::*;

verus! {

use crate::money::muldiv;
use crate::money::lemma_div_add_bounds;
use crate::money::lemma_muldiv_le;
use crate::money::lemma_muldiv_error;
use crate::money::lemma_muldiv_monotone;
use crate::money::MONEY_CAP;
use crate::money::RATE_SCALE;
use crate::ratio::Ratio;
use vstd::arithmetic::div_mod::lemma_div_is_ordered;

/// Standard deduction (cents).
pub const STD_DEDUCTION: i64 = 2_480_000;

/// Ordinary-income bracket floors (cents, after the standard deduction).
pub const BRACKET_12: i64 = 1_975_000;

pub const BRACKET_22: i64 = 8_025_000;

pub const BRACKET_24: i64 = 17_105_000;

pub const BRACKET_32: i64 = 32_660_000;

pub const BRACKET_35: i64 = 41_470_000;

pub const BRACKET_37: i64 = 62_205_000;

/// Capital-gains bracket floors (cents of combined income).
pub const CG_BRACKET_15: i64 = 8_000_000;

pub const CG_BRACKET_20: i64 = 49_660_000;

/// Net-investment-income surtax: 3.8% of combined income over $250,000.
pub const NIIT_FLOOR: i64 = 25_000_000;

/// Flat Illinois rate: 4.95%.
pub const ILLINOIS_RATE: i64 = 49_500;

/// The sum of the rates that apply to one more cent of capital gains
/// (Illinois + top gains bracket + surtax); used to bound the withdrawal
/// search.
pub const CG_MARGINAL_CAP: i64 = 287_500;

/// One step of the linear withdrawal search: $1,000.
pub const SEARCH_STEP: i64 = 100_000;

/// Negative amounts clipped to zero.
pub open spec fn clip0(x: int) -> int {
    if x < 0 {
        0
    } else {
        x
    }
}

/// Illinois tax, in scaled units: a flat rate on income plus non-negative
/// capital gains.
pub open spec fn spec_illinois_scaled(i: int, cg: int) -> int {
    ILLINOIS_RATE * (i + clip0(cg))
}

pub open spec fn spec_illinois(i: int, cg: int) -> int {
    spec_illinois_scaled(i, cg) / (RATE_SCALE as int)
}

/// Federal ordinary-income tax in scaled units, written marginally: each
/// term is the extra rate that starts at its bracket floor, applied to the
/// income above that floor.  The terms add up to the usual 10/12/22/24/32/
/// 35/37-percent brackets over income net of the standard deduction.
pub open spec fn spec_fed_income_scaled(i: int) -> int {
    let inc = clip0(i - STD_DEDUCTION);
    100_000 * inc + 20_000 * clip0(inc - BRACKET_12) + 100_000 * clip0(inc - BRACKET_22) + 20_000
        * clip0(inc - BRACKET_24) + 80_000 * clip0(inc - BRACKET_32) + 30_000 * clip0(
        inc - BRACKET_35,
    ) + 20_000 * clip0(inc - BRACKET_37)
}

pub open spec fn spec_fed_income(i: int) -> int {
    spec_fed_income_scaled(i) / (RATE_SCALE as int)
}

/// The part of the gains interval `[i, i+g)` lying above `lo`.
pub open spec fn gains_above(i: int, g: int, lo: int) -> int {
    clip0(
        if g <= i + g - lo {
            g
        } else {
            i + g - lo
        },
    )
}

/// Federal capital-gains tax in scaled units, written marginally: 15% of
/// the gains above the 15%-bracket floor plus another 5% of the gains above
/// the 20%-bracket floor, the floors measured against combined income.
pub open spec fn spec_fed_cg_scaled(i: int, cg: int) -> int {
    let g = clip0(cg);
    150_000 * gains_above(i, g, CG_BRACKET_15 as int) + 50_000 * gains_above(
        i,
        g,
        CG_BRACKET_20 as int,
    )
}

pub open spec fn spec_fed_cg(i: int, cg: int) -> int {
    spec_fed_cg_scaled(i, cg) / (RATE_SCALE as int)
}

/// Net-investment-income surtax in scaled units.  Capital losses reduce the
/// combined income here, as they do on the federal form.
pub open spec fn spec_fed_niit_scaled(i: int, cg: int) -> int {
    38_000 * clip0(i + cg - NIIT_FLOOR)
}

pub open spec fn spec_fed_niit(i: int, cg: int) -> int {
    spec_fed_niit_scaled(i, cg) / (RATE_SCALE as int)
}

pub open spec fn spec_federal(i: int, cg: int) -> int {
    spec_fed_income(i) + spec_fed_cg(i, cg) + spec_fed_niit(i, cg)
}

pub open spec fn spec_tax(i: int, cg: int) -> int {
    spec_illinois(i, cg) + spec_federal(i, cg)
}

/// Illinois tax: a flat 4.95% of income plus non-negative capital gains.
pub fn illinois(i: i64, cg: i64) -> (t: i64)
    requires
        0 <= i <= 20 * MONEY_CAP,
        cg <= 20 * MONEY_CAP,
    ensures
        t == spec_illinois(i as int, cg as int),
        0 <= t <= i + clip0(cg as int),
{
    let clipped: i64 = if cg > 0 {
        cg
    } else {
        0
    };
    let base: i128 = (i as i128) + (clipped as i128);
    proof {
        lemma_muldiv_le(i + clip0(cg as int), ILLINOIS_RATE as int, RATE_SCALE as int);
        vstd::arithmetic::mul::lemma_mul_is_commutative(i + clip0(cg as int), ILLINOIS_RATE as int);
    }
    ((base * (ILLINOIS_RATE as i128)) / (RATE_SCALE as i128)) as i64
}

/// Federal tax on ordinary income: progressive marginal brackets over
/// income net of the standard deduction.
pub fn fed_income(i: i64) -> (t: i64)
    requires
        0 <= i <= 20 * MONEY_CAP,
    ensures
        t == spec_fed_income(i as int),
        0 <= t <= i,
{
    let inc: i128 = if i > STD_DEDUCTION {
        (i - STD_DEDUCTION) as i128
    } else {
        0
    };
    let mut scaled: i128 = 100_000 * inc;
    if inc > BRACKET_12 as i128 {
        scaled = scaled + 20_000 * (inc - BRACKET_12 as i128);
    }
    if inc > BRACKET_22 as i128 {
        scaled = scaled + 100_000 * (inc - BRACKET_22 as i128);
    }
    if inc > BRACKET_24 as i128 {
        scaled = scaled + 20_000 * (inc - BRACKET_24 as i128);
    }
    if inc > BRACKET_32 as i128 {
        scaled = scaled + 80_000 * (inc - BRACKET_32 as i128);
    }
    if inc > BRACKET_35 as i128 {
        scaled = scaled + 30_000 * (inc - BRACKET_35 as i128);
    }
    if inc > BRACKET_37 as i128 {
        scaled = scaled + 20_000 * (inc - BRACKET_37 as i128);
    }
    proof {
        assert(spec_fed_income_scaled(i as int) <= 370_000 * clip0(i - STD_DEDUCTION));
        lemma_muldiv_le(clip0(i - STD_DEDUCTION), 370_000, RATE_SCALE as int);
        vstd::arithmetic::mul::lemma_mul_is_commutative(clip0(i - STD_DEDUCTION), 370_000);
        lemma_div_is_ordered(
            spec_fed_income_scaled(i as int),
            clip0(i - STD_DEDUCTION) * 370_000,
            RATE_SCALE as int,
        );
        vstd::arithmetic::div_mod::lemma_div_pos_is_pos(
            spec_fed_income_scaled(i as int),
            RATE_SCALE as int,
        );
    }
    (scaled / (RATE_SCALE as i128)) as i64
}

/// Federal tax on capital gains stacked on top of ordinary income.
pub fn fed_cg(i: i64, cg: i64) -> (t: i64)
    requires
        0 <= i <= 20 * MONEY_CAP,
        cg <= 20 * MONEY_CAP,
    ensures
        t == spec_fed_cg(i as int, cg as int),
        0 <= t <= clip0(cg as int),
{
    let g: i128 = if cg > 0 {
        cg as i128
    } else {
        0
    };
    let combined: i128 = (i as i128) + g;
    let above15: i128 = if combined > CG_BRACKET_15 as i128 {
        if g <= combined - CG_BRACKET_15 as i128 {
            g
        } else {
            combined - CG_BRACKET_15 as i128
        }
    } else {
        0
    };
    let above20: i128 = if combined > CG_BRACKET_20 as i128 {
        if g <= combined - CG_BRACKET_20 as i128 {
            g
        } else {
            combined - CG_BRACKET_20 as i128
        }
    } else {
        0
    };
    let scaled: i128 = 150_000 * above15 + 50_000 * above20;
    proof {
        assert(spec_fed_cg_scaled(i as int, cg as int) <= 200_000 * clip0(cg as int));
        lemma_muldiv_le(clip0(cg as int), 200_000, RATE_SCALE as int);
        vstd::arithmetic::mul::lemma_mul_is_commutative(clip0(cg as int), 200_000);
        lemma_div_is_ordered(
            spec_fed_cg_scaled(i as int, cg as int),
            clip0(cg as int) * 200_000,
            RATE_SCALE as int,
        );
        vstd::arithmetic::div_mod::lemma_div_pos_is_pos(
            spec_fed_cg_scaled(i as int, cg as int),
            RATE_SCALE as int,
        );
    }
    (scaled / (RATE_SCALE as i128)) as i64
}

/// The 3.8% net-investment-income surtax on combined income over the
/// threshold.
pub fn fed_niit(i: i64, cg: i64) -> (t: i64)
    requires
        0 <= i <= 20 * MONEY_CAP,
        cg <= 20 * MONEY_CAP,
    ensures
        t == spec_fed_niit(i as int, cg as int),
        0 <= t <= clip0(i + cg - NIIT_FLOOR),
{
    let over: i128 = if (i as i128) + (cg as i128) > NIIT_FLOOR as i128 {
        (i as i128) + (cg as i128) - (NIIT_FLOOR as i128)
    } else {
        0
    };
    proof {
        lemma_muldiv_le(clip0(i + cg - NIIT_FLOOR), 38_000, RATE_SCALE as int);
        vstd::arithmetic::mul::lemma_mul_is_commutative(clip0(i + cg - NIIT_FLOOR), 38_000);
    }
    ((38_000 * over) / (RATE_SCALE as i128)) as i64
}

/// All federal components together.
pub fn federal(i: i64, cg: i64) -> (t: i64)
    requires
        0 <= i <= 20 * MONEY_CAP,
        cg <= 20 * MONEY_CAP,
    ensures
        t == spec_federal(i as int, cg as int),
        0 <= t <= 2 * i + 2 * clip0(cg as int) + clip0(i + cg - NIIT_FLOOR),
{
    let fi = fed_income(i);
    let fcg = fed_cg(i, cg);
    let niit = fed_niit(i, cg);
    fi + fcg + niit
}

/// Total tax owed on `i` of ordinary income and `cg` of capital gains.
pub fn tax(i: i64, cg: i64) -> (t: i64)
    requires
        0 <= i <= 20 * MONEY_CAP,
        cg <= 20 * MONEY_CAP,
    ensures
        t == spec_tax(i as int, cg as int),
        0 <= t <= 3 * i + 3 * clip0(cg as int) + clip0(i + cg - NIIT_FLOOR),
{
    let ill = illinois(i, cg);
    let fed = federal(i, cg);
    ill + fed
}

/// The tax is non-decreasing in ordinary income and in capital gains.
pub proof fn lemma_tax_monotone(i1: int, cg1: int, i2: int, cg2: int)
    requires
        0 <= i1 <= i2,
        cg1 <= cg2,
    ensures
        spec_tax(i1, cg1) <= spec_tax(i2, cg2),
{
    lemma_div_is_ordered(
        spec_illinois_scaled(i1, cg1),
        spec_illinois_scaled(i2, cg2),
        RATE_SCALE as int,
    );
    lemma_div_is_ordered(spec_fed_income_scaled(i1), spec_fed_income_scaled(i2), RATE_SCALE as int);
    lemma_div_is_ordered(
        spec_fed_cg_scaled(i1, cg1),
        spec_fed_cg_scaled(i2, cg2),
        RATE_SCALE as int,
    );
    lemma_div_is_ordered(
        spec_fed_niit_scaled(i1, cg1),
        spec_fed_niit_scaled(i2, cg2),
        RATE_SCALE as int,
    );
}

/// Because the brackets stack, the tax on income and gains together is
/// never less than the tax on either alone.
pub proof fn lemma_tax_dominates_components(i: int, cg: int)
    requires
        0 <= i,
        0 <= cg,
    ensures
        spec_tax(i, cg) >= spec_tax(i, 0),
        spec_tax(i, cg) >= spec_tax(0, cg),
{
    lemma_tax_monotone(i, 0, i, cg);
    lemma_tax_monotone(0, cg, i, cg);
}

/// Adding `d` to the gains raises the tax by at most the top marginal
/// gains rate on `d`, plus rounding: the components that depend on gains
/// (Illinois, the gains brackets, the surtax) have marginal rates summing
/// to `CG_MARGINAL_CAP` parts per million.
pub proof fn lemma_tax_cg_lipschitz(i: int, cg: int, d: int)
    requires
        0 <= i,
        0 <= cg,
        0 <= d,
    ensures
        spec_tax(i, cg + d) <= spec_tax(i, cg) + muldiv(d, CG_MARGINAL_CAP as int, RATE_SCALE as int)
            + 3,
{
    let s = RATE_SCALE as int;
    assert(spec_illinois_scaled(i, cg + d) <= spec_illinois_scaled(i, cg) + ILLINOIS_RATE * d);
    assert(spec_fed_cg_scaled(i, cg + d) <= spec_fed_cg_scaled(i, cg) + 200_000 * d);
    assert(spec_fed_niit_scaled(i, cg + d) <= spec_fed_niit_scaled(i, cg) + 38_000 * d);
    lemma_div_is_ordered(
        spec_illinois_scaled(i, cg + d),
        spec_illinois_scaled(i, cg) + ILLINOIS_RATE * d,
        s,
    );
    lemma_div_is_ordered(spec_fed_cg_scaled(i, cg + d), spec_fed_cg_scaled(i, cg) + 200_000 * d, s);
    lemma_div_is_ordered(
        spec_fed_niit_scaled(i, cg + d),
        spec_fed_niit_scaled(i, cg) + 38_000 * d,
        s,
    );
    lemma_div_add_bounds(spec_illinois_scaled(i, cg), ILLINOIS_RATE * d, s);
    lemma_div_add_bounds(spec_fed_cg_scaled(i, cg), 200_000 * d, s);
    lemma_div_add_bounds(spec_fed_niit_scaled(i, cg), 38_000 * d, s);
    lemma_div_add_bounds(ILLINOIS_RATE * d, 200_000 * d, s);
    lemma_div_add_bounds(249_500 * d, 38_000 * d, s);
}

/// Without capital gains the tax is a bounded share of income.
pub proof fn lemma_tax_at_zero_bound(i: int)
    requires
        0 <= i,
    ensures
        0 <= spec_tax(i, 0) <= 3 * i,
{
    let sc = RATE_SCALE as int;
    lemma_muldiv_le(i, ILLINOIS_RATE as int, sc);
    vstd::arithmetic::mul::lemma_mul_is_commutative(i, ILLINOIS_RATE as int);
    assert(spec_fed_income_scaled(i) <= 370_000 * i);
    lemma_muldiv_le(i, 370_000, sc);
    vstd::arithmetic::mul::lemma_mul_is_commutative(i, 370_000);
    lemma_div_is_ordered(spec_fed_income_scaled(i), i * 370_000, sc);
    vstd::arithmetic::div_mod::lemma_div_pos_is_pos(spec_fed_income_scaled(i), sc);
    assert(spec_fed_cg_scaled(i, 0) == 0);
    vstd::arithmetic::div_mod::lemma_div_of0(sc);
    assert(spec_fed_niit_scaled(i, 0) <= 38_000 * i);
    lemma_muldiv_le(i, 38_000, sc);
    vstd::arithmetic::mul::lemma_mul_is_commutative(i, 38_000);
    lemma_div_is_ordered(spec_fed_niit_scaled(i, 0), i * 38_000, sc);
    vstd::arithmetic::div_mod::lemma_div_pos_is_pos(spec_fed_niit_scaled(i, 0), sc);
}

/// Adding `d` to the ordinary income raises the tax by at most the summed
/// marginal rates on `d`, plus rounding.
pub proof fn lemma_tax_income_lipschitz(i: int, cg: int, d: int)
    requires
        0 <= i,
        0 <= d,
    ensures
        spec_tax(i + d, cg) <= spec_tax(i, cg) + muldiv(d, 657_500, RATE_SCALE as int) + 4,
{
    let s = RATE_SCALE as int;
    assert(spec_illinois_scaled(i + d, cg) <= spec_illinois_scaled(i, cg) + ILLINOIS_RATE * d);
    assert(spec_fed_income_scaled(i + d) <= spec_fed_income_scaled(i) + 370_000 * d);
    assert(spec_fed_cg_scaled(i + d, cg) <= spec_fed_cg_scaled(i, cg) + 200_000 * d);
    assert(spec_fed_niit_scaled(i + d, cg) <= spec_fed_niit_scaled(i, cg) + 38_000 * d);
    lemma_div_is_ordered(
        spec_illinois_scaled(i + d, cg),
        spec_illinois_scaled(i, cg) + ILLINOIS_RATE * d,
        s,
    );
    lemma_div_is_ordered(
        spec_fed_income_scaled(i + d),
        spec_fed_income_scaled(i) + 370_000 * d,
        s,
    );
    lemma_div_is_ordered(
        spec_fed_cg_scaled(i + d, cg),
        spec_fed_cg_scaled(i, cg) + 200_000 * d,
        s,
    );
    lemma_div_is_ordered(
        spec_fed_niit_scaled(i + d, cg),
        spec_fed_niit_scaled(i, cg) + 38_000 * d,
        s,
    );
    assert(0 <= spec_illinois_scaled(i, cg));
    assert(0 <= spec_fed_income_scaled(i));
    assert(0 <= spec_fed_cg_scaled(i, cg));
    assert(0 <= spec_fed_niit_scaled(i, cg));
    lemma_div_add_bounds(spec_illinois_scaled(i, cg), ILLINOIS_RATE * d, s);
    lemma_div_add_bounds(spec_fed_income_scaled(i), 370_000 * d, s);
    lemma_div_add_bounds(spec_fed_cg_scaled(i, cg), 200_000 * d, s);
    lemma_div_add_bounds(spec_fed_niit_scaled(i, cg), 38_000 * d, s);
    lemma_div_add_bounds(ILLINOIS_RATE * d, 370_000 * d, s);
    lemma_div_add_bounds(419_500 * d, 200_000 * d, s);
    lemma_div_add_bounds(619_500 * d, 38_000 * d, s);
}

/// The marginal tax rate at `(i, cg)`, in parts per million, measured over
/// a $100 window of additional ordinary income.
pub open spec fn spec_marginal_rate(i: int, cg: int) -> int {
    (spec_tax(i + 10_000, cg) - spec_tax(i, cg)) * 100
}

pub fn marginal_rate(i: i64, cg: i64) -> (r: i64)
    requires
        0 <= i <= MONEY_CAP,
        cg <= MONEY_CAP,
    ensures
        r == spec_marginal_rate(i as int, cg as int),
        0 <= r,
{
    let t1 = tax(i, cg);
    let t2 = tax(i + 10_000, cg);
    proof {
        lemma_tax_monotone(i as int, cg as int, i + 10_000, cg as int);
        lemma_tax_income_lipschitz(i as int, cg as int, 10_000);
        lemma_muldiv_le(10_000, 657_500, RATE_SCALE as int);
    }
    (t2 - t1) * 100
}

/// The income the bisection searches up to: $1,000,000.
pub const MARGINAL_SEARCH_HIGH: i64 = 100_000_000;

/// The width at which the bisection stops: $100.
pub const MARGINAL_SEARCH_WIDTH: i64 = 10_000;

/// The approximate greatest income whose marginal tax rate is below `r`
/// (parts per million), found by bisection; it under-estimates the true
/// boundary by less than the stopping width.  `None` exactly when `r`
/// lies outside the marginal rates at the ends of the searched range.
pub fn marginal_rate_to_income(r: i64) -> (res: Option<i64>)
    ensures
        res == Option::<i64>::None <==> (r < spec_marginal_rate(0, 0) || r > spec_marginal_rate(
            MARGINAL_SEARCH_HIGH as int,
            0,
        )),
        match res {
            Option::None => true,
            Option::Some(lo) => {
                &&& 0 <= lo < MARGINAL_SEARCH_HIGH
                &&& spec_marginal_rate(lo as int, 0) <= r
                &&& exists|h: int|
                    lo < h <= lo + MARGINAL_SEARCH_WIDTH && r <= spec_marginal_rate(h, 0)
            },
        },
{
    let mut low: i64 = 0;
    let mut high: i64 = MARGINAL_SEARCH_HIGH;
    if r < marginal_rate(low, 0) || r > marginal_rate(high, 0) {
        return Option::None;
    }
    while high - low >= MARGINAL_SEARCH_WIDTH
        invariant
            0 <= low < high <= MARGINAL_SEARCH_HIGH,
            spec_marginal_rate(low as int, 0) <= r,
            r <= spec_marginal_rate(high as int, 0),
            spec_marginal_rate(0, 0) <= r <= spec_marginal_rate(MARGINAL_SEARCH_HIGH as int, 0),
        decreases high - low,
    {
        let guess = low + (high - low) / 2;
        let mr = marginal_rate(guess, 0);
        if r < mr {
            high = guess;
        } else {
            low = guess;
        }
    }
    proof {
        assert(low < high <= low + MARGINAL_SEARCH_WIDTH);
    }
    Option::Some(low)
}

/// The estimated capital gains realized by selling `s` at gains ratio `r`;
/// losses are estimated as no gain.
pub open spec fn gains_estimate(s: int, r: Ratio) -> int {
    if r.num <= 0 {
        0
    } else {
        muldiv(s, r.num as int, r.den as int)
    }
}

/// What selling `s` leaves to live on: the yield plus the sale, net of
/// taxes on the yield and the estimated gains.
pub open spec fn spec_net_proceeds(i: int, s: int, r: Ratio) -> int {
    i + s - spec_tax(i, gains_estimate(s, r))
}

/// While the net proceeds fall short of the expenses, the sale amount is
/// bounded: each extra dollar sold nets at least `1 - CG_MARGINAL_CAP/S`
/// after taxes, so the search below cannot run past `2*(l + tax(i,0) + 3)`.
proof fn lemma_search_bound(l: int, i: int, s: int, r: Ratio)
    requires
        0 <= l,
        0 <= i,
        0 <= s,
        r.wf(),
        spec_net_proceeds(i, s, r) < l,
    ensures
        s < 2 * l + 2 * spec_tax(i, 0) + 6,
{
    let sc = RATE_SCALE as int;
    let g = gains_estimate(s, r);
    if s == 0 {
        lemma_tax_at_zero_bound(i);
        return ;
    }
    if r.num > 0 {
        lemma_muldiv_le(s, r.num as int, r.den as int);
    }
    lemma_tax_cg_lipschitz(i, 0, g);
    lemma_muldiv_monotone(g, s, CG_MARGINAL_CAP as int, sc);
    lemma_muldiv_error(s, CG_MARGINAL_CAP as int, sc);
    let q = muldiv(s, CG_MARGINAL_CAP as int, sc);
    assert(spec_tax(i, g) <= spec_tax(i, 0) + q + 3);
    assert(i + s - spec_tax(i, 0) - q - 3 < l);
    assert(q * sc <= s * CG_MARGINAL_CAP);
    assert(sc * s - sc * spec_tax(i, 0) - sc * q - sc * 3 < sc * l) by {
        vstd::arithmetic::mul::lemma_mul_inequality(i + s - spec_tax(i, 0) - q - 3, l - 1, sc);
        vstd::arithmetic::mul::lemma_mul_is_distributive_add(sc, l - 1, 1);
        vstd::arithmetic::mul::lemma_mul_is_commutative(i + s - spec_tax(i, 0) - q - 3, sc);
        vstd::arithmetic::mul::lemma_mul_is_commutative(l - 1, sc);
        assert(sc * (i + s - spec_tax(i, 0) - q - 3) == sc * i + sc * s - sc * spec_tax(i, 0) - sc
            * q - sc * 3) by (nonlinear_arith);
        assert(sc * i >= 0) by (nonlinear_arith)
            requires
                sc >= 0,
                i >= 0,
        ;
    }
    assert(sc * s - s * CG_MARGINAL_CAP <= sc * s - sc * q) by {
        vstd::arithmetic::mul::lemma_mul_is_commutative(sc, q);
    }
    assert(sc * s - s * CG_MARGINAL_CAP == s * (sc - CG_MARGINAL_CAP)) by (nonlinear_arith);
    assert(s * (sc - CG_MARGINAL_CAP) >= s * 500_000) by {
        vstd::arithmetic::mul::lemma_mul_left_inequality(s, 500_000, sc - CG_MARGINAL_CAP);
    }
    assert(s * 500_000 < sc * l + sc * spec_tax(i, 0) + sc * 3);
    assert(s < 2 * l + 2 * spec_tax(i, 0) + 6) by (nonlinear_arith)
        requires
            sc == 1_000_000,
            s * 500_000 < sc * l + sc * spec_tax(i, 0) + sc * 3,
    ;
}

/// The smallest sale, in steps of `SEARCH_STEP`, whose proceeds net of
/// taxes cover living expenses of `l`: starting from the no-tax lower
/// bound `max(0, l - i)`, the amount grows one step at a time until the
/// net-of-tax target is met.  The result funds the expenses, lies on the
/// search grid (the lower bound plus a whole number of steps), and one
/// step less would not fund them (unless the lower bound itself
/// suffices).
pub fn how_much_to_sell(l: i64, i: i64, cg_ratio: Ratio) -> (s: i64)
    requires
        0 <= l <= MONEY_CAP,
        0 <= i <= MONEY_CAP,
        cg_ratio.wf(),
    ensures
        spec_net_proceeds(i as int, s as int, cg_ratio) >= l,
        s == clip0(l - i) || spec_net_proceeds(i as int, s - SEARCH_STEP, cg_ratio) < l,
        clip0(l - i) <= s,
        (s - clip0(l - i)) % (SEARCH_STEP as int) == 0,
{
    proof {
        lemma_tax_at_zero_bound(i as int);
        vstd::arithmetic::div_mod::lemma_small_mod(0, SEARCH_STEP as nat);
    }
    let ghost bound: int = 2 * l + 2 * spec_tax(i as int, 0) + 6;
    let mut guess: i64 = if l > i {
        l - i
    } else {
        0
    };
    let mut net = net_proceeds(i, guess, cg_ratio);
    while net < l
        invariant
            0 <= l <= MONEY_CAP,
            0 <= i <= MONEY_CAP,
            cg_ratio.wf(),
            bound == 2 * l + 2 * spec_tax(i as int, 0) + 6,
            0 <= spec_tax(i as int, 0) <= 3 * i,
            clip0(l - i) <= guess <= bound + SEARCH_STEP,
            net == spec_net_proceeds(i as int, guess as int, cg_ratio),
            guess == clip0(l - i) || spec_net_proceeds(i as int, guess - SEARCH_STEP, cg_ratio)
                < l,
            (guess - clip0(l - i)) % (SEARCH_STEP as int) == 0,
        decreases bound + SEARCH_STEP - guess,
    {
        proof {
            lemma_search_bound(l as int, i as int, guess as int, cg_ratio);
            vstd::arithmetic::div_mod::lemma_mod_multiples_vanish(
                1,
                guess - clip0(l - i),
                SEARCH_STEP as int,
            );
        }
        guess = guess + SEARCH_STEP;
        net = net_proceeds(i, guess, cg_ratio);
    }
    guess
}

/// The net proceeds of selling `s`: yield plus sale minus the tax on the
/// yield and the estimated gains.
fn net_proceeds(i: i64, s: i64, cg_ratio: Ratio) -> (net: i64)
    requires
        0 <= i <= MONEY_CAP,
        0 <= s <= 9 * MONEY_CAP,
        cg_ratio.wf(),
    ensures
        net == spec_net_proceeds(i as int, s as int, cg_ratio),
{
    let gains: i64 = if cg_ratio.num <= 0 {
        0
    } else {
        proof {
            lemma_muldiv_le(s as int, cg_ratio.num as int, cg_ratio.den as int);
        }
        crate::money::frac_mul(s, cg_ratio.num, cg_ratio.den)
    };
    let t = tax(i, gains);
    i + s - t
}

} // verus!
