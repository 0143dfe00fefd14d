//! A single pool of money with a cost basis.
//!
//! The cost basis is treated as a continuously blended average: selling any
//! fraction of the pool realizes the same proportional gain as selling the
//! whole position (`sell_preserving_cg_ratio`).

use vstd::prelude::*;

verus! {

use crate::money::capped;
use crate::money::muldiv;
use crate::money::lemma_muldiv_le;
use crate::money::lemma_muldiv_error;
use crate::money::add_capped;
use crate::money::frac_mul;
use crate::money::scale_mul_capped;
use crate::money::MONEY_CAP;
use crate::money::RATE_CAP;
use crate::money::RATE_SCALE;
use crate::ratio::Ratio;

/// A pool of money (cents) with its cost basis (cents).  Market losses can
/// push the value below the basis, so the basis is not bounded by the value.
#[derive(Clone, Copy, Debug)]
pub struct Asset {
    pub value: i64,
    pub cost_basis: i64,
}

/// One year's return of an asset class, in parts per million: `cg` is the
/// price change (possibly negative, never below a total loss), `id` the
/// cash yield paid out as interest and dividends.
#[derive(Clone, Copy, Debug)]
pub struct AssetReturn {
    pub cg: i64,
    pub id: i64,
}

impl AssetReturn {
    pub open spec fn wf(self) -> bool {
        &&& -RATE_SCALE <= self.cg <= RATE_CAP
        &&& 0 <= self.id <= RATE_CAP
    }
}

impl Asset {
    pub open spec fn wf(self) -> bool {
        &&& 0 <= self.value <= MONEY_CAP
        &&& 0 <= self.cost_basis <= MONEY_CAP
    }

    pub open spec fn spec_capital_gains(self) -> int {
        self.value - self.cost_basis
    }

    /// The value after one year of growth at price change `cg` (ppm),
    /// then scaled down by the expense ratio `e` (ppm).
    pub open spec fn grown_value(self, r: AssetReturn, e: int) -> int {
        muldiv(capped(muldiv(self.value as int, RATE_SCALE + r.cg, RATE_SCALE as int)),
            RATE_SCALE - e, RATE_SCALE as int)
    }

    /// The cash yield paid out by one year's return.
    pub open spec fn dividend_yield(self, r: AssetReturn) -> int {
        capped(muldiv(self.value as int, r.id as int, RATE_SCALE as int))
    }

    /// The asset after one year of growth: value changes, basis stays.
    pub open spec fn grown(self, r: AssetReturn, e: int) -> Asset {
        Asset { value: self.grown_value(r, e) as i64, cost_basis: self.cost_basis }
    }

    /// The asset after investing `amt` of new money: value and basis both
    /// rise by `amt` (new money carries no unrealized gain).
    pub open spec fn invested(self, amt: int) -> Asset {
        Asset {
            value: capped(self.value + amt) as i64,
            cost_basis: capped(self.cost_basis + amt) as i64,
        }
    }

    /// The basis left after selling `amt` while keeping the ratio of
    /// unrealized gain to value fixed.
    pub open spec fn basis_after_sale(self, amt: int) -> int {
        if self.value == 0 {
            0
        } else {
            muldiv(self.value - amt, self.cost_basis as int, self.value as int)
        }
    }

    /// The asset after selling `amt` preserving the gains ratio.
    pub open spec fn sold(self, amt: int) -> Asset {
        Asset {
            value: (self.value - amt) as i64,
            cost_basis: self.basis_after_sale(amt) as i64,
        }
    }

    /// The capital gain realized by selling `amt` preserving the gains
    /// ratio: the amount sold minus the basis consumed by the sale.
    /// Negative when the asset is underwater (a capital loss).
    pub open spec fn sale_gains(self, amt: int) -> int {
        if self.value == 0 {
            0
        } else {
            amt - self.cost_basis + self.basis_after_sale(amt)
        }
    }

    pub fn new(value: i64) -> (a: Asset)
        requires
            0 <= value <= MONEY_CAP,
        ensures
            a == (Asset { value, cost_basis: value }),
            a.wf(),
    {
        Asset::new_with_basis(value, value)
    }

    pub fn new_with_basis(value: i64, cost_basis: i64) -> (a: Asset)
        requires
            0 <= value <= MONEY_CAP,
            0 <= cost_basis <= MONEY_CAP,
        ensures
            a == (Asset { value, cost_basis }),
            a.wf(),
    {
        Asset { value, cost_basis }
    }

    /// One year of market growth.  The value grows by the price change and
    /// is docked by the expense ratio; the returned interest and dividends
    /// are computed on the value before growth and are not added to the
    /// value.
    pub fn grow(&mut self, r: &AssetReturn, e: i64) -> (id: i64)
        requires
            old(self).wf(),
            r.wf(),
            0 <= e <= RATE_SCALE,
        ensures
            *final(self) == old(self).grown(*r, e as int),
            final(self).wf(),
            id == old(self).dividend_yield(*r),
            0 <= id,
    {
        let id = scale_mul_capped(self.value, r.id, RATE_SCALE);
        let v1 = scale_mul_capped(self.value, RATE_SCALE + r.cg, RATE_SCALE);
        let v2 = frac_mul(v1, RATE_SCALE - e, RATE_SCALE);
        self.value = v2;
        id
    }

    /// Invest `amt` of new money: value and basis rise together.
    pub fn invest(&mut self, amt: i64)
        requires
            old(self).wf(),
            0 <= amt,
        ensures
            *final(self) == old(self).invested(amt as int),
            final(self).wf(),
    {
        self.value = add_capped(self.value, amt);
        self.cost_basis = add_capped(self.cost_basis, amt);
    }

    pub fn capital_gains(&self) -> (cg: i64)
        requires
            self.wf(),
        ensures
            cg == self.spec_capital_gains(),
    {
        self.value - self.cost_basis
    }

    /// The ratio of unrealized gain to value; zero for an empty asset.
    pub fn capital_gains_ratio(&self) -> (r: Ratio)
        requires
            self.wf(),
        ensures
            self.value > 0 ==> r == (Ratio {
                num: self.spec_capital_gains() as i64,
                den: self.value,
            }),
            self.value == 0 ==> r == (Ratio { num: 0, den: 1 }),
            r.wf(),
    {
        if self.value > 0 {
            Ratio { num: self.value - self.cost_basis, den: self.value }
        } else {
            Ratio { num: 0, den: 1 }
        }
    }

    /// Sell `amt`, keeping the ratio of unrealized gain to value constant:
    /// the basis is recomputed so that the remaining position has the same
    /// gains ratio, and the realized gain is the amount sold times that
    /// ratio (rounded to the cent).  Returns the realized gain.
    pub fn sell_preserving_cg_ratio(&mut self, amt: i64) -> (gains: i64)
        requires
            old(self).wf(),
            0 <= amt <= old(self).value,
        ensures
            *final(self) == old(self).sold(amt as int),
            final(self).wf(),
            gains == old(self).sale_gains(amt as int),
            -old(self).cost_basis <= gains <= amt,
    {
        if self.value == 0 {
            self.cost_basis = 0;
            0
        } else {
            let v = self.value;
            let c = self.cost_basis;
            let new_value = v - amt;
            let new_basis = scale_mul_capped(new_value, c, v);
            proof {
                lemma_muldiv_le(c as int, (v - amt) as int, v as int);
                vstd::arithmetic::mul::lemma_mul_is_commutative(c as int, (v - amt) as int);
            }
            self.value = new_value;
            self.cost_basis = new_basis;
            amt - (c - new_basis)
        }
    }
}

/// Selling while preserving the capital-gains ratio reduces the value by
/// exactly the amount sold and keeps the ratio of unrealized gain to value
/// fixed up to rounding: the new gains, cross-multiplied against the old
/// value, differ from the old gains scaled to the new value by less than
/// one part in `value`.  When the division is exact the ratio is unchanged
/// exactly.
pub proof fn lemma_sell_preserves_cg_ratio(a: Asset, amt: int)
    requires
        a.wf(),
        0 < a.value,
        0 <= amt <= a.value,
    ensures
        a.sold(amt).value == a.value - amt,
        (a.value - amt) * a.spec_capital_gains() <= a.sold(amt).spec_capital_gains() * a.value
            < (a.value - amt) * a.spec_capital_gains() + a.value,
        ((a.value - amt) * a.cost_basis) % (a.value as int) == 0 ==> a.sold(
            amt,
        ).spec_capital_gains() * a.value == (a.value - amt) * a.spec_capital_gains(),
{
    let v = a.value as int;
    let c = a.cost_basis as int;
    let nv = v - amt;
    let nb = muldiv(nv, c, v);
    lemma_muldiv_le(c, nv, v);
    vstd::arithmetic::mul::lemma_mul_is_commutative(c, nv);
    assert(a.sold(amt).spec_capital_gains() == nv - nb);
    lemma_muldiv_error(nv, c, v);
    assert((nv - nb) * v == nv * v - nb * v) by {
        vstd::arithmetic::mul::lemma_mul_is_distributive_sub_other_way(v, nv, nb);
    }
    assert(nv * (v - c) == nv * v - nv * c) by {
        vstd::arithmetic::mul::lemma_mul_is_distributive_sub(nv, v, c);
    }
    if (nv * c) % v == 0 {
        vstd::arithmetic::div_mod::lemma_fundamental_div_mod(nv * c, v);
        assert(nb * v == nv * c) by {
            vstd::arithmetic::mul::lemma_mul_is_commutative(v, nb);
        }
    }
}

} // verus!
