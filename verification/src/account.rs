//! An account holding two assets: a growth asset (stocks) and an income
//! asset (bonds).
//!
//! The buy- and sell-side "goal allocation" methods move the account toward
//! a target bond fraction without ever trading more than the amount at hand,
//! so an account can converge to a target allocation without forced sales.

use vstd::prelude::*;

verus! {

use crate::asset::Asset;
use crate::asset::AssetReturn;
use crate::config::Allocation;
use crate::money::muldiv;
use crate::money::lemma_muldiv_le;
use crate::money::lemma_muldiv_error;
use crate::money::lemma_muldiv_monotone;
use crate::money::MONEY_CAP;
use crate::money::RATE_SCALE;
use crate::ratio::Ratio;
use crate::ratio::lemma_ratio_of_part_exact;

/// Clamp `x` into `[0, hi]`.
pub open spec fn clamp_to(x: int, hi: int) -> int {
    if x < 0 {
        0
    } else if x > hi {
        hi
    } else {
        x
    }
}

/// An account: a stocks asset and a bonds asset.
#[derive(Clone, Copy, Debug)]
pub struct Account {
    pub stocks: Asset,
    pub bonds: Asset,
}

impl Account {
    pub open spec fn wf(self) -> bool {
        &&& self.stocks.wf()
        &&& self.bonds.wf()
    }

    pub open spec fn spec_value(self) -> int {
        self.stocks.value + self.bonds.value
    }

    pub open spec fn spec_capital_gains(self) -> int {
        self.stocks.spec_capital_gains() + self.bonds.spec_capital_gains()
    }

    /// The account after one year of market growth (yield not reinvested).
    pub open spec fn grown(self, s: AssetReturn, b: AssetReturn, e: int) -> Account {
        Account { stocks: self.stocks.grown(s, e), bonds: self.bonds.grown(b, e) }
    }

    /// The total yield paid out by one year of growth.
    pub open spec fn spec_yield(self, s: AssetReturn, b: AssetReturn) -> int {
        self.stocks.dividend_yield(s) + self.bonds.dividend_yield(b)
    }

    /// The account after one year of growth with each asset's yield
    /// reinvested into that asset.
    pub open spec fn grown_reinvested(self, s: AssetReturn, b: AssetReturn, e: int) -> Account {
        Account {
            stocks: self.stocks.grown(s, e).invested(self.stocks.dividend_yield(s)),
            bonds: self.bonds.grown(b, e).invested(self.bonds.dividend_yield(b)),
        }
    }

    /// The account after investing `s` in stocks and `b` in bonds.
    pub open spec fn invested(self, s: int, b: int) -> Account {
        Account { stocks: self.stocks.invested(s), bonds: self.bonds.invested(b) }
    }

    /// How much of an investment of `a` at goal bond fraction `b` goes to
    /// each asset: the post-investment dollar targets, clamped to `[0, a]`.
    pub open spec fn goal_buy_stocks(self, a: int, b: Ratio) -> int {
        clamp_to(
            self.spec_value() + a - muldiv(self.spec_value() + a, b.num as int, b.den as int)
                - self.stocks.value,
            a,
        )
    }

    pub open spec fn goal_buy_bonds(self, a: int, b: Ratio) -> int {
        clamp_to(muldiv(self.spec_value() + a, b.num as int, b.den as int) - self.bonds.value, a)
    }

    /// How much of a sale of `a` at goal bond fraction `b` comes out of
    /// each asset: the post-sale dollar targets, clamped to `[0, a]`.
    pub open spec fn goal_sell_stocks(self, a: int, b: Ratio) -> int {
        clamp_to(
            self.stocks.value - (self.spec_value() - a - muldiv(
                self.spec_value() - a,
                b.num as int,
                b.den as int,
            )),
            a,
        )
    }

    pub open spec fn goal_sell_bonds(self, a: int, b: Ratio) -> int {
        clamp_to(
            self.bonds.value - muldiv(self.spec_value() - a, b.num as int, b.den as int),
            a,
        )
    }

    /// The fraction of the account's value held in bonds, as a ratio
    /// (zero for an empty account).
    pub open spec fn spec_bond_fraction(self) -> Ratio {
        if self.spec_value() > 0 {
            Ratio { num: self.bonds.value, den: self.spec_value() as i64 }
        } else {
            Ratio { num: 0, den: 1 }
        }
    }

    /// The fraction of the account's value that is unrealized gain, as a
    /// ratio (zero for an empty account).
    pub open spec fn spec_cg_fraction(self) -> Ratio {
        if self.spec_value() > 0 {
            Ratio { num: self.spec_capital_gains() as i64, den: self.spec_value() as i64 }
        } else {
            Ratio { num: 0, den: 1 }
        }
    }

    /// The bond share of a proportional sale of `a`.
    pub open spec fn prop_bond_sales(self, a: int) -> int {
        if self.spec_value() > 0 {
            muldiv(a, self.bonds.value as int, self.spec_value())
        } else {
            0
        }
    }

    /// The account after `sell_preserving_allocation(a)`.
    pub open spec fn sold_preserving(self, a: int) -> Account {
        Account {
            stocks: self.stocks.sold(a - self.prop_bond_sales(a)),
            bonds: self.bonds.sold(self.prop_bond_sales(a)),
        }
    }

    /// The gains realized by `sell_preserving_allocation(a)`.
    pub open spec fn sold_preserving_gains(self, a: int) -> int {
        self.stocks.sale_gains(a - self.prop_bond_sales(a)) + self.bonds.sale_gains(
            self.prop_bond_sales(a),
        )
    }

    /// The account after `invest_with_goal_allocation(a, b)`.
    pub open spec fn invested_with_goal(self, a: int, b: Ratio) -> Account {
        self.invested(self.goal_buy_stocks(a, b), self.goal_buy_bonds(a, b))
    }

    /// The account after `sell_with_goal_allocation(a, b)`.
    pub open spec fn sold_with_goal(self, a: int, b: Ratio) -> Account {
        Account {
            stocks: self.stocks.sold(self.goal_sell_stocks(a, b)),
            bonds: self.bonds.sold(self.goal_sell_bonds(a, b)),
        }
    }

    /// The gains realized by `sell_with_goal_allocation(a, b)`.
    pub open spec fn sold_with_goal_gains(self, a: int, b: Ratio) -> int {
        self.stocks.sale_gains(self.goal_sell_stocks(a, b)) + self.bonds.sale_gains(
            self.goal_sell_bonds(a, b),
        )
    }

    /// The account after `rebalance(b)`.
    pub open spec fn rebalanced(self, b: Ratio) -> Account {
        spec_rebalanced(self, b)
    }

    /// The gains realized by `rebalance(b)`.
    pub open spec fn rebalance_gains(self, b: Ratio) -> int {
        let target = self.rebalance_bond_target(b);
        if target > self.bonds.value {
            let buy = if target - self.bonds.value <= self.stocks.value {
                target - self.bonds.value
            } else {
                self.stocks.value as int
            };
            self.stocks.invested(0).sale_gains(buy)
        } else {
            self.bonds.invested(0).sale_gains(self.bonds.value - target)
        }
    }

    pub fn new(stocks: i64, bonds: i64) -> (a: Account)
        requires
            0 <= stocks <= MONEY_CAP,
            0 <= bonds <= MONEY_CAP,
        ensures
            a.stocks == (Asset { value: stocks, cost_basis: 0 }),
            a.bonds == (Asset { value: bonds, cost_basis: 0 }),
            a.wf(),
    {
        Account::new_with_basis(stocks, 0, bonds, 0)
    }

    pub fn new_with_basis(stocks: i64, stocks_basis: i64, bonds: i64, bonds_basis: i64) -> (a:
        Account)
        requires
            0 <= stocks <= MONEY_CAP,
            0 <= stocks_basis <= MONEY_CAP,
            0 <= bonds <= MONEY_CAP,
            0 <= bonds_basis <= MONEY_CAP,
        ensures
            a.stocks == (Asset { value: stocks, cost_basis: stocks_basis }),
            a.bonds == (Asset { value: bonds, cost_basis: bonds_basis }),
            a.wf(),
    {
        Account {
            stocks: Asset::new_with_basis(stocks, stocks_basis),
            bonds: Asset::new_with_basis(bonds, bonds_basis),
        }
    }

    /// Split a starting balance into bonds (per its bond fraction) and
    /// stocks, with no unrealized gains.
    pub fn from_allocation(a: &Allocation) -> (acct: Account)
        requires
            a.wf(),
        ensures
            acct == Account::spec_from_allocation(*a, 0),
            acct.wf(),
    {
        Account::from_allocation_and_basis(a, 0)
    }

    /// The bonds hold `value * bond_percent` rounded down; the stocks hold
    /// the rest.  All capital gains are allocated to the stocks: the bonds'
    /// basis equals their value, the stocks' basis is `basis`.
    pub open spec fn spec_from_allocation(a: Allocation, basis: int) -> Account {
        Account {
            stocks: Asset {
                value: (a.value - muldiv(a.value as int, a.bond_percent.num as int,
                    a.bond_percent.den as int)) as i64,
                cost_basis: basis as i64,
            },
            bonds: Asset {
                value: muldiv(a.value as int, a.bond_percent.num as int,
                    a.bond_percent.den as int) as i64,
                cost_basis: muldiv(a.value as int, a.bond_percent.num as int,
                    a.bond_percent.den as int) as i64,
            },
        }
    }

    pub fn from_allocation_and_basis(a: &Allocation, basis: i64) -> (acct: Account)
        requires
            a.wf(),
            0 <= basis <= MONEY_CAP,
        ensures
            acct == Account::spec_from_allocation(*a, basis as int),
            acct.wf(),
    {
        let bonds = a.bond_percent.apply(a.value);
        let stocks = a.value - bonds;
        Account::new_with_basis(stocks, basis, bonds, bonds)
    }

    // Accessors.

    pub fn value(&self) -> (v: i64)
        requires
            self.wf(),
        ensures
            v == self.spec_value(),
    {
        self.stocks.value + self.bonds.value
    }

    /// The fraction of the account's value held in bonds; zero for an
    /// empty account.
    pub fn bond_fraction(&self) -> (r: Ratio)
        requires
            self.wf(),
        ensures
            r == self.spec_bond_fraction(),
            r.is_fraction(),
    {
        let v = self.value();
        if v > 0 {
            Ratio { num: self.bonds.value, den: v }
        } else {
            Ratio { num: 0, den: 1 }
        }
    }

    pub fn capital_gains(&self) -> (cg: i64)
        requires
            self.wf(),
        ensures
            cg == self.spec_capital_gains(),
    {
        self.stocks.capital_gains() + self.bonds.capital_gains()
    }

    /// The fraction of the account's value that is unrealized gain; zero
    /// for an empty account.  Negative when the account is underwater.
    pub fn capital_gains_fraction(&self) -> (r: Ratio)
        requires
            self.wf(),
        ensures
            r == self.spec_cg_fraction(),
            r.wf(),
    {
        let v = self.value();
        if v > 0 {
            Ratio { num: self.capital_gains(), den: v }
        } else {
            Ratio { num: 0, den: 1 }
        }
    }

    // Market growth methods. Both return total interest and dividends.

    pub fn grow(&mut self, s: &AssetReturn, b: &AssetReturn, e: i64) -> (id: i64)
        requires
            old(self).wf(),
            s.wf(),
            b.wf(),
            0 <= e <= RATE_SCALE,
        ensures
            *final(self) == old(self).grown(*s, *b, e as int),
            final(self).wf(),
            id == old(self).spec_yield(*s, *b),
            0 <= id,
    {
        let sid = self.stocks.grow(s, e);
        let bid = self.bonds.grow(b, e);
        sid + bid
    }

    /// Grow, then reinvest each asset's yield into that same asset.
    pub fn grow_and_reinvest(&mut self, s: &AssetReturn, b: &AssetReturn, e: i64) -> (id: i64)
        requires
            old(self).wf(),
            s.wf(),
            b.wf(),
            0 <= e <= RATE_SCALE,
        ensures
            *final(self) == old(self).grown_reinvested(*s, *b, e as int),
            final(self).wf(),
            id == old(self).spec_yield(*s, *b),
            0 <= id,
    {
        let sid = self.stocks.grow(s, e);
        self.stocks.invest(sid);
        let bid = self.bonds.grow(b, e);
        self.bonds.invest(bid);
        sid + bid
    }

    // Methods for investing new funds.

    /// Invest `s` in stocks and `b` in bonds.
    pub fn invest(&mut self, s: i64, b: i64)
        requires
            old(self).wf(),
            0 <= s,
            0 <= b,
        ensures
            *final(self) == old(self).invested(s as int, b as int),
            final(self).wf(),
    {
        self.stocks.invest(s);
        self.bonds.invest(b);
    }

    /// Invest `a`, preserving the account's current asset allocation.
    pub fn invest_preserving_allocation(&mut self, a: i64)
        requires
            old(self).wf(),
            0 <= a,
        ensures
            ({
                let bonds = if old(self).spec_value() > 0 {
                    muldiv(a as int, old(self).bonds.value as int, old(self).spec_value())
                } else {
                    0
                };
                *final(self) == old(self).invested(a - bonds, bonds)
            }),
            final(self).wf(),
    {
        let b = self.bond_fraction();
        proof {
            if old(self).spec_value() <= 0 {
                vstd::arithmetic::div_mod::lemma_div_multiples_vanish(0int, 1int);
            }
        }
        self.invest_allocation(a, b);
    }

    /// Invest `a`, with the fraction `b` going to bonds and the rest to
    /// stocks.
    pub fn invest_allocation(&mut self, a: i64, b: Ratio)
        requires
            old(self).wf(),
            0 <= a,
            b.is_fraction(),
        ensures
            ({
                let bonds = muldiv(a as int, b.num as int, b.den as int);
                *final(self) == old(self).invested(a - bonds, bonds)
            }),
            final(self).wf(),
    {
        let bonds = b.apply(a);
        self.invest(a - bonds, bonds);
    }

    /// Invest `a`, steering the account toward an overall bond fraction of
    /// `b`: compute the post-investment dollar targets for each asset and
    /// buy only what moves each asset toward its target, never more than
    /// `a` per asset.  The target may not be reachable, since nothing is
    /// sold.
    pub fn invest_with_goal_allocation(&mut self, a: i64, b: Ratio)
        requires
            old(self).wf(),
            0 <= a <= 2 * MONEY_CAP,
            b.is_fraction(),
        ensures
            *final(self) == old(self).invested_with_goal(a as int, b),
            final(self).wf(),
    {
        let total = self.value();
        let bond_goal = b.apply(total + a);
        let stock_goal = total + a - bond_goal;
        let buy_stocks = if stock_goal - self.stocks.value < 0 {
            0
        } else if stock_goal - self.stocks.value > a {
            a
        } else {
            stock_goal - self.stocks.value
        };
        let buy_bonds = if bond_goal - self.bonds.value < 0 {
            0
        } else if bond_goal - self.bonds.value > a {
            a
        } else {
            bond_goal - self.bonds.value
        };
        self.invest(buy_stocks, buy_bonds);
    }

    // Methods for selling assets. All return realized capital gains.

    /// Sell `a`, drawing on stocks and bonds in proportion to the current
    /// allocation, so the allocation is preserved.
    pub fn sell_preserving_allocation(&mut self, a: i64) -> (gains: i64)
        requires
            old(self).wf(),
            0 <= a <= old(self).spec_value(),
        ensures
            *final(self) == old(self).sold_preserving(a as int),
            gains == old(self).sold_preserving_gains(a as int),
            final(self).wf(),
    {
        let bf = self.bond_fraction();
        let bond_sales = bf.apply(a);
        proof {
            if old(self).spec_value() > 0 {
                lemma_sell_split_fits(
                    a as int,
                    old(self).stocks.value as int,
                    old(self).bonds.value as int,
                );
            }
        }
        let g1 = self.bonds.sell_preserving_cg_ratio(bond_sales);
        let g2 = self.stocks.sell_preserving_cg_ratio(a - bond_sales);
        g2 + g1
    }

    /// Sell `a` out of stocks; if the stocks do not cover it, sell the
    /// remainder out of bonds.
    pub fn sell_stocks_first(&mut self, a: i64) -> (gains: i64)
        requires
            old(self).wf(),
            0 <= a <= old(self).spec_value(),
        ensures
            ({
                let s = if a <= old(self).stocks.value {
                    a as int
                } else {
                    old(self).stocks.value as int
                };
                &&& *final(self) == (Account {
                    stocks: old(self).stocks.sold(s),
                    bonds: old(self).bonds.sold(a - s),
                })
                &&& gains == old(self).stocks.sale_gains(s) + old(self).bonds.sale_gains(a - s)
            }),
            final(self).wf(),
    {
        let stock_sales = if self.stocks.value < a {
            self.stocks.value
        } else {
            a
        };
        let g1 = self.stocks.sell_preserving_cg_ratio(stock_sales);
        let g2 = self.bonds.sell_preserving_cg_ratio(a - stock_sales);
        g1 + g2
    }

    /// Sell `a` out of bonds; if the bonds do not cover it, sell the
    /// remainder out of stocks.
    pub fn sell_bonds_first(&mut self, a: i64) -> (gains: i64)
        requires
            old(self).wf(),
            0 <= a <= old(self).spec_value(),
        ensures
            ({
                let b = if a <= old(self).bonds.value {
                    a as int
                } else {
                    old(self).bonds.value as int
                };
                &&& *final(self) == (Account {
                    stocks: old(self).stocks.sold(a - b),
                    bonds: old(self).bonds.sold(b),
                })
                &&& gains == old(self).stocks.sale_gains(a - b) + old(self).bonds.sale_gains(b)
            }),
            final(self).wf(),
    {
        let bond_sales = if self.bonds.value < a {
            self.bonds.value
        } else {
            a
        };
        let g1 = self.bonds.sell_preserving_cg_ratio(bond_sales);
        let g2 = self.stocks.sell_preserving_cg_ratio(a - bond_sales);
        g1 + g2
    }

    /// Sell `a`, steering the account toward an overall bond fraction of
    /// `b`: compute the post-sale dollar targets and sell from each asset
    /// only what moves it toward its target, never more than `a` per
    /// asset.  The target may not be reachable, since nothing is bought.
    pub fn sell_with_goal_allocation(&mut self, a: i64, b: Ratio) -> (gains: i64)
        requires
            old(self).wf(),
            0 <= a <= old(self).spec_value(),
            b.is_fraction(),
        ensures
            *final(self) == old(self).sold_with_goal(a as int, b),
            gains == old(self).sold_with_goal_gains(a as int, b),
            -(old(self).stocks.cost_basis + old(self).bonds.cost_basis) <= gains <= a,
            final(self).wf(),
    {
        let total = self.value();
        let bond_goal = b.apply(total - a);
        let stock_goal = total - a - bond_goal;
        let sell_stocks = if self.stocks.value - stock_goal < 0 {
            0
        } else if self.stocks.value - stock_goal > a {
            a
        } else {
            self.stocks.value - stock_goal
        };
        let sell_bonds = if self.bonds.value - bond_goal < 0 {
            0
        } else if self.bonds.value - bond_goal > a {
            a
        } else {
            self.bonds.value - bond_goal
        };
        let g1 = self.stocks.sell_preserving_cg_ratio(sell_stocks);
        let g2 = self.bonds.sell_preserving_cg_ratio(sell_bonds);
        g1 + g2
    }

    /// The bond value the account holds after `rebalance(b)`: the target
    /// `value * b`, rounded down (always reachable, since rebalancing may
    /// both buy and sell).
    pub open spec fn rebalance_bond_target(self, b: Ratio) -> int {
        muldiv(self.spec_value(), b.num as int, b.den as int)
    }

    /// Rebalance to bond fraction `b`, selling whichever side is over its
    /// target to buy the other.  Returns the realized capital gains.
    pub fn rebalance(&mut self, b: Ratio) -> (gains: i64)
        requires
            old(self).wf(),
            b.is_fraction(),
        ensures
            *final(self) == old(self).rebalanced(b),
            gains == old(self).rebalance_gains(b),
            final(self).wf(),
    {
        let total = self.value();
        let bond_target = b.apply(total);
        if bond_target > self.bonds.value {
            let gap = bond_target - self.bonds.value;
            let buy_bonds = if gap <= self.stocks.value {
                gap
            } else {
                self.stocks.value
            };
            self.invest(0, buy_bonds);
            self.stocks.sell_preserving_cg_ratio(buy_bonds)
        } else {
            let buy_stocks = self.bonds.value - bond_target;
            self.invest(buy_stocks, 0);
            self.bonds.sell_preserving_cg_ratio(buy_stocks)
        }
    }
}

/// A proportional split of a sale fits inside both assets: selling
/// `a * b/(s+b)` from bonds and the rest from stocks never oversells
/// either side.
proof fn lemma_sell_split_fits(a: int, s: int, b: int)
    requires
        0 <= s,
        0 <= b,
        1 <= s + b,
        0 <= a <= s + b,
    ensures
        muldiv(a, b, s + b) <= b,
        a - muldiv(a, b, s + b) <= s,
{
    let v = s + b;
    lemma_muldiv_monotone(a, v, b, v);
    lemma_ratio_of_part_exact(b, v);
    assert((a - s) * v <= a * b) by (nonlinear_arith)
        requires
            0 <= s,
            0 <= b,
            v == s + b,
            0 <= a <= v,
    ;
    vstd::arithmetic::div_mod::lemma_div_is_ordered((a - s) * v, a * b, v);
    vstd::arithmetic::div_mod::lemma_div_multiples_vanish(a - s, v);
    vstd::arithmetic::mul::lemma_mul_is_commutative(v, a - s);
}

/// After `rebalance(b)` on an account whose value is within `MONEY_CAP`,
/// the bonds hold exactly the rounded-down target `value * b`, and the
/// total value of the account is unchanged: rebalancing only moves money
/// between the two assets.  In particular the resulting bond fraction is
/// `b` to within one cent of the account's value, and exactly `b` whenever
/// `value * b.num` is divisible by `b.den`.
pub proof fn lemma_rebalance_hits_target(a: Account, b: Ratio)
    requires
        a.wf(),
        b.is_fraction(),
        a.spec_value() <= MONEY_CAP,
    ensures
        ({
            let target = a.rebalance_bond_target(b);
            let after = spec_rebalanced(a, b);
            &&& after.bonds.value == target
            &&& after.spec_value() == a.spec_value()
            &&& b.den * after.bonds.value <= a.spec_value() * b.num < b.den * after.bonds.value
                + b.den
            &&& (a.spec_value() * b.num) % (b.den as int) == 0 ==> after.bonds.value * b.den
                == a.spec_value() * b.num
        }),
{
    let v = a.spec_value();
    let target = a.rebalance_bond_target(b);
    lemma_muldiv_le(v, b.num as int, b.den as int);
    lemma_muldiv_error(v, b.num as int, b.den as int);
    vstd::arithmetic::mul::lemma_mul_is_commutative(b.den as int, target);
    if target > a.bonds.value {
        assert(target - a.bonds.value <= a.stocks.value);
    }
    if (v * b.num) % (b.den as int) == 0 {
        vstd::arithmetic::div_mod::lemma_fundamental_div_mod(v * b.num, b.den as int);
    }
}

/// Rebalancing is idempotent: a second `rebalance(b)` right after a first
/// one moves no money, because the bonds already hold exactly the rounded
/// target and rebalancing preserved the account's value.
pub proof fn lemma_rebalance_idempotent(a: Account, b: Ratio)
    requires
        a.wf(),
        b.is_fraction(),
        a.spec_value() <= MONEY_CAP,
    ensures
        spec_rebalanced(spec_rebalanced(a, b), b) == spec_rebalanced(a, b),
{
    let v = a.spec_value();
    let target = a.rebalance_bond_target(b);
    lemma_muldiv_le(v, b.num as int, b.den as int);
    lemma_rebalance_hits_target(a, b);
    let a1 = spec_rebalanced(a, b);
    // a1 is well formed: values stay in range, bases stay in range.
    if target > a.bonds.value {
        let buy = if target - a.bonds.value <= a.stocks.value {
            target - a.bonds.value
        } else {
            a.stocks.value as int
        };
        if a.stocks.value > 0 {
            lemma_muldiv_le(
                a.stocks.cost_basis as int,
                a.stocks.value - buy,
                a.stocks.value as int,
            );
            vstd::arithmetic::mul::lemma_mul_is_commutative(
                a.stocks.cost_basis as int,
                a.stocks.value - buy,
            );
            vstd::arithmetic::div_mod::lemma_div_pos_is_pos(
                (a.stocks.value - buy) * a.stocks.cost_basis,
                a.stocks.value as int,
            );
        }
    } else {
        let buy = a.bonds.value - target;
        if a.bonds.value > 0 {
            lemma_muldiv_le(
                a.bonds.cost_basis as int,
                a.bonds.value - buy,
                a.bonds.value as int,
            );
            vstd::arithmetic::mul::lemma_mul_is_commutative(
                a.bonds.cost_basis as int,
                a.bonds.value - buy,
            );
            vstd::arithmetic::div_mod::lemma_div_pos_is_pos(
                (a.bonds.value - target) * a.bonds.cost_basis,
                a.bonds.value as int,
            );
        }
    }
    assert(a1.wf());
    // The second rebalance computes the same target over the same value
    // and finds the bonds already there.
    assert(a1.rebalance_bond_target(b) == target);
    assert(a1.bonds.value == target);
    let a2 = spec_rebalanced(a1, b);
    // The second pass sells zero: the bonds keep their value, and a sale
    // of nothing from a non-empty asset keeps its basis exactly.
    if a1.bonds.value > 0 {
        lemma_ratio_of_part_exact(a1.bonds.cost_basis as int, a1.bonds.value as int);
    }
    assert(a2.bonds == a1.bonds);
    assert(a2.stocks == a1.stocks);
    assert(a2 == a1);
}

/// The state `rebalance(b)` moves an account to.
pub open spec fn spec_rebalanced(a: Account, b: Ratio) -> Account {
    let target = a.rebalance_bond_target(b);
    if target > a.bonds.value {
        let buy = if target - a.bonds.value <= a.stocks.value {
            target - a.bonds.value
        } else {
            a.stocks.value as int
        };
        Account { stocks: a.stocks.invested(0).sold(buy), bonds: a.bonds.invested(buy) }
    } else {
        let buy = a.bonds.value - target;
        Account { stocks: a.stocks.invested(buy), bonds: a.bonds.invested(0).sold(buy) }
    }
}

} // verus!
