//! One simulated household ("instance"): three accounts, a cumulative
//! inflation index, and the record of last year's money flows.
//!
//! The phase types drive one year of simulated life through `next`: saving
//! (Accumulation), coasting (Growth), and two flavors of withdrawal, of
//! which the tax-aware one searches for the withdrawal that covers living
//! expenses net of the taxes the withdrawal itself causes.

use vstd::prelude::*;

verus! {

use crate::account::Account;
use crate::config::PhaseType;
use crate::config::SimpleWithdrawal;
use crate::config::TaxAwareWithdrawal;
use crate::config::YearlyContribution;
use crate::histret::HistoricalYear;
use crate::money::capped;
use crate::money::muldiv;
use crate::money::lemma_muldiv_le;
use crate::money::frac_mul;
use crate::money::scale_mul_capped;
use crate::money::INFLATION_CAP;
use crate::money::MONEY_CAP;
use crate::money::RATE_CAP;
use crate::money::RATE_SCALE;
use crate::ratio::Ratio;
use crate::rmd::rmd_fraction;
use crate::rmd::spec_rmd_fraction;
use crate::tax::clip0;
use crate::tax::spec_tax;
use crate::tax::tax;
use crate::tax::SEARCH_STEP;

/// Per-year money flows of the most recent transition, for reporting.
/// Overwritten whole every simulated year.
#[derive(Clone, Copy, Debug, PartialEq, Eq, Structural)]
pub struct Income {
    /// Taxable interest and dividends.
    pub id: i64,
    /// Required minimum distribution taken from the pre-tax account.
    pub rmd: i64,
    /// Surplus invested into the taxable account.
    pub after_tax_bought: i64,
    /// Amount sold out of the taxable account.
    pub after_tax_sold: i64,
    /// Capital gains realized in the taxable account.
    pub cg: i64,
    /// Amount sold out of the pre-tax account.
    pub ira_sold: i64,
    /// Amount sold out of the Roth account.
    pub roth_sold: i64,
    /// Taxes paid.
    pub taxes: i64,
}

/// The all-zero income record a year starts from.
pub open spec fn zero_income() -> Income {
    Income {
        id: 0,
        rmd: 0,
        after_tax_bought: 0,
        after_tax_sold: 0,
        cg: 0,
        ira_sold: 0,
        roth_sold: 0,
        taxes: 0,
    }
}

fn fresh_income() -> (r: Income)
    ensures
        r == zero_income(),
{
    Income {
        id: 0,
        rmd: 0,
        after_tax_bought: 0,
        after_tax_sold: 0,
        cg: 0,
        ira_sold: 0,
        roth_sold: 0,
        taxes: 0,
    }
}

/// A money amount for each of the three account types.
#[derive(Clone, Copy, Debug, PartialEq, Eq, Structural)]
pub struct ValueByAccount {
    pub pre_tax: i64,
    pub roth: i64,
    pub after_tax: i64,
}

impl ValueByAccount {
    pub open spec fn wf(self) -> bool {
        &&& 0 <= self.pre_tax <= 4 * MONEY_CAP
        &&& 0 <= self.roth <= 4 * MONEY_CAP
        &&& 0 <= self.after_tax <= 4 * MONEY_CAP
    }

    pub open spec fn total(self) -> int {
        self.pre_tax + self.roth + self.after_tax
    }
}

/// A bond fraction for each of the three account types.
#[derive(Clone, Copy, Debug, PartialEq)]
pub struct AllocationByAccount {
    pub pre_tax: Ratio,
    pub roth: Ratio,
    pub after_tax: Ratio,
}

impl AllocationByAccount {
    pub open spec fn wf(self) -> bool {
        &&& self.pre_tax.is_fraction()
        &&& self.roth.is_fraction()
        &&& self.after_tax.is_fraction()
    }
}

/// Which bond fraction each account should hold so that the aggregate bond
/// fraction is `b`: the aggregate bond-dollar goal is allocated against
/// each account's capacity in a fixed priority order - pre-tax first
/// (its growth is tax-deferred and withdrawals are ordinary income), then
/// the taxable account, then Roth last.
pub open spec fn spec_goal_allocations(v: ValueByAccount, b: Ratio) -> AllocationByAccount {
    let goal = muldiv(v.total(), b.num as int, b.den as int);
    if goal <= v.pre_tax {
        AllocationByAccount {
            pre_tax: if v.pre_tax > 0 {
                Ratio { num: goal as i64, den: v.pre_tax }
            } else {
                Ratio { num: 0, den: 1 }
            },
            roth: Ratio { num: 0, den: 1 },
            after_tax: Ratio { num: 0, den: 1 },
        }
    } else if goal <= v.pre_tax + v.after_tax {
        AllocationByAccount {
            pre_tax: Ratio { num: 1, den: 1 },
            roth: Ratio { num: 0, den: 1 },
            after_tax: Ratio { num: (goal - v.pre_tax) as i64, den: v.after_tax },
        }
    } else {
        AllocationByAccount {
            pre_tax: Ratio { num: 1, den: 1 },
            roth: if v.roth > 0 {
                Ratio { num: (goal - v.pre_tax - v.after_tax) as i64, den: v.roth }
            } else {
                Ratio { num: 0, den: 1 }
            },
            after_tax: Ratio { num: 1, den: 1 },
        }
    }
}

/// Compute the per-account bond fractions for aggregate target `b`.
pub fn goal_allocations(v: &ValueByAccount, b: Ratio) -> (r: AllocationByAccount)
    requires
        v.wf(),
        b.is_fraction(),
    ensures
        r == spec_goal_allocations(*v, b),
        r.wf(),
{
    proof {
        lemma_muldiv_le(v.total(), b.num as int, b.den as int);
    }
    let total = v.pre_tax + v.roth + v.after_tax;
    let goal = b.apply(total);
    if goal <= v.pre_tax {
        AllocationByAccount {
            pre_tax: if v.pre_tax > 0 {
                Ratio { num: goal, den: v.pre_tax }
            } else {
                Ratio { num: 0, den: 1 }
            },
            roth: Ratio { num: 0, den: 1 },
            after_tax: Ratio { num: 0, den: 1 },
        }
    } else if goal <= v.pre_tax + v.after_tax {
        AllocationByAccount {
            pre_tax: Ratio { num: 1, den: 1 },
            roth: Ratio { num: 0, den: 1 },
            after_tax: Ratio { num: goal - v.pre_tax, den: v.after_tax },
        }
    } else {
        AllocationByAccount {
            pre_tax: Ratio { num: 1, den: 1 },
            roth: if v.roth > 0 {
                Ratio { num: goal - v.pre_tax - v.after_tax, den: v.roth }
            } else {
                Ratio { num: 0, den: 1 }
            },
            after_tax: Ratio { num: 1, den: 1 },
        }
    }
}

/// The goal allocations are well formed: each account's target is a
/// fraction between zero and one.
pub proof fn lemma_goal_allocations_wf(v: ValueByAccount, b: Ratio)
    requires
        v.wf(),
        b.is_fraction(),
    ensures
        spec_goal_allocations(v, b).wf(),
{
    lemma_muldiv_le(v.total(), b.num as int, b.den as int);
}

/// The waterfall is exact: the bond dollars the per-account fractions
/// assign (pre-tax, then taxable, then Roth) add up to exactly the
/// aggregate bond goal `total * b`, rounded once.  No cents are created
/// or lost by splitting the goal across accounts.
pub proof fn lemma_goal_allocations_waterfall(v: ValueByAccount, b: Ratio)
    requires
        v.wf(),
        b.is_fraction(),
    ensures
        ({
            let g = spec_goal_allocations(v, b);
            muldiv(v.pre_tax as int, g.pre_tax.num as int, g.pre_tax.den as int) + muldiv(
                v.roth as int,
                g.roth.num as int,
                g.roth.den as int,
            ) + muldiv(v.after_tax as int, g.after_tax.num as int, g.after_tax.den as int)
                == muldiv(v.total(), b.num as int, b.den as int)
        }),
{
    let goal = muldiv(v.total(), b.num as int, b.den as int);
    let g = spec_goal_allocations(v, b);
    lemma_muldiv_le(v.total(), b.num as int, b.den as int);
    crate::money::lemma_zero_div(1);
    assert(v.pre_tax as int * 0 == 0);
    assert(v.roth as int * 0 == 0);
    assert(v.after_tax as int * 0 == 0);
    if goal <= v.pre_tax {
        assert(muldiv(v.roth as int, 0, 1) == 0);
        assert(muldiv(v.after_tax as int, 0, 1) == 0);
        if v.pre_tax > 0 {
            assert(g.pre_tax.num == goal);
            crate::ratio::lemma_ratio_of_part_exact(goal, v.pre_tax as int);
        } else {
            assert(goal == 0);
            assert(muldiv(v.pre_tax as int, 0, 1) == 0);
        }
    } else if goal <= v.pre_tax + v.after_tax {
        assert(v.after_tax > 0);
        assert(v.pre_tax as int * 1 == v.pre_tax as int);
        crate::money::lemma_div_by_one(v.pre_tax as int);
        assert(muldiv(v.pre_tax as int, 1, 1) == v.pre_tax);
        assert(muldiv(v.roth as int, 0, 1) == 0);
        assert(g.after_tax.num == goal - v.pre_tax);
        crate::ratio::lemma_ratio_of_part_exact(goal - v.pre_tax, v.after_tax as int);
        assert(muldiv(v.after_tax as int, goal - v.pre_tax, v.after_tax as int) == goal
            - v.pre_tax);
    } else {
        assert(v.roth > 0);
        assert(v.pre_tax as int * 1 == v.pre_tax as int);
        assert(v.after_tax as int * 1 == v.after_tax as int);
        crate::money::lemma_div_by_one(v.pre_tax as int);
        crate::money::lemma_div_by_one(v.after_tax as int);
        assert(muldiv(v.pre_tax as int, 1, 1) == v.pre_tax);
        assert(muldiv(v.after_tax as int, 1, 1) == v.after_tax);
        assert(g.roth.num == goal - v.pre_tax - v.after_tax);
        crate::ratio::lemma_ratio_of_part_exact(goal - v.pre_tax - v.after_tax, v.roth as int);
        assert(muldiv(v.roth as int, goal - v.pre_tax - v.after_tax, v.roth as int) == goal
            - v.pre_tax - v.after_tax);
    }
}

/// The goal allocations are idempotent: rebalancing each account to its
/// goal fraction keeps every account's total value, so recomputing the
/// goal allocations on the result returns the very same fractions, and
/// rebalancing a second time moves nothing.
pub proof fn lemma_goal_allocations_idempotent(pre: Account, roth: Account, after: Account, b: Ratio)
    requires
        pre.wf(),
        roth.wf(),
        after.wf(),
        pre.spec_value() <= MONEY_CAP,
        roth.spec_value() <= MONEY_CAP,
        after.spec_value() <= MONEY_CAP,
        b.is_fraction(),
    ensures
        ({
            let v = ValueByAccount {
                pre_tax: pre.spec_value() as i64,
                roth: roth.spec_value() as i64,
                after_tax: after.spec_value() as i64,
            };
            let g = spec_goal_allocations(v, b);
            let pre1 = crate::account::spec_rebalanced(pre, g.pre_tax);
            let roth1 = crate::account::spec_rebalanced(roth, g.roth);
            let after1 = crate::account::spec_rebalanced(after, g.after_tax);
            &&& pre1.spec_value() == pre.spec_value()
            &&& roth1.spec_value() == roth.spec_value()
            &&& after1.spec_value() == after.spec_value()
            &&& spec_goal_allocations(
                ValueByAccount {
                    pre_tax: pre1.spec_value() as i64,
                    roth: roth1.spec_value() as i64,
                    after_tax: after1.spec_value() as i64,
                },
                b,
            ) == g
            &&& crate::account::spec_rebalanced(pre1, g.pre_tax) == pre1
            &&& crate::account::spec_rebalanced(roth1, g.roth) == roth1
            &&& crate::account::spec_rebalanced(after1, g.after_tax) == after1
        }),
{
    let v = ValueByAccount {
        pre_tax: pre.spec_value() as i64,
        roth: roth.spec_value() as i64,
        after_tax: after.spec_value() as i64,
    };
    let g = spec_goal_allocations(v, b);
    lemma_goal_allocations_wf(v, b);
    crate::account::lemma_rebalance_hits_target(pre, g.pre_tax);
    crate::account::lemma_rebalance_hits_target(roth, g.roth);
    crate::account::lemma_rebalance_hits_target(after, g.after_tax);
    crate::account::lemma_rebalance_idempotent(pre, g.pre_tax);
    crate::account::lemma_rebalance_idempotent(roth, g.roth);
    crate::account::lemma_rebalance_idempotent(after, g.after_tax);
}

/// Which accounts supply a withdrawal of `a`: drain the taxable account
/// first (already taxed), then pre-tax, then Roth, so tax-free growth is
/// preserved longest.  The Roth share is clamped to what the Roth holds.
pub open spec fn spec_allocate_withdrawals(v: ValueByAccount, a: int) -> ValueByAccount {
    if a <= v.after_tax {
        ValueByAccount { pre_tax: 0, roth: 0, after_tax: a as i64 }
    } else if a <= v.after_tax + v.pre_tax {
        ValueByAccount { pre_tax: (a - v.after_tax) as i64, roth: 0, after_tax: v.after_tax }
    } else {
        ValueByAccount {
            pre_tax: v.pre_tax,
            roth: if a - v.after_tax - v.pre_tax <= v.roth {
                (a - v.after_tax - v.pre_tax) as i64
            } else {
                v.roth
            },
            after_tax: v.after_tax,
        }
    }
}

/// Compute how a withdrawal of `a` is split across the accounts.
pub fn allocate_withdrawals(v: &ValueByAccount, a: i64) -> (r: ValueByAccount)
    requires
        v.wf(),
        0 <= a,
    ensures
        r == spec_allocate_withdrawals(*v, a as int),
        0 <= r.pre_tax <= v.pre_tax,
        0 <= r.roth <= v.roth,
        0 <= r.after_tax <= v.after_tax,
{
    if a <= v.after_tax {
        ValueByAccount { pre_tax: 0, roth: 0, after_tax: a }
    } else if a <= v.after_tax + v.pre_tax {
        ValueByAccount { pre_tax: a - v.after_tax, roth: 0, after_tax: v.after_tax }
    } else {
        ValueByAccount {
            pre_tax: v.pre_tax,
            roth: if a - v.after_tax - v.pre_tax <= v.roth {
                a - v.after_tax - v.pre_tax
            } else {
                v.roth
            },
            after_tax: v.after_tax,
        }
    }
}

/// Relies on chrono's `Utc::now` for the current wall-clock time (it can
/// panic if the system clock is set before the Unix epoch) and on
/// `Datelike::year` to read its calendar year.  Nothing is assumed about
/// the result: callers hold for every year.
#[verifier::external_body]
fn wall_clock_year() -> (y: i32) {
    chrono::Datelike::year(&chrono::Utc::now())
}

/// The age a person born in `birth` has in simulated year `y` when the
/// simulation starts in the wall-clock year `wall`, clamped to `i32`.
pub open spec fn spec_age(wall: int, birth: int, y: int) -> int {
    let a = wall - birth + y;
    if a > i32::MAX {
        i32::MAX as int
    } else if a < i32::MIN {
        i32::MIN as int
    } else {
        a
    }
}

fn age_in_year(wall: i32, birth: i32, y: usize) -> (a: i32)
    requires
        y <= 1_000_000_000,
    ensures
        a == spec_age(wall as int, birth as int, y as int),
{
    let wide: i64 = wall as i64 - birth as i64 + y as i64;
    if wide > i32::MAX as i64 {
        i32::MAX
    } else if wide < i32::MIN as i64 {
        i32::MIN
    } else {
        wide as i32
    }
}

/// The cumulative inflation index after one year at `rate` (ppm), clamped
/// into `[1, INFLATION_CAP]`.
pub open spec fn spec_infl_next(infl: int, rate: int) -> int {
    let x = muldiv(infl, RATE_SCALE + rate, RATE_SCALE as int);
    let hi = if x > INFLATION_CAP {
        INFLATION_CAP as int
    } else {
        x
    };
    if hi < 1 {
        1
    } else {
        hi
    }
}

fn advance_inflation(infl: i64, rate: i64) -> (r: i64)
    requires
        1 <= infl <= INFLATION_CAP,
        -RATE_SCALE <= rate <= RATE_CAP,
    ensures
        r == spec_infl_next(infl as int, rate as int),
        1 <= r <= INFLATION_CAP,
{
    proof {
        crate::money::lemma_i64_mul_fits_i128(infl as int, RATE_SCALE + rate);
        vstd::arithmetic::mul::lemma_mul_nonnegative(infl as int, (RATE_SCALE + rate) as int);
        vstd::arithmetic::div_mod::lemma_div_pos_is_pos(
            (infl as int) * ((RATE_SCALE + rate) as int),
            RATE_SCALE as int,
        );
    }
    let wide: i128 = (infl as i128) * ((RATE_SCALE + rate) as i128) / (RATE_SCALE as i128);
    let clamped: i64 = if wide > INFLATION_CAP as i128 {
        INFLATION_CAP
    } else {
        wide as i64
    };
    if clamped < 1 {
        1
    } else {
        clamped
    }
}

/// An amount of money deflated to starting-year dollars, saturating at
/// `MONEY_CAP`.
pub open spec fn spec_real(v: int, infl: int) -> int {
    capped(muldiv(v, RATE_SCALE as int, infl))
}

/// A possibly negative amount deflated to starting-year dollars.
pub open spec fn spec_real_signed(v: int, infl: int) -> int {
    if v >= 0 {
        spec_real(v, infl)
    } else {
        -spec_real(-v, infl)
    }
}

/// The taxes the tax-aware search estimates for a total withdrawal of
/// `raw` from balances `v`: ordinary income is the RMD, the dividends and
/// the pre-tax share of the withdrawal; gains are the taxable share times
/// the taxable account's gains fraction `cgf`.  Both are deflated into
/// starting-year dollars for the brackets and the result re-inflated.
pub open spec fn spec_wta_taxes(
    v: ValueByAccount,
    cgf: Ratio,
    rmd: int,
    id: int,
    infl: int,
    raw: int,
) -> int {
    let w = spec_allocate_withdrawals(v, raw);
    let gains_nom = if cgf.num <= 0 {
        0
    } else {
        muldiv(w.after_tax as int, cgf.num as int, cgf.den as int)
    };
    capped(
        muldiv(
            spec_tax(spec_real(rmd + id + w.pre_tax, infl), spec_real(gains_nom, infl)),
            infl,
            RATE_SCALE as int,
        ),
    )
}

/// What a total withdrawal of `raw` leaves to live on, by the search's
/// estimate.
pub open spec fn spec_wta_net(
    v: ValueByAccount,
    cgf: Ratio,
    rmd: int,
    id: int,
    infl: int,
    raw: int,
) -> int {
    let w = spec_allocate_withdrawals(v, raw);
    w.after_tax + w.pre_tax + w.roth + rmd - spec_wta_taxes(v, cgf, rmd, id, infl, raw)
}

/// The withdrawal the tax-aware search settles on: starting from `raw`,
/// grow by one step at a time until the estimated net covers the expenses
/// or the whole household value is being withdrawn.
pub open spec fn spec_wta_search(
    v: ValueByAccount,
    cgf: Ratio,
    rmd: int,
    id: int,
    infl: int,
    re: int,
    raw: int,
) -> int
    decreases clip0(v.total() - raw),
{
    if raw >= v.total() || spec_wta_net(v, cgf, rmd, id, infl, raw) >= re {
        raw
    } else {
        spec_wta_search(v, cgf, rmd, id, infl, re, raw + SEARCH_STEP)
    }
}

fn real_signed(v: i64, infl: i64) -> (r: i64)
    requires
        -(10 * MONEY_CAP) <= v <= 10 * MONEY_CAP,
        1 <= infl,
    ensures
        r == spec_real_signed(v as int, infl as int),
{
    if v >= 0 {
        scale_mul_capped(v, RATE_SCALE, infl)
    } else {
        -scale_mul_capped(-v, RATE_SCALE, infl)
    }
}

/// One simulated year relates `before` to `after` when some wall-clock
/// year makes `after` the transition `spec_next` describes.  Only the
/// tax-aware phase reads the clock (for ages); the other phases do not
/// depend on it.
pub open spec fn advanced_under(
    before: Instance,
    after: Instance,
    y: int,
    c: PhaseType,
    r: HistoricalYear,
) -> bool {
    exists|wall: int| after == before.spec_next(y, c, r, wall)
}

/// One simulated household: a cohort starting at `start` in the dataset.
#[derive(Clone, Copy, Debug)]
pub struct Instance {
    pub start: usize,
    pub cash: i64,
    pub pre_tax: Account,
    pub roth: Account,
    pub after_tax: Account,
    pub expense_ratio: i64,
    /// Cumulative inflation factor, scaled by `RATE_SCALE` (starts at one).
    pub inflation: i64,
    pub income: Income,
}

impl Instance {
    pub open spec fn wf(self) -> bool {
        &&& self.pre_tax.wf()
        &&& self.roth.wf()
        &&& self.after_tax.wf()
        &&& 0 <= self.expense_ratio <= RATE_SCALE
        &&& 1 <= self.inflation <= INFLATION_CAP
    }

    pub open spec fn spec_value(self) -> int {
        self.pre_tax.spec_value() + self.roth.spec_value() + self.after_tax.spec_value()
    }

    pub open spec fn spec_vba(self) -> ValueByAccount {
        ValueByAccount {
            pre_tax: self.pre_tax.spec_value() as i64,
            roth: self.roth.spec_value() as i64,
            after_tax: self.after_tax.spec_value() as i64,
        }
    }

    pub fn new(start: usize, pre_tax: Account, roth: Account, after_tax: Account, expense_ratio: i64) -> (r: Instance)
        requires
            pre_tax.wf(),
            roth.wf(),
            after_tax.wf(),
            0 <= expense_ratio <= RATE_SCALE,
        ensures
            r == (Instance {
                start,
                cash: 0,
                pre_tax,
                roth,
                after_tax,
                expense_ratio,
                inflation: RATE_SCALE,
                income: zero_income(),
            }),
            r.wf(),
    {
        Instance {
            start,
            cash: 0,
            pre_tax,
            roth,
            after_tax,
            expense_ratio,
            inflation: RATE_SCALE,
            income: fresh_income(),
        }
    }

    pub fn start(&self) -> (s: usize)
        ensures
            s == self.start,
    {
        self.start
    }

    /// Deflate `v` into starting-year dollars using this cohort's
    /// cumulative inflation.
    pub fn inflation_adjusted(&self, v: i64) -> (r: i64)
        requires
            self.wf(),
            0 <= v,
        ensures
            r == spec_real(v as int, self.inflation as int),
    {
        scale_mul_capped(v, RATE_SCALE, self.inflation)
    }

    pub fn value(&self) -> (v: i64)
        requires
            self.wf(),
        ensures
            v == self.spec_value(),
    {
        self.pre_tax.value() + self.roth.value() + self.after_tax.value()
    }

    pub fn value_by_account(&self) -> (v: ValueByAccount)
        requires
            self.wf(),
        ensures
            v == self.spec_vba(),
            v.wf(),
    {
        ValueByAccount {
            pre_tax: self.pre_tax.value(),
            roth: self.roth.value(),
            after_tax: self.after_tax.value(),
        }
    }

    /// The aggregate bond fraction across all three accounts; zero when
    /// the household is broke.
    pub fn bond_fraction(&self) -> (r: Ratio)
        requires
            self.wf(),
        ensures
            self.spec_value() > 0 ==> r == (Ratio {
                num: self.spec_bond_value() as i64,
                den: self.spec_value() as i64,
            }),
            self.spec_value() == 0 ==> r == (Ratio { num: 0, den: 1 }),
            r.is_fraction(),
    {
        let v = self.value();
        if v > 0 {
            Ratio { num: self.bond_value(), den: v }
        } else {
            Ratio { num: 0, den: 1 }
        }
    }

    pub open spec fn spec_bond_value(self) -> int {
        self.pre_tax.bonds.value + self.roth.bonds.value + self.after_tax.bonds.value
    }

    /// The bond fraction of each account separately.
    pub fn bond_fraction_by_account(&self) -> (r: AllocationByAccount)
        requires
            self.wf(),
        ensures
            r == (AllocationByAccount {
                pre_tax: self.pre_tax.spec_bond_fraction(),
                roth: self.roth.spec_bond_fraction(),
                after_tax: self.after_tax.spec_bond_fraction(),
            }),
            r.wf(),
    {
        AllocationByAccount {
            pre_tax: self.pre_tax.bond_fraction(),
            roth: self.roth.bond_fraction(),
            after_tax: self.after_tax.bond_fraction(),
        }
    }

    pub fn bond_value(&self) -> (v: i64)
        requires
            self.wf(),
        ensures
            v == self.spec_bond_value(),
    {
        self.pre_tax.bonds.value + self.roth.bonds.value + self.after_tax.bonds.value
    }

    /// Unrealized capital gains in the taxable account (the only account
    /// whose gains are taxed on sale).
    pub fn capital_gains(&self) -> (cg: i64)
        requires
            self.wf(),
        ensures
            cg == self.after_tax.spec_capital_gains(),
    {
        self.after_tax.capital_gains()
    }

    pub fn goal_allocations(&self, b: Ratio) -> (r: AllocationByAccount)
        requires
            self.wf(),
            b.is_fraction(),
        ensures
            r == spec_goal_allocations(self.spec_vba(), b),
            r.wf(),
    {
        let v = self.value_by_account();
        goal_allocations(&v, b)
    }

    pub fn allocate_withdrawals(&self, a: i64) -> (r: ValueByAccount)
        requires
            self.wf(),
            0 <= a,
        ensures
            r == spec_allocate_withdrawals(self.spec_vba(), a as int),
            0 <= r.pre_tax <= self.pre_tax.spec_value(),
            0 <= r.roth <= self.roth.spec_value(),
            0 <= r.after_tax <= self.after_tax.spec_value(),
    {
        let v = self.value_by_account();
        allocate_withdrawals(&v, a)
    }

    /// The household after one year of growth with dividends reinvested.
    pub open spec fn grown_reinvested(self, r: HistoricalYear, e: int) -> Instance {
        Instance {
            pre_tax: self.pre_tax.grown_reinvested(r.stocks, r.tbonds, e),
            roth: self.roth.grown_reinvested(r.stocks, r.tbonds, e),
            after_tax: self.after_tax.grown_reinvested(r.stocks, r.tbonds, e),
            ..self
        }
    }

    /// Grow all three accounts, reinvesting dividends.  Returns the
    /// taxable interest and dividends (those of the taxable account).
    pub fn grow_and_reinvest(&mut self, r: &HistoricalYear, e: i64) -> (id: i64)
        requires
            old(self).wf(),
            r.wf(),
            0 <= e <= RATE_SCALE,
        ensures
            *final(self) == old(self).grown_reinvested(*r, e as int),
            final(self).wf(),
            id == old(self).after_tax.spec_yield(r.stocks, r.tbonds),
            0 <= id,
    {
        self.pre_tax.grow_and_reinvest(&r.stocks, &r.tbonds, e);
        self.roth.grow_and_reinvest(&r.stocks, &r.tbonds, e);
        self.after_tax.grow_and_reinvest(&r.stocks, &r.tbonds, e)
    }

    /// The household after investing one year's contributions, each
    /// account buying toward the aggregate bond target.
    pub open spec fn contributed(self, c: YearlyContribution) -> Instance {
        let g = spec_goal_allocations(
            ValueByAccount {
                pre_tax: (self.pre_tax.spec_value() + c.pre_tax) as i64,
                roth: (self.roth.spec_value() + c.roth) as i64,
                after_tax: (self.after_tax.spec_value() + c.after_tax) as i64,
            },
            c.target_bond_percent,
        );
        Instance {
            pre_tax: self.pre_tax.invested_with_goal(c.pre_tax as int, g.pre_tax),
            roth: self.roth.invested_with_goal(c.roth as int, g.roth),
            after_tax: self.after_tax.invested_with_goal(c.after_tax as int, g.after_tax),
            ..self
        }
    }

    /// Invest one year's contributions: compute the goal allocation of the
    /// post-contribution balances, then buy toward it in each account.
    pub fn contribute(&mut self, c: &YearlyContribution)
        requires
            old(self).wf(),
            c.wf(),
        ensures
            *final(self) == old(self).contributed(*c),
            final(self).wf(),
    {
        let vba = ValueByAccount {
            pre_tax: self.pre_tax.value() + c.pre_tax,
            roth: self.roth.value() + c.roth,
            after_tax: self.after_tax.value() + c.after_tax,
        };
        let g = goal_allocations(&vba, c.target_bond_percent);
        self.pre_tax.invest_with_goal_allocation(c.pre_tax, g.pre_tax);
        self.roth.invest_with_goal_allocation(c.roth, g.roth);
        self.after_tax.invest_with_goal_allocation(c.after_tax, g.after_tax);
    }

    /// The goal allocation used while withdrawing `a`: computed over the
    /// balances as they will be after the withdrawal.
    pub open spec fn withdrawal_targets(self, a: int, b: Ratio) -> AllocationByAccount {
        let w = spec_allocate_withdrawals(self.spec_vba(), a);
        spec_goal_allocations(
            ValueByAccount {
                pre_tax: (self.pre_tax.spec_value() - w.pre_tax) as i64,
                roth: (self.roth.spec_value() - w.roth) as i64,
                after_tax: (self.after_tax.spec_value() - w.after_tax) as i64,
            },
            b,
        )
    }

    /// The household after withdrawing `a` at target bond fraction `b`.
    pub open spec fn withdrawn(self, a: int, b: Ratio) -> Instance {
        let w = spec_allocate_withdrawals(self.spec_vba(), a);
        let t = self.withdrawal_targets(a, b);
        Instance {
            pre_tax: self.pre_tax.sold_with_goal(w.pre_tax as int, t.pre_tax),
            roth: self.roth.sold_with_goal(w.roth as int, t.roth),
            after_tax: self.after_tax.sold_with_goal(w.after_tax as int, t.after_tax),
            ..self
        }
    }

    /// The capital gains realized in the taxable account by `withdraw`.
    pub open spec fn withdrawn_gains(self, a: int, b: Ratio) -> int {
        let w = spec_allocate_withdrawals(self.spec_vba(), a);
        let t = self.withdrawal_targets(a, b);
        self.after_tax.sold_with_goal_gains(w.after_tax as int, t.after_tax)
    }

    /// Withdraw `a`, drawing accounts down in priority order and steering
    /// each toward the goal allocation for target bond fraction `b`.
    /// Returns the taxable ordinary income (the pre-tax share) and the
    /// capital gains realized in the taxable account.
    pub fn withdraw(&mut self, a: i64, b: Ratio) -> (r: (i64, i64))
        requires
            old(self).wf(),
            0 <= a,
            b.is_fraction(),
        ensures
            *final(self) == old(self).withdrawn(a as int, b),
            final(self).wf(),
            r.0 == spec_allocate_withdrawals(old(self).spec_vba(), a as int).pre_tax,
            r.1 == old(self).withdrawn_gains(a as int, b),
            -(2 * MONEY_CAP) <= r.1 <= a,
    {
        let w = self.allocate_withdrawals(a);
        let remaining = ValueByAccount {
            pre_tax: self.pre_tax.value() - w.pre_tax,
            roth: self.roth.value() - w.roth,
            after_tax: self.after_tax.value() - w.after_tax,
        };
        let t = goal_allocations(&remaining, b);
        self.roth.sell_with_goal_allocation(w.roth, t.roth);
        self.pre_tax.sell_with_goal_allocation(w.pre_tax, t.pre_tax);
        let cg = self.after_tax.sell_with_goal_allocation(w.after_tax, t.after_tax);
        (w.pre_tax, cg)
    }

    fn wta_net_exec(&self, rmd: i64, id: i64, infl: i64, raw: i64) -> (net: i64)
        requires
            self.wf(),
            0 <= rmd <= 2 * MONEY_CAP,
            0 <= id <= 2 * MONEY_CAP,
            1 <= infl <= INFLATION_CAP,
            0 <= raw <= 7 * MONEY_CAP,
        ensures
            net == spec_wta_net(
                self.spec_vba(),
                self.after_tax.spec_cg_fraction(),
                rmd as int,
                id as int,
                infl as int,
                raw as int,
            ),
    {
        let w = self.allocate_withdrawals(raw);
        let cgf = self.after_tax.capital_gains_fraction();
        let gains_nom = if cgf.num <= 0 {
            0
        } else {
            crate::money::frac_mul(w.after_tax, cgf.num, cgf.den)
        };
        let gains_real = scale_mul_capped(gains_nom, RATE_SCALE, infl);
        let inc_real = scale_mul_capped(rmd + id + w.pre_tax, RATE_SCALE, infl);
        let t_real = tax(inc_real, gains_real);
        let taxes = scale_mul_capped(t_real, infl, RATE_SCALE);
        w.after_tax + w.pre_tax + w.roth + rmd - taxes
    }

    fn wta_search_amount(&self, rmd: i64, id: i64, infl: i64, re: i64, start: i64) -> (res: i64)
        requires
            self.wf(),
            0 <= rmd <= 2 * MONEY_CAP,
            0 <= id <= 2 * MONEY_CAP,
            1 <= infl <= INFLATION_CAP,
            0 <= re <= MONEY_CAP,
            0 <= start <= 4 * MONEY_CAP,
        ensures
            res == spec_wta_search(
                self.spec_vba(),
                self.after_tax.spec_cg_fraction(),
                rmd as int,
                id as int,
                infl as int,
                re as int,
                start as int,
            ),
            start <= res <= 7 * MONEY_CAP,
    {
        let mut raw = start;
        let total = self.value();
        let mut net = self.wta_net_exec(rmd, id, infl, raw);
        while raw < total && net < re
            invariant
                self.wf(),
                0 <= rmd <= 2 * MONEY_CAP,
                0 <= id <= 2 * MONEY_CAP,
                1 <= infl <= INFLATION_CAP,
                0 <= re <= MONEY_CAP,
                0 <= start <= 4 * MONEY_CAP,
                total == self.spec_value(),
                total == self.spec_vba().total(),
                start <= raw <= 7 * MONEY_CAP,
                net == spec_wta_net(
                    self.spec_vba(),
                    self.after_tax.spec_cg_fraction(),
                    rmd as int,
                    id as int,
                    infl as int,
                    raw as int,
                ),
                spec_wta_search(
                    self.spec_vba(),
                    self.after_tax.spec_cg_fraction(),
                    rmd as int,
                    id as int,
                    infl as int,
                    re as int,
                    start as int,
                ) == spec_wta_search(
                    self.spec_vba(),
                    self.after_tax.spec_cg_fraction(),
                    rmd as int,
                    id as int,
                    infl as int,
                    re as int,
                    raw as int,
                ),
            decreases total + SEARCH_STEP - raw,
        {
            raw = raw + SEARCH_STEP;
            net = self.wta_net_exec(rmd, id, infl, raw);
        }
        raw
    }

    /// The household after one tax-aware withdrawal year: take the RMD,
    /// grow and reinvest, then either invest the surplus toward the bond
    /// target or search for the withdrawal that covers the shortfall net
    /// of the taxes it causes, and finally rebalance the tax-advantaged
    /// accounts.
    pub open spec fn tax_aware_withdrawn(
        self,
        y: int,
        w: TaxAwareWithdrawal,
        r: HistoricalYear,
        wall: int,
    ) -> Instance {
        let b = w.bond_percent;
        let infl2 = spec_infl_next(self.inflation as int, r.inflation as int);
        let re = capped(muldiv(w.living_expenses as int, infl2, RATE_SCALE as int));
        let frac = spec_rmd_fraction(spec_age(wall, w.birth_year as int, y));
        let rmd = muldiv(self.pre_tax.spec_value(), frac.num as int, frac.den as int);
        let i1 = Instance { pre_tax: self.pre_tax.sold_preserving(rmd), ..self };
        let id = i1.after_tax.spec_yield(r.stocks, r.tbonds);
        let i2 = i1.grown_reinvested(r, self.expense_ratio as int);
        let taxes0 = capped(
            muldiv(spec_tax(spec_real(rmd + id, infl2), 0), infl2, RATE_SCALE as int),
        );
        let money_left = rmd - taxes0 - re;
        let i3 = if money_left >= 0 {
            let g = spec_goal_allocations(
                ValueByAccount {
                    pre_tax: i2.pre_tax.spec_value() as i64,
                    roth: i2.roth.spec_value() as i64,
                    after_tax: (i2.after_tax.spec_value() + money_left) as i64,
                },
                b,
            );
            Instance {
                after_tax: i2.after_tax.invested_with_goal(money_left, g.after_tax),
                income: Income {
                    id: id as i64,
                    rmd: rmd as i64,
                    after_tax_bought: money_left as i64,
                    after_tax_sold: 0,
                    cg: 0,
                    ira_sold: 0,
                    roth_sold: 0,
                    taxes: taxes0 as i64,
                },
                ..i2
            }
        } else {
            let raw = spec_wta_search(
                i2.spec_vba(),
                i2.after_tax.spec_cg_fraction(),
                rmd,
                id,
                infl2,
                re,
                -money_left,
            );
            let walloc = spec_allocate_withdrawals(i2.spec_vba(), raw);
            let cg = i2.withdrawn_gains(raw, b);
            let taxes = capped(
                muldiv(
                    spec_tax(
                        spec_real(rmd + id + walloc.pre_tax, infl2),
                        spec_real_signed(cg, infl2),
                    ),
                    infl2,
                    RATE_SCALE as int,
                ),
            );
            Instance {
                income: Income {
                    id: id as i64,
                    rmd: rmd as i64,
                    after_tax_bought: 0,
                    after_tax_sold: walloc.after_tax,
                    cg: cg as i64,
                    ira_sold: walloc.pre_tax,
                    roth_sold: walloc.roth,
                    taxes: taxes as i64,
                },
                ..i2.withdrawn(raw, b)
            }
        };
        let g2 = spec_goal_allocations(i3.spec_vba(), b);
        Instance {
            pre_tax: i3.pre_tax.rebalanced(g2.pre_tax),
            roth: i3.roth.rebalanced(g2.roth),
            inflation: infl2 as i64,
            ..i3
        }
    }

    /// Invest a surplus of `money_left` into the taxable account, buying
    /// toward the aggregate bond target `b`.
    fn wta_surplus(&mut self, money_left: i64, b: Ratio)
        requires
            old(self).wf(),
            0 <= money_left <= 2 * MONEY_CAP,
            b.is_fraction(),
        ensures
            ({
                let g = spec_goal_allocations(
                    ValueByAccount {
                        pre_tax: old(self).pre_tax.spec_value() as i64,
                        roth: old(self).roth.spec_value() as i64,
                        after_tax: (old(self).after_tax.spec_value() + money_left) as i64,
                    },
                    b,
                );
                *final(self) == (Instance {
                    after_tax: old(self).after_tax.invested_with_goal(
                        money_left as int,
                        g.after_tax,
                    ),
                    ..*old(self)
                })
            }),
            final(self).wf(),
    {
        let vba = ValueByAccount {
            pre_tax: self.pre_tax.value(),
            roth: self.roth.value(),
            after_tax: self.after_tax.value() + money_left,
        };
        let g = goal_allocations(&vba, b);
        self.after_tax.invest_with_goal_allocation(money_left, g.after_tax);
    }

    /// Cover a shortfall: search for the total withdrawal whose estimated
    /// net proceeds meet the expenses, execute it, and record the flows
    /// and the taxes they cause.
    #[verifier::rlimit(60)]
    #[verifier::spinoff_prover]
    fn wta_shortfall(&mut self, infl: i64, re: i64, start: i64, b: Ratio)
        requires
            old(self).wf(),
            0 <= old(self).income.rmd <= 2 * MONEY_CAP,
            0 <= old(self).income.id <= 2 * MONEY_CAP,
            1 <= infl <= INFLATION_CAP,
            0 <= re <= MONEY_CAP,
            0 <= start <= 4 * MONEY_CAP,
            b.is_fraction(),
        ensures
            ({
                let raw = spec_wta_search(
                    old(self).spec_vba(),
                    old(self).after_tax.spec_cg_fraction(),
                    old(self).income.rmd as int,
                    old(self).income.id as int,
                    infl as int,
                    re as int,
                    start as int,
                );
                let walloc = spec_allocate_withdrawals(old(self).spec_vba(), raw);
                let cg = old(self).withdrawn_gains(raw, b);
                let taxes = capped(
                    muldiv(
                        spec_tax(
                            spec_real(
                                old(self).income.rmd + old(self).income.id + walloc.pre_tax,
                                infl as int,
                            ),
                            spec_real_signed(cg, infl as int),
                        ),
                        infl as int,
                        RATE_SCALE as int,
                    ),
                );
                *final(self) == (Instance {
                    income: Income {
                        after_tax_sold: walloc.after_tax,
                        cg: cg as i64,
                        ira_sold: walloc.pre_tax,
                        roth_sold: walloc.roth,
                        taxes: taxes as i64,
                        ..old(self).income
                    },
                    ..old(self).withdrawn(raw, b)
                })
            }),
            final(self).wf(),
    {
        let raw = self.wta_search_amount(self.income.rmd, self.income.id, infl, re, start);
        let guess = self.allocate_withdrawals(raw);
        let sold = self.withdraw(raw, b);
        self.income.ira_sold = sold.0;
        self.income.cg = sold.1;
        self.income.after_tax_sold = guess.after_tax;
        self.income.roth_sold = guess.roth;
        let inc_real = scale_mul_capped(
            self.income.rmd + self.income.id + self.income.ira_sold,
            RATE_SCALE,
            infl,
        );
        let cg_real = real_signed(self.income.cg, infl);
        let t1 = tax(inc_real, cg_real);
        self.income.taxes = scale_mul_capped(t1, infl, RATE_SCALE);
    }

    #[verifier::rlimit(100)]
    #[verifier::spinoff_prover]
    fn tax_aware_year(&mut self, y: usize, w: &TaxAwareWithdrawal, r: &HistoricalYear, wall: i32)
        requires
            old(self).wf(),
            w.wf(),
            r.wf(),
            y <= 1_000_000_000,
            old(self).income == zero_income(),
        ensures
            *final(self) == old(self).tax_aware_withdrawn(y as int, *w, *r, wall as int),
            final(self).wf(),
    {
        let b = w.bond_percent;
        let new_inflation = advance_inflation(self.inflation, r.inflation);
        let real_expenses = scale_mul_capped(w.living_expenses, new_inflation, RATE_SCALE);

        // RMDs are calculated, and funded, at the beginning of the year.
        let age = age_in_year(wall, w.birth_year, y);
        let frac = rmd_fraction(age);
        self.income.rmd = frac.apply(self.pre_tax.value());
        self.pre_tax.sell_preserving_allocation(self.income.rmd);

        // Market growth; dividends of the taxable account are taxable.
        let e = self.expense_ratio;
        self.income.id = self.grow_and_reinvest(r, e);

        // Estimate taxes on the RMD and dividends, in starting-year
        // dollars, and see what is left after living expenses.
        let real_income = scale_mul_capped(
            self.income.rmd + self.income.id,
            RATE_SCALE,
            new_inflation,
        );
        let t0 = tax(real_income, 0);
        self.income.taxes = scale_mul_capped(t0, new_inflation, RATE_SCALE);
        let money_left = self.income.rmd - self.income.taxes - real_expenses;
        self.income.after_tax_bought = if money_left > 0 {
            money_left
        } else {
            0
        };
        if money_left >= 0 {
            // Surplus: invest it in the taxable account toward the target.
            self.wta_surplus(money_left, b);
        } else {
            // Shortfall: search for the withdrawal that covers it net of
            // the taxes the withdrawal itself causes.  The estimate keeps
            // the gains ratio frozen from before the sale; that is a
            // documented approximation.
            self.wta_shortfall(new_inflation, real_expenses, -money_left, b);
        }

        // Rebalance the tax-advantaged accounts to the target.
        let t = self.goal_allocations(b);
        self.pre_tax.rebalance(t.pre_tax);
        self.roth.rebalance(t.roth);
        self.inflation = new_inflation;
    }

    /// The household after one simple withdrawal year: withdraw the
    /// inflation-indexed amount, grow what remains, and rebalance the
    /// tax-advantaged accounts to the target.
    pub open spec fn simple_withdrawn(self, w: SimpleWithdrawal, r: HistoricalYear) -> Instance {
        let amt = capped(muldiv(w.amount as int, self.inflation as int, RATE_SCALE as int));
        let i2 = self.withdrawn(amt, w.bond_percent).grown_reinvested(
            r,
            self.expense_ratio as int,
        );
        let g = spec_goal_allocations(i2.spec_vba(), w.bond_percent);
        Instance {
            pre_tax: i2.pre_tax.rebalanced(g.pre_tax),
            roth: i2.roth.rebalanced(g.roth),
            inflation: spec_infl_next(self.inflation as int, r.inflation as int) as i64,
            ..i2
        }
    }

    /// The household after one simulated year under phase `c`, with the
    /// simulation anchored at wall-clock year `wall` (which determines
    /// ages for required minimum distributions).
    pub open spec fn spec_next(self, y: int, c: PhaseType, r: HistoricalYear, wall: int) -> Instance {
        let base = Instance { income: zero_income(), ..self };
        match c {
            PhaseType::Accumulation(yc) => {
                let g = base.grown_reinvested(r, self.expense_ratio as int).contributed(yc);
                Instance {
                    inflation: spec_infl_next(self.inflation as int, r.inflation as int) as i64,
                    ..g
                }
            },
            PhaseType::Growth => {
                let g = base.grown_reinvested(r, self.expense_ratio as int);
                Instance {
                    inflation: spec_infl_next(self.inflation as int, r.inflation as int) as i64,
                    ..g
                }
            },
            PhaseType::SimpleWithdrawAndRebalance(w) => base.simple_withdrawn(w, r),
            PhaseType::WithdrawTaxAware(w) => base.tax_aware_withdrawn(y, w, r, wall),
        }
    }

    /// Advance one simulated year under phase `c`, taking the wall-clock
    /// year as an argument, so the transition is a function of its inputs.
    pub fn next_in_year(&mut self, y: usize, c: &PhaseType, r: &HistoricalYear, wall_year: i32)
        requires
            old(self).wf(),
            c.wf(),
            r.wf(),
            y <= 1_000_000_000,
        ensures
            *final(self) == old(self).spec_next(y as int, *c, *r, wall_year as int),
            final(self).wf(),
            final(self).start == old(self).start,
    {
        self.income = fresh_income();
        match c {
            PhaseType::Accumulation(contributions) => {
                let e = self.expense_ratio;
                self.grow_and_reinvest(r, e);
                self.contribute(contributions);
                self.inflation = advance_inflation(self.inflation, r.inflation);
            },
            PhaseType::Growth => {
                let e = self.expense_ratio;
                self.grow_and_reinvest(r, e);
                self.inflation = advance_inflation(self.inflation, r.inflation);
            },
            PhaseType::SimpleWithdrawAndRebalance(w) => {
                let amt = scale_mul_capped(w.amount, self.inflation, RATE_SCALE);
                let infl = self.inflation;
                self.withdraw(amt, w.bond_percent);
                let e = self.expense_ratio;
                self.grow_and_reinvest(r, e);
                let g = self.goal_allocations(w.bond_percent);
                self.pre_tax.rebalance(g.pre_tax);
                self.roth.rebalance(g.roth);
                self.inflation = advance_inflation(infl, r.inflation);
            },
            PhaseType::WithdrawTaxAware(w) => {
                self.tax_aware_year(y, w, r, wall_year);
            },
        }
    }

    /// Advance one simulated year under phase `c`, reading the wall-clock
    /// year from the system clock.  Whatever year the clock reports, the
    /// transition is the one `spec_next` describes for it.
    pub fn next(&mut self, y: usize, c: &PhaseType, r: &HistoricalYear)
        requires
            old(self).wf(),
            c.wf(),
            r.wf(),
            y <= 1_000_000_000,
        ensures
            advanced_under(*old(self), *final(self), y as int, *c, *r),
            final(self).wf(),
            final(self).start == old(self).start,
    {
        let wall = wall_clock_year();
        self.next_in_year(y, c, r, wall);
        proof {
            assert(*self == old(self).spec_next(y as int, *c, *r, wall as int));
        }
    }
}

} // verus!
