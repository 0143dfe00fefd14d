// Instance: the per-cohort phase state machine, the allocation waterfall
// and the withdrawal priority order.

use isim::account::Account;
use isim::asset::AssetReturn;
use isim::config::PhaseType;
use isim::config::TaxAwareWithdrawal;
use isim::config::YearlyContribution;
use isim::histret::HistoricalYear;
use isim::instance::allocate_withdrawals;
use isim::instance::goal_allocations;
use isim::instance::AllocationByAccount;
use isim::instance::Instance;
use isim::instance::ValueByAccount;
use isim::ratio::Ratio;

fn flat_year(stocks: AssetReturn, tbonds: AssetReturn) -> HistoricalYear {
    HistoricalYear {
        year: 0,
        stocks,
        tbonds,
        aaabonds: AssetReturn { cg: 0, id: 0 },
        inflation: 0,
    }
}

#[test]
fn goal_allocations_waterfall_order() {
    let instance = Instance::new(
        0,
        Account::new(5000, 5000),
        Account::new(5000, 5000),
        Account::new(5000, 5000),
        0,
    );
    let alloc = instance.goal_allocations(Ratio::new(0, 1));
    assert_eq!(alloc.pre_tax, Ratio::new(0, 1));
    assert_eq!(alloc.roth, Ratio::new(0, 1));
    assert_eq!(alloc.after_tax, Ratio::new(0, 1));

    let alloc = instance.goal_allocations(Ratio::new(1, 1));
    assert_eq!(alloc.pre_tax, Ratio::new(1, 1));
    assert_eq!(alloc.roth, Ratio::new(1, 1));
    assert_eq!(alloc.after_tax, Ratio::new(1, 1));

    let alloc = instance.goal_allocations(Ratio::new(5, 10));
    assert_eq!(alloc.pre_tax, Ratio::new(1, 1));
    assert_eq!(alloc.roth, Ratio::new(0, 1));
    assert_eq!(alloc.after_tax, Ratio::new(1, 2));
}

#[test]
fn instance_grow_and_reinvest() {
    let mut instance = Instance::new(
        0,
        Account::new(5000, 5000),
        Account::new(10000, 0),
        Account::new(9000, 1000),
        0,
    );
    let id = instance.grow_and_reinvest(
        &flat_year(AssetReturn { cg: 80_000, id: 20_000 }, AssetReturn { cg: 0, id: 40_000 }),
        0,
    );
    assert_eq!(id, 220);
    assert_eq!(
        instance.value_by_account(),
        ValueByAccount { pre_tax: 10700, roth: 11000, after_tax: 10940 }
    );
}

#[test]
fn contribute() {
    let mut instance = Instance::new(
        0,
        Account::new(0, 0),
        Account::new(0, 0),
        Account::new(0, 0),
        0,
    );
    instance.contribute(&YearlyContribution {
        pre_tax: 1_000_000,
        roth: 500_000,
        after_tax: 2_000_000,
        target_bond_percent: Ratio::new(20, 100),
    });
    assert_eq!(
        instance.value_by_account(),
        ValueByAccount { pre_tax: 1_000_000, roth: 500_000, after_tax: 2_000_000 }
    );
    assert_eq!(instance.bond_fraction(), Ratio::new(2, 10));
    assert_eq!(
        instance.bond_fraction_by_account(),
        AllocationByAccount {
            pre_tax: Ratio::new(7, 10),
            roth: Ratio::new(0, 1),
            after_tax: Ratio::new(0, 1),
        }
    );
}

#[test]
fn withdrawals_drain_taxable_account_first() {
    let v = ValueByAccount { pre_tax: 5000, roth: 4000, after_tax: 3000 };
    assert_eq!(
        allocate_withdrawals(&v, 2000),
        ValueByAccount { pre_tax: 0, roth: 0, after_tax: 2000 }
    );
    assert_eq!(
        allocate_withdrawals(&v, 4000),
        ValueByAccount { pre_tax: 1000, roth: 0, after_tax: 3000 }
    );
    assert_eq!(
        allocate_withdrawals(&v, 9000),
        ValueByAccount { pre_tax: 5000, roth: 1000, after_tax: 3000 }
    );
    // More than the household holds: the Roth share is clamped.
    assert_eq!(
        allocate_withdrawals(&v, 100_000),
        ValueByAccount { pre_tax: 5000, roth: 4000, after_tax: 3000 }
    );
}

#[test]
fn goal_allocations_idempotent_on_values() {
    // Re-applying the goal allocations at the same aggregate target, with
    // no new contribution, changes nothing: rebalancing to the goal keeps
    // every account's value, recomputation returns the same fractions,
    // and a second rebalance moves no money.
    let b = Ratio::new(35, 100);
    let mut pre = Account::new_with_basis(9000, 4000, 1000, 900);
    let mut roth = Account::new_with_basis(7000, 7000, 0, 0);
    let mut after = Account::new_with_basis(1000, 200, 5000, 5000);
    let v = ValueByAccount {
        pre_tax: pre.value(),
        roth: roth.value(),
        after_tax: after.value(),
    };
    let g = goal_allocations(&v, b);
    pre.rebalance(g.pre_tax);
    roth.rebalance(g.roth);
    after.rebalance(g.after_tax);
    let v2 = ValueByAccount {
        pre_tax: pre.value(),
        roth: roth.value(),
        after_tax: after.value(),
    };
    assert_eq!(v2, v);
    let g2 = goal_allocations(&v2, b);
    assert_eq!(g2, g);
    let snapshot = (pre.stocks.value, pre.stocks.cost_basis, pre.bonds.value, pre.bonds.cost_basis);
    pre.rebalance(g2.pre_tax);
    assert_eq!(
        snapshot,
        (pre.stocks.value, pre.stocks.cost_basis, pre.bonds.value, pre.bonds.cost_basis)
    );
    let snapshot = (
        after.stocks.value,
        after.stocks.cost_basis,
        after.bonds.value,
        after.bonds.cost_basis,
    );
    after.rebalance(g2.after_tax);
    assert_eq!(
        snapshot,
        (after.stocks.value, after.stocks.cost_basis, after.bonds.value, after.bonds.cost_basis)
    );
}

#[test]
fn tax_aware_year_with_rmd_surplus() {
    // A household living off a required minimum distribution: age 80 in
    // the anchor year, all-bond pre-tax account, flat markets, no
    // expenses.  The distribution period at 80 is 18.7 years, so the RMD
    // on $18,700 is exactly $1,000; Illinois taxes it at 4.95% and the
    // federal tax is zero below the standard deduction.  The surplus is
    // invested in the taxable account; only the taxes leave the
    // household.
    let mut instance = Instance::new(
        0,
        Account::new_with_basis(0, 0, 1_870_000, 1_870_000),
        Account::new(0, 0),
        Account::new(0, 0),
        0,
    );
    let phase = PhaseType::WithdrawTaxAware(TaxAwareWithdrawal {
        living_expenses: 0,
        birth_year: 1940,
        bond_percent: Ratio::new(100, 100),
    });
    let year = flat_year(AssetReturn { cg: 0, id: 0 }, AssetReturn { cg: 0, id: 0 });
    instance.next_in_year(0, &phase, &year, 2020);
    assert_eq!(instance.income.rmd, 100_000);
    assert_eq!(instance.income.id, 0);
    assert_eq!(instance.income.taxes, 4_950);
    assert_eq!(instance.income.after_tax_bought, 95_050);
    assert_eq!(instance.value(), 1_870_000 - 4_950);
    assert_eq!(
        instance.value_by_account(),
        ValueByAccount { pre_tax: 1_770_000, roth: 0, after_tax: 95_050 }
    );
}

#[test]
fn tax_aware_year_with_shortfall_sells_taxable_first() {
    // Too young for distributions, flat markets, and expenses that must
    // be covered by selling: the search starts at the shortfall and the
    // sale comes out of the taxable account first.  With no unrealized
    // gains and income below the standard deduction, only Illinois taxes
    // the withdrawal's pre-tax share (here none), so the first guess
    // already funds the expenses.
    let mut instance = Instance::new(
        0,
        Account::new(0, 0),
        Account::new(0, 0),
        Account::new_with_basis(5_000_000, 5_000_000, 0, 0),
        0,
    );
    let phase = PhaseType::WithdrawTaxAware(TaxAwareWithdrawal {
        living_expenses: 100_000,
        birth_year: 1990,
        bond_percent: Ratio::new(0, 100),
    });
    let year = flat_year(AssetReturn { cg: 0, id: 0 }, AssetReturn { cg: 0, id: 0 });
    instance.next_in_year(0, &phase, &year, 2020);
    assert_eq!(instance.income.rmd, 0);
    assert_eq!(instance.income.after_tax_sold, 100_000);
    assert_eq!(instance.income.ira_sold, 0);
    assert_eq!(instance.income.roth_sold, 0);
    assert_eq!(instance.income.cg, 0);
    assert_eq!(instance.income.taxes, 0);
    assert_eq!(instance.value(), 4_900_000);
}

#[test]
fn inflation_adjustment_deflates_values() {
    // After a year of 25% inflation, a nominal amount is worth a fifth
    // less in starting-year dollars.
    let mut instance = Instance::new(
        0,
        Account::new(0, 0),
        Account::new(0, 0),
        Account::new_with_basis(10000, 10000, 0, 0),
        0,
    );
    let mut year = flat_year(AssetReturn { cg: 0, id: 0 }, AssetReturn { cg: 0, id: 0 });
    year.inflation = 250_000;
    instance.next_in_year(0, &PhaseType::Growth, &year, 2020);
    assert_eq!(instance.value(), 10000);
    assert_eq!(instance.inflation_adjusted(10000), 8000);
}
