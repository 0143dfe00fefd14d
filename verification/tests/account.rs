// Account: two assets, the goal-allocation buy/sell logic, and
// rebalancing.  Money is in cents, rates in parts per million.

use isim::account::Account;
use isim::asset::AssetReturn;
use isim::config::Allocation;
use isim::ratio::Ratio;

#[test]
fn account_new() {
    let account = Account::new(300, 400);
    assert_eq!(account.stocks.value, 300);
    assert_eq!(account.bonds.value, 400);
    assert_eq!(account.bond_fraction(), Ratio::new(4, 7));
}

#[test]
fn account_new_with_basis() {
    let account = Account::new_with_basis(300, 100, 400, 100);
    assert_eq!(account.stocks.value, 300);
    assert_eq!(account.stocks.capital_gains(), 200);
    assert_eq!(account.bonds.value, 400);
    assert_eq!(account.bonds.capital_gains(), 300);
    assert_eq!(account.bond_fraction(), Ratio::new(4, 7));
}

#[test]
fn from_allocation() {
    let account = Account::from_allocation(&Allocation {
        value: 1000,
        bond_percent: Ratio::new(20, 100),
    });
    assert_eq!(account.stocks.value, 800);
    assert_eq!(account.bonds.value, 200);
}

#[test]
fn from_allocation_and_basis() {
    let account = Account::from_allocation_and_basis(
        &Allocation { value: 1000, bond_percent: Ratio::new(20, 100) },
        400,
    );
    assert_eq!(account.stocks.value, 800);
    assert_eq!(account.stocks.capital_gains(), 400);
    assert_eq!(account.bonds.value, 200);
    assert_eq!(account.bonds.capital_gains(), 0);
}

#[test]
fn account_grow() {
    let mut account = Account::new_with_basis(10000, 10000, 10000, 10000);
    let id = account.grow(
        &AssetReturn { cg: 10_000, id: 20_000 },
        &AssetReturn { cg: 30_000, id: 40_000 },
        0,
    );
    assert_eq!(id, 600);
    assert_eq!(account.value(), 20400);
    assert_eq!(account.capital_gains(), 400);
}

#[test]
fn grow_expense_ratio() {
    let mut account = Account::new_with_basis(10000, 10000, 10000, 10000);
    let id = account.grow(
        &AssetReturn { cg: 10_000, id: 20_000 },
        &AssetReturn { cg: 30_000, id: 40_000 },
        10_000,
    );
    assert_eq!(id, 600);
    assert_eq!(account.value(), 20196);
    assert_eq!(account.capital_gains(), 196);
}

#[test]
fn account_grow_and_reinvest() {
    let mut account = Account::new_with_basis(10000, 10000, 10000, 10000);
    let id = account.grow_and_reinvest(
        &AssetReturn { cg: 10_000, id: 20_000 },
        &AssetReturn { cg: 30_000, id: 40_000 },
        0,
    );
    assert_eq!(id, 600);
    assert_eq!(account.value(), 21000);
    assert_eq!(account.capital_gains(), 400);
}

#[test]
fn grow_and_reinvest_expense_ratio() {
    let mut account = Account::new_with_basis(10000, 10000, 10000, 10000);
    let id = account.grow_and_reinvest(
        &AssetReturn { cg: 10_000, id: 20_000 },
        &AssetReturn { cg: 30_000, id: 40_000 },
        10_000,
    );
    assert_eq!(id, 600);
    assert_eq!(account.value(), 20196 + 600);
    assert_eq!(account.capital_gains(), 196);
}

#[test]
fn account_invest() {
    let mut account = Account::new_with_basis(300, 100, 400, 100);
    let cg = account.capital_gains();
    account.invest(100, 200);
    assert_eq!(account.value(), 1000);
    assert_eq!(account.capital_gains(), cg);
}

#[test]
fn invest_preserving_allocation() {
    let mut account = Account::new_with_basis(300, 100, 400, 100);
    let cg = account.capital_gains();
    let bf = account.bond_fraction();
    account.invest_preserving_allocation(700);
    assert_eq!(account.value(), 1400);
    assert_eq!(account.capital_gains(), cg);
    assert_eq!(account.bond_fraction(), bf);
}

#[test]
fn invest_allocation() {
    let mut account = Account::new_with_basis(10000, 1700, 10000, 2300);
    let cg = account.capital_gains();
    account.invest_allocation(500, Ratio::new(2, 10));
    assert_eq!(account.value(), 20500);
    assert_eq!(account.stocks.value, 10400);
    assert_eq!(account.bonds.value, 10100);
    assert_eq!(account.capital_gains(), cg);
}

#[test]
fn sell_preserving_allocation() {
    let mut account = Account::new_with_basis(8000, 4000, 2000, 2000);
    let bf = account.bond_fraction();
    assert_eq!(bf, Ratio::new(20, 100));
    let initial_cg = account.capital_gains();
    assert_eq!(initial_cg, 4000);
    let realized_cg = account.sell_preserving_allocation(1000);
    assert_eq!(realized_cg, 400);
    assert_eq!(account.bond_fraction(), bf);
    assert_eq!(account.value(), 9000);
    assert_eq!(account.stocks.value, 7200);
    assert_eq!(account.bonds.value, 1800);
    assert_eq!(account.capital_gains(), initial_cg - realized_cg);
}

#[test]
fn sell_stocks_first() {
    let mut account = Account::new(10000, 10000);
    account.sell_stocks_first(5000);
    assert_eq!(account.stocks.value, 5000);
    assert_eq!(account.bonds.value, 10000);
    account.sell_stocks_first(10000);
    assert_eq!(account.stocks.value, 0);
    assert_eq!(account.bonds.value, 5000);
}

#[test]
fn sell_bonds_first() {
    let mut account = Account::new(10000, 10000);
    account.sell_bonds_first(5000);
    assert_eq!(account.stocks.value, 10000);
    assert_eq!(account.bonds.value, 5000);
    account.sell_bonds_first(10000);
    assert_eq!(account.stocks.value, 5000);
    assert_eq!(account.bonds.value, 0);
}

#[test]
fn sell_with_goal_allocation() {
    let mut account = Account::new_with_basis(10000, 5000, 10000, 9000);
    let cg = account.capital_gains();
    let realized_cg = account.sell_with_goal_allocation(2000, Ratio::new(5, 10));
    assert_eq!(account.value(), 18000);
    assert_eq!(account.capital_gains(), cg - realized_cg);
    assert_eq!(account.bond_fraction(), Ratio::new(5, 10));
    assert_eq!(realized_cg, 600);
}

#[test]
fn sell_with_goal_allocation_all_stocks() {
    let mut account = Account::new_with_basis(10000, 5000, 10000, 9000);
    let cg = account.capital_gains();
    let realized_cg = account.sell_with_goal_allocation(2000, Ratio::new(100, 100));
    assert_eq!(account.value(), 18000);
    assert_eq!(account.capital_gains(), cg - realized_cg);
    assert_eq!(account.bond_fraction(), Ratio::new(100, 180));
    assert_eq!(realized_cg, 1000);
}

#[test]
fn sell_with_goal_allocation_all_bonds() {
    let mut account = Account::new_with_basis(10000, 5000, 10000, 9000);
    let cg = account.capital_gains();
    let realized_cg = account.sell_with_goal_allocation(2000, Ratio::new(0, 100));
    assert_eq!(account.value(), 18000);
    assert_eq!(account.capital_gains(), cg - realized_cg);
    assert_eq!(account.bond_fraction(), Ratio::new(80, 180));
    assert_eq!(realized_cg, 200);
}

#[test]
fn rebalance_to_stocks() {
    let mut account = Account::new_with_basis(10000, 5000, 10000, 9000);
    let orig_value = account.value();
    let cg = account.capital_gains();
    let realized_cg = account.rebalance(Ratio::new(2, 10));
    assert_eq!(account.value(), orig_value);
    assert_eq!(account.capital_gains(), cg - realized_cg);
    assert_eq!(account.bond_fraction(), Ratio::new(2, 10));
    assert_eq!(realized_cg, 600);
}

#[test]
fn rebalance_to_bonds() {
    let mut account = Account::new_with_basis(10000, 5000, 10000, 9000);
    let orig_value = account.value();
    let cg = account.capital_gains();
    let realized_cg = account.rebalance(Ratio::new(8, 10));
    assert_eq!(account.value(), orig_value);
    assert_eq!(account.capital_gains(), cg - realized_cg);
    assert_eq!(account.bond_fraction(), Ratio::new(8, 10));
    assert_eq!(realized_cg, 3000);
}

#[test]
fn invest_with_goal_allocation() {
    let mut account = Account::new(10000, 10000);
    account.invest_with_goal_allocation(1000, Ratio::new(5, 10));
    assert_eq!(account.value(), 21000);
    assert_eq!(account.stocks.value, 10500);
    assert_eq!(account.bonds.value, 10500);
}

#[test]
fn invest_with_goal_allocation_all_stocks() {
    let mut account = Account::new(10000, 10000);
    account.invest_with_goal_allocation(1000, Ratio::new(2, 10));
    assert_eq!(account.value(), 21000);
    assert_eq!(account.stocks.value, 11000);
    assert_eq!(account.bonds.value, 10000);
}

#[test]
fn invest_with_goal_allocation_all_bonds() {
    let mut account = Account::new(10000, 10000);
    account.invest_with_goal_allocation(1000, Ratio::new(8, 10));
    assert_eq!(account.value(), 21000);
    assert_eq!(account.stocks.value, 10000);
    assert_eq!(account.bonds.value, 11000);
}

#[test]
fn account_capital_gains_ratio() {
    let account = Account::new_with_basis(0, 0, 0, 0);
    assert_eq!(account.capital_gains_fraction(), Ratio::new(0, 1));

    let account = Account::new_with_basis(1000, 0, 1000, 1000);
    assert_eq!(account.capital_gains_fraction(), Ratio::new(1, 2));
}
