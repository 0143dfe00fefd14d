// Asset: a pool of money with a blended cost basis.  Money is in cents,
// rates in parts per million.

use isim::asset::Asset;
use isim::money::MONEY_CAP;
use isim::asset::AssetReturn;
use isim::ratio::Ratio;

#[test]
fn asset_new() {
    let asset = Asset::new(10000);
    assert_eq!(asset.value, 10000);
    assert_eq!(asset.cost_basis, 10000);
    assert_eq!(asset.capital_gains(), 0);
}

#[test]
fn asset_new_with_basis() {
    let asset = Asset::new_with_basis(10000, 5000);
    assert_eq!(asset.value, 10000);
    assert_eq!(asset.cost_basis, 5000);
    assert_eq!(asset.capital_gains(), 5000);
}

#[test]
fn asset_capital_gains_ratio() {
    let asset = Asset::new_with_basis(500, 100);
    assert_eq!(asset.capital_gains_ratio(), Ratio::new(4, 5));

    let asset = Asset::new_with_basis(0, 0);
    assert_eq!(asset.capital_gains_ratio(), Ratio::new(0, 1));
}

#[test]
fn asset_grow() {
    let mut asset = Asset::new(10000);
    assert_eq!(asset.grow(&AssetReturn { cg: 50_000, id: 10_000 }, 0), 100);
    assert_eq!(asset.value, 10500);
    assert_eq!(asset.cost_basis, 10000);
    assert_eq!(asset.capital_gains(), 500);
}

#[test]
fn grow_with_expense_ratio() {
    let mut asset = Asset::new(10000);
    assert_eq!(asset.grow(&AssetReturn { cg: 100_000, id: 10_000 }, 10_000), 100);
    assert_eq!(asset.value, 10890);
    assert_eq!(asset.cost_basis, 10000);
    assert_eq!(asset.capital_gains(), 890);
}

#[test]
fn asset_invest() {
    let mut asset = Asset::new(10000);
    asset.invest(5000);
    assert_eq!(asset.value, 15000);
    assert_eq!(asset.cost_basis, 15000);
    assert_eq!(asset.capital_gains(), 0);
}

#[test]
fn sell_preserving_cg_ratio() {
    let mut asset = Asset::new_with_basis(10000, 5000);
    assert_eq!(asset.capital_gains_ratio(), Ratio::new(1, 2));
    assert_eq!(asset.sell_preserving_cg_ratio(1000), 500);
    assert_eq!(asset.value, 9000);
    assert_eq!(asset.capital_gains_ratio(), Ratio::new(1, 2));

    let mut asset = Asset::new_with_basis(10000, 10000);
    assert_eq!(asset.capital_gains_ratio(), Ratio::new(0, 1));
    assert_eq!(asset.sell_preserving_cg_ratio(1000), 0);
    assert_eq!(asset.value, 9000);
    assert_eq!(asset.capital_gains_ratio(), Ratio::new(0, 1));
}

#[test]
fn invest_saturates_at_the_money_cap() {
    let mut asset = Asset::new(MONEY_CAP - 50);
    asset.invest(100);
    assert_eq!(asset.value, MONEY_CAP);
    assert_eq!(asset.cost_basis, MONEY_CAP);
}

#[test]
fn grow_cannot_lose_more_than_everything() {
    // A total loss empties the asset but the basis stays put.
    let mut asset = Asset::new_with_basis(10000, 4000);
    asset.grow(&AssetReturn { cg: -1_000_000, id: 0 }, 0);
    assert_eq!(asset.value, 0);
    assert_eq!(asset.cost_basis, 4000);
    assert_eq!(asset.capital_gains(), -4000);
}
