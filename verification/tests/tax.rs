// The tax calculator and the withdrawal search.  Amounts are cents,
// rates parts per million.

use isim::ratio::Ratio;
use isim::tax::fed_cg;
use isim::tax::fed_income;
use isim::tax::fed_niit;
use isim::tax::how_much_to_sell;
use isim::tax::illinois;
use isim::tax::marginal_rate;
use isim::tax::marginal_rate_to_income;
use isim::tax::tax;
use isim::tax::SEARCH_STEP;

#[test]
fn tax_test() {
    assert_eq!(illinois(5_000_000, 7_500_000), 618_750);
    assert_eq!(fed_income(5_000_000), 262_900);
    assert_eq!(fed_cg(5_000_000, 7_500_000), 675_000);
    assert_eq!(fed_niit(5_000_000, 7_500_000), 0);
    assert_eq!(tax(5_000_000, 7_500_000), 618_750 + 262_900 + 675_000);
}

#[test]
fn illinois_test() {
    assert_eq!(illinois(0, 0), 0);
    assert_eq!(illinois(10_000, 0), 495);
    assert_eq!(illinois(0, 10_000), 495);
    assert_eq!(illinois(2_500_000, 2_500_000), 247_500);
    assert_eq!(illinois(50_100_000, 0), 2_479_950);
}

#[test]
fn fed_income_test() {
    assert_eq!(fed_income(2_000_000), 0);
    assert_eq!(fed_income(2_480_000 + 100_000), 10_000);
    assert_eq!(fed_income(5_000_000), 262_900);
    assert_eq!(fed_income(12_500_000), 1_362_400);
    assert_eq!(fed_income(25_000_000), 4_220_700);
    assert_eq!(fed_income(35_000_000), 6_620_700);
    assert_eq!(fed_income(45_000_000), 9_841_000);
    assert_eq!(fed_income(75_000_000), 20_547_300);
}

#[test]
fn fed_cg_test() {
    assert_eq!(fed_cg(0, 2_000_000), 0);
    assert_eq!(fed_cg(8_000_000, 2_000_000), 300_000);
    assert_eq!(fed_cg(40_000_000, 10_000), 1_500);
    assert_eq!(fed_cg(60_000_000, 10_000), 2_000);
    assert_eq!(fed_cg(49_000_000, 1_000_000), 99_000 + 68_000);
    assert_eq!(fed_cg(90_000_000, 0), 0);
}

#[test]
fn fed_niit_test() {
    assert_eq!(fed_niit(10_000_000, 10_000_000), 0);
    assert_eq!(fed_niit(13_000_000, 13_000_000), 38_000);
}

#[test]
fn how_much_to_sell_test() {
    assert_eq!(how_much_to_sell(18_000_000, 5_000_000, Ratio::new(1, 2)), 14_600_000);
}

#[test]
fn marginal_rate_test() {
    assert_eq!(marginal_rate(20_000_000, 1_000_000), 289_500);
    assert_eq!(marginal_rate(25_000_000, 0), 327_500);
}

#[test]
fn marginal_rate_to_income_test() {
    // The greatest income whose marginal rate is below 30%, found by
    // bisection; it may under-estimate the boundary (just below the
    // $250,000 surtax threshold) by less than the stopping width.
    let income = marginal_rate_to_income(300_000).unwrap();
    assert_eq!(income, 24_987_792);
    assert!(marginal_rate(income, 0) <= 300_000);
    assert!(300_000 <= marginal_rate(income + 10_000, 0));
    // Rates outside the searched range are rejected.
    assert_eq!(marginal_rate_to_income(1), None);
}

#[test]
fn tax_monotone_in_both_arguments() {
    // Non-decreasing in income and in gains, and the combined tax never
    // drops below the tax on either component alone.
    let incomes = [0, 10_000, 2_480_000, 5_000_000, 25_000_000, 75_000_000];
    let gains = [0, 10_000, 8_000_000, 50_000_000];
    for w in incomes.windows(2) {
        for &g in gains.iter() {
            assert!(tax(w[0], g) <= tax(w[1], g));
        }
    }
    for w in gains.windows(2) {
        for &i in incomes.iter() {
            assert!(tax(i, w[0]) <= tax(i, w[1]));
        }
    }
    for &i in incomes.iter() {
        for &g in gains.iter() {
            assert!(tax(i, g) >= tax(i, 0));
            assert!(tax(i, g) >= tax(0, g));
        }
    }
}

#[test]
fn negative_gains_are_not_taxed_as_gains() {
    // A capital loss never increases the tax, and the gains component
    // treats it as no gain.
    assert_eq!(fed_cg(50_000_000, -1_000_000), 0);
    assert!(tax(5_000_000, -1_000_000) <= tax(5_000_000, 0));
}

#[test]
fn how_much_to_sell_is_tight() {
    // The result funds the expenses net of taxes, and one search step
    // less would not (unless the no-tax lower bound already suffices).
    let cases = [
        (18_000_000i64, 5_000_000i64, Ratio::new(1, 2)),
        (9_000_000, 1_000_000, Ratio::new(3, 4)),
        (25_000_000, 0, Ratio::new(1, 10)),
        (2_000_000, 3_000_000, Ratio::new(1, 2)),
    ];
    for &(l, i, r) in cases.iter() {
        let s = how_much_to_sell(l, i, r);
        let net = |amount: i64| -> i64 {
            let g = if amount > 0 { (amount as i128 * r.num as i128 / r.den as i128) as i64 } else { 0 };
            i + amount - tax(i, g)
        };
        assert!(net(s) >= l);
        let start = if l > i { l - i } else { 0 };
        assert!(s == start || net(s - SEARCH_STEP) < l);
    }
}
