// The ensemble driver: end-to-end years, cohort aging, ranking, and the
// report headings.

use isim::account::Account;
use isim::asset::AssetReturn;
use isim::config::AccountType;
use isim::config::Allocation;
use isim::config::InflationAdjustment;
use isim::config::InitialBalance;
use isim::config::InitialState;
use isim::config::Measure;
use isim::config::Phase;
use isim::config::PhaseType;
use isim::config::ReportField;
use isim::config::YearlyContribution;
use isim::histret::HistoricalYear;
use isim::instance::Instance;
use isim::instance::ValueByAccount;
use isim::ratio::Ratio;
use isim::scenario::Scenario;

fn year(y: i32, stock_cg: i64, stock_id: i64, bond_cg: i64, bond_id: i64) -> HistoricalYear {
    HistoricalYear {
        year: y,
        stocks: AssetReturn { cg: stock_cg, id: stock_id },
        tbonds: AssetReturn { cg: bond_cg, id: bond_id },
        aaabonds: AssetReturn { cg: 0, id: 0 },
        inflation: 0,
    }
}

fn balanced_start(value: i64) -> InitialBalance {
    InitialBalance {
        pre_tax: Allocation { value, bond_percent: Ratio::new(50, 100) },
        roth: Allocation { value, bond_percent: Ratio::new(50, 100) },
        after_tax: Allocation { value, bond_percent: Ratio::new(50, 100) },
        after_tax_cost_basis: Some(value),
    }
}

#[test]
fn growth_year_end_to_end() {
    // Three accounts, each $100 of stocks at basis $100 and $100 of bonds
    // at basis $100; one year of growth at stock (cg 1%, dividend 2%) and
    // bond (cg 3%, coupon 4%), no expense ratio.  Growth alone brings an
    // account to $204; with dividends reinvested, to $210; the unrealized
    // gain is $4.
    let mut account = Account::new_with_basis(10000, 10000, 10000, 10000);
    let s = AssetReturn { cg: 10_000, id: 20_000 };
    let b = AssetReturn { cg: 30_000, id: 40_000 };
    account.grow(&s, &b, 0);
    assert_eq!(account.value(), 20400);

    let mut instance = Instance::new(
        0,
        Account::new_with_basis(10000, 10000, 10000, 10000),
        Account::new_with_basis(10000, 10000, 10000, 10000),
        Account::new_with_basis(10000, 10000, 10000, 10000),
        0,
    );
    let record = HistoricalYear {
        year: 0,
        stocks: s,
        tbonds: b,
        aaabonds: AssetReturn { cg: 0, id: 0 },
        inflation: 0,
    };
    instance.grow_and_reinvest(&record, 0);
    assert_eq!(
        instance.value_by_account(),
        ValueByAccount { pre_tax: 21000, roth: 21000, after_tax: 21000 }
    );
    assert_eq!(instance.capital_gains(), 400);
}

#[test]
fn accumulation_then_growth_leaves_gains() {
    // An ensemble over a three-year dataset with positive stock returns,
    // run through accumulation and then growth: the earliest cohort is
    // the only survivor, and its taxable basis sits below its market
    // value.
    let history = vec![
        year(1928, 100_000, 0, 0, 0),
        year(1929, 100_000, 0, 0, 0),
        year(1930, 100_000, 0, 0, 0),
    ];
    let is = InitialState {
        initial_balance: InitialBalance {
            pre_tax: Allocation { value: 0, bond_percent: Ratio::new(0, 100) },
            roth: Allocation { value: 0, bond_percent: Ratio::new(0, 100) },
            after_tax: Allocation { value: 10000, bond_percent: Ratio::new(0, 100) },
            after_tax_cost_basis: Some(10000),
        },
        phases: vec![
            Phase {
                config: PhaseType::Accumulation(YearlyContribution {
                    pre_tax: 0,
                    roth: 0,
                    after_tax: 0,
                    target_bond_percent: Ratio::new(0, 100),
                }),
                years: 1,
            },
            Phase { config: PhaseType::Growth, years: 2 },
        ],
        expense_ratio: 0,
        report: Vec::new(),
    };
    let mut scenario = Scenario::new(&is, &history);
    assert_eq!(scenario.instances.len(), 3);
    scenario.run();
    assert_eq!(scenario.years_elapsed(), 3);
    assert_eq!(scenario.length_years(), 3);
    assert_eq!(scenario.instances.len(), 1);
    let survivor = scenario.median_instance();
    assert_eq!(survivor.start(), 0);
    // $100 at +10% a year for three years, against a $100 basis.
    assert_eq!(survivor.value(), 13310);
    assert_eq!(survivor.capital_gains(), 3310);
    assert_eq!(scenario.success_ratio(), Ratio::new(1, 1));
}

#[test]
fn final_cohort_ages_out_after_one_year() {
    // Over a dataset of length two, the cohort starting in the final year
    // simulates exactly one year: present after the first advance, gone
    // after the second.
    let history = vec![year(2019, 0, 0, 0, 0), year(2020, 0, 0, 0, 0)];
    let is = InitialState {
        initial_balance: balanced_start(10000),
        phases: vec![Phase { config: PhaseType::Growth, years: 2 }],
        expense_ratio: 0,
        report: Vec::new(),
    };
    let mut scenario = Scenario::new(&is, &history);
    assert_eq!(scenario.instances.len(), 2);
    scenario.next(0);
    assert!(scenario.instances.iter().any(|p| p.0 == 1));
    assert!(scenario.instances.iter().any(|p| p.0 == 0));
    scenario.next(0);
    assert!(!scenario.instances.iter().any(|p| p.0 == 1));
    assert!(scenario.instances.iter().any(|p| p.0 == 0));
    assert_eq!(scenario.instances.len(), 1);
}

#[test]
fn worst_starting_years_reads_the_ranking() {
    let history = vec![
        year(1928, 0, 0, 0, 0),
        year(1929, 0, 0, 0, 0),
        year(1930, 0, 0, 0, 0),
    ];
    let is = InitialState {
        initial_balance: balanced_start(10000),
        phases: vec![Phase { config: PhaseType::Growth, years: 1 }],
        expense_ratio: 0,
        report: Vec::new(),
    };
    let mut scenario = Scenario::new(&is, &history);
    assert_eq!(scenario.worst_starting_years(), [1928, 1929, 1930]);
    scenario.next(0);
    // Flat markets: the ranking is stable, so the order is unchanged.
    assert_eq!(scenario.worst_starting_years(), [1928, 1929, 1930]);
    assert_eq!(scenario.worst_instance().start(), 0);
}

#[test]
fn report_field_titles() {
    assert_eq!(ReportField::YearsElapsed.title(), "Year");
    assert_eq!(ReportField::SuccessRate.title(), "Success\nrate");
    assert_eq!(ReportField::BondPercent(AccountType::PreTax).title(), "Bond%,\nPreTax");
    assert_eq!(
        ReportField::Value(Measure::Median, AccountType::Total, InflationAdjustment::Real).title(),
        "Value(\n    Median,\n    Total,\n    Real,\n)"
    );
    assert_eq!(ReportField::StartingYear(Measure::Worst).title(), "Starting\nyear of\nWorst");
}
