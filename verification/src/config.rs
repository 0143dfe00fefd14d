//! Typed configuration consumed by the simulator core.
//!
//! These are plain in-memory structures; loading them from any serialized
//! form is a collaborator's concern.  Money is in cents, rates in parts per
//! million, and percentages as exact fractions.

use vstd::prelude::*;

verus! {

use crate::money::MONEY_CAP;
use crate::money::RATE_SCALE;
use crate::ratio::Ratio;

/// A starting balance: its total value and the share held in bonds.
#[derive(Clone, Copy, Debug)]
pub struct Allocation {
    pub value: i64,
    pub bond_percent: Ratio,
}

impl Allocation {
    pub open spec fn wf(self) -> bool {
        &&& 0 <= self.value <= MONEY_CAP
        &&& self.bond_percent.is_fraction()
    }
}

/// Starting balances for the three account types, with an optional cost
/// basis for the taxable account.
#[derive(Clone, Copy, Debug)]
pub struct InitialBalance {
    pub pre_tax: Allocation,
    pub roth: Allocation,
    pub after_tax: Allocation,
    pub after_tax_cost_basis: Option<i64>,
}

impl InitialBalance {
    pub open spec fn wf(self) -> bool {
        &&& self.pre_tax.wf()
        &&& self.roth.wf()
        &&& self.after_tax.wf()
        &&& match self.after_tax_cost_basis {
            Option::Some(b) => 0 <= b <= MONEY_CAP,
            Option::None => true,
        }
    }
}

/// One year's contributions to the three account types, and the aggregate
/// bond fraction the portfolio should steer toward while contributing.
#[derive(Clone, Copy, Debug)]
pub struct YearlyContribution {
    pub pre_tax: i64,
    pub roth: i64,
    pub after_tax: i64,
    pub target_bond_percent: Ratio,
}

impl YearlyContribution {
    pub open spec fn wf(self) -> bool {
        &&& 0 <= self.pre_tax <= MONEY_CAP
        &&& 0 <= self.roth <= MONEY_CAP
        &&& 0 <= self.after_tax <= MONEY_CAP
        &&& self.target_bond_percent.is_fraction()
    }
}

/// A fixed, inflation-indexed yearly withdrawal at a target bond fraction.
#[derive(Clone, Copy, Debug)]
pub struct SimpleWithdrawal {
    pub amount: i64,
    pub bond_percent: Ratio,
}

impl SimpleWithdrawal {
    pub open spec fn wf(self) -> bool {
        &&& 0 <= self.amount <= MONEY_CAP
        &&& self.bond_percent.is_fraction()
    }
}

/// A tax-aware withdrawal phase: living expenses to fund net of taxes, the
/// birth year driving required minimum distributions, and the target bond
/// fraction.
#[derive(Clone, Copy, Debug)]
pub struct TaxAwareWithdrawal {
    pub living_expenses: i64,
    pub birth_year: i32,
    pub bond_percent: Ratio,
}

impl TaxAwareWithdrawal {
    pub open spec fn wf(self) -> bool {
        &&& 0 <= self.living_expenses <= MONEY_CAP
        &&& self.bond_percent.is_fraction()
    }
}

/// The behavior of one span of simulated years.
#[derive(Clone, Copy, Debug)]
pub enum PhaseType {
    Accumulation(YearlyContribution),
    Growth,
    SimpleWithdrawAndRebalance(SimpleWithdrawal),
    WithdrawTaxAware(TaxAwareWithdrawal),
}

impl PhaseType {
    pub open spec fn wf(self) -> bool {
        match self {
            PhaseType::Accumulation(c) => c.wf(),
            PhaseType::Growth => true,
            PhaseType::SimpleWithdrawAndRebalance(w) => w.wf(),
            PhaseType::WithdrawTaxAware(w) => w.wf(),
        }
    }
}

/// A phase and how many years it lasts.
#[derive(Clone, Copy, Debug)]
pub struct Phase {
    pub config: PhaseType,
    pub years: usize,
}

impl Phase {
    pub open spec fn wf(self) -> bool {
        self.config.wf()
    }
}

/// Which account a report column describes.
#[derive(Clone, Copy, Debug)]
pub enum AccountType {
    Total,
    PreTax,
    Roth,
    AfterTax,
}

/// Which cohort of the ensemble a report column describes.
#[derive(Clone, Copy, Debug)]
pub enum Measure {
    Median,
    Worst,
}

/// Whether a reported value is inflation-adjusted.
#[derive(Clone, Copy, Debug)]
pub enum InflationAdjustment {
    Real,
    Nominal,
}

/// One column of the report.
#[derive(Clone, Copy, Debug)]
pub enum ReportField {
    YearsElapsed,
    WorstYears,
    Value(Measure, AccountType, InflationAdjustment),
    BondPercent(AccountType),
    CapGainsPercent,
    StartingYear(Measure),
    InterestAndDividends,
    StocksSold,
    StocksBought,
    CapitalGains,
    SuccessRate,
    RequiredMinimumDistribution,
    Taxes,
    Cash,
    ExpensesDoubleCheck,
    TaxRate,
}

pub open spec fn spec_account_name(a: AccountType) -> Seq<char> {
    match a {
        AccountType::Total => "Total"@,
        AccountType::PreTax => "PreTax"@,
        AccountType::Roth => "Roth"@,
        AccountType::AfterTax => "AfterTax"@,
    }
}

pub open spec fn spec_measure_name(m: Measure) -> Seq<char> {
    match m {
        Measure::Median => "Median"@,
        Measure::Worst => "Worst"@,
    }
}

pub open spec fn spec_inflation_name(i: InflationAdjustment) -> Seq<char> {
    match i {
        InflationAdjustment::Real => "Real"@,
        InflationAdjustment::Nominal => "Nominal"@,
    }
}

fn account_name(a: &AccountType) -> (r: &'static str)
    ensures
        r@ == spec_account_name(*a),
{
    match a {
        AccountType::Total => "Total",
        AccountType::PreTax => "PreTax",
        AccountType::Roth => "Roth",
        AccountType::AfterTax => "AfterTax",
    }
}

fn measure_name(m: &Measure) -> (r: &'static str)
    ensures
        r@ == spec_measure_name(*m),
{
    match m {
        Measure::Median => "Median",
        Measure::Worst => "Worst",
    }
}

fn inflation_name(i: &InflationAdjustment) -> (r: &'static str)
    ensures
        r@ == spec_inflation_name(*i),
{
    match i {
        InflationAdjustment::Real => "Real",
        InflationAdjustment::Nominal => "Nominal",
    }
}

impl ReportField {
    /// The column heading of this report field.
    pub open spec fn spec_title(self) -> Seq<char> {
        match self {
            ReportField::YearsElapsed => "Year"@,
            ReportField::WorstYears => "Worst Years"@,
            ReportField::CapGainsPercent => "CG%"@,
            ReportField::BondPercent(a) => "Bond%,\n"@ + spec_account_name(a),
            ReportField::Value(m, a, i) => "Value(\n    "@ + spec_measure_name(m) + ",\n    "@
                + spec_account_name(a) + ",\n    "@ + spec_inflation_name(i) + ",\n)"@,
            ReportField::StartingYear(m) => "Starting\nyear of\n"@ + spec_measure_name(m),
            ReportField::InterestAndDividends => "I&D"@,
            ReportField::StocksSold => "Sold"@,
            ReportField::StocksBought => "Bought"@,
            ReportField::CapitalGains => "Cap\nGains"@,
            ReportField::SuccessRate => "Success\nrate"@,
            ReportField::RequiredMinimumDistribution => "RMD"@,
            ReportField::Taxes => "Taxes"@,
            ReportField::Cash => "Cash"@,
            ReportField::ExpensesDoubleCheck => "Calculated\nExpenses"@,
            ReportField::TaxRate => "Tax\nrate"@,
        }
    }

    pub fn title(&self) -> (r: String)
        ensures
            r@ == self.spec_title(),
    {
        match self {
            ReportField::YearsElapsed => String::from_str("Year"),
            ReportField::WorstYears => String::from_str("Worst Years"),
            ReportField::CapGainsPercent => String::from_str("CG%"),
            ReportField::BondPercent(a) => String::from_str("Bond%,\n").concat(account_name(a)),
            ReportField::Value(m, a, i) => String::from_str("Value(\n    ").concat(
                measure_name(m),
            ).concat(",\n    ").concat(account_name(a)).concat(",\n    ").concat(
                inflation_name(i),
            ).concat(",\n)"),
            ReportField::StartingYear(m) => String::from_str("Starting\nyear of\n").concat(
                measure_name(m),
            ),
            ReportField::InterestAndDividends => String::from_str("I&D"),
            ReportField::StocksSold => String::from_str("Sold"),
            ReportField::StocksBought => String::from_str("Bought"),
            ReportField::CapitalGains => String::from_str("Cap\nGains"),
            ReportField::SuccessRate => String::from_str("Success\nrate"),
            ReportField::RequiredMinimumDistribution => String::from_str("RMD"),
            ReportField::Taxes => String::from_str("Taxes"),
            ReportField::Cash => String::from_str("Cash"),
            ReportField::ExpensesDoubleCheck => String::from_str("Calculated\nExpenses"),
            ReportField::TaxRate => String::from_str("Tax\nrate"),
        }
    }
}

/// The whole input to a simulation run: starting balances, the phase
/// schedule, the yearly expense ratio (ppm), and the report layout.
#[derive(Clone, Debug)]
pub struct InitialState {
    pub initial_balance: InitialBalance,
    pub phases: Vec<Phase>,
    pub expense_ratio: i64,
    pub report: Vec<ReportField>,
}

impl InitialState {
    pub open spec fn wf(self) -> bool {
        &&& self.initial_balance.wf()
        &&& forall|i: int| 0 <= i < self.phases@.len() ==> (#[trigger] self.phases@[i]).wf()
        &&& 0 <= self.expense_ratio <= RATE_SCALE
    }
}

} // verus!
