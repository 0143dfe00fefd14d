//! Historical-bootstrap simulator for long-horizon household investment
//! trajectories.
//!
//! The simulator replays historical year-by-year market returns across a
//! rolling window of starting years, drives a configurable sequence of
//! life-cycle phases (saving, growth, withdrawal) over three tax-advantaged
//! account types, and computes capital-gains-aware taxes on withdrawals.
//!
//! All quantities are exact integers: money is counted in cents, rates of
//! return and inflation in parts per million, and fractions (asset
//! allocations, gains ratios) as exact rationals.  This keeps every step of
//! the arithmetic, and the invariants stated over it, fully checkable.

pub mod account;
pub mod asset;
pub mod config;
pub mod histret;
pub mod instance;
pub mod money;
pub mod ratio;
pub mod rmd;
pub mod scenario;
pub mod tax;
