//! One year of historical market data.
//!
//! The record an instance consumes for one simulated year: total-return
//! components for stocks and two bond series, and the year's inflation.
//! The datasets themselves are immutable lookup inputs supplied by the
//! caller.

use vstd::prelude::*;

verus! {

use crate::asset::AssetReturn;
use crate::money::RATE_CAP;
use crate::money::RATE_SCALE;

/// Returns and inflation for one calendar year, rates in parts per
/// million.
#[derive(Clone, Copy, Debug)]
pub struct HistoricalYear {
    pub year: i32,
    pub stocks: AssetReturn,
    pub tbonds: AssetReturn,
    pub aaabonds: AssetReturn,
    pub inflation: i64,
}

impl HistoricalYear {
    pub open spec fn wf(self) -> bool {
        &&& self.stocks.wf()
        &&& self.tbonds.wf()
        &&& self.aaabonds.wf()
        &&& -RATE_SCALE <= self.inflation <= RATE_CAP
    }
}

} // verus!
