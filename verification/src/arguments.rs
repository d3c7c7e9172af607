//! Configuration for one rebalance run, handed to the computation as plain
//! values after whatever command-line or file handling produced it.

use vstd::prelude::*;

use crate::fixed::VALUE_LIMIT;

verus! {

/// Configuration for one rebalance run.
///
/// Percentages are in basis points (`10_000` is 100%); cash adjustments and
/// outside-holding values are fixed-point dollars.  Cash adjustments are
/// signed (a withdrawal is negative); outside holdings are amounts held and
/// therefore nonnegative.
#[derive(Clone, Copy, Debug)]
pub struct Args {
    pub retirement_year_option: Option<i32>,
    pub percent_stock_brokerage: i64,
    pub percent_bond_brokerage: i64,
    pub percent_stock_retirement_option: Option<i64>,
    pub percent_bond_retirement_option: Option<i64>,
    pub brokerage_cash_add: i64,
    pub brokerage_us_stock_add: i64,
    pub brokerage_us_bond_add: i64,
    pub brokerage_int_stock_add: i64,
    pub brokerage_int_bond_add: i64,
    pub traditional_cash_add: i64,
    pub traditional_us_stock_add: i64,
    pub traditional_us_bond_add: i64,
    pub traditional_int_stock_add: i64,
    pub traditional_int_bond_add: i64,
    pub roth_cash_add: i64,
    pub roth_us_stock_add: i64,
    pub roth_us_bond_add: i64,
    pub roth_int_stock_add: i64,
    pub roth_int_bond_add: i64,
    pub use_brokerage_retirement: bool,
}

impl Args {
    /// Bounds under which every arithmetic step of a rebalance run fits in
    /// 64 bits: outside holdings are nonnegative and no larger than
    /// [`VALUE_LIMIT`], cash adjustments no larger in magnitude, and
    /// percentages within ten times one hundred percent.
    pub open spec fn wf(self) -> bool {
        &&& -VALUE_LIMIT <= self.brokerage_cash_add <= VALUE_LIMIT
        &&& -VALUE_LIMIT <= self.traditional_cash_add <= VALUE_LIMIT
        &&& -VALUE_LIMIT <= self.roth_cash_add <= VALUE_LIMIT
        &&& 0 <= self.brokerage_us_stock_add <= VALUE_LIMIT
        &&& 0 <= self.brokerage_us_bond_add <= VALUE_LIMIT
        &&& 0 <= self.brokerage_int_stock_add <= VALUE_LIMIT
        &&& 0 <= self.brokerage_int_bond_add <= VALUE_LIMIT
        &&& 0 <= self.traditional_us_stock_add <= VALUE_LIMIT
        &&& 0 <= self.traditional_us_bond_add <= VALUE_LIMIT
        &&& 0 <= self.traditional_int_stock_add <= VALUE_LIMIT
        &&& 0 <= self.traditional_int_bond_add <= VALUE_LIMIT
        &&& 0 <= self.roth_us_stock_add <= VALUE_LIMIT
        &&& 0 <= self.roth_us_bond_add <= VALUE_LIMIT
        &&& 0 <= self.roth_int_stock_add <= VALUE_LIMIT
        &&& 0 <= self.roth_int_bond_add <= VALUE_LIMIT
        &&& -100_000 <= self.percent_stock_brokerage <= 100_000
        &&& -100_000 <= self.percent_bond_brokerage <= 100_000
        &&& (self.percent_stock_retirement_option matches Some(p) ==> -100_000 <= p <= 100_000)
        &&& (self.percent_bond_retirement_option matches Some(p) ==> -100_000 <= p <= 100_000)
    }

    /// The default configuration: the 60/40 brokerage split and no
    /// adjustments.
    pub open spec fn default_spec() -> Args {
        Args {
            retirement_year_option: None,
            percent_stock_brokerage: 6000i64,
            percent_bond_brokerage: 4000i64,
            percent_stock_retirement_option: None,
            percent_bond_retirement_option: None,
            brokerage_cash_add: 0i64,
            brokerage_us_stock_add: 0i64,
            brokerage_us_bond_add: 0i64,
            brokerage_int_stock_add: 0i64,
            brokerage_int_bond_add: 0i64,
            traditional_cash_add: 0i64,
            traditional_us_stock_add: 0i64,
            traditional_us_bond_add: 0i64,
            traditional_int_stock_add: 0i64,
            traditional_int_bond_add: 0i64,
            roth_cash_add: 0i64,
            roth_us_stock_add: 0i64,
            roth_us_bond_add: 0i64,
            roth_int_stock_add: 0i64,
            roth_int_bond_add: 0i64,
            use_brokerage_retirement: false,
        }
    }

    /// The default configuration.
    pub fn new() -> (r: Self)
        ensures
            r == Self::default_spec(),
            r.wf(),
    {
        Args {
            retirement_year_option: None,
            percent_stock_brokerage: 6000,
            percent_bond_brokerage: 4000,
            percent_stock_retirement_option: None,
            percent_bond_retirement_option: None,
            brokerage_cash_add: 0,
            brokerage_us_stock_add: 0,
            brokerage_us_bond_add: 0,
            brokerage_int_stock_add: 0,
            brokerage_int_bond_add: 0,
            traditional_cash_add: 0,
            traditional_us_stock_add: 0,
            traditional_us_bond_add: 0,
            traditional_int_stock_add: 0,
            traditional_int_bond_add: 0,
            roth_cash_add: 0,
            roth_us_stock_add: 0,
            roth_us_bond_add: 0,
            roth_int_stock_add: 0,
            roth_int_bond_add: 0,
            use_brokerage_retirement: false,
        }
    }
}

impl Default for Args {
    /// Same as [`Args::new`].
    fn default() -> (r: Self)
        ensures
            r == Self::default_spec(),
    {
        Self::new()
    }
}

} // verus!
