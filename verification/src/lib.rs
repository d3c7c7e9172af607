//! Portfolio rebalancing for a set of brokerage and retirement accounts.
//!
//! All dollar amounts, quotes and share counts are fixed-point integers with
//! two decimal places (a value of `100` is one dollar or one share), and all
//! percentages are integers in basis points (`10_000` is 100%).  Working in
//! integers makes the allocation arithmetic exact, so the conservation
//! properties of the rebalancing algorithm are proved rather than checked at
//! run time within a floating-point tolerance.

pub mod arguments;
pub mod asset;
pub mod calc;
pub mod errors;
pub mod fixed;
pub mod holdings;
