//! Tests of the per-symbol value vector and its fixed-point arithmetic.

use vapore::holdings::{AddType, ShareValues, StockInfo, StockSymbol};

fn sample_a() -> ShareValues {
    let mut v = ShareValues::new();
    v.add_stock_value(StockSymbol::BND, 500_000);
    v.add_stock_value(StockSymbol::BNDX, 200_000);
    v.add_stock_value(StockSymbol::VB, 400_000);
    v
}

fn sample_b() -> ShareValues {
    let mut v = ShareValues::new();
    v.add_stock_value(StockSymbol::BND, 123_456);
    v.add_stock_value(StockSymbol::VV, 789_012);
    v.add_stock_value(StockSymbol::VMFXX, 55);
    v.add_outside_stock_value(42);
    v
}

#[test]
fn new_is_all_zero() {
    let v = ShareValues::new();
    assert_eq!(v.total_value(), 0);
    assert_eq!(v.stock_value(StockSymbol::VV), 0);
    assert_eq!(v.outside_stock_value(), 0);
    assert_eq!(v.outside_bond_value(), 0);
}

#[test]
fn new_quote_defaults_to_one_dollar() {
    let q = ShareValues::new_quote();
    assert_eq!(q.stock_value(StockSymbol::VWO), 100);
    assert_eq!(q.stock_value(StockSymbol::VMFXX), 100);
    assert_eq!(q.outside_stock_value(), 100);
    assert_eq!(q.outside_bond_value(), 100);
}

#[test]
fn add_and_read_stock_value() {
    let mut v = ShareValues::new();
    v.add_stock_value(StockSymbol::BND, 500_000);
    assert_eq!(v.stock_value(StockSymbol::BND), 500_000);
    assert_eq!(v.stock_value(StockSymbol::VV), 0);
}

#[test]
fn other_symbol_is_ignored() {
    let mut v = ShareValues::new();
    v.add_stock_value(StockSymbol::Other("ZZZ".to_string()), 999);
    assert_eq!(v.total_value(), 0);
}

#[test]
fn total_value_sums_symbol_fields_only() {
    let mut v = sample_a();
    v.add_outside_stock_value(77);
    v.add_outside_bond_value(88);
    assert_eq!(v.total_value(), 1_100_000);
}

#[test]
fn add_is_elementwise() {
    let sum = sample_a().add(sample_b());
    assert_eq!(sum.stock_value(StockSymbol::BND), 623_456);
    assert_eq!(sum.stock_value(StockSymbol::VV), 789_012);
    assert_eq!(sum.stock_value(StockSymbol::VB), 400_000);
    assert_eq!(sum.outside_stock_value(), 42);
}

#[test]
fn subtract_is_elementwise() {
    let diff = sample_a().subtract(sample_b());
    assert_eq!(diff.stock_value(StockSymbol::BND), 376_544);
    assert_eq!(diff.stock_value(StockSymbol::VV), -789_012);
    assert_eq!(diff.stock_value(StockSymbol::VB), 400_000);
    assert_eq!(diff.outside_stock_value(), -42);
}

#[test]
fn add_then_subtract_returns_original() {
    let a = sample_a();
    let b = sample_b();
    assert_eq!(a.add(b).subtract(b), a);
}

#[test]
fn divide_by_default_quotes_is_identity() {
    let a = sample_a();
    let q = ShareValues::new_quote();
    assert_eq!(a.divide(q), a);
    let negative = ShareValues::new().subtract(a);
    assert_eq!(negative.divide(q), negative);
}

#[test]
fn divide_gives_share_counts() {
    let mut holdings = ShareValues::new();
    holdings.add_stock_value(StockSymbol::VV, 1_000_000);  // $10,000
    let mut quotes = ShareValues::new_quote();
    quotes.add_stock_value(StockSymbol::VV, 25_000);  // $250.00 a share
    let shares = holdings.divide(quotes);
    assert_eq!(shares.stock_value(StockSymbol::VV), 4_000);  // 40.00 shares
}

#[test]
fn divide_rounds_toward_zero() {
    let mut holdings = ShareValues::new();
    holdings.add_stock_value(StockSymbol::VB, 100);
    holdings.add_stock_value(StockSymbol::VO, -100);
    let mut quotes = ShareValues::new_quote();
    quotes.add_stock_value(StockSymbol::VB, 10_000);
    quotes.add_stock_value(StockSymbol::VO, 10_000);
    let shares = holdings.divide(quotes);
    assert_eq!(shares.stock_value(StockSymbol::VB), 1);
    assert_eq!(shares.stock_value(StockSymbol::VO), -1);
}

#[test]
fn percent_stock_bond_infl_exact() {
    let mut v = ShareValues::new();
    v.add_stock_value(StockSymbol::VV, 600_000);
    v.add_stock_value(StockSymbol::BND, 300_000);
    v.add_stock_value(StockSymbol::VTIP, 100_000);
    v.add_stock_value(StockSymbol::VMFXX, 55_500);  // cash is excluded
    let (stock, bond, infl) = v.percent_stock_bond_infl();
    assert_eq!(stock, 6_000);
    assert_eq!(bond, 3_000);
    assert_eq!(infl, 1_000);
}

#[test]
fn percent_counts_outside_values() {
    let mut v = ShareValues::new();
    v.add_stock_value(StockSymbol::VV, 250_000);
    v.add_outside_stock_value(250_000);
    v.add_outside_bond_value(500_000);
    let (stock, bond, infl) = v.percent_stock_bond_infl();
    assert_eq!(stock, 5_000);
    assert_eq!(bond, 5_000);
    assert_eq!(infl, 0);
}

#[test]
fn percent_of_empty_portfolio_is_zero_not_a_panic() {
    let v = ShareValues::new();
    assert_eq!(v.percent_stock_bond_infl(), (0, 0, 0));
    let mut cash_only = ShareValues::new();
    cash_only.add_stock_value(StockSymbol::VMFXX, 1_000_000);
    assert_eq!(cash_only.percent_stock_bond_infl(), (0, 0, 0));
}

#[test]
fn stockinfo_value_routed_by_add_type() {
    let mut info = StockInfo::new();
    info.add_account(123456789);
    info.add_symbol(StockSymbol::BND);
    info.add_share_price(23_450);
    info.add_shares(1_000);
    info.add_total_value(500_000);
    assert!(info.finished());

    let mut quotes = ShareValues::new_quote();
    quotes.add_stockinfo_value(info.clone(), AddType::StockPrice);
    assert_eq!(quotes.stock_value(StockSymbol::BND), 23_450);

    let mut holdings = ShareValues::new();
    holdings.add_stockinfo_value(info, AddType::HoldingValue);
    assert_eq!(holdings.stock_value(StockSymbol::BND), 500_000);
}

#[test]
fn stockinfo_builder_tracks_missing_fields() {
    let mut info = StockInfo::new();
    assert!(!info.finished());
    info.add_account(1);
    info.add_symbol(StockSymbol::VTI);
    info.add_share_price(100);
    info.add_shares(1);
    assert!(!info.finished());
    info.add_total_value(100);
    assert!(info.finished());
    let empty = StockInfo::default();
    assert!(!empty.finished());
}

#[test]
fn outside_values_are_replaced_not_accumulated() {
    let mut v = ShareValues::new();
    v.add_outside_stock_value(100);
    v.add_outside_stock_value(250);
    assert_eq!(v.outside_stock_value(), 250);
    v.add_outside_bond_value(75);
    assert_eq!(v.outside_bond_value(), 75);
}
