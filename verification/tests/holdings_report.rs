//! Tests of the report aggregate, the rebalance aggregate and the
//! end-of-year reconstruction.

use vapore::arguments::Args;
use vapore::holdings::{
    AccountHoldings, HoldingType, ShareValues, StockSymbol, TradeDate, Transaction,
    VanguardHoldings, VanguardRebalance,
};

#[test]
fn holdings_start_with_only_quotes() {
    let hold = VanguardHoldings::new(ShareValues::new_quote());
    assert!(hold.brokerage_holdings().is_none());
    assert!(hold.traditional_ira_holdings().is_none());
    assert!(hold.roth_ira_holdings().is_none());
    assert_eq!(hold.stock_quotes(), ShareValues::new_quote());
}

#[test]
fn add_holding_routes_by_account_type() {
    let mut hold = VanguardHoldings::new(ShareValues::new_quote());
    let mut roth = ShareValues::new();
    roth.add_stock_value(StockSymbol::VV, 100);
    hold.add_holding(roth, HoldingType::RothIra);
    let mut brok = ShareValues::new();
    brok.add_stock_value(StockSymbol::BND, 200);
    hold.add_holding(brok, HoldingType::Brokerage);
    assert_eq!(hold.roth_ira_holdings(), Some(roth));
    assert_eq!(hold.brokerage_holdings(), Some(brok));
    assert!(hold.traditional_ira_holdings().is_none());
}

#[test]
fn trade_date_ordering() {
    let d = TradeDate { year: 2023, month: 12, day: 31 };
    assert!(TradeDate { year: 2024, month: 1, day: 1 }.is_after(&d));
    assert!(TradeDate { year: 2023, month: 12, day: 31 }.is_after(&TradeDate {
        year: 2023,
        month: 12,
        day: 30
    }));
    assert!(!d.is_after(&d));
    assert!(!TradeDate { year: 2023, month: 11, day: 30 }.is_after(&d));
}

fn cutoff() -> TradeDate {
    TradeDate { year: 2023, month: 12, day: 31 }
}

#[test]
fn eoy_reconstruction_undoes_deltas_after_the_cutoff() {
    let mut hold = VanguardHoldings::new(ShareValues::new_quote());
    let mut shares = ShareValues::new();
    shares.add_stock_value(StockSymbol::BND, 1_000);
    shares.add_stock_value(StockSymbol::VV, 500);
    hold.set_traditional_shares(shares);
    hold.add_transaction(Transaction {
        account_number: 1,
        trade_date: TradeDate { year: 2024, month: 1, day: 5 },
        symbol: StockSymbol::BND,
        shares: 200,
    });
    hold.add_transaction(Transaction {
        account_number: 1,
        trade_date: TradeDate { year: 2023, month: 6, day: 1 },
        symbol: StockSymbol::VV,
        shares: 300,
    });
    let eoy = hold.eoy_traditional_holdings(cutoff()).unwrap();
    // The January purchase is undone; the June one predates the cutoff.
    assert_eq!(eoy.stock_value(StockSymbol::BND), 800);
    assert_eq!(eoy.stock_value(StockSymbol::VV), 500);
}

#[test]
fn eoy_reconstruction_skips_unsupported_symbols() {
    let mut hold = VanguardHoldings::new(ShareValues::new_quote());
    hold.set_traditional_shares(ShareValues::new());
    hold.add_transaction(Transaction {
        account_number: 1,
        trade_date: TradeDate { year: 2024, month: 2, day: 2 },
        symbol: StockSymbol::Other("AAPL".to_string()),
        shares: 100,
    });
    let eoy = hold.eoy_traditional_holdings(cutoff()).unwrap();
    assert_eq!(eoy, ShareValues::new());
}

#[test]
fn eoy_reconstruction_needs_shares_and_transactions() {
    let mut hold = VanguardHoldings::new(ShareValues::new_quote());
    assert!(hold.eoy_traditional_holdings(cutoff()).is_none());
    hold.set_traditional_shares(ShareValues::new());
    assert!(hold.eoy_traditional_holdings(cutoff()).is_none());
}

#[test]
fn rebalance_aggregate_is_assembled_per_account() {
    let current = ShareValues::new();
    let target = ShareValues::new();
    let purchase = ShareValues::new();
    let account = AccountHoldings::new(current, target, purchase);
    let mut rebalance = VanguardRebalance::new();
    assert!(rebalance.brokerage.is_none());
    rebalance.add_account_holdings(account, HoldingType::TraditionalIra);
    assert_eq!(rebalance.traditional_ira, Some(account));
    assert!(rebalance.roth_ira.is_none());
    rebalance.add_retirement_target(ShareValues::new_quote());
    assert_eq!(rebalance.retirement_target, Some(ShareValues::new_quote()));
    let empty = VanguardRebalance::default();
    assert!(empty.retirement_target.is_none());
}

#[test]
fn account_holdings_keeps_its_three_vectors() {
    let mut current = ShareValues::new();
    current.add_stock_value(StockSymbol::VB, 10);
    let mut target = ShareValues::new();
    target.add_stock_value(StockSymbol::VB, 30);
    let purchase = target.subtract(current).divide(ShareValues::new_quote());
    let account = AccountHoldings::new(current, target, purchase);
    assert_eq!(account.current.stock_value(StockSymbol::VB), 10);
    assert_eq!(account.target.stock_value(StockSymbol::VB), 30);
    assert_eq!(account.sale_purchases_needed.stock_value(StockSymbol::VB), 20);
}

#[test]
fn default_args_match_the_command_line_defaults() {
    let args = Args::new();
    assert_eq!(args.percent_stock_brokerage, 6_000);
    assert_eq!(args.percent_bond_brokerage, 4_000);
    assert_eq!(args.brokerage_cash_add, 0);
    assert!(args.retirement_year_option.is_none());
    assert!(!args.use_brokerage_retirement);
    let d = Args::default();
    assert_eq!(d.roth_cash_add, 0);
}
