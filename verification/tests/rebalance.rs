//! Scenario tests of the rebalance computations: the single-account target,
//! the cross-account placement walk, and the full pipeline.

use vapore::arguments::Args;
use vapore::asset::GlideEntry;
use vapore::calc::{allocate_by_risk, brokerage_calc, high_to_low_risk, retirement_calc, to_buy};
use vapore::errors::RebalanceError;
use vapore::holdings::{HoldingType, ShareValues, StockSymbol, VanguardHoldings};

fn cash_only(cents: i64) -> ShareValues {
    let mut v = ShareValues::new();
    v.add_stock_value(StockSymbol::VMFXX, cents);
    v
}

fn no_glide() -> Vec<GlideEntry> {
    Vec::new()
}

#[test]
fn brokerage_target_for_ten_thousand_at_60_40() {
    // Total stock 60%, bond 40%, $10,000 investable, no outside assets:
    // the large-cap target is 10000 * 0.6 * (2/3)/3 = $1,333.33 and the
    // international-bond target 10000 * 0.4 * (1/3) = $1,333.33.
    let args = Args::new();
    let account = brokerage_calc(ShareValues::new_quote(), cash_only(1_000_000), args).unwrap();
    assert_eq!(account.target.stock_value(StockSymbol::VV), 133_333);
    assert_eq!(account.target.stock_value(StockSymbol::VO), 133_333);
    assert_eq!(account.target.stock_value(StockSymbol::VB), 133_333);
    assert_eq!(account.target.stock_value(StockSymbol::VXUS), 133_333);
    assert_eq!(account.target.stock_value(StockSymbol::VWO), 66_666);
    assert_eq!(account.target.stock_value(StockSymbol::BNDX), 133_333);
    assert_eq!(account.target.stock_value(StockSymbol::BND), 133_333);
    assert_eq!(account.target.stock_value(StockSymbol::VTC), 133_333);
    assert_eq!(account.target.stock_value(StockSymbol::VTIP), 0);
    // All cash is deployed.
    assert_eq!(account.target.stock_value(StockSymbol::VMFXX), 0);
    // Conservation: the target total misses the investable total only by
    // the sub-cent amounts rounded away, at most one cent per symbol.
    let total = account.target.total_value();
    assert!(999_991 < total && total <= 1_000_000);
    assert_eq!(total, 999_997);
    // With default quotes the purchase column reads as dollar deltas.
    assert_eq!(
        account.sale_purchases_needed.stock_value(StockSymbol::VMFXX),
        -1_000_000
    );
    assert_eq!(
        account.sale_purchases_needed.stock_value(StockSymbol::VV),
        133_333
    );
}

#[test]
fn brokerage_rejects_invalid_split() {
    let mut args = Args::new();
    args.percent_stock_brokerage = 5_000;
    let r = brokerage_calc(ShareValues::new_quote(), cash_only(1_000_000), args);
    assert_eq!(r.err(), Some(RebalanceError::InvalidAllocation));
}

#[test]
fn walk_fills_riskiest_first() {
    // Combined target: $2,000 emerging markets, $4,000 total international.
    // A $5,000 Roth budget absorbs all the emerging markets and $3,000 of
    // the international, leaving $1,000 of international for the rest.
    let mut target = ShareValues::new();
    target.add_stock_value(StockSymbol::VWO, 200_000);
    target.add_stock_value(StockSymbol::VXUS, 400_000);
    let order = high_to_low_risk();
    let (assigned, remaining) = allocate_by_risk(&target, &order, 500_000);
    assert_eq!(remaining, 0);
    assert_eq!(assigned.stock_value(StockSymbol::VWO), 200_000);
    assert_eq!(assigned.stock_value(StockSymbol::VXUS), 300_000);
    assert_eq!(assigned.stock_value(StockSymbol::VB), 0);
    assert_eq!(assigned.total_value(), 500_000);
    assert_eq!(
        target.subtract(assigned).stock_value(StockSymbol::VXUS),
        100_000
    );
}

#[test]
fn walk_with_short_budget_leaves_remainder_zero() {
    let mut target = ShareValues::new();
    target.add_stock_value(StockSymbol::VWO, 200_000);
    let order = high_to_low_risk();
    let (assigned, remaining) = allocate_by_risk(&target, &order, 50_000);
    assert_eq!(remaining, 0);
    assert_eq!(assigned.stock_value(StockSymbol::VWO), 50_000);
}

#[test]
fn walk_with_oversized_budget_reports_leftover() {
    let mut target = ShareValues::new();
    target.add_stock_value(StockSymbol::VWO, 200_000);
    let order = high_to_low_risk();
    let (assigned, remaining) = allocate_by_risk(&target, &order, 300_000);
    assert_eq!(remaining, 100_000);
    assert_eq!(assigned.stock_value(StockSymbol::VWO), 200_000);
}

fn pooled_args() -> Args {
    let mut args = Args::new();
    args.percent_stock_retirement_option = Some(6_000);
    args
}

fn holdings_with(
    roth: Option<ShareValues>,
    trad: Option<ShareValues>,
    brok: Option<ShareValues>,
) -> VanguardHoldings {
    let mut hold = VanguardHoldings::new(ShareValues::new_quote());
    if let Some(h) = roth {
        hold.add_holding(h, HoldingType::RothIra);
    }
    if let Some(h) = trad {
        hold.add_holding(h, HoldingType::TraditionalIra);
    }
    if let Some(h) = brok {
        hold.add_holding(h, HoldingType::Brokerage);
    }
    hold
}

#[test]
fn pooled_split_conserves_each_account_total() {
    let hold = holdings_with(Some(cash_only(500_000)), Some(cash_only(1_500_000)), None);
    let (trad, roth, brok, overall) =
        retirement_calc(&hold, pooled_args(), &no_glide()).unwrap();
    let roth = roth.unwrap();
    let trad = trad.unwrap();
    assert!(brok.is_none());
    let combined = overall.unwrap();

    // Combined target over the $20,000 pool at 60/40.
    assert_eq!(combined.stock_value(StockSymbol::VWO), 133_333);
    assert_eq!(combined.stock_value(StockSymbol::VXUS), 266_666);
    assert_eq!(combined.stock_value(StockSymbol::BND), 266_666);

    // The walk hands the Roth account the riskiest assets up to its value.
    assert_eq!(roth.target.stock_value(StockSymbol::VWO), 133_333);
    assert_eq!(roth.target.stock_value(StockSymbol::VXUS), 266_666);
    assert_eq!(roth.target.stock_value(StockSymbol::VB), 100_001);
    assert_eq!(roth.target.stock_value(StockSymbol::VO), 0);
    assert_eq!(roth.target.total_value(), 500_000);

    // The traditional account keeps the rest.
    assert_eq!(trad.target.stock_value(StockSymbol::VWO), 0);
    assert_eq!(trad.target.stock_value(StockSymbol::VB), 166_665);
    assert_eq!(trad.target.stock_value(StockSymbol::VO), 266_666);
    assert_eq!(trad.target.total_value(), combined.total_value() - 500_000);

    // Purchases with default quotes are dollar deltas.
    assert_eq!(
        roth.sale_purchases_needed.stock_value(StockSymbol::VMFXX),
        -500_000
    );
    assert_eq!(
        roth.sale_purchases_needed.stock_value(StockSymbol::VWO),
        133_333
    );
}

#[test]
fn target_date_fund_is_pre_assigned_not_walked() {
    let mut roth = cash_only(300_000);
    roth.add_stock_value(StockSymbol::VTIVX, 200_000);
    let hold = holdings_with(Some(roth), Some(cash_only(1_500_000)), None);
    let (trad, roth_acct, _, overall) =
        retirement_calc(&hold, pooled_args(), &no_glide()).unwrap();
    let roth_acct = roth_acct.unwrap();
    let combined = overall.unwrap();

    // The fund stays where it is held and is carved out of the pool.
    assert_eq!(combined.stock_value(StockSymbol::VTIVX), 200_000);
    assert_eq!(combined.stock_value(StockSymbol::VWO), 120_000);
    assert_eq!(combined.stock_value(StockSymbol::VXUS), 240_000);
    assert_eq!(roth_acct.target.stock_value(StockSymbol::VTIVX), 200_000);
    assert_eq!(roth_acct.target.stock_value(StockSymbol::VWO), 120_000);
    assert_eq!(roth_acct.target.stock_value(StockSymbol::VXUS), 180_000);
    assert_eq!(roth_acct.target.total_value(), 500_000);
    assert_eq!(
        trad.unwrap().target.stock_value(StockSymbol::VTIVX),
        0
    );
}

#[test]
fn brokerage_joins_the_pool_from_the_safe_end() {
    let mut args = pooled_args();
    args.use_brokerage_retirement = true;
    let hold = holdings_with(
        Some(cash_only(500_000)),
        Some(cash_only(1_000_000)),
        Some(cash_only(500_000)),
    );
    let (trad, roth, brok, overall) = retirement_calc(&hold, args, &no_glide()).unwrap();
    let brok = brok.unwrap();
    let combined = overall.unwrap();
    assert_eq!(combined.stock_value(StockSymbol::VWO), 133_333);

    // Safest first: inflation-protected (target 0), then corporate bond,
    // then total bond until the brokerage value is covered.
    assert_eq!(brok.target.stock_value(StockSymbol::VTIP), 0);
    assert_eq!(brok.target.stock_value(StockSymbol::VTC), 266_666);
    assert_eq!(brok.target.stock_value(StockSymbol::BND), 233_334);
    assert_eq!(brok.target.stock_value(StockSymbol::VWO), 0);
    assert_eq!(brok.target.total_value(), 500_000);

    // Roth unchanged by the brokerage side; traditional keeps the rest.
    assert_eq!(roth.unwrap().target.total_value(), 500_000);
    let trad = trad.unwrap();
    assert_eq!(trad.target.stock_value(StockSymbol::BND), 33_332);
    assert_eq!(trad.target.stock_value(StockSymbol::VTC), 0);
    assert_eq!(trad.target.total_value(), combined.total_value() - 1_000_000);
}

#[test]
fn single_roth_account_is_rebalanced_directly() {
    let hold = holdings_with(Some(cash_only(1_000_000)), None, None);
    let (trad, roth, brok, overall) =
        retirement_calc(&hold, pooled_args(), &no_glide()).unwrap();
    assert!(trad.is_none());
    assert!(brok.is_none());
    assert!(overall.is_none());
    let roth = roth.unwrap();
    assert_eq!(roth.target.stock_value(StockSymbol::VV), 133_333);
    assert_eq!(roth.target.stock_value(StockSymbol::VWO), 66_666);
    assert_eq!(roth.target.stock_value(StockSymbol::VMFXX), 0);
}

#[test]
fn zero_value_roth_in_pool_is_a_mismatch_error() {
    let hold = holdings_with(Some(ShareValues::new()), Some(cash_only(1_000_000)), None);
    let r = retirement_calc(&hold, pooled_args(), &no_glide());
    assert_eq!(r.err(), Some(RebalanceError::RothTargetMismatch));
}

#[test]
fn rounding_shortfall_without_cover_is_a_leftover_error() {
    // The pooled target loses a few sub-cent amounts to rounding; a
    // traditional account too small to absorb that loss leaves part of the
    // Roth budget unassignable.
    let hold = holdings_with(Some(cash_only(500_000)), Some(cash_only(2)), None);
    let r = retirement_calc(&hold, pooled_args(), &no_glide());
    assert_eq!(r.err(), Some(RebalanceError::RothLeftoverBudget));
}

#[test]
fn zero_value_pooled_brokerage_is_a_mismatch_error() {
    let mut args = pooled_args();
    args.use_brokerage_retirement = true;
    let hold = holdings_with(
        Some(cash_only(500_000)),
        Some(cash_only(1_000_000)),
        Some(ShareValues::new()),
    );
    let r = retirement_calc(&hold, args, &no_glide());
    assert_eq!(r.err(), Some(RebalanceError::BrokerageTargetMismatch));
}

#[test]
fn invalid_retirement_percentages_are_rejected() {
    let mut args = Args::new();
    args.percent_stock_retirement_option = Some(7_000);
    args.percent_bond_retirement_option = Some(4_000);
    let hold = holdings_with(Some(cash_only(1_000)), Some(cash_only(1_000)), None);
    let r = retirement_calc(&hold, args, &no_glide());
    assert_eq!(r.err(), Some(RebalanceError::InvalidAllocation));
}

#[test]
fn missing_glide_year_is_rejected() {
    let mut args = Args::new();
    args.retirement_year_option = Some(2045);
    let hold = holdings_with(None, None, None);
    let r = retirement_calc(&hold, args, &no_glide());
    assert_eq!(r.err(), Some(RebalanceError::UnknownRetirementYear));
}

#[test]
fn glide_year_sets_the_retirement_split() {
    let glide = vec![GlideEntry {
        retirement_year: 2045,
        stock_bp: 9_000,
        bond_bp: 1_000,
        inflation_bp: 0,
    }];
    let mut args = Args::new();
    args.retirement_year_option = Some(2045);
    let hold = holdings_with(Some(cash_only(900_000)), None, None);
    let (_, roth, _, _) = retirement_calc(&hold, args, &glide).unwrap();
    // Large cap at 90% stock: 900000 * 18000 / 90000.
    assert_eq!(
        roth.unwrap().target.stock_value(StockSymbol::VV),
        180_000
    );
}

#[test]
fn explicit_percentages_override_the_glide_year() {
    let glide = vec![GlideEntry {
        retirement_year: 2045,
        stock_bp: 9_000,
        bond_bp: 1_000,
        inflation_bp: 0,
    }];
    let mut args = Args::new();
    args.retirement_year_option = Some(2045);
    args.percent_bond_retirement_option = Some(4_000);
    let hold = holdings_with(Some(cash_only(900_000)), None, None);
    let (_, roth, _, _) = retirement_calc(&hold, args, &glide).unwrap();
    // Stock falls back to 100% - 40% = 60%: 900000 * 12000 / 90000.
    assert_eq!(
        roth.unwrap().target.stock_value(StockSymbol::VV),
        120_000
    );
}

#[test]
fn to_buy_assembles_all_present_accounts() {
    let mut args = pooled_args();
    args.brokerage_cash_add = 100_000;
    let hold = holdings_with(
        Some(cash_only(500_000)),
        Some(cash_only(1_500_000)),
        Some(cash_only(900_000)),
    );
    let rebalance = to_buy(hold, args, &no_glide()).unwrap();
    assert!(rebalance.roth_ira.is_some());
    assert!(rebalance.traditional_ira.is_some());
    assert!(rebalance.retirement_target.is_some());
    // The brokerage account was not pooled, so it is rebalanced on its own
    // with the cash adjustment applied.
    let brok = rebalance.brokerage.unwrap();
    assert_eq!(brok.current.stock_value(StockSymbol::VMFXX), 1_000_000);
    assert_eq!(brok.target.stock_value(StockSymbol::VV), 133_333);
}

#[test]
fn to_buy_without_retirement_accounts_keeps_only_brokerage() {
    let hold = holdings_with(None, None, Some(cash_only(1_000_000)));
    let rebalance = to_buy(hold, Args::new(), &no_glide()).unwrap();
    assert!(rebalance.roth_ira.is_none());
    assert!(rebalance.traditional_ira.is_none());
    assert!(rebalance.retirement_target.is_none());
    assert_eq!(
        rebalance.brokerage.unwrap().target.stock_value(StockSymbol::VV),
        133_333
    );
}

#[test]
fn to_buy_propagates_brokerage_configuration_errors() {
    let mut args = Args::new();
    args.percent_bond_brokerage = 3_000;
    let hold = holdings_with(None, None, Some(cash_only(1_000_000)));
    let r = to_buy(hold, args, &no_glide());
    assert_eq!(r.err(), Some(RebalanceError::InvalidAllocation));
}

#[test]
fn cash_adjustments_shift_the_pool() {
    let mut args = pooled_args();
    args.roth_cash_add = -100_000;
    args.traditional_cash_add = 100_000;
    let hold = holdings_with(Some(cash_only(600_000)), Some(cash_only(1_400_000)), None);
    let (trad, roth, _, _) = retirement_calc(&hold, args, &no_glide()).unwrap();
    // After adjustment the pool is unchanged but the budgets moved.
    assert_eq!(roth.unwrap().target.total_value(), 500_000);
    assert_eq!(trad.unwrap().current.stock_value(StockSymbol::VMFXX), 1_500_000);
}

#[test]
fn outside_assets_reduce_matching_targets() {
    let mut args = Args::new();
    args.brokerage_us_stock_add = 90_000;  // $900 held outside
    let account = brokerage_calc(ShareValues::new_quote(), cash_only(910_000), args).unwrap();
    // Pool becomes $10,000; each US tranche gives up a third of the $900.
    assert_eq!(account.target.stock_value(StockSymbol::VV), 103_333);
    assert_eq!(account.target.stock_value(StockSymbol::VO), 103_333);
    assert_eq!(account.target.stock_value(StockSymbol::VB), 103_333);
    assert_eq!(account.target.stock_value(StockSymbol::VXUS), 133_333);
    assert_eq!(account.current.outside_stock_value(), 90_000);
    assert_eq!(account.target.outside_stock_value(), 90_000);
}
