//! The rebalancing computations: the risk-ordered placement walk, the
//! per-account and cross-account target calculations, and the required
//! minimum distribution.

use vstd::prelude::*;

use crate::arguments::Args;
use crate::asset::{glide_lookup, Allocations, GlideEntry, SubAllocations};
use crate::errors::RebalanceError;
use crate::fixed::{FIXED_ONE, PCT_ONE, TOTAL_LIMIT, VALUE_LIMIT};
use crate::holdings::{
    AccountHoldings, HoldingType, ShareValues, StockSymbol, VanguardHoldings, VanguardRebalance,
};

verus! {

/// The placement order: riskiest (highest expected growth) first.  The
/// blended target-date fund, the total-domestic fund and cash take no part
/// in the walk; the target-date fund is pre-assigned to the accounts that
/// already hold it.
pub open spec fn high_to_low_risk_seq() -> Seq<StockSymbol> {
    seq![
        StockSymbol::VWO,
        StockSymbol::VXUS,
        StockSymbol::VB,
        StockSymbol::VO,
        StockSymbol::VV,
        StockSymbol::BNDX,
        StockSymbol::BND,
        StockSymbol::VTC,
        StockSymbol::VTIP,
    ]
}

/// The placement order reversed: safest first, used for the brokerage side
/// of the pool so the riskiest assets stay out of the taxable account.
pub open spec fn low_to_high_risk_seq() -> Seq<StockSymbol> {
    seq![
        StockSymbol::VTIP,
        StockSymbol::VTC,
        StockSymbol::BND,
        StockSymbol::BNDX,
        StockSymbol::VV,
        StockSymbol::VO,
        StockSymbol::VB,
        StockSymbol::VXUS,
        StockSymbol::VWO,
    ]
}

/// The riskiest-first placement order as a vector.
pub fn high_to_low_risk() -> (r: Vec<StockSymbol>)
    ensures
        r@ == high_to_low_risk_seq(),
{
    let mut v: Vec<StockSymbol> = Vec::new();
    v.push(StockSymbol::VWO);
    v.push(StockSymbol::VXUS);
    v.push(StockSymbol::VB);
    v.push(StockSymbol::VO);
    v.push(StockSymbol::VV);
    v.push(StockSymbol::BNDX);
    v.push(StockSymbol::BND);
    v.push(StockSymbol::VTC);
    v.push(StockSymbol::VTIP);
    proof {
        assert(v@ =~= high_to_low_risk_seq());
    }
    v
}

/// The safest-first placement order as a vector.
pub fn low_to_high_risk() -> (r: Vec<StockSymbol>)
    ensures
        r@ == low_to_high_risk_seq(),
{
    let mut v: Vec<StockSymbol> = Vec::new();
    v.push(StockSymbol::VTIP);
    v.push(StockSymbol::VTC);
    v.push(StockSymbol::BND);
    v.push(StockSymbol::BNDX);
    v.push(StockSymbol::VV);
    v.push(StockSymbol::VO);
    v.push(StockSymbol::VB);
    v.push(StockSymbol::VXUS);
    v.push(StockSymbol::VWO);
    proof {
        assert(v@ =~= low_to_high_risk_seq());
    }
    v
}

/// The riskiest-first order names nine distinct supported symbols.
pub proof fn lemma_high_to_low_risk_wf()
    ensures
        high_to_low_risk_seq().no_duplicates(),
        high_to_low_risk_seq().len() == 9,
        forall|j: int|
            0 <= j < high_to_low_risk_seq().len() ==> (#[trigger] high_to_low_risk_seq()[j]).is_supported(),
{
}

/// The safest-first order names nine distinct supported symbols.
pub proof fn lemma_low_to_high_risk_wf()
    ensures
        low_to_high_risk_seq().no_duplicates(),
        low_to_high_risk_seq().len() == 9,
        forall|j: int|
            0 <= j < low_to_high_risk_seq().len() ==> (#[trigger] low_to_high_risk_seq()[j]).is_supported(),
{
}

/// The greedy placement walk: each symbol of `order` in turn is assigned
/// the smaller of its target value and the remaining budget, until the
/// budget reaches zero or the order is exhausted.  Returns the assignment
/// accumulated onto `acc` and the remaining budget.
pub open spec fn walk_spec(
    target: ShareValues,
    order: Seq<StockSymbol>,
    acc: ShareValues,
    budget: int,
) -> (ShareValues, int)
    decreases order.len(),
{
    if order.len() == 0 {
        (acc, budget)
    } else {
        let sym = order[0];
        let v = vstd::math::min(target.value_of(sym), budget);
        let next = acc.updated(sym, v as i64);
        let rem = budget - v;
        if rem <= 0 {
            (next, rem)
        } else {
            walk_spec(target, order.drop_first(), next, rem)
        }
    }
}

/// The sum of the target values of the symbols of `order`.
pub open spec fn order_sum(target: ShareValues, order: Seq<StockSymbol>) -> int
    decreases order.len(),
{
    if order.len() == 0 {
        0
    } else {
        target.value_of(order[0]) + order_sum(target, order.drop_first())
    }
}

/// Replacing the value of a supported symbol moves the vector total by the
/// difference; replacing `Empty` or `Other` changes nothing.
proof fn lemma_updated_total(acc: ShareValues, sym: StockSymbol, v: i64)
    ensures
        acc.updated(sym, v).total_spec() == if sym.is_supported() {
            acc.total_spec() - acc.value_of(sym) + v
        } else {
            acc.total_spec()
        },
{
}

/// The walk keeps a nonnegative remaining budget, never assigns outside the
/// bounds of the target and budget, and moves exactly the consumed budget
/// into the assigned vector.
#[verifier::rlimit(50)]
proof fn lemma_walk_properties(
    target: ShareValues,
    order: Seq<StockSymbol>,
    acc: ShareValues,
    budget: int,
)
    requires
        target.bounded(TOTAL_LIMIT as int),
        acc.bounded(TOTAL_LIMIT as int),
        forall|j: int| 0 <= j < order.len() ==> (#[trigger] order[j]).is_supported(),
        forall|j: int| 0 <= j < order.len() ==> acc.value_of(#[trigger] order[j]) == 0,
        order.no_duplicates(),
        0 <= budget,
        budget + order.len() * TOTAL_LIMIT <= i64::MAX,
    ensures
        ({
            let (assigned, rem) = walk_spec(target, order, acc, budget);
            &&& 0 <= rem
            &&& assigned.bounded(TOTAL_LIMIT as int)
            &&& assigned.total_spec() - acc.total_spec() == budget - rem
            &&& assigned.outside_bond == acc.outside_bond
            &&& assigned.outside_stock == acc.outside_stock
        }),
    decreases order.len(),
{
    if order.len() == 0 {
    } else {
        let sym = order[0];
        let v = vstd::math::min(target.value_of(sym), budget);
        let next = acc.updated(sym, v as i64);
        let rem = budget - v;
        lemma_updated_total(acc, sym, v as i64);
        assert(next.bounded(TOTAL_LIMIT as int));
        if rem <= 0 {
        } else {
            let rest = order.drop_first();
            assert(forall|j: int|
                0 <= j < rest.len() ==> (#[trigger] rest[j]).is_supported() && rest[j] == order[
                j + 1]);
            assert(forall|j: int| 0 <= j < rest.len() ==> next.value_of(#[trigger] rest[j]) == 0);
            assert(rest.no_duplicates());
            assert(rem + rest.len() * TOTAL_LIMIT <= i64::MAX) by (nonlinear_arith)
                requires
                    rem <= budget + TOTAL_LIMIT,
                    rest.len() + 1 == order.len(),
                    budget + order.len() * TOTAL_LIMIT <= i64::MAX,
                    TOTAL_LIMIT > 0,
            ;
            lemma_walk_properties(target, rest, next, rem);
        }
    }
}

/// When the budget does not exceed the total target value laid out along
/// the order, and every such target value is nonnegative, the walk consumes
/// the budget completely.
proof fn lemma_walk_exhausts(
    target: ShareValues,
    order: Seq<StockSymbol>,
    acc: ShareValues,
    budget: int,
)
    requires
        0 <= budget <= order_sum(target, order),
        forall|j: int| 0 <= j < order.len() ==> target.value_of(#[trigger] order[j]) >= 0,
    ensures
        walk_spec(target, order, acc, budget).1 == 0,
    decreases order.len(),
{
    if order.len() == 0 {
    } else {
        let sym = order[0];
        let v = vstd::math::min(target.value_of(sym), budget);
        let next = acc.updated(sym, v as i64);
        let rem = budget - v;
        if rem <= 0 {
            assert(rem == 0);
        } else {
            let rest = order.drop_first();
            assert(forall|j: int|
                0 <= j < rest.len() ==> target.value_of(#[trigger] rest[j]) >= 0 && rest[j]
                    == order[j + 1]);
            lemma_walk_exhausts(target, rest, next, rem);
        }
    }
}

/// Placement conservation: whenever the Roth and traditional account values
/// make up exactly the combined target's total — a combined target whose
/// value sits entirely on the walked symbols — the riskiest-first walk
/// consumes the whole Roth budget, the Roth target it assigns carries
/// exactly the Roth account value, and the traditional target left by
/// subtraction carries exactly the traditional account value.
pub proof fn lemma_placement_conservation(
    combined_target: ShareValues,
    roth_total: int,
    traditional_total: int,
)
    requires
        combined_target.bounded(TOTAL_LIMIT as int),
        combined_target.nonneg(),
        combined_target.vti == 0,
        combined_target.vtivx == 0,
        combined_target.vmfxx == 0,
        0 <= roth_total,
        0 <= traditional_total,
        roth_total + traditional_total == combined_target.total_spec(),
    ensures
        ({
            let (roth_target, rem) = walk_spec(
                combined_target,
                high_to_low_risk_seq(),
                ShareValues::zero(),
                roth_total,
            );
            &&& rem == 0
            &&& roth_target.total_spec() == roth_total
            &&& combined_target.sub_spec(roth_target).total_spec() == traditional_total
        }),
{
    let order = high_to_low_risk_seq();
    reveal_with_fuel(order_sum, 10);
    assert(order_sum(combined_target, order) == combined_target.total_spec());
    assert(forall|j: int| 0 <= j < order.len() ==> (#[trigger] order[j]).is_supported());
    assert(order.no_duplicates());
    assert(forall|j: int|
        0 <= j < order.len() ==> ShareValues::zero().value_of(#[trigger] order[j]) == 0);
    assert(forall|j: int| 0 <= j < order.len() ==> combined_target.value_of(#[trigger] order[j])
        >= 0);
    assert(roth_total + order.len() * TOTAL_LIMIT <= i64::MAX);
    lemma_walk_exhausts(combined_target, order, ShareValues::zero(), roth_total);
    lemma_walk_properties(combined_target, order, ShareValues::zero(), roth_total);
    let (roth_target, rem) = walk_spec(combined_target, order, ShareValues::zero(), roth_total);
    assert(combined_target.sub_spec(roth_target).total_spec() == combined_target.total_spec()
        - roth_target.total_spec());
}

/// Runs the greedy placement walk over `order` with the given budget,
/// assigning into a fresh vector.
pub fn allocate_by_risk(target: &ShareValues, order: &Vec<StockSymbol>, budget: i64) -> (r: (
    ShareValues,
    i64,
))
    requires
        target.bounded(TOTAL_LIMIT as int),
        0 <= budget <= TOTAL_LIMIT,
        order@.len() <= 16,
        forall|j: int| 0 <= j < order@.len() ==> (#[trigger] order@[j]).is_supported(),
    ensures
        (r.0, r.1 as int) == walk_spec(*target, order@, ShareValues::zero(), budget as int),
{
    let mut assigned = ShareValues::new();
    let mut remaining = budget;
    let n = order.len();
    let mut i: usize = 0;
    proof {
        assert(order@.skip(0) =~= order@);
    }
    while i < n
        invariant_except_break
            i <= n,
            n == order@.len(),
            n <= 16,
            target.bounded(TOTAL_LIMIT as int),
            forall|j: int| 0 <= j < order@.len() ==> (#[trigger] order@[j]).is_supported(),
            0 <= remaining <= TOTAL_LIMIT + i as int * TOTAL_LIMIT,
            walk_spec(*target, order@, ShareValues::zero(), budget as int) == walk_spec(
                *target,
                order@.skip(i as int),
                assigned,
                remaining as int,
            ),
        ensures
            (assigned, remaining as int) == walk_spec(
                *target,
                order@,
                ShareValues::zero(),
                budget as int,
            ),
        decreases n - i,
    {
        proof {
            assert(order@.skip(i as int).drop_first() =~= order@.skip(i + 1));
        }
        let symbol_read = match order[i].supported_copy() {
            Some(s) => s,
            None => {
                proof {
                    assert(false);
                }
                StockSymbol::VMFXX
            },
        };
        let target_value = target.stock_value(symbol_read);
        let value = if target_value < remaining {
            target_value
        } else {
            remaining
        };
        remaining = remaining - value;
        let symbol_write = match order[i].supported_copy() {
            Some(s) => s,
            None => {
                proof {
                    assert(false);
                }
                StockSymbol::VMFXX
            },
        };
        assigned.add_stock_value(symbol_write, value);
        if remaining <= 0 {
            break ;
        }
        i = i + 1;
    }
    proof {
        assert(order@.skip(n as int) =~= Seq::<StockSymbol>::empty());
    }
    (assigned, remaining)
}

/// The allocation a configuration requests for the retirement pool: a
/// glide-path year is consulted first (and its failure is final), then
/// explicit percentages override the result; a missing counterpart
/// percentage is taken as the rest of 100%.
pub open spec fn retirement_allocations(args: Args, glide: Seq<GlideEntry>) -> Result<
    Allocations,
    RebalanceError,
> {
    let base = match args.retirement_year_option {
        Some(y) => match glide_lookup(glide, y as int) {
            Some(e) => Allocations::custom_result(e.stock_bp, e.bond_bp, e.inflation_bp),
            None => Err(RebalanceError::UnknownRetirementYear),
        },
        None => Ok(Allocations { stock_bp: 6000i64, bond_bp: 4000i64, inflation_bp: 0i64 }),
    };
    match base {
        Err(e) => Err(e),
        Ok(a0) => match (args.percent_stock_retirement_option, args.percent_bond_retirement_option) {
            (Some(s), Some(b)) => Allocations::custom_result(s, b, 0i64),
            (Some(s), None) => Allocations::custom_result(s, (PCT_ONE - s) as i64, 0i64),
            (None, Some(b)) => Allocations::custom_result((PCT_ONE - b) as i64, b, 0i64),
            (None, None) => Ok(a0),
        },
    }
}

/// Holdings with the configured cash adjustment folded into the cash field.
pub open spec fn cash_adjusted(h: ShareValues, cash_add: i64) -> ShareValues {
    ShareValues { vmfxx: (h.vmfxx + cash_add) as i64, ..h }
}

/// The cross-account split runs only when both retirement accounts exist.
pub open spec fn pool_active(hold: VanguardHoldings) -> bool {
    hold.roth_ira is Some && hold.traditional_ira is Some
}

/// Whether the brokerage account joins the retirement pool.
pub open spec fn brokerage_in_pool(hold: VanguardHoldings, args: Args) -> bool {
    pool_active(hold) && args.use_brokerage_retirement && hold.brokerage is Some
}

/// The cash-adjusted Roth holdings, when that account exists.
pub open spec fn roth_member(hold: VanguardHoldings, args: Args) -> Option<ShareValues> {
    match hold.roth_ira {
        Some(h) => Some(cash_adjusted(h, args.roth_cash_add)),
        None => None,
    }
}

/// The cash-adjusted traditional holdings, when that account exists.
pub open spec fn trad_member(hold: VanguardHoldings, args: Args) -> Option<ShareValues> {
    match hold.traditional_ira {
        Some(h) => Some(cash_adjusted(h, args.traditional_cash_add)),
        None => None,
    }
}

/// The cash-adjusted brokerage holdings, when they join the pool.
pub open spec fn brok_member(hold: VanguardHoldings, args: Args) -> Option<ShareValues> {
    if brokerage_in_pool(hold, args) {
        match hold.brokerage {
            Some(h) => Some(cash_adjusted(h, args.brokerage_cash_add)),
            None => None,
        }
    } else {
        None
    }
}

/// The total value a pool member contributes; an absent member contributes
/// nothing.
pub open spec fn member_total(m: Option<ShareValues>) -> int {
    match m {
        Some(h) => h.total_spec(),
        None => 0,
    }
}

/// The target-date-fund value a pool member contributes.
pub open spec fn member_vtivx(m: Option<ShareValues>) -> int {
    match m {
        Some(h) => h.vtivx as int,
        None => 0,
    }
}

/// The target-date-fund value held across the pool, pre-assigned to the
/// accounts that hold it and carved out of the allocation pool.
pub open spec fn pool_vtivx(hold: VanguardHoldings, args: Args) -> int {
    member_vtivx(roth_member(hold, args)) + member_vtivx(trad_member(hold, args)) + member_vtivx(
        brok_member(hold, args),
    )
}

/// The value the pool allocates across the walked symbols: the members'
/// totals less the carved-out target-date fund.
pub open spec fn pool_value(hold: VanguardHoldings, args: Args) -> int {
    member_total(roth_member(hold, args)) + member_total(trad_member(hold, args)) + member_total(
        brok_member(hold, args),
    ) - pool_vtivx(hold, args)
}

/// The outside US stock value counted toward the pool's ratios.
pub open spec fn pool_us_stock_add(hold: VanguardHoldings, args: Args) -> int {
    args.roth_us_stock_add + args.traditional_us_stock_add + if brokerage_in_pool(hold, args) {
        args.brokerage_us_stock_add as int
    } else {
        0
    }
}

/// The outside US bond value counted toward the pool's ratios.
pub open spec fn pool_us_bond_add(hold: VanguardHoldings, args: Args) -> int {
    args.roth_us_bond_add + args.traditional_us_bond_add + if brokerage_in_pool(hold, args) {
        args.brokerage_us_bond_add as int
    } else {
        0
    }
}

/// The outside international stock value counted toward the pool's ratios.
pub open spec fn pool_int_stock_add(hold: VanguardHoldings, args: Args) -> int {
    args.roth_int_stock_add + args.traditional_int_stock_add + if brokerage_in_pool(hold, args) {
        args.brokerage_int_stock_add as int
    } else {
        0
    }
}

/// The outside international bond value counted toward the pool's ratios.
pub open spec fn pool_int_bond_add(hold: VanguardHoldings, args: Args) -> int {
    args.roth_int_bond_add + args.traditional_int_bond_add + if brokerage_in_pool(hold, args) {
        args.brokerage_int_bond_add as int
    } else {
        0
    }
}

/// The combined target over the whole retirement pool: the target built
/// from the pooled value, with the carved-out target-date fund shown at the
/// value the accounts already hold.
#[verifier::opaque]
pub open spec fn combined_retirement_target(
    hold: VanguardHoldings,
    args: Args,
    alloc: Allocations,
) -> ShareValues {
    let subs = SubAllocations::of_allocations(alloc);
    let base = ShareValues::target_spec(
        subs,
        pool_value(hold, args),
        pool_us_stock_add(hold, args),
        pool_us_bond_add(hold, args),
        pool_int_stock_add(hold, args),
        pool_int_bond_add(hold, args),
    );
    ShareValues { vtivx: pool_vtivx(hold, args) as i64, ..base }
}

/// The 1% tolerance check between a target's total and the account value
/// it is meant to fill.
pub open spec fn within_one_percent(target_total: int, account_total: int) -> bool {
    target_total * 100 > account_total * 99 && target_total * 100 < account_total * 101
}

/// The current, target and purchase/sale triple of one account.
pub open spec fn account_spec(
    current: ShareValues,
    target: ShareValues,
    quotes: ShareValues,
) -> AccountHoldings {
    AccountHoldings { current, target, sale_purchases_needed: target.sub_spec(current).div_spec(quotes) }
}

/// The target of a single retirement account outside the pooled split:
/// built from that account's own total, with its target-date holding
/// carved out and kept.
pub open spec fn single_account_target(
    adjusted: ShareValues,
    us_stock_add: i64,
    us_bond_add: i64,
    int_stock_add: i64,
    int_bond_add: i64,
    alloc: Allocations,
) -> ShareValues {
    let subs = SubAllocations::of_allocations(alloc);
    let base = ShareValues::target_spec(
        subs,
        adjusted.total_spec() - adjusted.vtivx,
        us_stock_add as int,
        us_bond_add as int,
        int_stock_add as int,
        int_bond_add as int,
    );
    ShareValues { vtivx: adjusted.vtivx, ..base }
}

/// How filling one side of the pool can fail: the walk left budget
/// unassigned, or the assigned target missed the account value by more than
/// the tolerance.
#[derive(Clone, Copy, Debug, PartialEq, Eq, Structural)]
pub enum WalkSideError {
    Leftover,
    Mismatch,
}

/// Filling one side of the pool: the account's walk budget is its value
/// less its pre-assigned target-date holding; the walk must consume that
/// budget exactly, and the assigned target (with the target-date holding
/// kept) must land within 1% of the account value.
#[verifier::opaque]
pub open spec fn walk_side_spec(
    combined: ShareValues,
    account_adj: ShareValues,
    quotes: ShareValues,
    order: Seq<StockSymbol>,
) -> Result<AccountHoldings, WalkSideError> {
    let budget = account_adj.total_spec() - account_adj.vtivx;
    let walk = walk_spec(combined, order, ShareValues::zero(), budget);
    if walk.1 != 0 {
        Err(WalkSideError::Leftover)
    } else {
        let target = ShareValues { vtivx: account_adj.vtivx, ..walk.0 };
        if !within_one_percent(target.total_spec(), account_adj.total_spec()) {
            Err(WalkSideError::Mismatch)
        } else {
            Ok(account_spec(account_adj, target, quotes))
        }
    }
}

/// The outcome of the pooled split across both retirement accounts (and the
/// brokerage account when pooled): the Roth side is filled riskiest-first,
/// the brokerage side safest-first, and the traditional account keeps
/// whatever of the combined target is left.
pub open spec fn pooled_result_spec(hold: VanguardHoldings, args: Args, alloc: Allocations) -> Result<
    (
        Option<AccountHoldings>,
        Option<AccountHoldings>,
        Option<AccountHoldings>,
        Option<ShareValues>,
    ),
    RebalanceError,
> {
    let combined = combined_retirement_target(hold, args, alloc);
    let roth_cur = roth_member(hold, args)->Some_0;
    let trad_cur = trad_member(hold, args)->Some_0;
    match walk_side_spec(combined, roth_cur, hold.quotes, high_to_low_risk_seq()) {
        Err(WalkSideError::Leftover) => Err(RebalanceError::RothLeftoverBudget),
        Err(WalkSideError::Mismatch) => Err(RebalanceError::RothTargetMismatch),
        Ok(roth_account) => {
            if brokerage_in_pool(hold, args) {
                let brok_cur = brok_member(hold, args)->Some_0;
                match walk_side_spec(combined, brok_cur, hold.quotes, low_to_high_risk_seq()) {
                    Err(WalkSideError::Leftover) => Err(RebalanceError::BrokerageLeftoverBudget),
                    Err(WalkSideError::Mismatch) => Err(RebalanceError::BrokerageTargetMismatch),
                    Ok(brok_account) => {
                        let trad_target = combined.sub_spec(roth_account.target).sub_spec(
                            brok_account.target,
                        );
                        Ok(
                            (
                                Some(account_spec(trad_cur, trad_target, hold.quotes)),
                                Some(roth_account),
                                Some(brok_account),
                                Some(combined),
                            ),
                        )
                    },
                }
            } else {
                let trad_target = combined.sub_spec(roth_account.target);
                Ok(
                    (
                        Some(account_spec(trad_cur, trad_target, hold.quotes)),
                        Some(roth_account),
                        None,
                        Some(combined),
                    ),
                )
            }
        },
    }
}

/// Bounds under which every arithmetic step of the retirement calculation
/// fits: usable quotes, and for each account that exists nonnegative
/// holdings within [`VALUE_LIMIT`] whose cash stays within bounds after the
/// configured adjustment.
pub open spec fn retirement_inputs_wf(hold: VanguardHoldings, args: Args) -> bool {
    &&& args.wf()
    &&& hold.quotes.positive()
    &&& (hold.roth_ira matches Some(h) ==> h.nonneg() && h.bounded(VALUE_LIMIT as int) && 0
        <= h.vmfxx + args.roth_cash_add <= VALUE_LIMIT)
    &&& (hold.traditional_ira matches Some(h) ==> h.nonneg() && h.bounded(VALUE_LIMIT as int) && 0
        <= h.vmfxx + args.traditional_cash_add <= VALUE_LIMIT)
    &&& (hold.brokerage matches Some(h) ==> h.nonneg() && h.bounded(VALUE_LIMIT as int) && 0
        <= h.vmfxx + args.brokerage_cash_add <= VALUE_LIMIT)
}

/// What [`retirement_calc`] returns: the traditional, Roth and brokerage
/// account triples and the combined retirement target, or the first error
/// the split runs into.
pub open spec fn retirement_result_spec(
    hold: VanguardHoldings,
    args: Args,
    glide: Seq<GlideEntry>,
) -> Result<
    (Option<AccountHoldings>, Option<AccountHoldings>, Option<AccountHoldings>, Option<ShareValues>),
    RebalanceError,
> {
    match retirement_allocations(args, glide) {
        Err(e) => Err(e),
        Ok(alloc) => {
            if pool_active(hold) {
                pooled_result_spec(hold, args, alloc)
            } else {
                match (hold.roth_ira, hold.traditional_ira) {
                    (None, None) => Ok((None, None, None, None)),
                    (Some(_), None) => {
                        let roth_cur = roth_member(hold, args)->Some_0;
                        let target = single_account_target(
                            roth_cur,
                            args.roth_us_stock_add,
                            args.roth_us_bond_add,
                            args.roth_int_stock_add,
                            args.roth_int_bond_add,
                            alloc,
                        );
                        Ok((None, Some(account_spec(roth_cur, target, hold.quotes)), None, None))
                    },
                    (None, Some(_)) => {
                        let trad_cur = trad_member(hold, args)->Some_0;
                        let target = single_account_target(
                            trad_cur,
                            args.traditional_us_stock_add,
                            args.traditional_us_bond_add,
                            args.traditional_int_stock_add,
                            args.traditional_int_bond_add,
                            alloc,
                        );
                        Ok((Some(account_spec(trad_cur, target, hold.quotes)), None, None, None))
                    },
                    (Some(_), Some(_)) => Ok((None, None, None, None)),  // unreachable: the pool is active
                }
            }
        },
    }
}

/// Fills one side of the pool from the combined target: walks the risk
/// order (reversed for the brokerage side) with the account's budget,
/// checks that the budget was consumed and that the assigned target lands
/// within 1% of the account value, and bundles the account's triple.
#[verifier::rlimit(100)]
fn walk_side(
    combined: &ShareValues,
    account_adj: ShareValues,
    quotes: ShareValues,
    reverse: bool,
) -> (r: Result<AccountHoldings, WalkSideError>)
    requires
        combined.bounded(TOTAL_LIMIT as int),
        account_adj.nonneg(),
        account_adj.bounded(VALUE_LIMIT as int),
        quotes.positive(),
    ensures
        r == walk_side_spec(
            *combined,
            account_adj,
            quotes,
            if reverse {
                low_to_high_risk_seq()
            } else {
                high_to_low_risk_seq()
            },
        ),
        r matches Ok(acct) ==> acct.target.bounded(TOTAL_LIMIT as int) && acct.current
            == account_adj,
{
    proof {
        reveal(walk_side_spec);
    }
    let order = if reverse {
        low_to_high_risk()
    } else {
        high_to_low_risk()
    };
    proof {
        lemma_high_to_low_risk_wf();
        lemma_low_to_high_risk_wf();
    }
    let budget = account_adj.total_value() - account_adj.vtivx;
    let (assigned, rem) = allocate_by_risk(combined, &order, budget);
    proof {
        lemma_walk_properties(*combined, order@, ShareValues::zero(), budget as int);
    }
    if rem != 0 {
        return Err(WalkSideError::Leftover);
    }
    let mut target = assigned;
    target.vtivx = account_adj.vtivx;
    let target_total = target.total_value();
    let account_total = account_adj.total_value();
    if !(target_total * 100 > account_total * 99 && target_total * 100 < account_total * 101) {
        return Err(WalkSideError::Mismatch);
    }
    let purchase = target.subtract(account_adj).divide(quotes);
    Ok(AccountHoldings::new(account_adj, target, purchase))
}

/// Gathers the pool: the cash-adjusted members, and the combined target
/// over their pooled value.
fn build_pool(
    vanguard_holdings: &VanguardHoldings,
    args: Args,
    alloc: Allocations,
    sub_allocations: SubAllocations,
) -> (r: (ShareValues, ShareValues, ShareValues, Option<ShareValues>))
    requires
        retirement_inputs_wf(*vanguard_holdings, args),
        pool_active(*vanguard_holdings),
        sub_allocations == SubAllocations::of_allocations(alloc),
        sub_allocations.wf(),
    ensures
        r.0 == combined_retirement_target(*vanguard_holdings, args, alloc),
        r.0.bounded(TOTAL_LIMIT as int),
        r.1 == roth_member(*vanguard_holdings, args)->Some_0,
        r.2 == trad_member(*vanguard_holdings, args)->Some_0,
        r.3 == brok_member(*vanguard_holdings, args),
{
    let roth_h = match vanguard_holdings.roth_ira {
        Some(h) => h,
        None => {
            proof {
                assert(false);
            }
            ShareValues::new()
        },
    };
    let trad_h = match vanguard_holdings.traditional_ira {
        Some(h) => h,
        None => {
            proof {
                assert(false);
            }
            ShareValues::new()
        },
    };
    let mut roth_adj = roth_h;
    roth_adj.vmfxx = roth_adj.vmfxx + args.roth_cash_add;
    let mut trad_adj = trad_h;
    trad_adj.vmfxx = trad_adj.vmfxx + args.traditional_cash_add;

    let mut holdings_value = roth_adj.total_value() + trad_adj.total_value();
    let mut vtivx_total = roth_adj.vtivx + trad_adj.vtivx;
    let mut us_stock_add = args.roth_us_stock_add + args.traditional_us_stock_add;
    let mut us_bond_add = args.roth_us_bond_add + args.traditional_us_bond_add;
    let mut int_stock_add = args.roth_int_stock_add + args.traditional_int_stock_add;
    let mut int_bond_add = args.roth_int_bond_add + args.traditional_int_bond_add;

    let mut brok_adj_opt: Option<ShareValues> = None;
    if args.use_brokerage_retirement {
        if let Some(brok_h) = vanguard_holdings.brokerage {
            let mut brok_adj = brok_h;
            brok_adj.vmfxx = brok_adj.vmfxx + args.brokerage_cash_add;
            holdings_value = holdings_value + brok_adj.total_value();
            vtivx_total = vtivx_total + brok_adj.vtivx;
            us_stock_add = us_stock_add + args.brokerage_us_stock_add;
            us_bond_add = us_bond_add + args.brokerage_us_bond_add;
            int_stock_add = int_stock_add + args.brokerage_int_stock_add;
            int_bond_add = int_bond_add + args.brokerage_int_bond_add;
            brok_adj_opt = Some(brok_adj);
        }
    }
    assert(brok_adj_opt == brok_member(*vanguard_holdings, args));

    let pool = holdings_value - vtivx_total;
    assert(pool == pool_value(*vanguard_holdings, args));
    let combined_base = ShareValues::new_target(
        sub_allocations,
        pool,
        us_stock_add,
        us_bond_add,
        int_stock_add,
        int_bond_add,
    );
    let mut combined = combined_base;
    combined.vtivx = vtivx_total;
    proof {
        reveal(combined_retirement_target);
    }
    assert(combined == combined_retirement_target(*vanguard_holdings, args, alloc));
    (combined, roth_adj, trad_adj, brok_adj_opt)
}

/// Runs the pooled split: Roth first over the riskiest assets, then the
/// brokerage account (when pooled) over the safest, and the traditional
/// account keeps the rest of the combined target.
#[verifier::rlimit(100)]
fn pooled_retirement_calc(
    vanguard_holdings: &VanguardHoldings,
    args: Args,
    alloc: Allocations,
    sub_allocations: SubAllocations,
) -> (r: Result<
    (
        Option<AccountHoldings>,
        Option<AccountHoldings>,
        Option<AccountHoldings>,
        Option<ShareValues>,
    ),
    RebalanceError,
>)
    requires
        retirement_inputs_wf(*vanguard_holdings, args),
        pool_active(*vanguard_holdings),
        sub_allocations == SubAllocations::of_allocations(alloc),
        sub_allocations.wf(),
    ensures
        r == pooled_result_spec(*vanguard_holdings, args, alloc),
{
    let quotes = vanguard_holdings.stock_quotes();
    let (combined, roth_adj, trad_adj, brok_adj_opt) = build_pool(
        vanguard_holdings,
        args,
        alloc,
        sub_allocations,
    );
    let roth_account = match walk_side(&combined, roth_adj, quotes, false) {
        Err(WalkSideError::Leftover) => {
            return Err(RebalanceError::RothLeftoverBudget);
        },
        Err(WalkSideError::Mismatch) => {
            return Err(RebalanceError::RothTargetMismatch);
        },
        Ok(acct) => acct,
    };
    let mut remaining_target = combined.subtract(roth_account.target);
    let mut brok_account_opt: Option<AccountHoldings> = None;
    if let Some(brok_adj) = brok_adj_opt {
        let brok_account = match walk_side(&combined, brok_adj, quotes, true) {
            Err(WalkSideError::Leftover) => {
                return Err(RebalanceError::BrokerageLeftoverBudget);
            },
            Err(WalkSideError::Mismatch) => {
                return Err(RebalanceError::BrokerageTargetMismatch);
            },
            Ok(acct) => acct,
        };
        remaining_target = remaining_target.subtract(brok_account.target);
        brok_account_opt = Some(brok_account);
    }
    let trad_target = remaining_target;
    let trad_purchase = trad_target.subtract(trad_adj).divide(quotes);
    let trad_account = AccountHoldings::new(trad_adj, trad_target, trad_purchase);
    Ok((Some(trad_account), Some(roth_account), brok_account_opt, Some(combined)))
}

/// Builds the direct target of a single retirement account from its own
/// total, with its target-date holding carved out and kept.
fn single_account_calc(
    account_adj: ShareValues,
    us_stock_add: i64,
    us_bond_add: i64,
    int_stock_add: i64,
    int_bond_add: i64,
    sub_allocations: SubAllocations,
    alloc: Allocations,
    quotes: ShareValues,
) -> (r: AccountHoldings)
    requires
        account_adj.nonneg(),
        account_adj.bounded(VALUE_LIMIT as int),
        quotes.positive(),
        0 <= us_stock_add <= VALUE_LIMIT,
        0 <= us_bond_add <= VALUE_LIMIT,
        0 <= int_stock_add <= VALUE_LIMIT,
        0 <= int_bond_add <= VALUE_LIMIT,
        sub_allocations == SubAllocations::of_allocations(alloc),
        sub_allocations.wf(),
    ensures
        r == account_spec(
            account_adj,
            single_account_target(
                account_adj,
                us_stock_add,
                us_bond_add,
                int_stock_add,
                int_bond_add,
                alloc,
            ),
            quotes,
        ),
{
    let own_budget = account_adj.total_value() - account_adj.vtivx;
    let target_base = ShareValues::new_target(
        sub_allocations,
        own_budget,
        us_stock_add,
        us_bond_add,
        int_stock_add,
        int_bond_add,
    );
    let mut target = target_base;
    target.vtivx = account_adj.vtivx;
    let purchase = target.subtract(account_adj).divide(quotes);
    AccountHoldings::new(account_adj, target, purchase)
}

/// Computes what each retirement account should hold and buy.
///
/// With both retirement accounts present, the combined target over the pool
/// is split by the risk-ordered walk: the riskiest assets fill the Roth
/// account first, the safest side fills the brokerage account when it is
/// pooled in, and the traditional account keeps the remainder.  A single
/// retirement account is rebalanced directly against its own total.  The
/// blended target-date fund is pre-assigned to the accounts that hold it
/// and excluded from the walk.
pub fn retirement_calc(
    vanguard_holdings: &VanguardHoldings,
    args: Args,
    glide_path: &Vec<GlideEntry>,
) -> (r: Result<
    (
        Option<AccountHoldings>,
        Option<AccountHoldings>,
        Option<AccountHoldings>,
        Option<ShareValues>,
    ),
    RebalanceError,
>)
    requires
        retirement_inputs_wf(*vanguard_holdings, args),
    ensures
        r == retirement_result_spec(*vanguard_holdings, args, glide_path@),
{
    let base = if let Some(year) = args.retirement_year_option {
        match Allocations::retirement(year, glide_path) {
            Ok(a) => a,
            Err(e) => {
                return Err(e);
            },
        }
    } else {
        Allocations::new()
    };
    let alloc_result = match (
        args.percent_stock_retirement_option,
        args.percent_bond_retirement_option,
    ) {
        (Some(s), Some(b)) => Allocations::custom(s, b, 0),
        (Some(s), None) => Allocations::custom(s, PCT_ONE - s, 0),
        (None, Some(b)) => Allocations::custom(PCT_ONE - b, b, 0),
        (None, None) => Ok(base),
    };
    let alloc = match alloc_result {
        Ok(a) => a,
        Err(e) => {
            return Err(e);
        },
    };
    assert(retirement_allocations(args, glide_path@) == Ok::<Allocations, RebalanceError>(alloc));

    let sub_allocations = match SubAllocations::new_custom(alloc) {
        Ok(s) => s,
        Err(e) => {
            proof {
                assert(false);
            }
            return Err(e);
        },
    };

    let quotes = vanguard_holdings.stock_quotes();
    if vanguard_holdings.roth_ira.is_some() && vanguard_holdings.traditional_ira.is_some() {
        return pooled_retirement_calc(vanguard_holdings, args, alloc, sub_allocations);
    }

    if let Some(roth_h) = vanguard_holdings.roth_ira {
        let mut roth_adj = roth_h;
        roth_adj.vmfxx = roth_adj.vmfxx + args.roth_cash_add;
        let account = single_account_calc(
            roth_adj,
            args.roth_us_stock_add,
            args.roth_us_bond_add,
            args.roth_int_stock_add,
            args.roth_int_bond_add,
            sub_allocations,
            alloc,
            quotes,
        );
        return Ok((None, Some(account), None, None));
    }

    if let Some(trad_h) = vanguard_holdings.traditional_ira {
        let mut trad_adj = trad_h;
        trad_adj.vmfxx = trad_adj.vmfxx + args.traditional_cash_add;
        let account = single_account_calc(
            trad_adj,
            args.traditional_us_stock_add,
            args.traditional_us_bond_add,
            args.traditional_int_stock_add,
            args.traditional_int_bond_add,
            sub_allocations,
            alloc,
            quotes,
        );
        return Ok((Some(account), None, None, None));
    }

    Ok((None, None, None, None))
}

/// The brokerage holdings with the configured cash adjustment and outside
/// values folded in.
pub open spec fn brokerage_adjusted(brokerage: ShareValues, args: Args) -> ShareValues {
    ShareValues {
        vmfxx: (brokerage.vmfxx + args.brokerage_cash_add) as i64,
        outside_stock: (args.brokerage_us_stock_add + args.brokerage_int_stock_add) as i64,
        outside_bond: (args.brokerage_us_bond_add + args.brokerage_int_bond_add) as i64,
        ..brokerage
    }
}

/// What [`brokerage_calc`] returns: the brokerage account rebalanced on its
/// own against the configured brokerage stock/bond split, or the
/// configuration error when that split does not sum to 100%.
pub open spec fn brokerage_result_spec(
    quotes: ShareValues,
    brokerage: ShareValues,
    args: Args,
) -> Result<AccountHoldings, RebalanceError> {
    match Allocations::custom_result(args.percent_stock_brokerage, args.percent_bond_brokerage, 0i64) {
        Err(e) => Err(e),
        Ok(alloc) => {
            let adjusted = brokerage_adjusted(brokerage, args);
            let target = ShareValues::target_spec(
                SubAllocations::of_allocations(alloc),
                adjusted.total_spec(),
                args.brokerage_us_stock_add as int,
                args.brokerage_us_bond_add as int,
                args.brokerage_int_stock_add as int,
                args.brokerage_int_bond_add as int,
            );
            Ok(account_spec(adjusted, target, quotes))
        },
    }
}

/// Rebalances the brokerage account on its own: the account's cash-adjusted
/// total is allocated by the configured brokerage stock/bond split, with
/// outside holdings counted toward the ratios.
pub fn brokerage_calc(quotes: ShareValues, brokerage: ShareValues, args: Args) -> (r: Result<
    AccountHoldings,
    RebalanceError,
>)
    requires
        args.wf(),
        quotes.positive(),
        brokerage.nonneg(),
        brokerage.bounded(VALUE_LIMIT as int),
        0 <= brokerage.vmfxx + args.brokerage_cash_add <= VALUE_LIMIT,
    ensures
        r == brokerage_result_spec(quotes, brokerage, args),
{
    let mut adjusted = brokerage;
    adjusted.vmfxx = adjusted.vmfxx + args.brokerage_cash_add;
    adjusted.add_outside_stock_value(args.brokerage_us_stock_add + args.brokerage_int_stock_add);
    adjusted.add_outside_bond_value(args.brokerage_us_bond_add + args.brokerage_int_bond_add);
    let alloc = match Allocations::custom(
        args.percent_stock_brokerage,
        args.percent_bond_brokerage,
        0,
    ) {
        Ok(a) => a,
        Err(e) => {
            return Err(e);
        },
    };
    let sub_allocations = match SubAllocations::new_custom(alloc) {
        Ok(s) => s,
        Err(e) => {
            proof {
                assert(false);
            }
            return Err(e);
        },
    };
    let total = adjusted.total_value();
    let target = ShareValues::new_target(
        sub_allocations,
        total,
        args.brokerage_us_stock_add,
        args.brokerage_us_bond_add,
        args.brokerage_int_stock_add,
        args.brokerage_int_bond_add,
    );
    let purchase = target.subtract(adjusted).divide(quotes);
    Ok(AccountHoldings::new(adjusted, target, purchase))
}

/// What [`to_buy`] returns: the retirement split's accounts, the brokerage
/// account from the split when it was pooled and from its own rebalance
/// otherwise, and the combined retirement target when both retirement
/// accounts exist.
pub open spec fn to_buy_spec(hold: VanguardHoldings, args: Args, glide: Seq<GlideEntry>) -> Result<
    VanguardRebalance,
    RebalanceError,
> {
    match retirement_result_spec(hold, args, glide) {
        Err(e) => Err(e),
        Ok(accounts) => {
            let (trad_opt, roth_opt, brok_opt, overall_opt) = accounts;
            if brok_opt is None && hold.brokerage is Some {
                match brokerage_result_spec(hold.quotes, hold.brokerage->Some_0, args) {
                    Err(e) => Err(e),
                    Ok(brok_acct) => Ok(
                        VanguardRebalance {
                            brokerage: Some(brok_acct),
                            traditional_ira: trad_opt,
                            roth_ira: roth_opt,
                            retirement_target: overall_opt,
                        },
                    ),
                }
            } else {
                Ok(
                    VanguardRebalance {
                        brokerage: brok_opt,
                        traditional_ira: trad_opt,
                        roth_ira: roth_opt,
                        retirement_target: overall_opt,
                    },
                )
            }
        },
    }
}

/// Calculates how much of each security should be bought and sold to
/// rebalance the portfolio: the retirement accounts through the
/// cross-account split, and the brokerage account on its own when it is not
/// pooled with them.
pub fn to_buy(vanguard_holdings: VanguardHoldings, args: Args, glide_path: &Vec<GlideEntry>) -> (r:
    Result<VanguardRebalance, RebalanceError>)
    requires
        retirement_inputs_wf(vanguard_holdings, args),
    ensures
        r == to_buy_spec(vanguard_holdings, args, glide_path@),
{
    let mut rebalance = VanguardRebalance::new();
    let accounts = match retirement_calc(&vanguard_holdings, args, glide_path) {
        Ok(t) => t,
        Err(e) => {
            return Err(e);
        },
    };
    let (traditional_ira_account_option, roth_ira_account_option, brokerage_account_option,
        target_overall_retirement_option) = accounts;
    if let Some(traditional_account) = traditional_ira_account_option {
        rebalance.add_account_holdings(traditional_account, HoldingType::TraditionalIra);
    }
    if let Some(roth_account) = roth_ira_account_option {
        rebalance.add_account_holdings(roth_account, HoldingType::RothIra);
    }
    if let Some(brokerage_account) = brokerage_account_option {
        rebalance.add_account_holdings(brokerage_account, HoldingType::Brokerage);
    } else if let Some(brokerage_holdings) = vanguard_holdings.brokerage_holdings() {
        let brokerage_account = match brokerage_calc(
            vanguard_holdings.stock_quotes(),
            brokerage_holdings,
            args,
        ) {
            Ok(a) => a,
            Err(e) => {
                return Err(e);
            },
        };
        rebalance.add_account_holdings(brokerage_account, HoldingType::Brokerage);
    }
    if let Some(target_overall_retirement) = target_overall_retirement_option {
        rebalance.add_retirement_target(target_overall_retirement);
    }
    Ok(rebalance)
}

/// One row of the age-keyed required-minimum-distribution table: the
/// distribution period (divisor) for one age, in fixed-point form.
#[derive(Clone, Copy, Debug, PartialEq, Eq, Structural)]
pub struct DistributionEntry {
    pub age: u8,
    pub divisor: i64,
}

/// The divisor of the last table row matching `age`, if any row does.
pub open spec fn distribution_lookup(table: Seq<DistributionEntry>, age: u8) -> Option<i64>
    decreases table.len(),
{
    if table.len() == 0 {
        None
    } else if table.last().age == age {
        Some(table.last().divisor)
    } else {
        distribution_lookup(table.drop_last(), age)
    }
}

/// The required annual minimum distribution for an unmarried individual (or
/// one whose spouse is not more than ten years younger): the traditional
/// account value divided by the distribution period the table gives for the
/// age.  An age the table does not list owes no distribution and yields
/// zero rather than an error.
pub fn calculate_minimum_distribution(
    age: u8,
    traditional_value: i64,
    table: &Vec<DistributionEntry>,
) -> (r: i64)
    requires
        0 <= traditional_value <= VALUE_LIMIT,
        forall|j: int| 0 <= j < table@.len() ==> 1 <= (#[trigger] table@[j]).divisor,
    ensures
        match distribution_lookup(table@, age) {
            Some(d) => r == traditional_value * FIXED_ONE / d as int,
            None => r == 0,
        },
{
    let n = table.len();
    let mut found: Option<i64> = None;
    let mut i: usize = 0;
    proof {
        assert(table@.take(0) =~= Seq::<DistributionEntry>::empty());
    }
    while i < n
        invariant
            i <= n,
            n == table@.len(),
            forall|j: int| 0 <= j < table@.len() ==> 1 <= (#[trigger] table@[j]).divisor,
            found == distribution_lookup(table@.take(i as int), age),
            found matches Some(d) ==> 1 <= d,
        decreases n - i,
    {
        let entry = table[i];
        if entry.age == age {
            found = Some(entry.divisor);
        }
        proof {
            assert(table@.take(i + 1).drop_last() =~= table@.take(i as int));
            assert(table@.take(i + 1).last() == table@[i as int]);
        }
        i = i + 1;
    }
    proof {
        assert(table@.take(n as int) =~= table@);
    }
    if let Some(divisor) = found {
        crate::fixed::scaled_div(traditional_value, divisor)
    } else {
        0
    }
}

} // verus!
