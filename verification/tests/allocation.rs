//! Tests of the allocation policy and its sub-allocation decomposition.

use vapore::asset::{Allocations, GlideEntry, SubAllocations};
use vapore::errors::RebalanceError;

#[test]
fn custom_accepts_a_triple_summing_to_100() {
    let a = Allocations::custom(6_000, 4_000, 0).unwrap();
    assert_eq!(a.stock_bp, 6_000);
    assert_eq!(a.bond_bp, 4_000);
    assert_eq!(a.inflation_bp, 0);
    let b = Allocations::custom(5_000, 4_000, 1_000).unwrap();
    assert_eq!(b.inflation_bp, 1_000);
}

#[test]
fn custom_rejects_a_triple_not_summing_to_100() {
    assert_eq!(
        Allocations::custom(7_000, 4_000, 0),
        Err(RebalanceError::InvalidAllocation)
    );
    assert_eq!(
        Allocations::custom(6_000, 3_000, 0),
        Err(RebalanceError::InvalidAllocation)
    );
    assert_eq!(
        Allocations::custom(11_000, -1_000, 0),
        Err(RebalanceError::InvalidAllocation)
    );
}

#[test]
fn default_allocation_is_60_40() {
    let a = Allocations::new();
    assert_eq!((a.stock_bp, a.bond_bp, a.inflation_bp), (6_000, 4_000, 0));
}

#[test]
fn sub_allocation_decomposition_exact() {
    let a = Allocations::custom(6_000, 4_000, 0).unwrap();
    let s = SubAllocations::new_custom(a).unwrap();
    // Stock: two thirds US split in equal thirds, one third international
    // split one-third emerging / two-thirds total.
    assert_eq!(s.us_stock_large, 12_000);
    assert_eq!(s.us_stock_mid, 12_000);
    assert_eq!(s.us_stock_small, 12_000);
    assert_eq!(s.int_tot_stock, 12_000);
    assert_eq!(s.int_emerging_stock, 6_000);
    // Bond: equal thirds for US total, US corporate and international.
    assert_eq!(s.us_tot_bond, 12_000);
    assert_eq!(s.us_corp_bond, 12_000);
    assert_eq!(s.int_bond, 12_000);
    assert_eq!(s.inflation_protected, 0);
}

#[test]
fn sub_allocation_fractions_sum_to_one_whole() {
    for (stock, bond, infl) in [
        (6_000, 4_000, 0),
        (10_000, 0, 0),
        (0, 10_000, 0),
        (0, 0, 10_000),
        (3_333, 3_333, 3_334),
        (9_000, 500, 500),
    ] {
        let a = Allocations::custom(stock, bond, infl).unwrap();
        let s = SubAllocations::new_custom(a).unwrap();
        let sum = s.us_stock_large + s.us_stock_mid + s.us_stock_small + s.int_tot_stock
            + s.int_emerging_stock + s.us_tot_bond + s.us_corp_bond + s.int_bond
            + s.inflation_protected;
        assert_eq!(sum, 90_000);
    }
}

#[test]
fn sub_allocation_rejects_invalid_triple() {
    let bad = Allocations {
        stock_bp: 9_000,
        bond_bp: 2_000,
        inflation_bp: 0,
    };
    assert_eq!(
        SubAllocations::new_custom(bad),
        Err(RebalanceError::InvalidAllocation)
    );
}

#[test]
fn default_sub_allocations_match_60_40() {
    let s = SubAllocations::new();
    assert_eq!(s.us_stock_large, 12_000);
    assert_eq!(s.int_emerging_stock, 6_000);
    assert_eq!(s.int_bond, 12_000);
}

#[test]
fn retirement_looks_up_the_glide_path() {
    let glide = vec![
        GlideEntry { retirement_year: 2035, stock_bp: 8_000, bond_bp: 2_000, inflation_bp: 0 },
        GlideEntry { retirement_year: 2045, stock_bp: 9_000, bond_bp: 1_000, inflation_bp: 0 },
    ];
    let a = Allocations::retirement(2045, &glide).unwrap();
    assert_eq!((a.stock_bp, a.bond_bp), (9_000, 1_000));
}

#[test]
fn retirement_unknown_year_is_an_error() {
    let glide = vec![GlideEntry {
        retirement_year: 2035,
        stock_bp: 8_000,
        bond_bp: 2_000,
        inflation_bp: 0,
    }];
    assert_eq!(
        Allocations::retirement(2050, &glide),
        Err(RebalanceError::UnknownRetirementYear)
    );
    assert_eq!(
        Allocations::retirement(2050, &Vec::new()),
        Err(RebalanceError::UnknownRetirementYear)
    );
}

#[test]
fn retirement_invalid_glide_entry_is_a_configuration_error() {
    let glide = vec![GlideEntry {
        retirement_year: 2035,
        stock_bp: 8_000,
        bond_bp: 3_000,
        inflation_bp: 0,
    }];
    assert_eq!(
        Allocations::retirement(2035, &glide),
        Err(RebalanceError::InvalidAllocation)
    );
}

#[test]
fn error_messages_name_the_failure() {
    assert_eq!(
        RebalanceError::InvalidAllocation.message(),
        "stock, bond and inflation-protected percentages must sum to 100"
    );
    assert_eq!(
        RebalanceError::RothLeftoverBudget.message(),
        "Unexpected leftover roth cash"
    );
}
