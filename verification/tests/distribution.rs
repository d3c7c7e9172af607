//! Tests of the required-minimum-distribution lookup.

use vapore::calc::{calculate_minimum_distribution, DistributionEntry};

fn irs_rows() -> Vec<DistributionEntry> {
    vec![
        DistributionEntry { age: 72, divisor: 2_740 },
        DistributionEntry { age: 73, divisor: 2_650 },
        DistributionEntry { age: 74, divisor: 2_550 },
    ]
}

#[test]
fn distribution_divides_by_the_period_for_the_age() {
    // $100,000 at age 73 with a 26.5 year period: $3,773.58.
    let r = calculate_minimum_distribution(73, 10_000_000, &irs_rows());
    assert_eq!(r, 377_358);
}

#[test]
fn distribution_for_unlisted_age_is_zero() {
    // Age 75 has no entry in the table: no distribution, not an error.
    let r = calculate_minimum_distribution(75, 10_000_000, &irs_rows());
    assert_eq!(r, 0);
    assert_eq!(calculate_minimum_distribution(75, 10_000_000, &Vec::new()), 0);
}

#[test]
fn distribution_of_empty_account_is_zero() {
    assert_eq!(calculate_minimum_distribution(73, 0, &irs_rows()), 0);
}

#[test]
fn later_duplicate_row_wins() {
    let table = vec![
        DistributionEntry { age: 73, divisor: 2_650 },
        DistributionEntry { age: 73, divisor: 2_000 },
    ];
    let r = calculate_minimum_distribution(73, 10_000_000, &table);
    assert_eq!(r, 500_000);
}
