use sbtc_loan_simulator::random_price::{
    historical_change_bps, price_path_from_changes, simulate_monthly_price,
    HISTORICAL_CHANGE_COUNT,
};

#[test]
fn path_from_changes_exact_values() {
    // A rise of 9.54%, a fall of 17.5%, the table's large outlier of
    // +334.6%, the table's largest fall of 44.4%, and a fall of 0.01%,
    // applied to $50,000.00; each step rounds up.
    let changes: Vec<i32> = vec![954, -1750, 33460, -4440, -1];
    let prices = price_path_from_changes(5_000_000, &changes);
    assert_eq!(
        prices,
        vec![5_477_000, 4_518_525, 19_637_510, 10_918_456, 10_917_365]
    );
}

#[test]
fn path_from_changes_empty() {
    let changes: Vec<i32> = Vec::new();
    let prices = price_path_from_changes(5_000_000, &changes);
    assert!(prices.is_empty());
}

#[test]
fn path_from_changes_keeps_tiny_price_positive() {
    // Even a price of one cent survives the largest fall in the table.
    let changes: Vec<i32> = vec![-4440, -4440, -4440, -4440, -4440];
    let prices = price_path_from_changes(1, &changes);
    assert_eq!(prices.len(), 5);
    for p in prices.iter() {
        assert!(*p > 0);
    }
}

#[test]
fn path_from_changes_saturates_instead_of_overflowing() {
    let changes: Vec<i32> = vec![33460, 33460, 33460];
    let prices = price_path_from_changes(u64::MAX - 1, &changes);
    assert_eq!(prices, vec![u64::MAX, u64::MAX, u64::MAX]);
}

#[test]
fn simulated_path_has_requested_length_and_positive_prices() {
    let prices = simulate_monthly_price(5_000_000, 24);
    assert_eq!(prices.len(), 24);
    for p in prices.iter() {
        assert!(*p > 0);
    }
}

#[test]
fn simulated_path_applies_a_real_change() {
    // Every table entry changes a large price by at least one basis
    // point, so the first simulated month never echoes the base price.
    let base: u64 = 1_000_000_000_000;
    let prices = simulate_monthly_price(base, 1);
    assert_eq!(prices.len(), 1);
    assert_ne!(prices[0], base);
}

#[test]
fn historical_table_entries_are_bounded() {
    let mut smallest: i32 = i32::MAX;
    let mut largest: i32 = i32::MIN;
    for i in 0..HISTORICAL_CHANGE_COUNT {
        let c = historical_change_bps(i);
        assert!(c > -10_000);
        if c < smallest {
            smallest = c;
        }
        if c > largest {
            largest = c;
        }
    }
    // The documented extremes: a fall of 44.4% and a rise of 334.6%.
    assert_eq!(smallest, -4_440);
    assert_eq!(largest, 33_460);
}
