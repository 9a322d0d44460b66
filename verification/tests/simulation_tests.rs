use sbtc_loan_simulator::emi::{calculate_emi, LoanParams};
use sbtc_loan_simulator::loan_simulation::{run_simulation, run_simulation_with_prices};
use sbtc_loan_simulator::{call_simulate, SimError, SATS_PER_BTC};

fn params(
    principal_btc_sats: u64,
    price_at_loan_time_usd_cents: u64,
    monthly_interest_rate_bps: u32,
    risk_percentage_bps: u32,
    loan_time_in_months: u32,
) -> LoanParams {
    LoanParams {
        principal_btc_sats,
        price_at_loan_time_usd_cents,
        monthly_interest_rate_bps,
        risk_percentage_bps,
        loan_time_in_months,
    }
}

#[test]
fn simulation_with_injected_path_exact_values() {
    // 1 BTC at $50,000.00, 1% monthly interest, half the principal in
    // the fixed tranche, over a fixed three-month path.
    let p = params(100_000_000, 5_000_000, 100, 5_000, 3);
    let prices: Vec<u64> = vec![5_000_000, 6_000_000, 4_000_000];
    let r = run_simulation_with_prices(&p, &prices).unwrap();
    assert_eq!(r.total_repayment_in_usd_cents, 5_151_503);
    assert_eq!(r.total_repayment_in_btc_sats, 104_461_062);
    assert_eq!(r.total_fixed_emi_sats, 51_515_049);
    assert_eq!(r.total_variable_emi_sats, 52_946_013);
    assert_eq!(r.months.len(), 3);
    let expected = [
        (1u32, 5_000_000u64, 34_343_363u128, 1_717_168u128),
        (2, 6_000_000, 31_481_416, 1_888_884),
        (3, 4_000_000, 38_636_283, 1_545_451),
    ];
    for (entry, &(month, price, emi_sats, emi_usd)) in r.months.iter().zip(expected.iter()) {
        assert_eq!(entry.month, month);
        assert_eq!(entry.btc_price_usd_cents, price);
        assert_eq!(entry.monthly_emi_btc_sats, emi_sats);
        assert_eq!(entry.monthly_emi_usd_cents, emi_usd);
    }
}

#[test]
fn simulation_with_injected_path_rejects_wrong_length() {
    let p = params(100_000_000, 5_000_000, 100, 5_000, 3);
    let prices: Vec<u64> = vec![5_000_000, 6_000_000];
    assert_eq!(
        run_simulation_with_prices(&p, &prices),
        Err(SimError::Validation)
    );
}

#[test]
fn simulation_with_injected_path_rejects_zero_price() {
    let p = params(100_000_000, 5_000_000, 100, 5_000, 3);
    let prices: Vec<u64> = vec![5_000_000, 0, 4_000_000];
    assert_eq!(
        run_simulation_with_prices(&p, &prices),
        Err(SimError::Validation)
    );
}

#[test]
fn simulation_with_injected_path_rejects_invalid_params() {
    let p = params(100_000_000, 5_000_000, 100, 5_000, 0);
    let prices: Vec<u64> = Vec::new();
    assert_eq!(
        run_simulation_with_prices(&p, &prices),
        Err(SimError::Validation)
    );
}

#[test]
fn simulation_with_injected_path_reports_overflow() {
    let p = params(u64::MAX, u64::MAX, u32::MAX, 10_000, 2);
    let prices: Vec<u64> = vec![u64::MAX, u64::MAX];
    assert_eq!(
        run_simulation_with_prices(&p, &prices),
        Err(SimError::Arithmetic)
    );
}

#[test]
fn simulation_entries_sum_to_totals() {
    let r = run_simulation(100_000_000, 5_000_000, 100, 5_000, 24).unwrap();
    assert_eq!(r.months.len(), 24);
    let mut sum_usd: u128 = 0;
    let mut sum_sats: u128 = 0;
    for (i, entry) in r.months.iter().enumerate() {
        assert_eq!(entry.month as usize, i + 1);
        assert!(entry.btc_price_usd_cents > 0);
        sum_usd += entry.monthly_emi_usd_cents;
        sum_sats += entry.monthly_emi_btc_sats;
    }
    assert_eq!(r.total_repayment_in_usd_cents, sum_usd);
    assert_eq!(r.total_repayment_in_btc_sats, sum_sats);
    assert_eq!(
        r.total_repayment_in_btc_sats,
        r.total_fixed_emi_sats + r.total_variable_emi_sats
    );
}

#[test]
fn simulation_entries_match_their_own_prices() {
    let p = params(100_000_000, 5_000_000, 100, 5_000, 12);
    let r = run_simulation(100_000_000, 5_000_000, 100, 5_000, 12).unwrap();
    for entry in r.months.iter() {
        let emi = calculate_emi(&p, entry.btc_price_usd_cents).unwrap();
        assert_eq!(entry.monthly_emi_btc_sats, emi.total_emi_in_btc_sats);
        assert_eq!(entry.monthly_emi_usd_cents, emi.total_emi_in_usd_cents);
        assert_eq!(
            emi.total_emi_in_usd_cents,
            emi.total_emi_in_btc_sats * (entry.btc_price_usd_cents as u128)
                / (SATS_PER_BTC as u128)
        );
    }
}

#[test]
fn simulation_rejects_zero_loan_term() {
    assert_eq!(
        run_simulation(100_000_000, 5_000_000, 100, 5_000, 0),
        Err(SimError::Validation)
    );
}

#[test]
fn simulation_rejects_zero_principal() {
    assert_eq!(
        run_simulation(0, 5_000_000, 100, 5_000, 12),
        Err(SimError::Validation)
    );
}

#[test]
fn call_simulate_produces_a_full_breakdown() {
    let r = call_simulate(100_000_000, 5_000_000, 100, 5_000, 6).unwrap();
    assert_eq!(r.months.len(), 6);
    for entry in r.months.iter() {
        assert!(entry.btc_price_usd_cents > 0);
    }
}

#[test]
fn call_simulate_rejects_invalid_input() {
    assert_eq!(
        call_simulate(100_000_000, 0, 100, 5_000, 6),
        Err(SimError::Validation)
    );
}
