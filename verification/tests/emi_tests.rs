use sbtc_loan_simulator::emi::{calculate_emi, EmiResult, LoanParams};
use sbtc_loan_simulator::{call_calculate_emi, SimError, BPS_PER_UNIT, SATS_PER_BTC};

fn params(
    principal_btc_sats: u64,
    price_at_loan_time_usd_cents: u64,
    monthly_interest_rate_bps: u32,
    risk_percentage_bps: u32,
    loan_time_in_months: u32,
) -> LoanParams {
    LoanParams {
        principal_btc_sats,
        price_at_loan_time_usd_cents,
        monthly_interest_rate_bps,
        risk_percentage_bps,
        loan_time_in_months,
    }
}

#[test]
fn emi_concrete_low_rate_scenario() {
    // 1 BTC at $50,000.00, 0.01% monthly interest, 0.05% in the fixed
    // tranche, 12 months, quoted at the origination price.
    let p = params(100_000_000, 5_000_000, 1, 5, 12);
    let r = calculate_emi(&p, 5_000_000).unwrap();
    assert_eq!(r.btc_fixed_monthly_emi_sats, 4_171);
    assert_eq!(r.btc_variable_monthly_emi_sats, 8_339_140);
    assert_eq!(r.total_emi_in_btc_sats, 8_343_311);
    assert_eq!(r.total_emi_in_usd_cents, 417_165);
}

#[test]
fn emi_concrete_moderate_scenario() {
    // 1 BTC at $100,000.00, 1% monthly interest, half the principal in
    // the fixed tranche, 18 months, quoted at $80,000.00.
    let p = params(100_000_000, 10_000_000, 100, 5_000, 18);
    let r = calculate_emi(&p, 8_000_000).unwrap();
    assert_eq!(r.btc_fixed_monthly_emi_sats, 3_322_631);
    assert_eq!(r.btc_variable_monthly_emi_sats, 4_153_275);
    assert_eq!(r.total_emi_in_btc_sats, 7_475_906);
    assert_eq!(r.total_emi_in_usd_cents, 598_072);
}

#[test]
fn emi_zero_rate_is_simple_division() {
    // 2.5 BTC at $30,000.00, no interest, 40% fixed, 10 months.
    let p = params(250_000_000, 3_000_000, 0, 4_000, 10);
    let r = calculate_emi(&p, 2_000_000).unwrap();
    // Fixed tranche principal: 40% of 250,000,000 sats.
    assert_eq!(r.btc_fixed_monthly_emi_sats, 100_000_000 / 10);
    // Variable tranche principal: 60% of $7,500.00, paid at $20,000.00.
    assert_eq!(r.btc_variable_monthly_emi_sats, 450_000 * 100_000_000 / 2_000_000);
    assert_eq!(r.total_emi_in_btc_sats, 32_500_000);
    assert_eq!(r.total_emi_in_usd_cents, 650_000);
}

#[test]
fn emi_full_risk_has_no_variable_tranche() {
    let p = params(100_000_000, 5_000_000, 100, BPS_PER_UNIT, 12);
    let r = calculate_emi(&p, 7_777_777).unwrap();
    assert_eq!(r.btc_variable_monthly_emi_sats, 0);
    assert_eq!(r.btc_fixed_monthly_emi_sats, 9_390_208);
    assert_eq!(r.total_emi_in_btc_sats, 9_390_208);
    assert_eq!(r.total_emi_in_usd_cents, 730_349);
}

#[test]
fn emi_zero_risk_has_no_fixed_tranche() {
    let p = params(100_000_000, 5_000_000, 100, 0, 12);
    let r = calculate_emi(&p, 7_777_777).unwrap();
    assert_eq!(r.btc_fixed_monthly_emi_sats, 0);
    assert_eq!(r.btc_variable_monthly_emi_sats, 6_036_557);
    assert_eq!(r.total_emi_in_btc_sats, 6_036_557);
    assert_eq!(r.total_emi_in_usd_cents, 469_509);
}

#[test]
fn emi_total_is_sum_of_tranches() {
    let cases = [
        (100_000_000u64, 5_000_000u64, 1u32, 5u32, 12u32, 5_000_000u64),
        (100_000_000, 10_000_000, 100, 5_000, 18, 8_000_000),
        (250_000_000, 3_000_000, 0, 4_000, 10, 2_000_000),
        (1, 1, 0, 0, 1, 1),
        (123_456_789, 9_876_543, 250, 7_331, 36, 11_111_111),
    ];
    for &(principal, price0, rate, risk, months, current) in cases.iter() {
        let p = params(principal, price0, rate, risk, months);
        let r = calculate_emi(&p, current).unwrap();
        assert_eq!(
            r.total_emi_in_btc_sats,
            r.btc_fixed_monthly_emi_sats + r.btc_variable_monthly_emi_sats
        );
        assert_eq!(
            r.total_emi_in_usd_cents,
            r.total_emi_in_btc_sats * (current as u128) / (SATS_PER_BTC as u128)
        );
    }
}

#[test]
fn emi_rejects_zero_loan_term() {
    let p = params(100_000_000, 5_000_000, 100, 5_000, 0);
    assert_eq!(calculate_emi(&p, 5_000_000), Err(SimError::Validation));
}

#[test]
fn emi_rejects_zero_principal() {
    let p = params(0, 5_000_000, 100, 5_000, 12);
    assert_eq!(calculate_emi(&p, 5_000_000), Err(SimError::Validation));
}

#[test]
fn emi_rejects_zero_origination_price() {
    let p = params(100_000_000, 0, 100, 5_000, 12);
    assert_eq!(calculate_emi(&p, 5_000_000), Err(SimError::Validation));
}

#[test]
fn emi_rejects_risk_above_one_hundred_percent() {
    let p = params(100_000_000, 5_000_000, 100, BPS_PER_UNIT + 1, 12);
    assert_eq!(calculate_emi(&p, 5_000_000), Err(SimError::Validation));
}

#[test]
fn emi_rejects_zero_current_price() {
    let p = params(100_000_000, 5_000_000, 100, 5_000, 12);
    assert_eq!(calculate_emi(&p, 0), Err(SimError::Validation));
}

#[test]
fn emi_reports_arithmetic_overflow() {
    // Compounding the whole principal at an enormous rate leaves the
    // u128 range after a few months.
    let p = params(u64::MAX, u64::MAX, u32::MAX, BPS_PER_UNIT, 12);
    assert_eq!(calculate_emi(&p, u64::MAX), Err(SimError::Arithmetic));
}

#[test]
fn emi_is_deterministic() {
    let p = params(123_456_789, 9_876_543, 250, 7_331, 36);
    let r1: EmiResult = calculate_emi(&p, 11_111_111).unwrap();
    let r2: EmiResult = calculate_emi(&p, 11_111_111).unwrap();
    assert_eq!(r1, r2);
}

#[test]
fn call_calculate_emi_matches_calculate_emi() {
    let p = params(100_000_000, 10_000_000, 100, 5_000, 18);
    let direct = calculate_emi(&p, 8_000_000).unwrap();
    let exported = call_calculate_emi(100_000_000, 10_000_000, 100, 5_000, 18, 8_000_000).unwrap();
    assert_eq!(direct, exported);
}

#[test]
fn call_calculate_emi_rejects_invalid_input() {
    assert_eq!(
        call_calculate_emi(100_000_000, 5_000_000, 100, 5_000, 0, 5_000_000),
        Err(SimError::Validation)
    );
}
