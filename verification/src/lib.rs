//! Verified core of a Bitcoin-collateralized loan simulator.
//!
//! All monetary quantities are held as exact integers: BTC amounts in
//! satoshis, USD amounts in cents, and rates in basis points (one basis
//! point is one hundredth of a percent). The equated-monthly-installment
//! (EMI) engine, the Monte-Carlo price-path generator and the simulation
//! aggregator are verified against exact integer contracts.

use vstd::prelude::*;

pub mod emi;
pub mod loan_simulation;
pub mod random_price;

verus! {

/// Number of satoshis in one BTC.
pub const SATS_PER_BTC: u64 = 100_000_000;

/// Number of basis points in one hundred percent.
pub const BPS_PER_UNIT: u32 = 10_000;

/// How a simulation request can fail.
#[derive(Clone, Copy, Debug, PartialEq, Eq, Structural)]
pub enum SimError {
    /// A parameter lies outside its documented domain.
    Validation,
    /// An intermediate quantity does not fit the integer range the
    /// engine computes in.
    Arithmetic,
}

/// Entry point for callers outside the crate: runs one full simulation
/// from plain numeric parameters.
pub fn call_simulate(
    principal_btc_sats: u64,
    price_at_loan_time_usd_cents: u64,
    monthly_interest_rate_bps: u32,
    risk_percentage_bps: u32,
    loan_time_in_months: u32,
) -> (r: Result<loan_simulation::SimulationResult, SimError>)
    ensures
        loan_simulation::spec_run_simulation_post(
            emi::LoanParams {
                principal_btc_sats,
                price_at_loan_time_usd_cents,
                monthly_interest_rate_bps,
                risk_percentage_bps,
                loan_time_in_months,
            },
            r,
        ),
{
    loan_simulation::run_simulation(
        principal_btc_sats,
        price_at_loan_time_usd_cents,
        monthly_interest_rate_bps,
        risk_percentage_bps,
        loan_time_in_months,
    )
}

/// Entry point for callers outside the crate: computes one month's
/// installments from plain numeric parameters, for a spot quote at an
/// arbitrary current price without running a full simulation.
pub fn call_calculate_emi(
    principal_btc_sats: u64,
    price_at_loan_time_usd_cents: u64,
    monthly_interest_rate_bps: u32,
    risk_percentage_bps: u32,
    loan_time_in_months: u32,
    current_price_usd_cents: u64,
) -> (r: Result<emi::EmiResult, SimError>)
    ensures
        emi::spec_calculate_emi_post(
            emi::LoanParams {
                principal_btc_sats,
                price_at_loan_time_usd_cents,
                monthly_interest_rate_bps,
                risk_percentage_bps,
                loan_time_in_months,
            },
            current_price_usd_cents as int,
            r,
        ),
{
    let params = emi::LoanParams {
        principal_btc_sats,
        price_at_loan_time_usd_cents,
        monthly_interest_rate_bps,
        risk_percentage_bps,
        loan_time_in_months,
    };
    emi::calculate_emi(&params, current_price_usd_cents)
}

} // verus!
