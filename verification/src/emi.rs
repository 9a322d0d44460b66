//! Equated-monthly-installment (EMI) engine.
//!
//! A loan's principal is split between a fixed tranche repaid in BTC and a
//! variable tranche whose USD value is converted to BTC at each month's
//! observed price. Both tranches are compounded once over the full term and
//! divided into equal installments. All arithmetic is exact integer
//! arithmetic; every division rounds toward zero on the non-negative
//! operands used here.

use vstd::prelude::*;
use vstd::arithmetic::div_mod::{
    lemma_div_is_ordered, lemma_div_of0, lemma_div_pos_is_pos, lemma_div_multiples_vanish,
};
use crate::{BPS_PER_UNIT, SATS_PER_BTC, SimError};

verus! {

/// Parameters of one loan, fixed at origination.
#[derive(Clone, Copy, Debug, PartialEq, Eq, Structural)]
pub struct LoanParams {
    /// Loan principal, in satoshis.
    pub principal_btc_sats: u64,
    /// BTC/USD price at origination, in USD cents per BTC.
    pub price_at_loan_time_usd_cents: u64,
    /// Nominal monthly compounding rate, in basis points.
    pub monthly_interest_rate_bps: u32,
    /// Share of the principal allocated to the fixed tranche, in basis
    /// points of the whole principal; at most `BPS_PER_UNIT`.
    pub risk_percentage_bps: u32,
    /// Number of equal installments; at least one.
    pub loan_time_in_months: u32,
}

/// One month's installment amounts.
#[derive(Clone, Copy, Debug, PartialEq, Eq, Structural)]
pub struct EmiResult {
    /// Fixed-tranche installment, in satoshis.
    pub btc_fixed_monthly_emi_sats: u128,
    /// Variable-tranche installment converted at the current price, in
    /// satoshis.
    pub btc_variable_monthly_emi_sats: u128,
    /// Sum of the two installments, in satoshis.
    pub total_emi_in_btc_sats: u128,
    /// The total installment converted back at the current price, in USD
    /// cents.
    pub total_emi_in_usd_cents: u128,
}

/// The documented domain of `LoanParams`.
pub open spec fn spec_valid_params(p: LoanParams) -> bool {
    &&& p.principal_btc_sats > 0
    &&& p.price_at_loan_time_usd_cents > 0
    &&& p.risk_percentage_bps <= BPS_PER_UNIT
    &&& p.loan_time_in_months > 0
}

/// One month of compounding: multiply by `BPS_PER_UNIT + rate_bps` basis
/// points, rounding the quotient down.
pub open spec fn spec_compound_step(amount: int, rate_bps: int) -> int {
    (amount * (BPS_PER_UNIT + rate_bps)) / (BPS_PER_UNIT as int)
}

/// `amount` compounded over `months` months at `rate_bps` per month.
pub open spec fn spec_compound(amount: int, rate_bps: int, months: nat) -> int
    decreases months,
{
    if months == 0 {
        amount
    } else {
        spec_compound(spec_compound_step(amount, rate_bps), rate_bps, (months - 1) as nat)
    }
}

/// Whether compounding `amount` over `months` months leaves the `u128`
/// range at some step.
pub open spec fn spec_compound_overflows(amount: int, rate_bps: int, months: nat) -> bool
    decreases months,
{
    months > 0 && (amount * (BPS_PER_UNIT + rate_bps) > u128::MAX
        || spec_compound_overflows(
            spec_compound_step(amount, rate_bps),
            rate_bps,
            (months - 1) as nat,
        ))
}

/// USD value of the principal at origination, in cents.
pub open spec fn spec_principal_usd_cents(p: LoanParams) -> int {
    (p.principal_btc_sats * p.price_at_loan_time_usd_cents) / (SATS_PER_BTC as int)
}

/// Fixed-tranche principal, in satoshis.
pub open spec fn spec_fixed_principal_sats(p: LoanParams) -> int {
    (p.risk_percentage_bps * p.principal_btc_sats) / (BPS_PER_UNIT as int)
}

/// Variable-tranche principal, in USD cents.
pub open spec fn spec_variable_principal_usd_cents(p: LoanParams) -> int {
    ((BPS_PER_UNIT - p.risk_percentage_bps) * spec_principal_usd_cents(p))
        / (BPS_PER_UNIT as int)
}

/// Fixed-tranche monthly installment, in satoshis: the fixed principal
/// compounded over the full term, divided into equal installments.
pub open spec fn spec_fixed_monthly_emi_sats(p: LoanParams) -> int {
    spec_compound(
        spec_fixed_principal_sats(p),
        p.monthly_interest_rate_bps as int,
        p.loan_time_in_months as nat,
    ) / (p.loan_time_in_months as int)
}

/// Variable-tranche monthly installment, in USD cents.
pub open spec fn spec_variable_monthly_usd_cents(p: LoanParams) -> int {
    spec_compound(
        spec_variable_principal_usd_cents(p),
        p.monthly_interest_rate_bps as int,
        p.loan_time_in_months as nat,
    ) / (p.loan_time_in_months as int)
}

/// Variable-tranche monthly installment converted to satoshis at the
/// current price.
pub open spec fn spec_variable_monthly_emi_sats(p: LoanParams, current_price: int) -> int {
    (spec_variable_monthly_usd_cents(p) * SATS_PER_BTC) / current_price
}

/// Total monthly installment, in satoshis.
pub open spec fn spec_total_emi_sats(p: LoanParams, current_price: int) -> int {
    spec_fixed_monthly_emi_sats(p) + spec_variable_monthly_emi_sats(p, current_price)
}

/// Total monthly installment converted back to USD cents at the current
/// price.
pub open spec fn spec_total_emi_usd_cents(p: LoanParams, current_price: int) -> int {
    (spec_total_emi_sats(p, current_price) * current_price) / (SATS_PER_BTC as int)
}

/// Whether computing the installments of one month leaves the `u128`
/// range at some step.
pub open spec fn spec_emi_overflows(p: LoanParams, current_price: int) -> bool {
    let rate = p.monthly_interest_rate_bps as int;
    let n = p.loan_time_in_months as nat;
    ||| spec_compound_overflows(spec_fixed_principal_sats(p), rate, n)
    ||| spec_compound_overflows(spec_variable_principal_usd_cents(p), rate, n)
    ||| spec_variable_monthly_usd_cents(p) * SATS_PER_BTC > u128::MAX
    ||| spec_fixed_monthly_emi_sats(p) + spec_variable_monthly_emi_sats(p, current_price)
        > u128::MAX
    ||| spec_total_emi_sats(p, current_price) * current_price > u128::MAX
}

proof fn lemma_mul_le(a: int, b: int, x: int, y: int) by (nonlinear_arith)
    requires
        0 <= a <= x,
        0 <= b <= y,
    ensures
        a * b <= x * y,
{
}

/// Compounding a zero amount yields zero, whatever the rate and term.
pub proof fn lemma_compound_of_zero(rate_bps: int, months: nat)
    requires
        rate_bps >= 0,
    ensures
        spec_compound(0, rate_bps, months) == 0,
    decreases months,
{
    if months > 0 {
        assert(spec_compound_step(0, rate_bps) == 0) by {
            lemma_div_of0(BPS_PER_UNIT as int);
        }
        lemma_compound_of_zero(rate_bps, (months - 1) as nat);
    }
}

/// Compounding at a zero rate returns the amount unchanged, whatever
/// the term.
pub proof fn lemma_compound_at_zero_rate(amount: int, months: nat)
    ensures
        spec_compound(amount, 0, months) == amount,
    decreases months,
{
    if months > 0 {
        assert(spec_compound_step(amount, 0) == amount) by {
            lemma_div_multiples_vanish(amount, BPS_PER_UNIT as int);
            assert(amount * (BPS_PER_UNIT as int) == (BPS_PER_UNIT as int) * amount);
        }
        lemma_compound_at_zero_rate(amount, (months - 1) as nat);
    }
}

/// Compounding keeps a non-negative amount non-negative.
pub proof fn lemma_compound_nonneg(amount: int, rate_bps: int, months: nat)
    requires
        amount >= 0,
        rate_bps >= 0,
    ensures
        spec_compound(amount, rate_bps, months) >= 0,
    decreases months,
{
    if months > 0 {
        assert(spec_compound_step(amount, rate_bps) >= 0) by {
            lemma_mul_le(0, 0, amount, BPS_PER_UNIT + rate_bps);
            lemma_div_pos_is_pos(amount * (BPS_PER_UNIT + rate_bps), BPS_PER_UNIT as int);
        }
        lemma_compound_nonneg(spec_compound_step(amount, rate_bps), rate_bps, (months - 1) as nat);
    }
}

/// `amount` compounded over `months` months, or `None` when an
/// intermediate product leaves the `u128` range.
fn compound(amount: u128, rate_bps: u32, months: u32) -> (r: Option<u128>)
    ensures
        r is None <==> spec_compound_overflows(amount as int, rate_bps as int, months as nat),
        r matches Some(v) ==> v == spec_compound(amount as int, rate_bps as int, months as nat),
{
    let factor: u128 = (BPS_PER_UNIT as u128) + (rate_bps as u128);
    let mut cur: u128 = amount;
    let mut k: u32 = 0;
    while k < months
        invariant
            k <= months,
            factor == BPS_PER_UNIT + rate_bps,
            spec_compound(amount as int, rate_bps as int, months as nat)
                == spec_compound(cur as int, rate_bps as int, (months - k) as nat),
            spec_compound_overflows(amount as int, rate_bps as int, months as nat)
                == spec_compound_overflows(cur as int, rate_bps as int, (months - k) as nat),
        decreases months - k,
    {
        match cur.checked_mul(factor) {
            Some(grown) => {
                cur = grown / (BPS_PER_UNIT as u128);
            },
            None => {
                return None;
            },
        }
        k = k + 1;
    }
    Some(cur)
}

/// What `calculate_emi` promises of its result: a validation error
/// exactly on inputs outside the domain, an arithmetic error exactly
/// when an intermediate quantity leaves the `u128` range, and otherwise
/// the exact integer installments.
pub open spec fn spec_calculate_emi_post(
    p: LoanParams,
    current_price: int,
    r: Result<EmiResult, SimError>,
) -> bool {
    &&& (r == Result::<EmiResult, SimError>::Err(SimError::Validation) <==> !(spec_valid_params(p)
        && current_price > 0))
    &&& (spec_valid_params(p) && current_price > 0 ==> (r == Result::<
        EmiResult,
        SimError,
    >::Err(SimError::Arithmetic) <==> spec_emi_overflows(p, current_price)))
    &&& (r matches Ok(emi) ==> {
        &&& spec_valid_params(p)
        &&& current_price > 0
        &&& !spec_emi_overflows(p, current_price)
        &&& emi.btc_fixed_monthly_emi_sats == spec_fixed_monthly_emi_sats(p)
        &&& emi.btc_variable_monthly_emi_sats == spec_variable_monthly_emi_sats(p, current_price)
        &&& emi.total_emi_in_btc_sats == spec_total_emi_sats(p, current_price)
        &&& emi.total_emi_in_usd_cents == spec_total_emi_usd_cents(p, current_price)
    })
}

/// Computes one month's fixed and variable installments.
///
/// Rejects parameters outside their domain before any computation; a
/// valid request fails only when an intermediate quantity leaves the
/// `u128` range, and otherwise returns the exact integer installments.
pub fn calculate_emi(params: &LoanParams, current_price_usd_cents: u64) -> (r: Result<
    EmiResult,
    SimError,
>)
    ensures
        spec_calculate_emi_post(*params, current_price_usd_cents as int, r),
{
    if params.principal_btc_sats == 0 || params.price_at_loan_time_usd_cents == 0
        || params.risk_percentage_bps > BPS_PER_UNIT || params.loan_time_in_months == 0
        || current_price_usd_cents == 0 {
        return Err(SimError::Validation);
    }
    let rate = params.monthly_interest_rate_bps;
    let months = params.loan_time_in_months;

    proof {
        lemma_mul_le(
            params.principal_btc_sats as int,
            params.price_at_loan_time_usd_cents as int,
            u64::MAX as int,
            u64::MAX as int,
        );
    }
    let principal_usd: u128 = (params.principal_btc_sats as u128)
        * (params.price_at_loan_time_usd_cents as u128) / (SATS_PER_BTC as u128);

    proof {
        lemma_mul_le(
            params.risk_percentage_bps as int,
            params.principal_btc_sats as int,
            BPS_PER_UNIT as int,
            u64::MAX as int,
        );
    }
    let fixed_principal: u128 = (params.risk_percentage_bps as u128)
        * (params.principal_btc_sats as u128) / (BPS_PER_UNIT as u128);

    proof {
        lemma_div_is_ordered(
            params.principal_btc_sats * params.price_at_loan_time_usd_cents,
            (u64::MAX as int) * (u64::MAX as int),
            SATS_PER_BTC as int,
        );
        lemma_mul_le(
            (BPS_PER_UNIT - params.risk_percentage_bps) as int,
            principal_usd as int,
            BPS_PER_UNIT as int,
            ((u64::MAX as int) * (u64::MAX as int)) / (SATS_PER_BTC as int),
        );
        lemma_div_pos_is_pos(
            params.principal_btc_sats * params.price_at_loan_time_usd_cents,
            SATS_PER_BTC as int,
        );
    }
    let variable_principal: u128 = ((BPS_PER_UNIT - params.risk_percentage_bps) as u128)
        * principal_usd / (BPS_PER_UNIT as u128);

    let fixed_with_interest: u128 = match compound(fixed_principal, rate, months) {
        Some(v) => v,
        None => {
            return Err(SimError::Arithmetic);
        },
    };
    let variable_with_interest: u128 = match compound(variable_principal, rate, months) {
        Some(v) => v,
        None => {
            return Err(SimError::Arithmetic);
        },
    };

    let btc_fixed_monthly_emi_sats: u128 = fixed_with_interest / (months as u128);
    let variable_monthly_usd: u128 = variable_with_interest / (months as u128);

    let btc_variable_monthly_emi_sats: u128 = match variable_monthly_usd.checked_mul(
        SATS_PER_BTC as u128,
    ) {
        Some(v) => v / (current_price_usd_cents as u128),
        None => {
            return Err(SimError::Arithmetic);
        },
    };

    let total_emi_in_btc_sats: u128 = match btc_fixed_monthly_emi_sats.checked_add(
        btc_variable_monthly_emi_sats,
    ) {
        Some(v) => v,
        None => {
            return Err(SimError::Arithmetic);
        },
    };

    let total_emi_in_usd_cents: u128 = match total_emi_in_btc_sats.checked_mul(
        current_price_usd_cents as u128,
    ) {
        Some(v) => v / (SATS_PER_BTC as u128),
        None => {
            return Err(SimError::Arithmetic);
        },
    };

    Ok(
        EmiResult {
            btc_fixed_monthly_emi_sats,
            btc_variable_monthly_emi_sats,
            total_emi_in_btc_sats,
            total_emi_in_usd_cents,
        },
    )
}

/// For every loan and every current price, the total installment in
/// satoshis is exactly the sum of the fixed and the variable tranche,
/// and the USD total is exactly the satoshi total converted at the
/// current price.
pub proof fn lemma_total_emi_decomposition(p: LoanParams, current_price: int)
    ensures
        spec_total_emi_sats(p, current_price) == spec_fixed_monthly_emi_sats(p)
            + spec_variable_monthly_emi_sats(p, current_price),
        spec_total_emi_usd_cents(p, current_price) == (spec_total_emi_sats(p, current_price)
            * current_price) / (SATS_PER_BTC as int),
{
}

/// With the whole principal in the fixed tranche, the variable
/// installment is zero at every current price.
pub proof fn lemma_full_risk_no_variable_emi(p: LoanParams, current_price: int)
    requires
        spec_valid_params(p),
        p.risk_percentage_bps == BPS_PER_UNIT,
        current_price > 0,
    ensures
        spec_variable_monthly_emi_sats(p, current_price) == 0,
{
    assert(spec_variable_principal_usd_cents(p) == 0) by {
        lemma_div_of0(BPS_PER_UNIT as int);
    }
    lemma_compound_of_zero(p.monthly_interest_rate_bps as int, p.loan_time_in_months as nat);
    lemma_div_of0(p.loan_time_in_months as int);
    assert(spec_variable_monthly_usd_cents(p) == 0);
    lemma_div_of0(current_price);
}

/// With none of the principal in the fixed tranche, the fixed
/// installment is zero.
pub proof fn lemma_zero_risk_no_fixed_emi(p: LoanParams)
    requires
        spec_valid_params(p),
        p.risk_percentage_bps == 0,
    ensures
        spec_fixed_monthly_emi_sats(p) == 0,
{
    assert(spec_fixed_principal_sats(p) == 0) by {
        lemma_div_of0(BPS_PER_UNIT as int);
    }
    lemma_compound_of_zero(p.monthly_interest_rate_bps as int, p.loan_time_in_months as nat);
    lemma_div_of0(p.loan_time_in_months as int);
}

/// At a zero interest rate the installments reduce to the plain
/// division of each tranche's principal by the number of months, with
/// no compounding growth.
pub proof fn lemma_zero_rate_simple_division(p: LoanParams)
    requires
        spec_valid_params(p),
        p.monthly_interest_rate_bps == 0,
    ensures
        spec_fixed_monthly_emi_sats(p) == spec_fixed_principal_sats(p) / (
        p.loan_time_in_months as int),
        spec_variable_monthly_usd_cents(p) == spec_variable_principal_usd_cents(p) / (
        p.loan_time_in_months as int),
{
    lemma_compound_at_zero_rate(spec_fixed_principal_sats(p), p.loan_time_in_months as nat);
    lemma_compound_at_zero_rate(spec_variable_principal_usd_cents(p), p.loan_time_in_months as nat);
}

/// The installment computation is a mathematical function of the loan
/// parameters and the current price: two results that both satisfy
/// `calculate_emi`'s success contract on the same inputs are equal in
/// every field.
pub proof fn lemma_calculate_emi_deterministic(
    p: LoanParams,
    current_price: int,
    r1: EmiResult,
    r2: EmiResult,
)
    requires
        r1.btc_fixed_monthly_emi_sats == spec_fixed_monthly_emi_sats(p),
        r1.btc_variable_monthly_emi_sats == spec_variable_monthly_emi_sats(p, current_price),
        r1.total_emi_in_btc_sats == spec_total_emi_sats(p, current_price),
        r1.total_emi_in_usd_cents == spec_total_emi_usd_cents(p, current_price),
        r2.btc_fixed_monthly_emi_sats == spec_fixed_monthly_emi_sats(p),
        r2.btc_variable_monthly_emi_sats == spec_variable_monthly_emi_sats(p, current_price),
        r2.total_emi_in_btc_sats == spec_total_emi_sats(p, current_price),
        r2.total_emi_in_usd_cents == spec_total_emi_usd_cents(p, current_price),
    ensures
        r1 == r2,
{
}

/// Every installment amount is non-negative for every valid loan and
/// positive current price.
pub proof fn lemma_emi_values_nonneg(p: LoanParams, current_price: int)
    requires
        spec_valid_params(p),
        current_price > 0,
    ensures
        spec_fixed_monthly_emi_sats(p) >= 0,
        spec_variable_monthly_emi_sats(p, current_price) >= 0,
        spec_total_emi_sats(p, current_price) >= 0,
        spec_total_emi_usd_cents(p, current_price) >= 0,
{
    let rate = p.monthly_interest_rate_bps as int;
    let n = p.loan_time_in_months as nat;
    assert(spec_fixed_principal_sats(p) >= 0) by {
        lemma_mul_le(0, 0, p.risk_percentage_bps as int, p.principal_btc_sats as int);
        lemma_div_pos_is_pos(p.risk_percentage_bps * p.principal_btc_sats, BPS_PER_UNIT as int);
    }
    assert(spec_principal_usd_cents(p) >= 0) by {
        lemma_mul_le(0, 0, p.principal_btc_sats as int, p.price_at_loan_time_usd_cents as int);
        lemma_div_pos_is_pos(
            p.principal_btc_sats * p.price_at_loan_time_usd_cents,
            SATS_PER_BTC as int,
        );
    }
    assert(spec_variable_principal_usd_cents(p) >= 0) by {
        lemma_mul_le(
            0,
            0,
            (BPS_PER_UNIT - p.risk_percentage_bps) as int,
            spec_principal_usd_cents(p),
        );
        lemma_div_pos_is_pos(
            (BPS_PER_UNIT - p.risk_percentage_bps) * spec_principal_usd_cents(p),
            BPS_PER_UNIT as int,
        );
    }
    lemma_compound_nonneg(spec_fixed_principal_sats(p), rate, n);
    lemma_div_pos_is_pos(
        spec_compound(spec_fixed_principal_sats(p), rate, n),
        p.loan_time_in_months as int,
    );
    lemma_compound_nonneg(spec_variable_principal_usd_cents(p), rate, n);
    lemma_div_pos_is_pos(
        spec_compound(spec_variable_principal_usd_cents(p), rate, n),
        p.loan_time_in_months as int,
    );
    assert(spec_variable_monthly_emi_sats(p, current_price) >= 0) by {
        lemma_mul_le(0, 0, spec_variable_monthly_usd_cents(p), SATS_PER_BTC as int);
        lemma_div_pos_is_pos(
            spec_variable_monthly_usd_cents(p) * SATS_PER_BTC,
            current_price,
        );
    }
    assert(spec_total_emi_usd_cents(p, current_price) >= 0) by {
        lemma_mul_le(0, 0, spec_total_emi_sats(p, current_price), current_price);
        lemma_div_pos_is_pos(
            spec_total_emi_sats(p, current_price) * current_price,
            SATS_PER_BTC as int,
        );
    }
}

} // verus!
