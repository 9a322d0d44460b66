//! Simulation aggregator.
//!
//! Drives the price-path generator over the whole loan term, computes
//! each month's installment with the EMI engine, and accumulates the
//! totals together with a per-month breakdown.

use vstd::prelude::*;
use crate::SimError;
use crate::emi::{
    calculate_emi, spec_emi_overflows, spec_total_emi_sats, spec_total_emi_usd_cents,
    spec_valid_params, lemma_emi_values_nonneg, EmiResult, LoanParams,
};
use crate::random_price::{simulate_monthly_price, spec_is_table_path};

verus! {

/// One simulated month: its 1-based index, the sampled price, and the
/// month's total installment in both denominations.
#[derive(Clone, Copy, Debug, PartialEq, Eq, Structural)]
pub struct MonthlySimulation {
    /// 1-based month index.
    pub month: u32,
    /// The BTC/USD price sampled for this month, in USD cents.
    pub btc_price_usd_cents: u64,
    /// This month's total installment, in satoshis.
    pub monthly_emi_btc_sats: u128,
    /// This month's total installment, in USD cents.
    pub monthly_emi_usd_cents: u128,
}

/// The outcome of one simulation run.
#[derive(Debug, PartialEq, Eq)]
pub struct SimulationResult {
    /// Total repayment over the whole term, in USD cents.
    pub total_repayment_in_usd_cents: u128,
    /// Total repayment over the whole term, in satoshis.
    pub total_repayment_in_btc_sats: u128,
    /// Total fixed-tranche repayment, in satoshis.
    pub total_fixed_emi_sats: u128,
    /// Total variable-tranche repayment, in satoshis.
    pub total_variable_emi_sats: u128,
    /// The per-month breakdown, in generation order.
    pub months: Vec<MonthlySimulation>,
}

/// The domain of `run_simulation_with_prices`: valid parameters and one
/// positive price per month of the term.
pub open spec fn spec_sim_inputs_ok(p: LoanParams, prices: Seq<u64>) -> bool {
    &&& spec_valid_params(p)
    &&& prices.len() == p.loan_time_in_months
    &&& forall|i: int| 0 <= i < prices.len() ==> prices[i] > 0
}

/// Sum of the monthly USD installments over a price path.
pub open spec fn spec_sum_total_usd(p: LoanParams, prices: Seq<u64>) -> int
    decreases prices.len(),
{
    if prices.len() == 0 {
        0
    } else {
        spec_sum_total_usd(p, prices.drop_last()) + spec_total_emi_usd_cents(
            p,
            prices.last() as int,
        )
    }
}

/// Sum of the monthly satoshi installments over a price path.
pub open spec fn spec_sum_total_sats(p: LoanParams, prices: Seq<u64>) -> int
    decreases prices.len(),
{
    if prices.len() == 0 {
        0
    } else {
        spec_sum_total_sats(p, prices.drop_last()) + spec_total_emi_sats(
            p,
            prices.last() as int,
        )
    }
}

/// Sum of the monthly fixed-tranche installments over a price path.
pub open spec fn spec_sum_fixed_sats(p: LoanParams, prices: Seq<u64>) -> int
    decreases prices.len(),
{
    if prices.len() == 0 {
        0
    } else {
        spec_sum_fixed_sats(p, prices.drop_last()) + crate::emi::spec_fixed_monthly_emi_sats(p)
    }
}

/// Sum of the monthly variable-tranche installments over a price path.
pub open spec fn spec_sum_variable_sats(p: LoanParams, prices: Seq<u64>) -> int
    decreases prices.len(),
{
    if prices.len() == 0 {
        0
    } else {
        spec_sum_variable_sats(p, prices.drop_last())
            + crate::emi::spec_variable_monthly_emi_sats(p, prices.last() as int)
    }
}

/// Whether aggregating over the given price path leaves the `u128`
/// range at some step.
pub open spec fn spec_simulation_overflows(p: LoanParams, prices: Seq<u64>) -> bool {
    ||| exists|i: int| 0 <= i < prices.len() && spec_emi_overflows(p, #[trigger] prices[i] as int)
    ||| spec_sum_total_usd(p, prices) > u128::MAX
    ||| spec_sum_total_sats(p, prices) > u128::MAX
    ||| spec_sum_fixed_sats(p, prices) > u128::MAX
    ||| spec_sum_variable_sats(p, prices) > u128::MAX
}

/// A price path the generator can hand to the aggregator for the given
/// parameters: one positive price per month of the term, each reached
/// from the origination price by steps of the historical table.
pub open spec fn spec_admissible_path(p: LoanParams, prices: Seq<u64>) -> bool {
    &&& spec_sim_inputs_ok(p, prices)
    &&& spec_is_table_path(p.price_at_loan_time_usd_cents as int, prices)
}

/// The prices recorded in a per-month breakdown, in order.
pub open spec fn spec_prices_of(entries: Seq<MonthlySimulation>) -> Seq<u64> {
    entries.map_values(|e: MonthlySimulation| e.btc_price_usd_cents)
}

/// Sum of the USD installments recorded in a per-month breakdown.
pub open spec fn spec_sum_entries_usd(entries: Seq<MonthlySimulation>) -> int
    decreases entries.len(),
{
    if entries.len() == 0 {
        0
    } else {
        spec_sum_entries_usd(entries.drop_last()) + entries.last().monthly_emi_usd_cents
    }
}

/// Sum of the satoshi installments recorded in a per-month breakdown.
pub open spec fn spec_sum_entries_sats(entries: Seq<MonthlySimulation>) -> int
    decreases entries.len(),
{
    if entries.len() == 0 {
        0
    } else {
        spec_sum_entries_sats(entries.drop_last()) + entries.last().monthly_emi_btc_sats
    }
}

/// A per-month breakdown whose entries carry the installments of their
/// own recorded prices sums, month by month, to exactly the aggregate
/// totals of its price path.
pub proof fn lemma_entries_sum_to_totals(
    p: LoanParams,
    prices: Seq<u64>,
    entries: Seq<MonthlySimulation>,
)
    requires
        entries.len() == prices.len(),
        forall|i: int|
            0 <= i < entries.len() ==> #[trigger] entries[i].monthly_emi_usd_cents
                == spec_total_emi_usd_cents(p, prices[i] as int),
        forall|i: int|
            0 <= i < entries.len() ==> #[trigger] entries[i].monthly_emi_btc_sats
                == spec_total_emi_sats(p, prices[i] as int),
    ensures
        spec_sum_entries_usd(entries) == spec_sum_total_usd(p, prices),
        spec_sum_entries_sats(entries) == spec_sum_total_sats(p, prices),
    decreases prices.len(),
{
    if prices.len() > 0 {
        lemma_entries_sum_to_totals(p, prices.drop_last(), entries.drop_last());
    }
}

/// Over any price path the aggregate satoshi total is exactly the sum
/// of the aggregate fixed-tranche and variable-tranche totals, because
/// each month's installment decomposes that way.
pub proof fn lemma_sum_decomposition(p: LoanParams, prices: Seq<u64>)
    ensures
        spec_sum_total_sats(p, prices) == spec_sum_fixed_sats(p, prices) + spec_sum_variable_sats(
            p,
            prices,
        ),
    decreases prices.len(),
{
    if prices.len() > 0 {
        lemma_sum_decomposition(p, prices.drop_last());
    }
}

/// The sums over a prefix of a positive price path never exceed the
/// sums over the whole path.
proof fn lemma_sum_prefix_le(p: LoanParams, prices: Seq<u64>, k: int)
    requires
        spec_valid_params(p),
        forall|i: int| 0 <= i < prices.len() ==> prices[i] > 0,
        0 <= k <= prices.len(),
    ensures
        spec_sum_total_usd(p, prices.take(k)) <= spec_sum_total_usd(p, prices),
        spec_sum_total_sats(p, prices.take(k)) <= spec_sum_total_sats(p, prices),
        spec_sum_fixed_sats(p, prices.take(k)) <= spec_sum_fixed_sats(p, prices),
        spec_sum_variable_sats(p, prices.take(k)) <= spec_sum_variable_sats(p, prices),
    decreases prices.len(),
{
    if k == prices.len() {
        assert(prices.take(k) =~= prices);
    } else {
        lemma_emi_values_nonneg(p, prices.last() as int);
        assert(prices.take(k) =~= prices.drop_last().take(k));
        lemma_sum_prefix_le(p, prices.drop_last(), k);
    }
}

/// Aggregates one simulation over an already fixed price path: the
/// deterministic core of `run_simulation`, callable with an injected
/// path.
///
/// Rejects inputs outside the domain before any computation; on a valid
/// path it fails only when an intermediate quantity leaves the `u128`
/// range, and otherwise returns the exact per-month breakdown and its
/// exact totals.
pub fn run_simulation_with_prices(params: &LoanParams, prices: &Vec<u64>) -> (r: Result<
    SimulationResult,
    SimError,
>)
    ensures
        r == Result::<SimulationResult, SimError>::Err(SimError::Validation)
            <==> !spec_sim_inputs_ok(*params, prices@),
        spec_sim_inputs_ok(*params, prices@) ==> (r == Result::<
            SimulationResult,
            SimError,
        >::Err(SimError::Arithmetic) <==> spec_simulation_overflows(*params, prices@)),
        r matches Ok(res) ==> {
            &&& spec_sim_inputs_ok(*params, prices@)
            &&& !spec_simulation_overflows(*params, prices@)
            &&& res.months@.len() == prices@.len()
            &&& forall|i: int|
                0 <= i < res.months@.len() ==> (#[trigger] res.months@[i]).month == i + 1
            &&& forall|i: int|
                0 <= i < res.months@.len() ==> (#[trigger] res.months@[i]).btc_price_usd_cents
                    == prices@[i]
            &&& forall|i: int|
                0 <= i < res.months@.len() ==> (#[trigger] res.months@[i]).monthly_emi_btc_sats
                    == spec_total_emi_sats(*params, prices@[i] as int)
            &&& forall|i: int|
                0 <= i < res.months@.len() ==> (#[trigger] res.months@[i]).monthly_emi_usd_cents
                    == spec_total_emi_usd_cents(*params, prices@[i] as int)
            &&& res.total_repayment_in_usd_cents == spec_sum_total_usd(*params, prices@)
            &&& res.total_repayment_in_btc_sats == spec_sum_total_sats(*params, prices@)
            &&& res.total_fixed_emi_sats == spec_sum_fixed_sats(*params, prices@)
            &&& res.total_variable_emi_sats == spec_sum_variable_sats(*params, prices@)
        },
{
    if params.principal_btc_sats == 0 || params.price_at_loan_time_usd_cents == 0
        || params.risk_percentage_bps > crate::BPS_PER_UNIT || params.loan_time_in_months == 0 {
        return Err(SimError::Validation);
    }
    if prices.len() != params.loan_time_in_months as usize {
        return Err(SimError::Validation);
    }
    let mut i: usize = 0;
    while i < prices.len()
        invariant
            i <= prices@.len(),
            forall|j: int| 0 <= j < i ==> prices@[j] > 0,
        decreases prices@.len() - i,
    {
        if prices[i] == 0 {
            return Err(SimError::Validation);
        }
        i = i + 1;
    }

    let mut total_repayment_in_usd_cents: u128 = 0;
    let mut total_repayment_in_btc_sats: u128 = 0;
    let mut total_fixed_emi_sats: u128 = 0;
    let mut total_variable_emi_sats: u128 = 0;
    let mut months: Vec<MonthlySimulation> = Vec::new();

    let ghost p = *params;
    let mut m: usize = 0;
    while m < prices.len()
        invariant
            spec_sim_inputs_ok(p, prices@),
            p == *params,
            m <= prices@.len(),
            months@.len() == m,
            forall|j: int| 0 <= j < m ==> (#[trigger] months@[j]).month == j + 1,
            forall|j: int|
                0 <= j < m ==> (#[trigger] months@[j]).btc_price_usd_cents == prices@[j],
            forall|j: int|
                0 <= j < m ==> (#[trigger] months@[j]).monthly_emi_btc_sats
                    == spec_total_emi_sats(p, prices@[j] as int),
            forall|j: int|
                0 <= j < m ==> (#[trigger] months@[j]).monthly_emi_usd_cents
                    == spec_total_emi_usd_cents(p, prices@[j] as int),
            forall|j: int| 0 <= j < m ==> !spec_emi_overflows(p, #[trigger] prices@[j] as int),
            total_repayment_in_usd_cents == spec_sum_total_usd(p, prices@.take(m as int)),
            total_repayment_in_btc_sats == spec_sum_total_sats(p, prices@.take(m as int)),
            total_fixed_emi_sats == spec_sum_fixed_sats(p, prices@.take(m as int)),
            total_variable_emi_sats == spec_sum_variable_sats(p, prices@.take(m as int)),
        decreases prices@.len() - m,
    {
        let current_price = prices[m];
        let emi: EmiResult = match calculate_emi(params, current_price) {
            Ok(e) => e,
            Err(e) => {
                proof {
                    assert(prices@[m as int] > 0);
                    assert(e == SimError::Arithmetic);
                    assert(spec_emi_overflows(p, prices@[m as int] as int));
                }
                return Err(SimError::Arithmetic);
            },
        };
        proof {
            assert(prices@.take(m + 1).drop_last() =~= prices@.take(m as int));
            assert(prices@.take(m + 1).last() == prices@[m as int]);
        }
        let new_usd = match total_repayment_in_usd_cents.checked_add(emi.total_emi_in_usd_cents) {
            Some(v) => v,
            None => {
                proof {
                    lemma_sum_prefix_le(p, prices@, m + 1);
                }
                return Err(SimError::Arithmetic);
            },
        };
        let new_sats = match total_repayment_in_btc_sats.checked_add(emi.total_emi_in_btc_sats) {
            Some(v) => v,
            None => {
                proof {
                    lemma_sum_prefix_le(p, prices@, m + 1);
                }
                return Err(SimError::Arithmetic);
            },
        };
        let new_fixed = match total_fixed_emi_sats.checked_add(emi.btc_fixed_monthly_emi_sats) {
            Some(v) => v,
            None => {
                proof {
                    lemma_sum_prefix_le(p, prices@, m + 1);
                }
                return Err(SimError::Arithmetic);
            },
        };
        let new_variable = match total_variable_emi_sats.checked_add(
            emi.btc_variable_monthly_emi_sats,
        ) {
            Some(v) => v,
            None => {
                proof {
                    lemma_sum_prefix_le(p, prices@, m + 1);
                }
                return Err(SimError::Arithmetic);
            },
        };
        total_repayment_in_usd_cents = new_usd;
        total_repayment_in_btc_sats = new_sats;
        total_fixed_emi_sats = new_fixed;
        total_variable_emi_sats = new_variable;
        months.push(
            MonthlySimulation {
                month: (m as u32) + 1,
                btc_price_usd_cents: current_price,
                monthly_emi_btc_sats: emi.total_emi_in_btc_sats,
                monthly_emi_usd_cents: emi.total_emi_in_usd_cents,
            },
        );
        m = m + 1;
    }
    proof {
        assert(prices@.take(prices@.len() as int) =~= prices@);
    }
    Ok(
        SimulationResult {
            total_repayment_in_usd_cents,
            total_repayment_in_btc_sats,
            total_fixed_emi_sats,
            total_variable_emi_sats,
            months,
        },
    )
}

/// What `run_simulation` promises of its result: a validation error
/// exactly on parameters outside their domain; an arithmetic error only
/// when an intermediate quantity can leave the `u128` range along some
/// path the generator can sample, so success is owed whenever no
/// admissible path can overflow; and on success a breakdown with one
/// entry per month whose prices are positive and reached from the
/// origination price by table steps, whose entries carry the exact
/// installments of their own prices, and whose totals are exactly the
/// sums over the recorded path.
pub open spec fn spec_run_simulation_post(
    p: LoanParams,
    r: Result<SimulationResult, SimError>,
) -> bool {
    &&& (r == Result::<SimulationResult, SimError>::Err(SimError::Validation)
        <==> !spec_valid_params(p))
    &&& (spec_valid_params(p) ==> r is Ok || r == Result::<SimulationResult, SimError>::Err(
        SimError::Arithmetic,
    ))
    &&& (spec_valid_params(p) && (forall|prices: Seq<u64>|
        #[trigger] spec_admissible_path(p, prices) ==> !spec_simulation_overflows(p, prices))
        ==> r is Ok)
    &&& (r matches Ok(res) ==> {
        &&& spec_valid_params(p)
        &&& res.months@.len() == p.loan_time_in_months
        &&& forall|i: int| 0 <= i < res.months@.len() ==> (#[trigger] res.months@[i]).month == i + 1
        &&& forall|i: int|
            0 <= i < res.months@.len() ==> (#[trigger] res.months@[i]).btc_price_usd_cents > 0
        &&& spec_is_table_path(
            p.price_at_loan_time_usd_cents as int,
            spec_prices_of(res.months@),
        )
        &&& forall|i: int|
            0 <= i < res.months@.len() ==> (#[trigger] res.months@[i]).monthly_emi_btc_sats
                == spec_total_emi_sats(p, res.months@[i].btc_price_usd_cents as int)
        &&& forall|i: int|
            0 <= i < res.months@.len() ==> (#[trigger] res.months@[i]).monthly_emi_usd_cents
                == spec_total_emi_usd_cents(p, res.months@[i].btc_price_usd_cents as int)
        &&& res.total_repayment_in_usd_cents == spec_sum_total_usd(p, spec_prices_of(res.months@))
        &&& res.total_repayment_in_btc_sats == spec_sum_total_sats(p, spec_prices_of(res.months@))
        &&& res.total_fixed_emi_sats == spec_sum_fixed_sats(p, spec_prices_of(res.months@))
        &&& res.total_variable_emi_sats == spec_sum_variable_sats(p, spec_prices_of(res.months@))
    })
}

/// A sampled path that is admissible and overflows refutes the claim
/// that every admissible path stays in range.
proof fn lemma_overflowing_path_is_witness(p: LoanParams, prices: Seq<u64>)
    requires
        spec_admissible_path(p, prices),
        spec_simulation_overflows(p, prices),
    ensures
        !(forall|q: Seq<u64>|
            #[trigger] spec_admissible_path(p, q) ==> !spec_simulation_overflows(p, q)),
{
}

/// Runs one full simulation: samples a price path over the whole term
/// and aggregates the monthly installments along it.
///
/// Validation failures are rejected exactly on parameters outside their
/// domain; a valid run fails only when an intermediate quantity leaves
/// the `u128` range along the sampled path, so it is owed success
/// whenever no path the generator can sample overflows. On success the
/// breakdown records one entry per month, every recorded price is
/// positive and reached from the origination price by table steps,
/// every entry carries the exact installments of its own price, and the
/// totals are exactly the sums over the recorded path.
pub fn run_simulation(
    principal_btc_sats: u64,
    price_at_loan_time_usd_cents: u64,
    monthly_interest_rate_bps: u32,
    risk_percentage_bps: u32,
    loan_time_in_months: u32,
) -> (r: Result<SimulationResult, SimError>)
    ensures
        spec_run_simulation_post(
            LoanParams {
                principal_btc_sats,
                price_at_loan_time_usd_cents,
                monthly_interest_rate_bps,
                risk_percentage_bps,
                loan_time_in_months,
            },
            r,
        ),
{
    let params = LoanParams {
        principal_btc_sats,
        price_at_loan_time_usd_cents,
        monthly_interest_rate_bps,
        risk_percentage_bps,
        loan_time_in_months,
    };
    if params.principal_btc_sats == 0 || params.price_at_loan_time_usd_cents == 0
        || params.risk_percentage_bps > crate::BPS_PER_UNIT || params.loan_time_in_months == 0 {
        return Err(SimError::Validation);
    }
    let prices = simulate_monthly_price(price_at_loan_time_usd_cents, loan_time_in_months);
    proof {
        assert(spec_sim_inputs_ok(params, prices@));
        assert(spec_admissible_path(params, prices@));
    }
    let result = match run_simulation_with_prices(&params, &prices) {
        Ok(res) => res,
        Err(e) => {
            proof {
                assert(e == SimError::Arithmetic);
                assert(spec_simulation_overflows(params, prices@));
                lemma_overflowing_path_is_witness(params, prices@);
            }
            return Err(SimError::Arithmetic);
        },
    };
    proof {
        assert(spec_prices_of(result.months@) =~= prices@);
    }
    Ok(result)
}

} // verus!
