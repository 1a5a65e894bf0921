//! Claim evaluator: decides, from the consensus observation and a policy,
//! whether a payout fires and how much.
//!
//! Evaluation is pure and total over well-formed policies: a zero expected
//! reading makes the non-deductible floor zero, so any yield is considered
//! compliant — intentional floor behaviour, not a failure mode.

use vstd::prelude::*;

use crate::loan::Loan;
use crate::observation::{OracleData, WeatherCondition};
use crate::policy::{InsuranceConfig, InsuranceType, BPS_DENOMINATOR};

verus! {

/// The non-deductible-protected fraction of an expected reading: the
/// threshold below which an actual reading counts as a loss, with
/// `deductible_bps` basis points retained by the borrower. Integer
/// arithmetic, truncating.
pub open spec fn non_deductible_floor(expected: u64, deductible_bps: u16) -> int
    recommends
        deductible_bps <= BPS_DENOMINATOR,
{
    expected * (BPS_DENOMINATOR - deductible_bps) / (BPS_DENOMINATOR as int)
}

/// Weather branch: both the qualitative `Adverse` consensus and a
/// corroborating rainfall reading below the policy minimum are required.
pub open spec fn weather_triggers(data: OracleData, config: InsuranceConfig) -> bool {
    data.weather_condition == WeatherCondition::Adverse && data.rain_amount_mm
        < config.min_rain_mm
}

/// Crop branch: the aggregated yield fell below the non-deductible floor of
/// the aggregated expectation.
pub open spec fn crop_triggers(data: OracleData, config: InsuranceConfig) -> bool {
    data.crop_yield < non_deductible_floor(data.expected_yield, config.deductible_bps)
}

/// Business branch: identical to the crop formula, substituting the
/// business performance readings.
pub open spec fn business_triggers(data: OracleData, config: InsuranceConfig) -> bool {
    data.business_performance < non_deductible_floor(
        data.expected_performance,
        config.deductible_bps,
    )
}

/// Whether the insured event occurred, by the branch the policy selects.
pub open spec fn claim_triggers(data: OracleData, config: InsuranceConfig) -> bool {
    match config.kind {
        InsuranceType::Weather => weather_triggers(data, config),
        InsuranceType::Crop => crop_triggers(data, config),
        InsuranceType::Business => business_triggers(data, config),
    }
}

/// The payout owed on a triggered claim: capped by both the outstanding
/// principal and the policy's contractual ceiling.
pub open spec fn payout_of(loan: Loan) -> u64 {
    if loan.principal <= loan.policy.coverage_cap {
        loan.principal
    } else {
        loan.policy.coverage_cap
    }
}

/// A reading scaled by a basis-point fraction stays comfortably inside
/// 128-bit arithmetic.
proof fn lemma_scaled_expectation_fits(expected: int, retained: int)
    requires
        0 <= expected <= u64::MAX,
        0 <= retained <= BPS_DENOMINATOR,
    ensures
        expected * retained <= u64::MAX * (BPS_DENOMINATOR as int),
{
    assert(expected * retained <= u64::MAX * (BPS_DENOMINATOR as int)) by (nonlinear_arith)
        requires
            0 <= expected <= u64::MAX,
            0 <= retained <= BPS_DENOMINATOR as int,
    {}
}

pub fn should_trigger_weather_claim(data: &OracleData, config: &InsuranceConfig) -> (r: bool)
    ensures
        r == weather_triggers(*data, *config),
{
    data.weather_condition == WeatherCondition::Adverse && data.rain_amount_mm < config.min_rain_mm
}

pub fn should_trigger_crop_claim(data: &OracleData, config: &InsuranceConfig) -> (r: bool)
    requires
        config.deductible_bps <= BPS_DENOMINATOR,
    ensures
        r == crop_triggers(*data, *config),
{
    let retained = (BPS_DENOMINATOR - config.deductible_bps) as u128;
    proof {
        lemma_scaled_expectation_fits(data.expected_yield as int, retained as int);
    }
    let floor = (data.expected_yield as u128) * retained / (BPS_DENOMINATOR as u128);
    (data.crop_yield as u128) < floor
}

pub fn should_trigger_business_claim(data: &OracleData, config: &InsuranceConfig) -> (r: bool)
    requires
        config.deductible_bps <= BPS_DENOMINATOR,
    ensures
        r == business_triggers(*data, *config),
{
    let retained = (BPS_DENOMINATOR - config.deductible_bps) as u128;
    proof {
        lemma_scaled_expectation_fits(data.expected_performance as int, retained as int);
    }
    let floor = (data.expected_performance as u128) * retained / (BPS_DENOMINATOR as u128);
    (data.business_performance as u128) < floor
}

/// Decide trigger/no-trigger for the consensus observation under the
/// policy, dispatching on the policy's kind.
pub fn should_trigger(data: &OracleData, config: &InsuranceConfig) -> (r: bool)
    requires
        config.deductible_bps <= BPS_DENOMINATOR,
    ensures
        r == claim_triggers(*data, *config),
{
    match config.kind {
        InsuranceType::Weather => should_trigger_weather_claim(data, config),
        InsuranceType::Crop => should_trigger_crop_claim(data, config),
        InsuranceType::Business => should_trigger_business_claim(data, config),
    }
}

/// The amount a triggered claim pays out: it never exceeds the outstanding
/// principal and never exceeds the policy's coverage cap.
pub fn calculate_payout_amount(loan: &Loan) -> (r: u64)
    ensures
        r == payout_of(*loan),
        r <= loan.principal,
        r <= loan.policy.coverage_cap,
{
    if loan.principal <= loan.policy.coverage_cap {
        loan.principal
    } else {
        loan.policy.coverage_cap
    }
}

} // verus!
