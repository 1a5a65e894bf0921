//! Policy model: the immutable insurance contract terms attached to a loan.

use vstd::prelude::*;

verus! {

/// Basis points in one whole: 10000 bps = 100%.
pub const BPS_DENOMINATOR: u16 = 10000;

/// Selects which claim-evaluator branch applies to a policy.
#[derive(Clone, Copy, PartialEq, Eq, Structural, Debug)]
pub enum InsuranceType {
    Weather,
    Crop,
    Business,
}

/// How the premium is collected. Informational: it does not affect the
/// claim logic in this core.
#[derive(Clone, Copy, PartialEq, Eq, Structural, Debug)]
pub enum PremiumSchedule {
    Monthly,
    LumpSum,
}

/// The insurance contract terms for one loan. Immutable once set.
#[derive(Clone, Copy, PartialEq, Eq, Structural, Debug)]
pub struct InsuranceConfig {
    /// Which evaluator branch applies.
    pub kind: InsuranceType,
    /// Rainfall bounds used by the `Weather` branch.
    pub min_rain_mm: u64,
    pub max_rain_mm: u64,
    /// Maximum payout ever disbursable under this policy.
    pub coverage_cap: u64,
    /// Basis points (0..=10000) retained by the borrower before payout
    /// applies; used by the `Crop` and `Business` branches.
    pub deductible_bps: u16,
    /// Informational premium collection schedule.
    pub premium_schedule: PremiumSchedule,
    /// Informational measurement window length for the policy.
    pub measurement_period_days: u16,
}

impl InsuranceConfig {
    /// Policy invariant: the deductible is a valid basis-point fraction,
    /// and the rainfall bounds are ordered where they are meaningful.
    pub open spec fn wf(self) -> bool {
        &&& self.deductible_bps <= BPS_DENOMINATOR
        &&& self.kind == InsuranceType::Weather ==> self.min_rain_mm <= self.max_rain_mm
    }
}

} // verus!
