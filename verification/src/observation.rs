//! Oracle observations: one submission from one oracle principal, and the
//! synthetic consensus observation produced by the aggregator.

use vstd::prelude::*;

verus! {

/// Identity of the principal that produced an observation.
///
/// `Aggregated` is the sentinel carried by a consensus observation: the
/// aggregator's output is not attributable to any single real provider.
#[derive(Clone, Copy, PartialEq, Eq, Structural, Debug)]
pub enum OracleProvider {
    Pyth,
    Switchboard,
    Chainlink,
    Aggregated,
}

/// A provider's qualitative vote on the observed weather.
#[derive(Clone, Copy, PartialEq, Eq, Structural, Debug)]
pub enum WeatherCondition {
    Normal,
    Adverse,
}

/// One oracle reading of the external conditions a policy insures against.
///
/// Observations are ephemeral inputs: they exist only for the duration of a
/// single claim-processing call and are never persisted.
#[derive(Clone, Copy, PartialEq, Eq, Structural, Debug)]
pub struct OracleData {
    pub provider: OracleProvider,
    pub timestamp: i64,
    pub weather_condition: WeatherCondition,
    pub rain_amount_mm: u64,
    pub crop_yield: u64,
    pub expected_yield: u64,
    pub business_performance: u64,
    pub expected_performance: u64,
}

} // verus!
