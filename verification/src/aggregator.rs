//! Observation aggregator: collapses N independent oracle observations into
//! one consensus observation.
//!
//! Numeric readings are aggregated by median, which resists outliers and
//! adversarial submissions better than a mean. Every numeric field is given
//! the median rule — including the crop and business readings, so that the
//! crop/business trigger formulas operate on genuinely aggregated data
//! rather than a degenerate constant. The qualitative weather vote is
//! aggregated by a 2/3-supermajority rule: declaring a costly `Adverse`
//! event requires a strong majority, while `Normal` is the default absent
//! strong evidence.

use vstd::prelude::*;
use vstd::relations::sorted_by;
use vstd::seq_lib::lemma_sorted_unique;

use crate::errors::ErrorCode;
use crate::observation::{OracleData, OracleProvider, WeatherCondition};
use crate::sorting::{lemma_u64_le_total_ordering, sort_ascending, u64_le};

verus! {

/// The standard integer median of a non-empty sequence of readings: sort
/// ascending; for odd count take the middle element, for even count the
/// floor of the average of the two middle elements.
pub open spec fn median_of(readings: Seq<u64>) -> u64
    recommends
        readings.len() > 0,
{
    let sorted = readings.sort_by(u64_le());
    let mid = readings.len() as int / 2;
    if readings.len() % 2 == 1 {
        sorted[mid]
    } else {
        (((sorted[mid - 1] + sorted[mid]) / 2) as u64)
    }
}

/// How many of the submitted observations vote `Adverse`.
pub open spec fn adverse_count(obs: Seq<OracleData>) -> nat
    decreases obs.len(),
{
    if obs.len() == 0 {
        0
    } else {
        adverse_count(obs.drop_last()) + (if obs.last().weather_condition
            == WeatherCondition::Adverse {
            1nat
        } else {
            0nat
        })
    }
}

/// The 2/3-supermajority vote: `Adverse` iff at least two thirds of the
/// submissions vote `Adverse`.
pub open spec fn consensus_vote(obs: Seq<OracleData>) -> WeatherCondition {
    if 3 * adverse_count(obs) >= 2 * obs.len() {
        WeatherCondition::Adverse
    } else {
        WeatherCondition::Normal
    }
}

pub open spec fn rains_of(obs: Seq<OracleData>) -> Seq<u64> {
    obs.map_values(|d: OracleData| d.rain_amount_mm)
}

pub open spec fn crop_yields_of(obs: Seq<OracleData>) -> Seq<u64> {
    obs.map_values(|d: OracleData| d.crop_yield)
}

pub open spec fn expected_yields_of(obs: Seq<OracleData>) -> Seq<u64> {
    obs.map_values(|d: OracleData| d.expected_yield)
}

pub open spec fn business_performances_of(obs: Seq<OracleData>) -> Seq<u64> {
    obs.map_values(|d: OracleData| d.business_performance)
}

pub open spec fn expected_performances_of(obs: Seq<OracleData>) -> Seq<u64> {
    obs.map_values(|d: OracleData| d.expected_performance)
}

/// The consensus observation synthesized from a non-empty sequence of
/// submissions, timestamped with the aggregation time. Its provider is the
/// `Aggregated` sentinel: it is not attributable to any single oracle.
pub open spec fn consensus_of(obs: Seq<OracleData>, now: i64) -> OracleData
    recommends
        obs.len() > 0,
{
    OracleData {
        provider: OracleProvider::Aggregated,
        timestamp: now,
        weather_condition: consensus_vote(obs),
        rain_amount_mm: median_of(rains_of(obs)),
        crop_yield: median_of(crop_yields_of(obs)),
        expected_yield: median_of(expected_yields_of(obs)),
        business_performance: median_of(business_performances_of(obs)),
        expected_performance: median_of(expected_performances_of(obs)),
    }
}

/// Median law: the aggregator's numeric result equals the standard integer
/// median read off any sorted rearrangement of the readings.
pub proof fn lemma_median_of_sorted_reference(readings: Seq<u64>, sorted: Seq<u64>)
    requires
        readings.len() > 0,
        sorted_by(sorted, u64_le()),
        sorted.to_multiset() == readings.to_multiset(),
    ensures
        ({
            let mid = readings.len() as int / 2;
            if readings.len() % 2 == 1 {
                median_of(readings) == sorted[mid]
            } else {
                median_of(readings) == (((sorted[mid - 1] + sorted[mid]) / 2) as u64)
            }
        }),
{
    lemma_u64_le_total_ordering();
    readings.lemma_sort_by_ensures(u64_le());
    lemma_sorted_unique(sorted, readings.sort_by(u64_le()), u64_le());
    assert(sorted =~= readings.sort_by(u64_le()));
}

/// Compute the median of the given readings.
///
/// Fails with `EmptyInput` exactly when no reading was submitted: no median
/// of an empty set is defined.
pub fn calculate_median(values: &Vec<u64>) -> (r: Result<u64, ErrorCode>)
    ensures
        values@.len() == 0 ==> r == Err::<u64, ErrorCode>(ErrorCode::EmptyInput),
        values@.len() > 0 ==> r == Ok::<u64, ErrorCode>(median_of(values@)),
{
    if values.len() == 0 {
        return Err(ErrorCode::EmptyInput);
    }
    let sorted = sort_ascending(values);
    let mid = sorted.len() / 2;
    if sorted.len() % 2 == 1 {
        Ok(sorted[mid])
    } else {
        let low = sorted[mid - 1];
        let high = sorted[mid];
        let avg = ((low as u128 + high as u128) / 2) as u64;
        proof {
            assert((low as u128 + high as u128) / 2 <= u64::MAX);
        }
        Ok(avg)
    }
}

/// Compute the 2/3-supermajority weather vote over the submissions.
pub fn determine_weather_condition(data: &Vec<OracleData>) -> (r: WeatherCondition)
    ensures
        r == consensus_vote(data@),
        r == WeatherCondition::Adverse <==> 3 * adverse_count(data@) >= 2 * data@.len(),
{
    let mut adverse: usize = 0;
    let mut i: usize = 0;
    while i < data.len()
        invariant
            i <= data@.len(),
            adverse <= i,
            adverse == adverse_count(data@.take(i as int)),
        decreases data@.len() - i,
    {
        proof {
            assert(data@.take(i as int + 1).drop_last() =~= data@.take(i as int));
            assert(data@.take(i as int + 1).last() == data@[i as int]);
        }
        if data[i].weather_condition == WeatherCondition::Adverse {
            adverse += 1;
        }
        i += 1;
    }
    proof {
        assert(data@.take(data@.len() as int) =~= data@);
    }
    if (adverse as u128) * 3 >= (data.len() as u128) * 2 {
        WeatherCondition::Adverse
    } else {
        WeatherCondition::Normal
    }
}

/// Aggregate the submitted observations into the consensus observation,
/// timestamped `now`.
///
/// Fails with `EmptyInput` exactly when the sequence is empty: a claim
/// cannot be evaluated on zero evidence.
pub fn aggregate_oracle_data(data: &Vec<OracleData>, now: i64) -> (r: Result<
    OracleData,
    ErrorCode,
>)
    ensures
        data@.len() == 0 ==> r == Err::<OracleData, ErrorCode>(ErrorCode::EmptyInput),
        data@.len() > 0 ==> r == Ok::<OracleData, ErrorCode>(consensus_of(data@, now)),
{
    if data.len() == 0 {
        return Err(ErrorCode::EmptyInput);
    }
    let mut rains: Vec<u64> = Vec::new();
    let mut crop_yields: Vec<u64> = Vec::new();
    let mut expected_yields: Vec<u64> = Vec::new();
    let mut business_performances: Vec<u64> = Vec::new();
    let mut expected_performances: Vec<u64> = Vec::new();
    let mut i: usize = 0;
    while i < data.len()
        invariant
            i <= data@.len(),
            rains@ == rains_of(data@.take(i as int)),
            crop_yields@ == crop_yields_of(data@.take(i as int)),
            expected_yields@ == expected_yields_of(data@.take(i as int)),
            business_performances@ == business_performances_of(data@.take(i as int)),
            expected_performances@ == expected_performances_of(data@.take(i as int)),
        decreases data@.len() - i,
    {
        let d = data[i];
        rains.push(d.rain_amount_mm);
        crop_yields.push(d.crop_yield);
        expected_yields.push(d.expected_yield);
        business_performances.push(d.business_performance);
        expected_performances.push(d.expected_performance);
        proof {
            let taken = data@.take(i as int + 1);
            assert(taken =~= data@.take(i as int).push(data@[i as int]));
            assert(rains_of(taken) =~= rains_of(data@.take(i as int)).push(d.rain_amount_mm));
            assert(crop_yields_of(taken) =~= crop_yields_of(data@.take(i as int)).push(
                d.crop_yield,
            ));
            assert(expected_yields_of(taken) =~= expected_yields_of(data@.take(i as int)).push(
                d.expected_yield,
            ));
            assert(business_performances_of(taken) =~= business_performances_of(
                data@.take(i as int),
            ).push(d.business_performance));
            assert(expected_performances_of(taken) =~= expected_performances_of(
                data@.take(i as int),
            ).push(d.expected_performance));
        }
        i += 1;
    }
    proof {
        assert(data@.take(data@.len() as int) =~= data@);
    }
    let weather_condition = determine_weather_condition(data);
    let rain_amount_mm = match calculate_median(&rains) {
        Ok(v) => v,
        Err(e) => {
            return Err(e);
        },
    };
    let crop_yield = match calculate_median(&crop_yields) {
        Ok(v) => v,
        Err(e) => {
            return Err(e);
        },
    };
    let expected_yield = match calculate_median(&expected_yields) {
        Ok(v) => v,
        Err(e) => {
            return Err(e);
        },
    };
    let business_performance = match calculate_median(&business_performances) {
        Ok(v) => v,
        Err(e) => {
            return Err(e);
        },
    };
    let expected_performance = match calculate_median(&expected_performances) {
        Ok(v) => v,
        Err(e) => {
            return Err(e);
        },
    };
    Ok(
        OracleData {
            provider: OracleProvider::Aggregated,
            timestamp: now,
            weather_condition,
            rain_amount_mm,
            crop_yield,
            expected_yield,
            business_performance,
            expected_performance,
        },
    )
}

} // verus!
