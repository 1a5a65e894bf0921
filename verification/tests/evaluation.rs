use seedflow::evaluator::{
    calculate_payout_amount, should_trigger, should_trigger_business_claim,
    should_trigger_crop_claim, should_trigger_weather_claim,
};
use seedflow::loan::{Loan, LoanStatus};
use seedflow::observation::{OracleData, OracleProvider, WeatherCondition};
use seedflow::policy::{InsuranceConfig, InsuranceType, PremiumSchedule};

fn config(kind: InsuranceType, min_rain_mm: u64, deductible_bps: u16) -> InsuranceConfig {
    InsuranceConfig {
        kind,
        min_rain_mm,
        max_rain_mm: min_rain_mm + 100,
        coverage_cap: 400,
        deductible_bps,
        premium_schedule: PremiumSchedule::LumpSum,
        measurement_period_days: 30,
    }
}

fn consensus(weather: WeatherCondition, rain: u64) -> OracleData {
    OracleData {
        provider: OracleProvider::Aggregated,
        timestamp: 0,
        weather_condition: weather,
        rain_amount_mm: rain,
        crop_yield: 0,
        expected_yield: 0,
        business_performance: 0,
        expected_performance: 0,
    }
}

#[test]
fn weather_triggers_on_adverse_vote_with_low_rain() {
    let cfg = config(InsuranceType::Weather, 10, 0);
    let data = consensus(WeatherCondition::Adverse, 5);
    assert!(should_trigger_weather_claim(&data, &cfg));
}

#[test]
fn weather_needs_the_qualitative_vote_even_when_rain_is_low() {
    let cfg = config(InsuranceType::Weather, 10, 0);
    let data = consensus(WeatherCondition::Normal, 5);
    assert!(!should_trigger_weather_claim(&data, &cfg));
}

#[test]
fn weather_needs_corroborating_low_rain() {
    let cfg = config(InsuranceType::Weather, 10, 0);
    assert!(!should_trigger_weather_claim(&consensus(WeatherCondition::Adverse, 10), &cfg));
    assert!(!should_trigger_weather_claim(&consensus(WeatherCondition::Adverse, 40), &cfg));
}

#[test]
fn crop_triggers_below_the_non_deductible_floor() {
    // floor = 1000 * (10000 - 500) / 10000 = 950
    let cfg = config(InsuranceType::Crop, 0, 500);
    let mut data = consensus(WeatherCondition::Normal, 0);
    data.expected_yield = 1000;
    data.crop_yield = 900;
    assert!(should_trigger_crop_claim(&data, &cfg));
    data.crop_yield = 960;
    assert!(!should_trigger_crop_claim(&data, &cfg));
    data.crop_yield = 949;
    assert!(should_trigger_crop_claim(&data, &cfg));
    data.crop_yield = 950;
    assert!(!should_trigger_crop_claim(&data, &cfg));
}

#[test]
fn zero_expectation_never_triggers_crop() {
    let cfg = config(InsuranceType::Crop, 0, 500);
    let data = consensus(WeatherCondition::Normal, 0);
    assert_eq!(data.expected_yield, 0);
    assert!(!should_trigger_crop_claim(&data, &cfg));
}

#[test]
fn full_deductible_never_triggers_crop() {
    let cfg = config(InsuranceType::Crop, 0, 10000);
    let mut data = consensus(WeatherCondition::Normal, 0);
    data.expected_yield = 1000;
    data.crop_yield = 0;
    assert!(!should_trigger_crop_claim(&data, &cfg));
}

#[test]
fn business_uses_the_same_floor_formula() {
    let cfg = config(InsuranceType::Business, 0, 500);
    let mut data = consensus(WeatherCondition::Normal, 0);
    data.expected_performance = 1000;
    data.business_performance = 900;
    assert!(should_trigger_business_claim(&data, &cfg));
    data.business_performance = 960;
    assert!(!should_trigger_business_claim(&data, &cfg));
}

#[test]
fn dispatch_selects_the_policy_branch() {
    let mut data = consensus(WeatherCondition::Adverse, 5);
    data.expected_yield = 1000;
    data.crop_yield = 999;
    assert!(should_trigger(&data, &config(InsuranceType::Weather, 10, 0)));
    // deductible 0: floor = 1000, so 999 still triggers the crop branch
    assert!(should_trigger(&data, &config(InsuranceType::Crop, 10, 0)));
    // business readings are zero: the business branch sees a zero floor
    assert!(!should_trigger(&data, &config(InsuranceType::Business, 10, 0)));
}

#[test]
fn payout_is_capped_by_coverage() {
    let loan = Loan {
        borrower: 1,
        principal: 1000,
        start_time: 0,
        end_time: 100,
        status: LoanStatus::Active,
        policy: config(InsuranceType::Weather, 10, 0),
    };
    assert_eq!(loan.policy.coverage_cap, 400);
    assert_eq!(calculate_payout_amount(&loan), 400);
}

#[test]
fn payout_is_capped_by_principal() {
    let loan = Loan {
        borrower: 1,
        principal: 300,
        start_time: 0,
        end_time: 100,
        status: LoanStatus::Active,
        policy: config(InsuranceType::Weather, 10, 0),
    };
    assert_eq!(calculate_payout_amount(&loan), 300);
}
