use seedflow::aggregator::{aggregate_oracle_data, calculate_median, determine_weather_condition};
use seedflow::errors::ErrorCode;
use seedflow::observation::{OracleData, OracleProvider, WeatherCondition};

fn obs(weather: WeatherCondition, rain: u64) -> OracleData {
    OracleData {
        provider: OracleProvider::Pyth,
        timestamp: 7,
        weather_condition: weather,
        rain_amount_mm: rain,
        crop_yield: 0,
        expected_yield: 0,
        business_performance: 0,
        expected_performance: 0,
    }
}

#[test]
fn median_odd_count_is_middle_element() {
    assert_eq!(calculate_median(&vec![5, 1, 9]), Ok(5));
    assert_eq!(calculate_median(&vec![7, 3, 9, 1, 5]), Ok(5));
    assert_eq!(calculate_median(&vec![42]), Ok(42));
}

#[test]
fn median_even_count_floors_average_of_middle_pair() {
    assert_eq!(calculate_median(&vec![1, 2, 3, 10]), Ok(2));
    assert_eq!(calculate_median(&vec![8, 6, 2, 4]), Ok(5));
    assert_eq!(calculate_median(&vec![2, 4]), Ok(3));
}

#[test]
fn median_resists_outliers() {
    assert_eq!(calculate_median(&vec![10, 11, 12, 13, u64::MAX]), Ok(12));
}

#[test]
fn median_of_extreme_values_does_not_overflow() {
    assert_eq!(calculate_median(&vec![u64::MAX, u64::MAX]), Ok(u64::MAX));
    assert_eq!(calculate_median(&vec![u64::MAX, u64::MAX - 1]), Ok(u64::MAX - 1));
}

#[test]
fn median_of_nothing_is_empty_input() {
    assert_eq!(calculate_median(&vec![]), Err(ErrorCode::EmptyInput));
}

#[test]
fn two_adverse_of_three_is_adverse_consensus() {
    let data = vec![
        obs(WeatherCondition::Adverse, 5),
        obs(WeatherCondition::Adverse, 6),
        obs(WeatherCondition::Normal, 50),
    ];
    assert_eq!(determine_weather_condition(&data), WeatherCondition::Adverse);
}

#[test]
fn one_adverse_of_three_is_normal_consensus() {
    let data = vec![
        obs(WeatherCondition::Adverse, 5),
        obs(WeatherCondition::Normal, 50),
        obs(WeatherCondition::Normal, 60),
    ];
    assert_eq!(determine_weather_condition(&data), WeatherCondition::Normal);
}

#[test]
fn unanimous_votes_carry() {
    let all_adverse = vec![obs(WeatherCondition::Adverse, 1), obs(WeatherCondition::Adverse, 2)];
    assert_eq!(determine_weather_condition(&all_adverse), WeatherCondition::Adverse);
    let all_normal = vec![obs(WeatherCondition::Normal, 1), obs(WeatherCondition::Normal, 2)];
    assert_eq!(determine_weather_condition(&all_normal), WeatherCondition::Normal);
}

#[test]
fn aggregate_of_nothing_is_empty_input() {
    assert_eq!(aggregate_oracle_data(&vec![], 99), Err(ErrorCode::EmptyInput));
}

#[test]
fn aggregate_medians_every_numeric_field() {
    let data = vec![
        OracleData {
            provider: OracleProvider::Pyth,
            timestamp: 1,
            weather_condition: WeatherCondition::Adverse,
            rain_amount_mm: 4,
            crop_yield: 900,
            expected_yield: 1000,
            business_performance: 70,
            expected_performance: 100,
        },
        OracleData {
            provider: OracleProvider::Switchboard,
            timestamp: 2,
            weather_condition: WeatherCondition::Adverse,
            rain_amount_mm: 6,
            crop_yield: 920,
            expected_yield: 1100,
            business_performance: 80,
            expected_performance: 90,
        },
        OracleData {
            provider: OracleProvider::Chainlink,
            timestamp: 3,
            weather_condition: WeatherCondition::Normal,
            rain_amount_mm: 80,
            crop_yield: 1010,
            expected_yield: 1050,
            business_performance: 95,
            expected_performance: 110,
        },
    ];
    let consensus = aggregate_oracle_data(&data, 555).unwrap();
    assert_eq!(consensus.provider, OracleProvider::Aggregated);
    assert_eq!(consensus.timestamp, 555);
    assert_eq!(consensus.weather_condition, WeatherCondition::Adverse);
    assert_eq!(consensus.rain_amount_mm, 6);
    assert_eq!(consensus.crop_yield, 920);
    assert_eq!(consensus.expected_yield, 1050);
    assert_eq!(consensus.business_performance, 80);
    assert_eq!(consensus.expected_performance, 100);
}

#[test]
fn aggregate_of_even_count_floors_the_medians() {
    let data = vec![obs(WeatherCondition::Normal, 3), obs(WeatherCondition::Normal, 6)];
    let consensus = aggregate_oracle_data(&data, 0).unwrap();
    assert_eq!(consensus.rain_amount_mm, 4);
    assert_eq!(consensus.weather_condition, WeatherCondition::Normal);
}
