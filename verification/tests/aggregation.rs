//! Aggregation over concrete readings and samples: exact sums, the exact
//! rational carbon figures, the empty-set failure, and failure isolation
//! across a full cycle.

use octo_exporter::calendar::{Instant, WindowLabel};
use octo_exporter::carbon::{aggregate_carbon, CarbonError, IntensitySample};
use octo_exporter::summary::{
    build_summary, CellError, FetchFailure, SummaryInputs, WindowFetch,
};
use octo_exporter::usage::{sum_consumption, Commodity, Reading};

fn instant(year: i32, month: u8, day: u8, hour: u8, minute: u8, second: u8) -> Instant {
    Instant { year, month, day, hour, minute, second, nanosecond: 0 }
}

fn reading(kwh_micro: u64) -> Reading {
    Reading { timestamp: instant(2025, 8, 1, 0, 0, 0), consumption_micro_kwh: kwh_micro }
}

fn sample(intensity: u32) -> IntensitySample {
    IntensitySample { timestamp: instant(2025, 8, 1, 0, 0, 0), intensity }
}

fn ok_fetch() -> WindowFetch {
    WindowFetch {
        electricity: Ok(vec![reading(1_000_000), reading(2_500_000)]),
        gas: Ok(vec![reading(750_000)]),
        intensity: Ok(vec![sample(200), sample(300)]),
    }
}

fn all_ok_inputs() -> SummaryInputs {
    SummaryInputs {
        two_days: ok_fetch(),
        week: ok_fetch(),
        two_weeks: ok_fetch(),
        four_weeks: ok_fetch(),
        month: ok_fetch(),
        two_months: ok_fetch(),
        three_months: ok_fetch(),
        six_months: ok_fetch(),
        year: ok_fetch(),
    }
}

#[test]
fn empty_reading_set_sums_to_zero() {
    let readings: Vec<Reading> = Vec::new();
    assert_eq!(sum_consumption(&readings), 0);
    assert_eq!(sum_consumption(&readings) as f64 / 1_000_000.0, 0.0);
}

#[test]
fn readings_sum_exactly() {
    // 1.0 + 2.5 + 0.5 kWh = 4.0 kWh
    let readings = vec![reading(1_000_000), reading(2_500_000), reading(500_000)];
    let total = sum_consumption(&readings);
    assert_eq!(total, 4_000_000);
    assert_eq!(total as f64 / 1_000_000.0, 4.0);
}

#[test]
fn carbon_mean_and_total_are_exact() {
    let samples = vec![sample(200), sample(300), sample(500)];
    let estimate = aggregate_carbon(10_000_000, &samples).unwrap();
    assert_eq!(estimate.intensity_sum, 1000);
    assert_eq!(estimate.sample_count, 3);
    // mean: 1000/3 g/kWh, in milligrams rounded down
    assert_eq!(estimate.mean_intensity_milli(), 333_333);
    // total: 10 kWh * 1000/3 g/kWh = 3333.333... g, in milligrams rounded down
    assert_eq!(estimate.carbon_milligrams(), Some(3_333_333));
}

#[test]
fn carbon_on_empty_samples_fails_explicitly() {
    let samples: Vec<IntensitySample> = Vec::new();
    let result = aggregate_carbon(10_000_000, &samples);
    assert_eq!(result, Err(CarbonError::EmptyIntensityData));
}

#[test]
fn summary_aggregates_every_window() {
    let (summary, errors) = build_summary(&all_ok_inputs());
    assert!(errors.is_empty());
    assert_eq!(summary.e_usage_kwh_two_days, Some(3_500_000));
    assert_eq!(summary.g_usage_kwh_two_days, Some(750_000));
    assert_eq!(summary.e_usage_kwh_year, Some(3_500_000));
    assert_eq!(summary.g_usage_kwh_year, Some(750_000));
    let carbon = summary.carbon_intensity_week.unwrap();
    assert_eq!(carbon.usage_micro_kwh, 3_500_000);
    assert_eq!(carbon.intensity_sum, 500);
    assert_eq!(carbon.sample_count, 2);
}

#[test]
fn one_gas_failure_is_isolated() {
    let mut inputs = all_ok_inputs();
    inputs.three_months.gas = Err(FetchFailure);
    let (summary, errors) = build_summary(&inputs);

    // exactly one error, for that window's gas fetch
    assert_eq!(errors.len(), 1);
    assert_eq!(
        errors[0],
        CellError::ReadingFetch(Commodity::Gas, WindowLabel::ThreeMonths)
    );

    // the failed cell is blank, everything else is aggregated
    assert_eq!(summary.g_usage_kwh_three_months, None);
    assert_eq!(summary.e_usage_kwh_three_months, Some(3_500_000));
    assert!(summary.carbon_intensity_three_months.is_some());
    assert_eq!(summary.g_usage_kwh_two_days, Some(750_000));
    assert_eq!(summary.g_usage_kwh_six_months, Some(750_000));
}

#[test]
fn empty_intensity_blanks_carbon_and_counts_one_error() {
    let mut inputs = all_ok_inputs();
    inputs.month.intensity = Ok(Vec::new());
    let (summary, errors) = build_summary(&inputs);
    assert_eq!(errors.len(), 1);
    assert_eq!(errors[0], CellError::EmptyIntensityData(WindowLabel::OneMonth));
    assert_eq!(summary.carbon_intensity_month, None);
    assert_eq!(summary.e_usage_kwh_month, Some(3_500_000));
    assert_eq!(summary.g_usage_kwh_month, Some(750_000));
}

#[test]
fn failed_electricity_blanks_carbon_too() {
    let mut inputs = all_ok_inputs();
    inputs.week.electricity = Err(FetchFailure);
    let (summary, errors) = build_summary(&inputs);
    assert_eq!(errors.len(), 1);
    assert_eq!(
        errors[0],
        CellError::ReadingFetch(Commodity::Electricity, WindowLabel::OneWeek)
    );
    assert_eq!(summary.e_usage_kwh_week, None);
    assert_eq!(summary.carbon_intensity_week, None);
    assert_eq!(summary.g_usage_kwh_week, Some(750_000));
}

#[test]
fn failed_intensity_fetch_counts_one_error() {
    let mut inputs = all_ok_inputs();
    inputs.year.intensity = Err(FetchFailure);
    let (summary, errors) = build_summary(&inputs);
    assert_eq!(errors.len(), 1);
    assert_eq!(errors[0], CellError::IntensityFetch(WindowLabel::OneYear));
    assert_eq!(summary.carbon_intensity_year, None);
    assert_eq!(summary.e_usage_kwh_year, Some(3_500_000));
}
