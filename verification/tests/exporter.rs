//! Tests of the window calculator, the region set, the carbon math and
//! the command-line grammar.

use chrono::{Datelike, Timelike, Utc};
use octo_exporter::calendar::{get_month_range, get_year_range, Instant};
use octo_exporter::carbon::{aggregate_carbon, IntensitySample};
use octo_exporter::cli::{parse_cli, usage_text, RunOptions};
use octo_exporter::region::Region;

fn instant(year: i32, month: u8, day: u8, hour: u8, minute: u8, second: u8) -> Instant {
    Instant { year, month, day, hour, minute, second, nanosecond: 0 }
}

fn chrono_now_instant() -> Instant {
    let now = Utc::now();
    Instant {
        year: now.year(),
        month: now.month() as u8,
        day: now.day() as u8,
        hour: now.hour() as u8,
        minute: now.minute() as u8,
        second: now.second() as u8,
        nanosecond: now.nanosecond(),
    }
}

#[test]
fn test_region_enum_values() {
    // Ensure that all known variants exist and can be matched
    let regions = vec![
        Region::NorthScotland,
        Region::SouthScotland,
        Region::NorthWestEngland,
        Region::NorthEastEngland,
        Region::SouthYorkshire,
        Region::NorthWalesMerseysideAndCheshire,
        Region::SouthWales,
        Region::WestMidlands,
        Region::EastMidlands,
        Region::EastEngland,
        Region::SouthWestEngland,
        Region::SouthEngland,
        Region::London,
        Region::SouthEastEngland,
        Region::England,
        Region::Wales,
        Region::Scotland,
    ];
    for region in regions {
        match region {
            Region::NorthScotland
            | Region::SouthScotland
            | Region::NorthWestEngland
            | Region::NorthEastEngland
            | Region::SouthYorkshire
            | Region::NorthWalesMerseysideAndCheshire
            | Region::SouthWales
            | Region::WestMidlands
            | Region::EastMidlands
            | Region::EastEngland
            | Region::SouthWestEngland
            | Region::SouthEngland
            | Region::London
            | Region::SouthEastEngland
            | Region::England
            | Region::Wales
            | Region::Scotland => assert!(true),
        }
    }
}

#[test]
fn test_calculate_carbon_intensity() {
    // Dummy samples as (timestamp, intensity); only the intensity values
    // matter for the aggregation.
    let samples = vec![
        IntensitySample { timestamp: instant(2025, 8, 1, 0, 0, 0), intensity: 200u32 },
        IntensitySample { timestamp: instant(2025, 8, 1, 1, 0, 0), intensity: 300u32 },
        IntensitySample { timestamp: instant(2025, 8, 1, 2, 0, 0), intensity: 500u32 },
    ];
    let usage_kwh = 10.0;
    let usage_micro_kwh = (usage_kwh * 1_000_000.0) as u128;

    let estimate = aggregate_carbon(usage_micro_kwh, &samples).unwrap();
    let avg_intensity: f64 = estimate.intensity_sum as f64 / estimate.sample_count as f64;
    let carbon_grams = usage_kwh * avg_intensity;

    // Expected average: (200 + 300 + 500) / 3 = 333.333...
    // Expected carbon: 10 * 333.333... = 3333.333...
    assert!((avg_intensity - 333.3333).abs() < 0.01);
    assert!((carbon_grams - 3333.3333).abs() < 0.1);
}

#[test]
fn test_cli_parsing_run_command() {
    // This test checks if the CLI can parse the "run" command with required arguments
    let args: Vec<String> = ["testbin", "run", "--timeout", "30", "--interval", "5", "--region", "England"]
        .iter()
        .map(|s| s.to_string())
        .collect();
    let cli = parse_cli(&args);
    assert!(cli.is_ok());
    let RunOptions { timeout, interval, region_name } = cli.unwrap();
    assert_eq!(timeout, 30);
    assert_eq!(interval, 5);
    assert_eq!(region_name, "England");
}

#[test]
fn test_cli_command_help() {
    // Ensure the CLI can render its usage banner without panic
    let banner = usage_text();
    assert!(!banner.is_empty());
}

#[test]
fn test_get_year_range() {
    // Freeze "now"
    let now = chrono_now_instant();
    let years_back = 2;
    let (start, end) = get_year_range(&now, years_back).unwrap();

    // Start should be same month, day=1, hour/min/sec=0, nanosec=0, year shifted back
    assert_eq!(start.year, now.year - years_back);
    assert_eq!(start.month, now.month);
    assert_eq!(start.day, 1);
    assert_eq!(start.hour, 0);
    assert_eq!(start.minute, 0);
    assert_eq!(start.second, 0);
    assert_eq!(start.nanosecond, 0);

    // End is the anchoring "now" itself
    assert_eq!(end, now);
}

#[test]
fn test_get_month_range_current() {
    let now = chrono_now_instant();
    let (start, end) = get_month_range(&now, 0).unwrap();

    // Start should be first day of current month at midnight
    assert_eq!(start.year, now.year);
    assert_eq!(start.month, now.month);
    assert_eq!(start.day, 1);
    assert_eq!(start.hour, 0);
    assert_eq!(start.minute, 0);
    assert_eq!(start.second, 0);
    assert_eq!(start.nanosecond, 0);

    // End is the anchoring "now" itself
    assert_eq!(end, now);
}

#[test]
fn test_get_month_range_previous_month() {
    let now = chrono_now_instant();
    let (start, end) = get_month_range(&now, 1).unwrap();

    // Calculate expected year and month
    let mut expected_year = now.year;
    let mut expected_month = now.month as i32 - 1;
    if expected_month == 0 {
        expected_month = 12;
        expected_year -= 1;
    }
    assert_eq!(start.year, expected_year);
    assert_eq!(start.month, expected_month as u8);
    assert_eq!(start.day, 1);
    assert_eq!(start.hour, 0);
    assert_eq!(start.minute, 0);
    assert_eq!(start.second, 0);
    assert_eq!(start.nanosecond, 0);

    // End is the anchoring "now" itself
    assert_eq!(end, now);
}
