//! The region mapping, the poll-loop transition table, the command-line
//! grammar's edge cases, and the clock.

use octo_exporter::cli::{parse_cli, parse_u64_str, CliError};
use octo_exporter::clock::{current_instant, current_windows};
use octo_exporter::poll::{poll_step, Config, PollAction, PollEvent, PollPhase};
use octo_exporter::region::{parse_region, resolve_region, Region};

fn args(words: &[&str]) -> Vec<String> {
    words.iter().map(|s| s.to_string()).collect()
}

#[test]
fn known_region_names_map_exactly() {
    let cases = [
        ("North Scotland", Region::NorthScotland),
        ("South Scotland", Region::SouthScotland),
        ("North West England", Region::NorthWestEngland),
        ("North East England", Region::NorthEastEngland),
        ("South Yorkshire", Region::SouthYorkshire),
        (
            "North Wales, Merseyside and Cheshire",
            Region::NorthWalesMerseysideAndCheshire,
        ),
        ("South Wales", Region::SouthWales),
        ("West Midlands", Region::WestMidlands),
        ("East Midlands", Region::EastMidlands),
        ("East England", Region::EastEngland),
        ("South West England", Region::SouthWestEngland),
        ("South England", Region::SouthEngland),
        ("London", Region::London),
        ("South East England", Region::SouthEastEngland),
        ("England", Region::England),
        ("Wales", Region::Wales),
        ("Scotland", Region::Scotland),
    ];
    for (name, region) in cases {
        assert_eq!(parse_region(name), Some(region));
        assert_eq!(resolve_region(name), (region, true));
    }
}

#[test]
fn unknown_region_falls_back_to_england() {
    assert_eq!(parse_region("Atlantis"), None);
    assert_eq!(parse_region("england"), None);
    assert_eq!(parse_region(""), None);
    // the fallback is reported, not a crash
    assert_eq!(resolve_region("Atlantis"), (Region::England, false));
}

#[test]
fn poll_transitions_follow_the_table() {
    assert_eq!(
        poll_step(PollPhase::Idle, PollEvent::Started),
        (PollPhase::Fetching, PollAction::BeginFetch)
    );
    assert_eq!(
        poll_step(PollPhase::Fetching, PollEvent::FetchSucceeded),
        (PollPhase::Publishing, PollAction::PublishSummary)
    );
    assert_eq!(
        poll_step(PollPhase::Fetching, PollEvent::FetchFailed),
        (PollPhase::Sleeping, PollAction::RecordErrorAndSkip)
    );
    assert_eq!(
        poll_step(PollPhase::Publishing, PollEvent::Published),
        (PollPhase::Sleeping, PollAction::BeginSleep)
    );
    assert_eq!(
        poll_step(PollPhase::Sleeping, PollEvent::SleepElapsed),
        (PollPhase::Fetching, PollAction::BeginFetch)
    );
    // a mismatched event changes nothing
    assert_eq!(
        poll_step(PollPhase::Idle, PollEvent::SleepElapsed),
        (PollPhase::Idle, PollAction::Ignore)
    );
    assert_eq!(
        poll_step(PollPhase::Publishing, PollEvent::FetchFailed),
        (PollPhase::Publishing, PollAction::Ignore)
    );
}

#[test]
fn timeout_stops_from_any_phase_and_stopped_is_terminal() {
    let phases = [
        PollPhase::Idle,
        PollPhase::Fetching,
        PollPhase::Publishing,
        PollPhase::Sleeping,
    ];
    for phase in phases {
        assert_eq!(
            poll_step(phase, PollEvent::TimeoutElapsed),
            (PollPhase::Stopped, PollAction::ShutDown)
        );
    }
    let events = [
        PollEvent::Started,
        PollEvent::FetchSucceeded,
        PollEvent::FetchFailed,
        PollEvent::Published,
        PollEvent::SleepElapsed,
        PollEvent::TimeoutElapsed,
    ];
    for event in events {
        assert_eq!(
            poll_step(PollPhase::Stopped, event),
            (PollPhase::Stopped, PollAction::Ignore)
        );
    }
}

#[test]
fn config_timeout_zero_means_unbounded() {
    let mut config = Config {
        interval_secs: 1800,
        timeout_secs: 0,
        region: Region::England,
        mpan: "mpan".to_string(),
        electricity_serial: "es".to_string(),
        mprn: "mprn".to_string(),
        gas_serial: "gs".to_string(),
    };
    assert_eq!(config.run_timeout(), None);
    config.timeout_secs = 30;
    assert_eq!(config.run_timeout(), Some(30));
}

#[test]
fn cli_defaults_apply_without_flags() {
    let options = parse_cli(&args(&["testbin", "run"])).unwrap();
    assert_eq!(options.timeout, 0);
    assert_eq!(options.interval, 1800);
    assert_eq!(options.region_name, "England");
}

#[test]
fn cli_short_flags_and_last_occurrence_win() {
    let options =
        parse_cli(&args(&["testbin", "run", "-t", "5", "-i", "60", "-r", "Wales"])).unwrap();
    assert_eq!(options.timeout, 5);
    assert_eq!(options.interval, 60);
    assert_eq!(options.region_name, "Wales");

    let options =
        parse_cli(&args(&["testbin", "run", "--timeout", "5", "--timeout", "9"])).unwrap();
    assert_eq!(options.timeout, 9);
}

#[test]
fn cli_rejects_malformed_lines() {
    assert_eq!(parse_cli(&args(&["testbin"])), Err(CliError::MissingCommand));
    assert_eq!(parse_cli(&args(&["testbin", "walk"])), Err(CliError::UnknownCommand));
    assert_eq!(
        parse_cli(&args(&["testbin", "run", "--verbose"])),
        Err(CliError::UnknownFlag)
    );
    assert_eq!(
        parse_cli(&args(&["testbin", "run", "--timeout"])),
        Err(CliError::MissingValue)
    );
    assert_eq!(
        parse_cli(&args(&["testbin", "run", "--timeout", "soon"])),
        Err(CliError::InvalidNumber)
    );
}

#[test]
fn decimal_parsing_is_exact_at_the_64_bit_edge() {
    assert_eq!(parse_u64_str("0"), Some(0));
    assert_eq!(parse_u64_str("030"), Some(30));
    assert_eq!(parse_u64_str("18446744073709551615"), Some(u64::MAX));
    assert_eq!(parse_u64_str("18446744073709551616"), None);
    assert_eq!(parse_u64_str(""), None);
    assert_eq!(parse_u64_str("-1"), None);
    assert_eq!(parse_u64_str("1 2"), None);
}

#[test]
fn clock_yields_a_valid_instant_and_nine_windows() {
    let now = current_instant().unwrap();
    assert!((1..=12).contains(&now.month));
    assert!((1..=31).contains(&now.day));
    assert!(now.hour <= 23 && now.minute <= 59 && now.second <= 59);

    let (anchor, windows) = current_windows().unwrap();
    assert_eq!(windows.len(), 9);
    for w in &windows {
        assert_eq!(w.end, anchor);
    }
}
