use pathtrace::config::{
    validate_grace_duration, validate_max_inflight, validate_read_timeout,
    validate_report_cycles, validate_round_duration, validate_ttl, validate_tui_refresh_rate,
    ConfigError,
};

const MS: u128 = 1_000_000;

#[test]
fn test_validate_report_cycles() {
    assert_eq!(validate_report_cycles(0), Err(ConfigError::ReportCycles(0)));
    assert_eq!(validate_report_cycles(1), Ok(()));
    assert_eq!(validate_report_cycles(10), Ok(()));
}

#[test]
fn test_validate_tui_refresh_rate() {
    assert_eq!(validate_tui_refresh_rate(50 * MS), Ok(()));
    assert_eq!(validate_tui_refresh_rate(1000 * MS), Ok(()));
    assert_eq!(
        validate_tui_refresh_rate(50 * MS - 1),
        Err(ConfigError::TuiRefreshRate(50 * MS - 1))
    );
    assert_eq!(
        validate_tui_refresh_rate(1000 * MS + 1),
        Err(ConfigError::TuiRefreshRate(1000 * MS + 1))
    );
}

#[test]
fn test_validate_grace_duration() {
    assert_eq!(validate_grace_duration(10 * MS, 10 * MS), Ok(()));
    assert_eq!(validate_grace_duration(10 * MS, 1000 * MS), Ok(()));
    assert_eq!(
        validate_grace_duration(20 * MS, 9 * MS),
        Err(ConfigError::GraceDuration(20 * MS))
    );
    assert_eq!(
        validate_grace_duration(20 * MS, 1001 * MS),
        Err(ConfigError::GraceDuration(20 * MS))
    );
}

#[test]
fn test_validate_round_duration() {
    assert_eq!(validate_round_duration(MS, MS), Ok(()));
    assert_eq!(validate_round_duration(MS, 2 * MS), Ok(()));
    assert_eq!(
        validate_round_duration(2 * MS, MS),
        Err(ConfigError::RoundDuration { min: 2 * MS, max: MS })
    );
}

#[test]
fn test_validate_read_timeout() {
    assert_eq!(validate_read_timeout(10 * MS), Ok(()));
    assert_eq!(validate_read_timeout(100 * MS), Ok(()));
    assert_eq!(validate_read_timeout(9 * MS), Err(ConfigError::ReadTimeout(9 * MS)));
    assert_eq!(validate_read_timeout(101 * MS), Err(ConfigError::ReadTimeout(101 * MS)));
}

#[test]
fn test_validate_max_inflight() {
    assert_eq!(validate_max_inflight(0), Err(ConfigError::MaxInflight(0)));
    assert_eq!(validate_max_inflight(24), Ok(()));
}

#[test]
fn test_validate_ttl() {
    assert_eq!(validate_ttl(1, 64), Ok(()));
    assert_eq!(validate_ttl(255, 255), Ok(()));
    assert_eq!(validate_ttl(0, 64), Err(ConfigError::FirstTtl(0)));
    assert_eq!(validate_ttl(0, 0), Err(ConfigError::FirstTtl(0)));
    assert_eq!(validate_ttl(1, 0), Err(ConfigError::MaxTtl(0)));
    assert_eq!(validate_ttl(5, 4), Err(ConfigError::TtlOrder { first_ttl: 5, max_ttl: 4 }));
}
