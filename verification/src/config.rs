use vstd::prelude::*;

verus! {

/// The largest number of hops of a trace.
pub const MAX_HOPS: usize = 256;

/// The shortest time between two refreshes of the display, in nanoseconds (50 ms).
pub const TUI_MIN_REFRESH_RATE_NS: u128 = 50_000_000;

/// The longest time between two refreshes of the display, in nanoseconds (1000 ms).
pub const TUI_MAX_REFRESH_RATE_NS: u128 = 1_000_000_000;

/// The shortest time to wait on a socket for a read, in nanoseconds (10 ms).
pub const MIN_READ_TIMEOUT_NS: u128 = 10_000_000;

/// The longest time to wait on a socket for a read, in nanoseconds (100 ms).
pub const MAX_READ_TIMEOUT_NS: u128 = 100_000_000;

/// The shortest grace period, in nanoseconds (10 ms).
pub const MIN_GRACE_DURATION_NS: u128 = 10_000_000;

/// The longest grace period, in nanoseconds (1000 ms).
pub const MAX_GRACE_DURATION_NS: u128 = 1_000_000_000;

/// How the results of a trace are shown.
#[derive(Debug, Clone, Copy, PartialEq, Eq, Structural)]
pub enum Mode {
    /// An interactive display.
    Tui,
    /// A continuous stream of tracing data.
    Stream,
    /// A text table for a number of cycles.
    Table,
    /// Comma-separated values for a number of cycles.
    Csv,
    /// JSON for a number of cycles.
    Json,
}

/// The settings of a trace as they were given on the command line.
#[derive(Debug, Clone)]
pub struct Args {
    /// The host name or address to trace to.
    pub hostname: String,
    /// The hop limit to start from.
    pub first_ttl: u8,
    /// The largest hop limit.
    pub max_ttl: u8,
    /// The shortest duration of a round.
    pub min_round_duration: String,
    /// The longest duration of a round.
    pub max_round_duration: String,
    /// How long to wait for further responses after the target has answered.
    pub grace_duration: String,
    /// The largest number of probes in flight.
    pub max_inflight: u8,
    /// How long to wait on a socket for a read.
    pub read_timeout: String,
    /// Whether the display is left on the screen at the end.
    pub tui_preserve_screen: bool,
    /// The time between two refreshes of the display.
    pub tui_refresh_rate: String,
    /// How the results are shown.
    pub mode: Mode,
    /// The number of cycles of a report.
    pub report_cycles: usize,
}

/// A setting that is not accepted, with the values that tell why.
#[derive(Debug, Clone, Copy, PartialEq, Eq, Structural)]
pub enum ConfigError {
    /// The number of report cycles is zero.
    ReportCycles(usize),
    /// The refresh rate, given in nanoseconds, is outside 50 ms to 1000 ms.
    TuiRefreshRate(u128),
    /// The grace period is outside 10 ms to 1000 ms; the read timeout is given, in
    /// nanoseconds.
    GraceDuration(u128),
    /// The shortest round duration is above the longest; both are given in nanoseconds.
    RoundDuration { min: u128, max: u128 },
    /// The read timeout, given in nanoseconds, is outside 10 ms to 100 ms.
    ReadTimeout(u128),
    /// The number of probes in flight is zero.
    MaxInflight(u8),
    /// The first hop limit is zero.
    FirstTtl(u8),
    /// The largest hop limit is zero.
    MaxTtl(u8),
    /// The first hop limit is above the largest.
    TtlOrder { first_ttl: u8, max_ttl: u8 },
}

/// Accepts a number of report cycles above zero.
pub fn validate_report_cycles(report_cycles: usize) -> (r: Result<(), ConfigError>)
    ensures
        report_cycles != 0 ==> r is Ok,
        report_cycles == 0 ==> r == Err::<(), ConfigError>(
            ConfigError::ReportCycles(report_cycles),
        ),
{
    if report_cycles == 0 {
        Err(ConfigError::ReportCycles(report_cycles))
    } else {
        Ok(())
    }
}

/// Accepts a refresh rate, in nanoseconds, from 50 ms to 1000 ms inclusive.
pub fn validate_tui_refresh_rate(tui_refresh_rate: u128) -> (r: Result<(), ConfigError>)
    ensures
        TUI_MIN_REFRESH_RATE_NS <= tui_refresh_rate <= TUI_MAX_REFRESH_RATE_NS ==> r is Ok,
        !(TUI_MIN_REFRESH_RATE_NS <= tui_refresh_rate <= TUI_MAX_REFRESH_RATE_NS) ==> r == Err::<
            (),
            ConfigError,
        >(ConfigError::TuiRefreshRate(tui_refresh_rate)),
{
    if tui_refresh_rate < TUI_MIN_REFRESH_RATE_NS || tui_refresh_rate > TUI_MAX_REFRESH_RATE_NS {
        Err(ConfigError::TuiRefreshRate(tui_refresh_rate))
    } else {
        Ok(())
    }
}

/// Accepts a grace period, in nanoseconds, from 10 ms to 1000 ms inclusive. The error
/// carries the read timeout.
pub fn validate_grace_duration(read_timeout: u128, grace_duration: u128) -> (r: Result<
    (),
    ConfigError,
>)
    ensures
        MIN_GRACE_DURATION_NS <= grace_duration <= MAX_GRACE_DURATION_NS ==> r is Ok,
        !(MIN_GRACE_DURATION_NS <= grace_duration <= MAX_GRACE_DURATION_NS) ==> r == Err::<
            (),
            ConfigError,
        >(ConfigError::GraceDuration(read_timeout)),
{
    if grace_duration < MIN_GRACE_DURATION_NS || grace_duration > MAX_GRACE_DURATION_NS {
        Err(ConfigError::GraceDuration(read_timeout))
    } else {
        Ok(())
    }
}

/// Accepts round durations of which the shortest is not above the longest.
pub fn validate_round_duration(min_round_duration: u128, max_round_duration: u128) -> (r: Result<
    (),
    ConfigError,
>)
    ensures
        min_round_duration <= max_round_duration ==> r is Ok,
        min_round_duration > max_round_duration ==> r == Err::<(), ConfigError>(
            ConfigError::RoundDuration { min: min_round_duration, max: max_round_duration },
        ),
{
    if min_round_duration > max_round_duration {
        Err(ConfigError::RoundDuration { min: min_round_duration, max: max_round_duration })
    } else {
        Ok(())
    }
}

/// Accepts a read timeout, in nanoseconds, from 10 ms to 100 ms inclusive.
pub fn validate_read_timeout(read_timeout: u128) -> (r: Result<(), ConfigError>)
    ensures
        MIN_READ_TIMEOUT_NS <= read_timeout <= MAX_READ_TIMEOUT_NS ==> r is Ok,
        !(MIN_READ_TIMEOUT_NS <= read_timeout <= MAX_READ_TIMEOUT_NS) ==> r == Err::<
            (),
            ConfigError,
        >(ConfigError::ReadTimeout(read_timeout)),
{
    if read_timeout < MIN_READ_TIMEOUT_NS || read_timeout > MAX_READ_TIMEOUT_NS {
        Err(ConfigError::ReadTimeout(read_timeout))
    } else {
        Ok(())
    }
}

/// Accepts a number of probes in flight above zero.
pub fn validate_max_inflight(max_inflight: u8) -> (r: Result<(), ConfigError>)
    ensures
        max_inflight != 0 ==> r is Ok,
        max_inflight == 0 ==> r == Err::<(), ConfigError>(ConfigError::MaxInflight(max_inflight)),
{
    if max_inflight == 0 {
        Err(ConfigError::MaxInflight(max_inflight))
    } else {
        Ok(())
    }
}

/// What is wrong with the hop limits `first_ttl` and `max_ttl`, if anything: the first
/// being zero, else the largest being zero, else the first being above the largest. An
/// eight-bit hop limit is never above the 256 hops allowed.
pub open spec fn ttl_fault(first_ttl: u8, max_ttl: u8) -> Option<ConfigError> {
    if first_ttl == 0 {
        Some(ConfigError::FirstTtl(first_ttl))
    } else if max_ttl == 0 {
        Some(ConfigError::MaxTtl(max_ttl))
    } else if first_ttl > max_ttl {
        Some(ConfigError::TtlOrder { first_ttl, max_ttl })
    } else {
        None
    }
}

/// Accepts hop limits from 1 on of which the first is not above the largest.
pub fn validate_ttl(first_ttl: u8, max_ttl: u8) -> (r: Result<(), ConfigError>)
    ensures
        r is Ok <==> 1 <= first_ttl <= max_ttl,
        r is Ok <==> ttl_fault(first_ttl, max_ttl) is None,
        r is Err ==> ttl_fault(first_ttl, max_ttl) == Some(r->Err_0),
{
    if first_ttl < 1 {
        return Err(ConfigError::FirstTtl(first_ttl));
    }
    if max_ttl < 1 {
        return Err(ConfigError::MaxTtl(max_ttl));
    }
    if first_ttl > max_ttl {
        return Err(ConfigError::TtlOrder { first_ttl, max_ttl });
    }
    Ok(())
}

} // verus!
