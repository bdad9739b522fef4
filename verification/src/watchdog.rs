//! The scheduler-stall watchdog's decision rules.
//!
//! The watchdog runs on its own thread, outside the cooperative scheduler
//! it observes: a monitor living inside a stalled scheduler could never
//! report the stall. Each cycle it sleeps for the configured period, checks
//! whether its own sleep overran, reads the age of the latest heartbeat
//! report from a probe scheduled on the observed scheduler, and logs with a
//! severity classified here. It is purely diagnostic: it never restarts or
//! cancels anything. The thread, the sleep and the probe live in the
//! surrounding process; this module holds the checks and the
//! classification, over times in microseconds.

use vstd::prelude::*;

verus! {

/// Heartbeat ages up to this bound (10 ms) need no report.
pub const REPORT_THRESHOLD_INFO_US: u64 = 10000;

/// Heartbeat ages up to this bound (100 ms) rate an informational log; the
/// sampling period must exceed this bound, which is the largest fixed
/// threshold.
pub const REPORT_THRESHOLD_WARN_US: u64 = 100000;

/// How much (50 ms) the watchdog's own sleep may overrun the period before
/// the monitoring infrastructure itself is reported as degraded.
pub const MAX_SLEEP_DELTA_US: u64 = 50000;

/// The severity of one heartbeat-age report.
#[derive(Clone, Copy, Debug, PartialEq, Eq, Structural)]
pub enum Severity {
    /// The scheduler is healthy; nothing is logged.
    Silent,
    /// A small delay worth an informational log.
    Info,
    /// A delay beyond the warning threshold but within the period.
    Warn,
    /// No scheduling for longer than a whole period: the scheduler is
    /// considered stalled.
    Error,
}

/// The classification rule: with period P, a heartbeat age `a` rates
/// no report for `a <= 10ms`, an informational log for `10ms < a <= 100ms`,
/// a warning for `100ms < a <= P`, and an error for `a > P`.
pub open spec fn spec_classify(age_us: u64, period_us: u64) -> Severity {
    if age_us <= REPORT_THRESHOLD_INFO_US {
        Severity::Silent
    } else if age_us <= REPORT_THRESHOLD_WARN_US {
        Severity::Info
    } else if age_us <= period_us {
        Severity::Warn
    } else {
        Severity::Error
    }
}

/// Whether a configured sampling period is acceptable: it must exceed the
/// largest fixed threshold. A smaller period is a configuration error,
/// caught at startup before the watchdog thread starts.
pub fn watchdog_period_valid(period_us: u64) -> (b: bool)
    ensures
        b == (period_us > REPORT_THRESHOLD_WARN_US),
{
    period_us > REPORT_THRESHOLD_WARN_US
}

/// Classifies the age of the most recent heartbeat report against the
/// fixed thresholds and the configured period, per [`spec_classify`].
pub fn classify_heartbeat_age(age_us: u64, period_us: u64) -> (s: Severity)
    requires
        period_us > REPORT_THRESHOLD_WARN_US,
    ensures
        s == spec_classify(age_us, period_us),
        age_us <= REPORT_THRESHOLD_INFO_US ==> s == Severity::Silent,
        REPORT_THRESHOLD_INFO_US < age_us && age_us <= REPORT_THRESHOLD_WARN_US ==> s
            == Severity::Info,
        REPORT_THRESHOLD_WARN_US < age_us && age_us <= period_us ==> s == Severity::Warn,
        age_us > period_us ==> s == Severity::Error,
{
    if age_us <= REPORT_THRESHOLD_INFO_US {
        Severity::Silent
    } else if age_us <= REPORT_THRESHOLD_WARN_US {
        Severity::Info
    } else if age_us <= period_us {
        Severity::Warn
    } else {
        Severity::Error
    }
}

/// What one watchdog cycle concluded.
#[derive(Clone, Copy, Debug)]
pub struct CycleReport {
    /// The watchdog's own host thread slept noticeably longer than the
    /// period: the monitoring infrastructure is degraded, which is
    /// reported as a warning distinct from any scheduler stall.
    pub own_thread_delayed: bool,
    /// The severity of the heartbeat-age report for this cycle.
    pub severity: Severity,
}

/// Evaluates one cycle: `elapsed_us` is how long the watchdog's own sleep
/// actually took, and `age_us` the age of the latest heartbeat report from
/// the observed scheduler.
pub fn evaluate_cycle(elapsed_us: u64, age_us: u64, period_us: u64) -> (r: CycleReport)
    requires
        period_us > REPORT_THRESHOLD_WARN_US,
        period_us <= u64::MAX - MAX_SLEEP_DELTA_US,
    ensures
        r.own_thread_delayed == (elapsed_us > period_us + MAX_SLEEP_DELTA_US),
        r.severity == spec_classify(age_us, period_us),
{
    CycleReport {
        own_thread_delayed: elapsed_us > period_us + MAX_SLEEP_DELTA_US,
        severity: classify_heartbeat_age(age_us, period_us),
    }
}

} // verus!
