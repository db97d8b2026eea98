use vstd::prelude::*;

use crate::daemon::HealthStatus;
use crate::error::SyspulseError;

verus! {

/// How one probe ended, whatever its kind.
#[derive(Debug, Clone, Copy, PartialEq, Eq, Structural)]
pub enum ProbeOutcome {
    /// The endpoint answered well (connection made, 2xx, zero exit).
    Passed,
    /// The endpoint answered badly or could not be reached.
    Failed,
    /// No answer within the probe's timeout.
    TimedOut,
}

/// A probe's result: healthy, unhealthy, or a timeout error naming the limit.
pub fn probe_result(outcome: ProbeOutcome, timeout_secs: u64) -> (r: Result<
    HealthStatus,
    SyspulseError,
>)
    ensures
        outcome == ProbeOutcome::Passed ==> r == Ok::<HealthStatus, SyspulseError>(
            HealthStatus::Healthy,
        ),
        outcome == ProbeOutcome::Failed ==> r == Ok::<HealthStatus, SyspulseError>(
            HealthStatus::Unhealthy,
        ),
        outcome == ProbeOutcome::TimedOut ==> (r matches Err(SyspulseError::Timeout(t)) && t
            == timeout_secs),
{
    match outcome {
        ProbeOutcome::Passed => Ok(HealthStatus::Healthy),
        ProbeOutcome::Failed => Ok(HealthStatus::Unhealthy),
        ProbeOutcome::TimedOut => Err(SyspulseError::Timeout(timeout_secs)),
    }
}

/// An HTTP probe passes exactly on a 2xx status.
pub fn http_outcome(status: u16) -> (r: ProbeOutcome)
    ensures
        r == (if 200 <= status < 300 {
            ProbeOutcome::Passed
        } else {
            ProbeOutcome::Failed
        }),
{
    if 200 <= status && status < 300 {
        ProbeOutcome::Passed
    } else {
        ProbeOutcome::Failed
    }
}

/// A command probe passes exactly when the command exits with code 0.
pub fn command_outcome(exit_code: Option<i32>) -> (r: ProbeOutcome)
    ensures
        r == (if exit_code == Some(0i32) {
            ProbeOutcome::Passed
        } else {
            ProbeOutcome::Failed
        }),
{
    match exit_code {
        Some(0) => ProbeOutcome::Passed,
        _ => ProbeOutcome::Failed,
    }
}

} // verus!
