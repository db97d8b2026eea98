use vstd::prelude::*;

verus! {

/// What the driver reports about a freshly spawned child.
#[derive(Debug, Clone, Copy, PartialEq, Eq, Structural)]
pub struct ProcessInfo {
    pub pid: u32,
    pub alive: bool,
}

/// The process driver for Unix: detached sessions, group signals, `waitpid`.
#[derive(Debug, Clone, Copy, PartialEq, Eq, Structural)]
pub struct UnixProcessDriver;

impl UnixProcessDriver {
    pub fn new() -> (r: UnixProcessDriver)
        ensures
            r == UnixProcessDriver,
    {
        UnixProcessDriver
    }
}

/// The process driver for Windows: new process groups, console break events, job objects.
#[derive(Debug, Clone, Copy, PartialEq, Eq, Structural)]
pub struct WindowsProcessDriver;

impl WindowsProcessDriver {
    pub fn new() -> (r: WindowsProcessDriver)
        ensures
            r == WindowsProcessDriver,
    {
        WindowsProcessDriver
    }
}

/// What a non-blocking reap of a child observed.
#[derive(Debug, Clone, Copy, PartialEq, Eq, Structural)]
pub enum WaitOutcome {
    /// The child exited with this code.
    Exited(i32),
    /// The child was terminated by this signal.
    Signaled(u8),
    /// The child has not exited yet.
    StillAlive,
    /// The child stopped or continued, which is not an exit.
    Other,
    /// The child is not ours to reap (it runs in its own session); `alive`
    /// says whether a process with its pid still exists.
    NotOurChild { alive: bool },
}

pub open spec fn exit_code_spec(w: WaitOutcome) -> Option<i32> {
    match w {
        WaitOutcome::Exited(c) => Some(c),
        WaitOutcome::Signaled(s) => Some((-(s as int)) as i32),
        WaitOutcome::StillAlive => None,
        WaitOutcome::Other => None,
        WaitOutcome::NotOurChild { alive } => if alive {
            None
        } else {
            Some(-1i32)
        },
    }
}

/// The exit code to record: the code itself, minus the signal number for a
/// signalled child, `-1` for a vanished child that could not be reaped, and
/// nothing while it still runs.
pub fn exit_code_of(w: WaitOutcome) -> (r: Option<i32>)
    ensures
        r == exit_code_spec(w),
{
    match w {
        WaitOutcome::Exited(c) => Some(c),
        WaitOutcome::Signaled(s) => Some(-(s as i32)),
        WaitOutcome::StillAlive => None,
        WaitOutcome::Other => None,
        WaitOutcome::NotOurChild { alive } => if alive {
            None
        } else {
            Some(-1)
        },
    }
}

/// How often a graceful stop checks whether the process is gone.
pub const STOP_POLL_MS: u64 = 100;

#[derive(Debug, Clone, Copy, PartialEq, Eq, Structural)]
pub enum StopStep {
    /// The process is gone: the stop succeeded.
    Done,
    /// Sleep one poll interval and check again.
    Wait,
    /// The grace period is over: kill the process.
    Escalate,
}

/// One poll of a graceful stop, `elapsed_ms` after the termination signal.
pub fn stop_step(elapsed_ms: u64, timeout_secs: u64, alive: bool) -> (r: StopStep)
    ensures
        !alive ==> r == StopStep::Done,
        alive && (elapsed_ms as int) < timeout_secs as int * 1000 ==> r == StopStep::Wait,
        alive && (elapsed_ms as int) >= timeout_secs as int * 1000 ==> r == StopStep::Escalate,
{
    if !alive {
        StopStep::Done
    } else if (elapsed_ms as u128) < (timeout_secs as u128) * 1000 {
        StopStep::Wait
    } else {
        StopStep::Escalate
    }
}

} // verus!
