use std::collections::HashMap;

use vstd::prelude::*;

use crate::lifecycle::LifecycleState;
use crate::restart::RestartPolicy;

verus! {

pub fn default_interval() -> (r: u64)
    ensures
        r == 30,
{
    30
}

pub fn default_timeout() -> (r: u64)
    ensures
        r == 5,
{
    5
}

pub fn default_retries() -> (r: u32)
    ensures
        r == 3,
{
    3
}

/// 50 MiB.
pub fn default_max_size() -> (r: u64)
    ensures
        r == 52_428_800,
{
    50 * 1024 * 1024
}

pub fn default_retain() -> (r: u32)
    ensures
        r == 5,
{
    5
}

pub fn default_stop_timeout() -> (r: u64)
    ensures
        r == 30,
{
    30
}

#[derive(Debug, Clone, Copy, PartialEq, Eq, Structural)]
pub enum HealthCheckType {
    Http,
    Tcp,
    Command,
}

/// A periodic probe: `target` is a URL, a `host:port`, or a shell command.
#[derive(Debug, Clone)]
pub struct HealthCheckSpec {
    pub check_type: HealthCheckType,
    pub target: String,
    pub interval_secs: u64,
    pub timeout_secs: u64,
    pub retries: u32,
    pub start_period_secs: u64,
}

#[derive(Debug, Clone, Copy, PartialEq, Eq, Structural)]
pub struct LogConfig {
    pub max_size_bytes: u64,
    pub retain_count: u32,
    pub compress_rotated: bool,
}

/// Limits applied to the child; the processor share is in hundredths of a percent.
#[derive(Debug, Clone, Copy, PartialEq, Eq, Structural)]
pub struct ResourceLimits {
    pub max_memory_bytes: Option<u64>,
    pub max_cpu_basis_points: Option<u64>,
    pub max_open_files: Option<u64>,
}

/// The declaration of a daemon, as its author wrote it.
#[derive(Debug, Clone)]
pub struct DaemonSpec {
    pub name: String,
    pub command: Vec<String>,
    pub working_dir: Option<String>,
    pub env: HashMap<String, String>,
    pub health_check: Option<HealthCheckSpec>,
    pub restart_policy: RestartPolicy,
    pub resource_limits: Option<ResourceLimits>,
    pub schedule: Option<String>,
    pub tags: Vec<String>,
    pub stop_timeout_secs: u64,
    pub log_config: Option<LogConfig>,
    pub description: Option<String>,
    pub user: Option<String>,
}

#[derive(Debug, Clone, Copy, PartialEq, Eq, Structural)]
pub enum HealthStatus {
    Unknown,
    Healthy,
    Unhealthy,
    NotConfigured,
}

impl HealthStatus {
    pub open spec fn label_spec(self) -> Seq<char> {
        match self {
            HealthStatus::Unknown => "unknown"@,
            HealthStatus::Healthy => "healthy"@,
            HealthStatus::Unhealthy => "unhealthy"@,
            HealthStatus::NotConfigured => "not_configured"@,
        }
    }

    /// The label stored in the registry.
    pub fn label(&self) -> (r: String)
        ensures
            r@ == self.label_spec(),
    {
        match *self {
            HealthStatus::Unknown => String::from_str("unknown"),
            HealthStatus::Healthy => String::from_str("healthy"),
            HealthStatus::Unhealthy => String::from_str("unhealthy"),
            HealthStatus::NotConfigured => String::from_str("not_configured"),
        }
    }
}

/// What a health status starts as, or returns to, for a daemon of this spec:
/// `Unknown` when a probe is configured, `NotConfigured` otherwise.
pub open spec fn baseline_health(spec: DaemonSpec) -> HealthStatus {
    if spec.health_check is Some {
        HealthStatus::Unknown
    } else {
        HealthStatus::NotConfigured
    }
}

pub fn baseline_health_of(spec: &DaemonSpec) -> (r: HealthStatus)
    ensures
        r == baseline_health(*spec),
{
    if spec.health_check.is_some() {
        HealthStatus::Unknown
    } else {
        HealthStatus::NotConfigured
    }
}

/// The runtime mirror of one spec. Timestamps are milliseconds since the Unix epoch.
#[derive(Debug)]
pub struct DaemonInstance {
    pub id: String,
    pub spec_name: String,
    pub state: LifecycleState,
    pub pid: Option<u32>,
    pub started_at: Option<i64>,
    pub stopped_at: Option<i64>,
    pub exit_code: Option<i32>,
    pub restart_count: u32,
    pub health_status: HealthStatus,
    pub stdout_log: Option<String>,
    pub stderr_log: Option<String>,
}

impl Clone for DaemonInstance {
    fn clone(&self) -> (r: DaemonInstance)
        ensures
            r == *self,
    {
        DaemonInstance {
            id: self.id.clone(),
            spec_name: self.spec_name.clone(),
            state: self.state,
            pid: self.pid,
            started_at: self.started_at,
            stopped_at: self.stopped_at,
            exit_code: self.exit_code,
            restart_count: self.restart_count,
            health_status: self.health_status,
            stdout_log: self.stdout_log.clone(),
            stderr_log: self.stderr_log.clone(),
        }
    }
}

/// Relies on uuid::Uuid::new_v4 and its `Display`: a fresh random identifier,
/// written in the 36-character hyphenated form.
#[verifier::external_body]
fn fresh_instance_id() -> (r: String)
    ensures
        r@.len() == 36,
{
    uuid::Uuid::new_v4().to_string()
}

impl DaemonInstance {
    /// A stopped instance of `spec_name` with a fresh identifier and nothing recorded yet.
    pub fn new(spec_name: &str) -> (r: DaemonInstance)
        ensures
            r.spec_name@ == spec_name@,
            r.id@.len() == 36,
            r.state == LifecycleState::Stopped,
            r.pid is None,
            r.started_at is None,
            r.stopped_at is None,
            r.exit_code is None,
            r.restart_count == 0,
            r.health_status == HealthStatus::Unknown,
            r.stdout_log is None,
            r.stderr_log is None,
    {
        DaemonInstance {
            id: fresh_instance_id(),
            spec_name: String::from_str(spec_name),
            state: LifecycleState::Stopped,
            pid: None,
            started_at: None,
            stopped_at: None,
            exit_code: None,
            restart_count: 0,
            health_status: HealthStatus::Unknown,
            stdout_log: None,
            stderr_log: None,
        }
    }
}

} // verus!
