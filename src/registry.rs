use vstd::prelude::*;

use crate::daemon::{DaemonInstance, HealthStatus};
use crate::lifecycle::LifecycleState;

verus! {

/// One persisted state row, as the registry stores it. Timestamps are
/// milliseconds since the Unix epoch (the store keeps RFC 3339 text).
pub struct StateRow {
    pub name: String,
    pub instance_id: String,
    pub state: String,
    pub pid: Option<u32>,
    pub started_at: Option<i64>,
    pub stopped_at: Option<i64>,
    pub exit_code: Option<i32>,
    pub restart_count: Option<u32>,
    pub health_status: Option<String>,
    pub stdout_log: Option<String>,
    pub stderr_log: Option<String>,
}

/// The state a stored label names; an unknown label reads as `Stopped`.
pub open spec fn state_of_label(label: Seq<char>) -> LifecycleState {
    if label == "stopped"@ {
        LifecycleState::Stopped
    } else if label == "starting"@ {
        LifecycleState::Starting
    } else if label == "running"@ {
        LifecycleState::Running
    } else if label == "stopping"@ {
        LifecycleState::Stopping
    } else if label == "failed"@ {
        LifecycleState::Failed
    } else if label == "scheduled"@ {
        LifecycleState::Scheduled
    } else {
        LifecycleState::Stopped
    }
}

/// The health a stored label names; a missing or unknown label reads as `Unknown`.
pub open spec fn health_of_label(label: Option<Seq<char>>) -> HealthStatus {
    match label {
        Some(l) => if l == "healthy"@ {
            HealthStatus::Healthy
        } else if l == "unhealthy"@ {
            HealthStatus::Unhealthy
        } else if l == "not_configured"@ {
            HealthStatus::NotConfigured
        } else {
            HealthStatus::Unknown
        },
        None => HealthStatus::Unknown,
    }
}

fn same_text(s: &String, lit: &str) -> (r: bool)
    ensures
        r == (s@ == lit@),
{
    let t = String::from_str(lit);
    *s == t
}

pub fn parse_state(label: &String) -> (r: LifecycleState)
    ensures
        r == state_of_label(label@),
{
    if same_text(label, "stopped") {
        LifecycleState::Stopped
    } else if same_text(label, "starting") {
        LifecycleState::Starting
    } else if same_text(label, "running") {
        LifecycleState::Running
    } else if same_text(label, "stopping") {
        LifecycleState::Stopping
    } else if same_text(label, "failed") {
        LifecycleState::Failed
    } else if same_text(label, "scheduled") {
        LifecycleState::Scheduled
    } else {
        LifecycleState::Stopped
    }
}

pub fn parse_health(label: &Option<String>) -> (r: HealthStatus)
    ensures
        r == health_of_label(
            match label {
                Some(l) => Some(l@),
                None => None,
            },
        ),
{
    match label {
        Some(l) => if same_text(l, "healthy") {
            HealthStatus::Healthy
        } else if same_text(l, "unhealthy") {
            HealthStatus::Unhealthy
        } else if same_text(l, "not_configured") {
            HealthStatus::NotConfigured
        } else {
            HealthStatus::Unknown
        },
        None => HealthStatus::Unknown,
    }
}

/// Each state's label reads back as that state.
pub proof fn lemma_state_label_round_trip(s: LifecycleState)
    ensures
        state_of_label(s.label_spec()) == s,
{
    reveal_strlit("stopped");
    reveal_strlit("starting");
    reveal_strlit("running");
    reveal_strlit("stopping");
    reveal_strlit("failed");
    reveal_strlit("scheduled");
    match s {
        LifecycleState::Stopped => {

        },
        LifecycleState::Starting => {
            assert("starting"@.len() != "stopped"@.len());
        },
        LifecycleState::Running => {
            assert("running"@[0] != "stopped"@[0]);
            assert("running"@.len() != "starting"@.len());
        },
        LifecycleState::Stopping => {
            assert("stopping"@.len() != "stopped"@.len());
            assert("stopping"@[2] != "starting"@[2]);
            assert("stopping"@.len() != "running"@.len());
        },
        LifecycleState::Failed => {
            assert("failed"@.len() != "stopped"@.len());
            assert("failed"@.len() != "starting"@.len());
            assert("failed"@.len() != "running"@.len());
            assert("failed"@.len() != "stopping"@.len());
        },
        LifecycleState::Scheduled => {
            assert("scheduled"@.len() != "stopped"@.len());
            assert("scheduled"@.len() != "starting"@.len());
            assert("scheduled"@.len() != "running"@.len());
            assert("scheduled"@.len() != "stopping"@.len());
            assert("scheduled"@.len() != "failed"@.len());
        },
    }
}

/// Each health status's label reads back as that status.
pub proof fn lemma_health_label_round_trip(h: HealthStatus)
    ensures
        health_of_label(Some(h.label_spec())) == h,
{
    reveal_strlit("unknown");
    reveal_strlit("healthy");
    reveal_strlit("unhealthy");
    reveal_strlit("not_configured");
    match h {
        HealthStatus::Healthy => {

        },
        HealthStatus::Unhealthy => {
            assert("unhealthy"@.len() != "healthy"@.len());
        },
        HealthStatus::NotConfigured => {
            assert("not_configured"@.len() != "healthy"@.len());
            assert("not_configured"@.len() != "unhealthy"@.len());
        },
        HealthStatus::Unknown => {
            assert("unknown"@[0] != "healthy"@[0]);
            assert("unknown"@.len() != "unhealthy"@.len());
            assert("unknown"@.len() != "not_configured"@.len());
        },
    }
}

impl StateRow {
    /// The instance a stored row describes.
    pub fn into_instance(self) -> (r: DaemonInstance)
        ensures
            r.id == self.instance_id,
            r.spec_name == self.name,
            r.state == state_of_label(self.state@),
            r.pid == self.pid,
            r.started_at == self.started_at,
            r.stopped_at == self.stopped_at,
            r.exit_code == self.exit_code,
            r.restart_count == (match self.restart_count {
                Some(c) => c,
                None => 0,
            }),
            r.health_status == health_of_label(
                match self.health_status {
                    Some(l) => Some(l@),
                    None => None,
                },
            ),
            r.stdout_log == self.stdout_log,
            r.stderr_log == self.stderr_log,
    {
        let state = parse_state(&self.state);
        let health_status = parse_health(&self.health_status);
        let restart_count = match self.restart_count {
            Some(c) => c,
            None => 0,
        };
        DaemonInstance {
            id: self.instance_id,
            spec_name: self.name,
            state,
            pid: self.pid,
            started_at: self.started_at,
            stopped_at: self.stopped_at,
            exit_code: self.exit_code,
            restart_count,
            health_status,
            stdout_log: self.stdout_log,
            stderr_log: self.stderr_log,
        }
    }

    /// The row that stores `instance`.
    pub fn from_instance(instance: &DaemonInstance) -> (r: StateRow)
        ensures
            r.name == instance.spec_name,
            r.instance_id == instance.id,
            r.state@ == instance.state.label_spec(),
            r.pid == instance.pid,
            r.started_at == instance.started_at,
            r.stopped_at == instance.stopped_at,
            r.exit_code == instance.exit_code,
            r.restart_count == Some(instance.restart_count),
            r.health_status matches Some(h) && h@ == instance.health_status.label_spec(),
            r.stdout_log == instance.stdout_log,
            r.stderr_log == instance.stderr_log,
    {
        StateRow {
            name: instance.spec_name.clone(),
            instance_id: instance.id.clone(),
            state: instance.state.to_string(),
            pid: instance.pid,
            started_at: instance.started_at,
            stopped_at: instance.stopped_at,
            exit_code: instance.exit_code,
            restart_count: Some(instance.restart_count),
            health_status: Some(instance.health_status.label()),
            stdout_log: instance.stdout_log.clone(),
            stderr_log: instance.stderr_log.clone(),
        }
    }
}

/// Storing an instance and reading the row back gives the same instance.
pub proof fn lemma_row_round_trip(instance: DaemonInstance, row: StateRow, back: DaemonInstance)
    requires
        row.name == instance.spec_name,
        row.instance_id == instance.id,
        row.state@ == instance.state.label_spec(),
        row.pid == instance.pid,
        row.started_at == instance.started_at,
        row.stopped_at == instance.stopped_at,
        row.exit_code == instance.exit_code,
        row.restart_count == Some(instance.restart_count),
        row.health_status matches Some(h) && h@ == instance.health_status.label_spec(),
        row.stdout_log == instance.stdout_log,
        row.stderr_log == instance.stderr_log,
        back.id == row.instance_id,
        back.spec_name == row.name,
        back.state == state_of_label(row.state@),
        back.pid == row.pid,
        back.started_at == row.started_at,
        back.stopped_at == row.stopped_at,
        back.exit_code == row.exit_code,
        back.restart_count == (match row.restart_count {
            Some(c) => c,
            None => 0,
        }),
        back.health_status == health_of_label(
            match row.health_status {
                Some(l) => Some(l@),
                None => None,
            },
        ),
        back.stdout_log == row.stdout_log,
        back.stderr_log == row.stderr_log,
    ensures
        back == instance,
{
    lemma_state_label_round_trip(instance.state);
    lemma_health_label_round_trip(instance.health_status);
}

} // verus!
