use vstd::prelude::*;

use crate::daemon::{baseline_health, baseline_health_of, DaemonInstance, DaemonSpec, HealthStatus};
use crate::error::SyspulseError;
use crate::lifecycle::{active, valid_transition, LifecycleState};
use crate::restart::{capped_delay, count_after_exit, restart_due, RestartEvaluator, RestartPolicy};
use crate::scheduler::{cron_accepts, cron_parses};
use crate::text::concat3;

verus! {

/// A spec the engine can run: it has a name and a program to execute.
pub open spec fn spec_runnable(spec: DaemonSpec) -> bool {
    spec.name@.len() > 0 && spec.command@.len() > 0
}

/// One daemon's spec and instance agree: same name, a pid exactly while a
/// process exists, and `NotConfigured` health exactly when no probe is declared.
pub open spec fn entry_wf(spec: DaemonSpec, inst: DaemonInstance) -> bool {
    &&& spec_runnable(spec)
    &&& inst.spec_name@ == spec.name@
    &&& (inst.pid is Some <==> active(inst.state))
    &&& (inst.health_status == HealthStatus::NotConfigured <==> spec.health_check is None)
}

pub open spec fn manager_wf(specs: Seq<DaemonSpec>, insts: Seq<DaemonInstance>) -> bool {
    &&& specs.len() == insts.len()
    &&& forall|i: int| 0 <= i < specs.len() ==> #[trigger] entry_wf(specs[i], insts[i])
    &&& forall|i: int, j: int|
        0 <= i < specs.len() && 0 <= j < specs.len() && i != j ==> specs[i].name@ != specs[j].name@
}

/// The instance a successful start leaves behind.
pub open spec fn launched(
    inst: DaemonInstance,
    spec: DaemonSpec,
    pid: u32,
    now: i64,
    stdout_log: String,
    stderr_log: String,
) -> DaemonInstance {
    DaemonInstance {
        id: inst.id,
        spec_name: inst.spec_name,
        state: LifecycleState::Running,
        pid: Some(pid),
        started_at: Some(now),
        stopped_at: None,
        exit_code: None,
        restart_count: inst.restart_count,
        health_status: baseline_health(spec),
        stdout_log: Some(stdout_log),
        stderr_log: Some(stderr_log),
    }
}

/// The instance an operator-requested stop leaves behind.
pub open spec fn halted(inst: DaemonInstance, spec: DaemonSpec, exit_code: Option<i32>, now: i64) -> DaemonInstance {
    DaemonInstance {
        state: LifecycleState::Stopped,
        pid: None,
        stopped_at: Some(now),
        exit_code,
        health_status: baseline_health(spec),
        ..inst
    }
}

/// The instance after the monitor saw its process exit on its own.
pub open spec fn crashed(inst: DaemonInstance, spec: DaemonSpec, exit_code: Option<i32>, now: i64) -> DaemonInstance {
    DaemonInstance {
        state: LifecycleState::Failed,
        pid: None,
        stopped_at: Some(now),
        exit_code,
        health_status: baseline_health(spec),
        restart_count: count_after_exit(spec.restart_policy, exit_code, inst.restart_count),
        ..inst
    }
}

/// A probe error counts as an unhealthy result.
pub open spec fn probe_verdict(outcome: Result<HealthStatus, SyspulseError>) -> HealthStatus {
    match outcome {
        Ok(s) => s,
        Err(_) => HealthStatus::Unhealthy,
    }
}

/// The failure counter after one probe result.
pub open spec fn failures_after(verdict: HealthStatus, failures: u32) -> u32 {
    match verdict {
        HealthStatus::Healthy => 0,
        HealthStatus::Unhealthy => if failures < u32::MAX {
            (failures + 1) as u32
        } else {
            failures
        },
        _ => failures,
    }
}

/// The recorded health after one probe result, given the probe's retry count.
pub open spec fn health_after(current: HealthStatus, verdict: HealthStatus, failures: u32, retries: u32) -> HealthStatus {
    match verdict {
        HealthStatus::Healthy => HealthStatus::Healthy,
        HealthStatus::Unhealthy => if failures_after(verdict, failures) >= retries {
            HealthStatus::Unhealthy
        } else {
            current
        },
        _ => current,
    }
}

/// Whether the delay `d` is one the restart evaluator may choose for this policy and attempt.
pub open spec fn delay_fits(policy: RestartPolicy, attempt: u32, d: u64) -> bool {
    match policy {
        RestartPolicy::Always { backoff_base_ms, backoff_max_ms, .. }
        | RestartPolicy::OnFailure { backoff_base_ms, backoff_max_ms, .. } => {
            let c = capped_delay(attempt as nat, backoff_base_ms as nat, backoff_max_ms as nat);
            c <= d && 10 * d <= 11 * c
        },
        RestartPolicy::Never => d == 0,
    }
}

/// What the driver must do to stop a daemon.
#[derive(Debug, Clone, Copy, PartialEq, Eq, Structural)]
pub struct StopPlan {
    pub pid: u32,
    /// Kill at once instead of asking the process to terminate.
    pub force: bool,
    pub timeout_secs: u64,
}

/// The monitor's decision after an unexpected exit.
#[derive(Debug, Clone, Copy, PartialEq, Eq, Structural)]
pub struct RestartDecision {
    pub restart: bool,
    pub delay_ms: u64,
}

/// The health loop's next step after one probe.
#[derive(Debug, Clone, Copy, PartialEq, Eq, Structural)]
pub struct HealthStep {
    pub consecutive_failures: u32,
    /// The recorded health changed in a way that must be persisted.
    pub persist: bool,
    /// The daemon is still running with a probe configured.
    pub keep_running: bool,
}

/// The first persisted state recorded under `name`, if any.
pub open spec fn first_state(states: Seq<DaemonInstance>, name: Seq<char>) -> Option<DaemonInstance>
    decreases states.len(),
{
    if states.len() == 0 {
        None
    } else if states[0].spec_name@ == name {
        Some(states[0])
    } else {
        first_state(states.subrange(1, states.len() as int), name)
    }
}

proof fn lemma_first_state_named(states: Seq<DaemonInstance>, name: Seq<char>)
    ensures
        first_state(states, name) matches Some(st) ==> st.spec_name@ == name,
    decreases states.len(),
{
    if states.len() > 0 && states[0].spec_name@ != name {
        lemma_first_state_named(states.subrange(1, states.len() as int), name);
    }
}

/// A persisted state taken back into memory: a pid that does not match the
/// state (an operation cut short) leaves the daemon `Stopped`, and the health
/// status is brought in line with whether the spec declares a probe.
pub open spec fn adopted(spec: DaemonSpec, st: DaemonInstance) -> DaemonInstance {
    let coupled = (st.pid is Some <==> active(st.state));
    DaemonInstance {
        state: if coupled {
            st.state
        } else {
            LifecycleState::Stopped
        },
        pid: if coupled {
            st.pid
        } else {
            None
        },
        health_status: if spec.health_check is None {
            HealthStatus::NotConfigured
        } else if st.health_status == HealthStatus::NotConfigured {
            HealthStatus::Unknown
        } else {
            st.health_status
        },
        ..st
    }
}

/// `inst` is a brand-new instance of `spec`.
pub open spec fn fresh_for(spec: DaemonSpec, inst: DaemonInstance) -> bool {
    &&& inst.spec_name@ == spec.name@
    &&& inst.state == initial_state(spec)
    &&& inst.pid is None
    &&& inst.started_at is None
    &&& inst.stopped_at is None
    &&& inst.exit_code is None
    &&& inst.restart_count == 0
    &&& inst.health_status == baseline_health(spec)
    &&& inst.stdout_log is None
    &&& inst.stderr_log is None
}

/// The instance recovery builds for `spec` from the persisted `states`.
pub open spec fn restored_from(spec: DaemonSpec, states: Seq<DaemonInstance>, inst: DaemonInstance) -> bool {
    match first_state(states, spec.name@) {
        Some(st) => inst == adopted(spec, st),
        None => fresh_for(spec, inst),
    }
}

/// `spec` is one of `specs`.
pub open spec fn spec_listed(specs: Seq<DaemonSpec>, spec: DaemonSpec) -> bool {
    exists|j: int| 0 <= j < specs.len() && #[trigger] specs[j] == spec
}

/// A daemon that was running when the manager went down, made ready to be started afresh.
pub open spec fn recovery_reset(inst: DaemonInstance) -> DaemonInstance {
    DaemonInstance { state: LifecycleState::Stopped, pid: None, ..inst }
}

/// In every well-formed manager, each instance has a pid exactly while it is
/// `Starting`, `Running` or `Stopping`, and reports `NotConfigured` health
/// exactly when its spec declares no probe.
pub proof fn lemma_instance_invariants(specs: Seq<DaemonSpec>, insts: Seq<DaemonInstance>, i: int)
    requires
        manager_wf(specs, insts),
        0 <= i < insts.len(),
    ensures
        insts[i].pid is Some <==> active(insts[i].state),
        insts[i].health_status == HealthStatus::NotConfigured <==> specs[i].health_check is None,
        insts[i].spec_name@ == specs[i].name@,
{
    assert(entry_wf(specs[i], insts[i]));
}

/// Operator-initiated starts, stops and resets leave the restart count as it
/// was; only an exit seen by the monitor can raise it, and then by at most one.
pub proof fn lemma_restart_count_owned_by_monitor(
    inst: DaemonInstance,
    spec: DaemonSpec,
    pid: u32,
    now: i64,
    exit_code: Option<i32>,
    stdout_log: String,
    stderr_log: String,
)
    ensures
        launched(inst, spec, pid, now, stdout_log, stderr_log).restart_count == inst.restart_count,
        halted(inst, spec, exit_code, now).restart_count == inst.restart_count,
        recovery_reset(inst).restart_count == inst.restart_count,
        inst.restart_count <= crashed(inst, spec, exit_code, now).restart_count
            <= inst.restart_count + 1,
{
}

/// A daemon that has just been started refuses a second start: no double spawn.
pub proof fn lemma_no_double_start(
    inst: DaemonInstance,
    spec: DaemonSpec,
    pid: u32,
    now: i64,
    stdout_log: String,
    stderr_log: String,
)
    ensures
        !valid_transition(
            launched(inst, spec, pid, now, stdout_log, stderr_log).state,
            LifecycleState::Starting,
        ),
{
}

/// A daemon persisted as `Running` is, after recovery resets it and the
/// start that follows, `Running` again under the freshly spawned pid with
/// its restart count unchanged.
pub proof fn lemma_recovery_adoption(
    inst: DaemonInstance,
    spec: DaemonSpec,
    pid: u32,
    now: i64,
    stdout_log: String,
    stderr_log: String,
)
    requires
        inst.state == LifecycleState::Running,
    ensures
        valid_transition(recovery_reset(inst).state, LifecycleState::Starting),
        ({
            let after = launched(recovery_reset(inst), spec, pid, now, stdout_log, stderr_log);
            &&& after.state == LifecycleState::Running
            &&& after.pid == Some(pid)
            &&& after.restart_count == inst.restart_count
            &&& after.id == inst.id
        }),
{
}

/// The state a newly added daemon starts in.
pub open spec fn initial_state(spec: DaemonSpec) -> LifecycleState {
    if spec.schedule is Some {
        LifecycleState::Scheduled
    } else {
        LifecycleState::Stopped
    }
}

/// The in-memory registry of daemons and the lifecycle rules applied to them.
/// Operations that need the process driver come in two steps: a `plan_*` query
/// that fails exactly when the operation would, then the committing call that
/// takes what the driver reported.
pub struct DaemonManager {
    specs: Vec<DaemonSpec>,
    instances: Vec<DaemonInstance>,
}

impl DaemonManager {
    /// The declared specs, in order of addition.
    pub closed spec fn spec_seq(&self) -> Seq<DaemonSpec> {
        self.specs@
    }

    /// The instances, one per spec and in the same order.
    pub closed spec fn instance_seq(&self) -> Seq<DaemonInstance> {
        self.instances@
    }

    pub open spec fn has(&self, name: Seq<char>) -> bool {
        exists|i: int|
            0 <= i < self.instance_seq().len() && #[trigger] self.instance_seq()[i].spec_name@
                == name
    }

    /// The position of the daemon called `name` (meaningful when it exists).
    pub open spec fn slot(&self, name: Seq<char>) -> int {
        choose|i: int|
            0 <= i < self.instance_seq().len() && #[trigger] self.instance_seq()[i].spec_name@
                == name
    }

    pub open spec fn instance_named(&self, name: Seq<char>) -> DaemonInstance {
        self.instance_seq()[self.slot(name)]
    }

    pub open spec fn spec_named(&self, name: Seq<char>) -> DaemonSpec {
        self.spec_seq()[self.slot(name)]
    }

    /// The invariant every operation establishes and preserves.
    pub open spec fn well_formed(&self) -> bool {
        manager_wf(self.spec_seq(), self.instance_seq())
    }

    pub fn new() -> (r: DaemonManager)
        ensures
            r.well_formed(),
            r.spec_seq().len() == 0,
            r.instance_seq().len() == 0,
    {
        DaemonManager { specs: Vec::new(), instances: Vec::new() }
    }

    fn find(&self, name: &str) -> (r: Option<usize>)
        requires
            self.well_formed(),
        ensures
            match r {
                Some(i) => {
                    &&& self.has(name@)
                    &&& i == self.slot(name@)
                    &&& i < self.instance_seq().len()
                },
                None => !self.has(name@),
            },
    {
        let key = String::from_str(name);
        let mut i: usize = 0;
        while i < self.instances.len()
            invariant
                self.well_formed(),
                i <= self.instances@.len(),
                key@ == name@,
                forall|j: int| 0 <= j < i ==> self.instances@[j].spec_name@ != name@,
            decreases self.instances@.len() - i,
        {
            if self.instances[i].spec_name == key {
                proof {
                    assert(self.instance_seq()[i as int].spec_name@ == name@);
                    assert(self.has(name@));
                    let k = self.slot(name@);
                    assert(entry_wf(self.specs@[k], self.instances@[k]));
                    assert(entry_wf(self.specs@[i as int], self.instances@[i as int]));
                }
                return Some(i);
            }
            i = i + 1;
        }
        None
    }

    /// Whether a daemon called `name` is registered.
    pub fn contains(&self, name: &str) -> (r: bool)
        requires
            self.well_formed(),
        ensures
            r == self.has(name@),
    {
        self.find(name).is_some()
    }

    /// A copy of the named daemon's instance.
    pub fn status(&self, name: &str) -> (r: Result<DaemonInstance, SyspulseError>)
        requires
            self.well_formed(),
        ensures
            self.has(name@) ==> r == Ok::<DaemonInstance, SyspulseError>(self.instance_named(name@)),
            !self.has(name@) ==> (r matches Err(SyspulseError::DaemonNotFound(n)) && n@ == name@),
    {
        match self.find(name) {
            Some(i) => Ok(self.instances[i].clone()),
            None => Err(SyspulseError::DaemonNotFound(String::from_str(name))),
        }
    }

    /// Copies of all instances, in order of addition.
    pub fn list(&self) -> (r: Vec<DaemonInstance>)
        requires
            self.well_formed(),
        ensures
            r@ == self.instance_seq(),
    {
        let mut out: Vec<DaemonInstance> = Vec::new();
        let mut i: usize = 0;
        while i < self.instances.len()
            invariant
                i <= self.instances@.len(),
                out@ == self.instances@.subrange(0, i as int),
            decreases self.instances@.len() - i,
        {
            out.push(self.instances[i].clone());
            i = i + 1;
        }
        out
    }

    /// The spec of the named daemon.
    pub fn spec_of(&self, name: &str) -> (r: Option<&DaemonSpec>)
        requires
            self.well_formed(),
        ensures
            self.has(name@) ==> r == Some(&self.spec_named(name@)),
            !self.has(name@) ==> r is None,
    {
        match self.find(name) {
            Some(i) => Some(&self.specs[i]),
            None => None,
        }
    }

    /// Registers `spec` with a fresh instance, `Scheduled` when it has a cron
    /// schedule and `Stopped` otherwise.
    pub fn add_daemon(&mut self, spec: DaemonSpec) -> (r: Result<(), SyspulseError>)
        requires
            old(self).well_formed(),
        ensures
            final(self).well_formed(),
            old(self).has(spec.name@) ==> (r matches Err(SyspulseError::DaemonAlreadyExists(n))
                && n@ == spec.name@),
            !old(self).has(spec.name@) && !spec_runnable(spec) ==> r matches Err(
                SyspulseError::Config(_),
            ),
            !old(self).has(spec.name@) && spec_runnable(spec) && spec.schedule is Some
                && !cron_accepts(spec.schedule->0@) ==> r matches Err(
                SyspulseError::Scheduler(_),
            ),
            r is Err ==> final(self).spec_seq() == old(self).spec_seq() && final(self).instance_seq()
                == old(self).instance_seq(),
            r is Ok <==> (!old(self).has(spec.name@) && spec_runnable(spec) && (spec.schedule is Some
                ==> cron_accepts(spec.schedule->0@))),
            r is Ok ==> final(self).has(spec.name@),
            r is Ok ==> {
                let inst = final(self).instance_seq().last();
                &&& final(self).spec_seq() == old(self).spec_seq().push(spec)
                &&& final(self).instance_seq().drop_last() == old(self).instance_seq()
                &&& inst.spec_name@ == spec.name@
                &&& inst.state == initial_state(spec)
                &&& inst.pid is None
                &&& inst.started_at is None
                &&& inst.stopped_at is None
                &&& inst.exit_code is None
                &&& inst.restart_count == 0
                &&& inst.health_status == baseline_health(spec)
                &&& inst.stdout_log is None
                &&& inst.stderr_log is None
            },
    {
        if self.find(spec.name.as_str()).is_some() {
            return Err(SyspulseError::DaemonAlreadyExists(spec.name.clone()));
        }
        if spec.name.as_str().is_empty() || spec.command.len() == 0 {
            return Err(
                SyspulseError::Config(
                    String::from_str("a daemon needs a non-empty name and a non-empty command"),
                ),
            );
        }
        match &spec.schedule {
            Some(expr) => {
                if !cron_parses(expr.as_str()) {
                    return Err(
                        SyspulseError::Scheduler(
                            concat3("invalid cron expression '", expr.as_str(), "'"),
                        ),
                    );
                }
            },
            None => {},
        }
        let inst = DaemonManager::fresh_instance(&spec);
        self.push_entry(spec, inst);
        proof {
            assert(self.instance_seq().drop_last() =~= old(self).instance_seq());
            assert(self.instance_seq()[self.instances@.len() - 1].spec_name@ == spec.name@);
        }
        Ok(())
    }

    /// Checks that the named daemon may start; on success the caller spawns
    /// its process and reports back through `start_daemon`.
    pub fn plan_start(&self, name: &str) -> (r: Result<&DaemonSpec, SyspulseError>)
        requires
            self.well_formed(),
        ensures
            !self.has(name@) ==> (r matches Err(SyspulseError::DaemonNotFound(n)) && n@ == name@),
            self.has(name@) && !valid_transition(
                self.instance_named(name@).state,
                LifecycleState::Starting,
            ) ==> (r matches Err(SyspulseError::InvalidStateTransition { from, to }) && from@
                == self.instance_named(name@).state.name_spec() && to@ == "Starting"@),
            self.has(name@) && valid_transition(
                self.instance_named(name@).state,
                LifecycleState::Starting,
            ) ==> r == Ok::<&DaemonSpec, SyspulseError>(&self.spec_named(name@)),
            r is Ok ==> spec_runnable(*r->Ok_0),
    {
        match self.find(name) {
            None => Err(SyspulseError::DaemonNotFound(String::from_str(name))),
            Some(i) => {
                proof {
                    assert(entry_wf(self.specs@[i as int], self.instances@[i as int]));
                }
                match self.instances[i].state.transition_to(LifecycleState::Starting) {
                    Ok(_) => Ok(&self.specs[i]),
                    Err(e) => Err(e),
                }
            },
        }
    }

    /// Records that the named daemon's process was spawned as `pid` at time
    /// `now` with the given log files: the instance moves through `Starting`
    /// to `Running`. Fails, changing nothing, as `plan_start` does.
    pub fn start_daemon(
        &mut self,
        name: &str,
        pid: u32,
        now: i64,
        stdout_log: String,
        stderr_log: String,
    ) -> (r: Result<DaemonInstance, SyspulseError>)
        requires
            old(self).well_formed(),
        ensures
            final(self).well_formed(),
            !old(self).has(name@) ==> (r matches Err(SyspulseError::DaemonNotFound(n)) && n@
                == name@),
            old(self).has(name@) && !valid_transition(
                old(self).instance_named(name@).state,
                LifecycleState::Starting,
            ) ==> (r matches Err(SyspulseError::InvalidStateTransition { from, to }) && from@
                == old(self).instance_named(name@).state.name_spec() && to@ == "Starting"@),
            r is Err ==> final(self).spec_seq() == old(self).spec_seq() && final(self).instance_seq()
                == old(self).instance_seq(),
            old(self).has(name@) && valid_transition(
                old(self).instance_named(name@).state,
                LifecycleState::Starting,
            ) ==> {
                let inst = launched(
                    old(self).instance_named(name@),
                    old(self).spec_named(name@),
                    pid,
                    now,
                    stdout_log,
                    stderr_log,
                );
                &&& r == Ok::<DaemonInstance, SyspulseError>(inst)
                &&& final(self).spec_seq() == old(self).spec_seq()
                &&& final(self).instance_seq() == old(self).instance_seq().update(
                    old(self).slot(name@),
                    inst,
                )
            },
    {
        match self.find(name) {
            None => Err(SyspulseError::DaemonNotFound(String::from_str(name))),
            Some(i) => {
                let old_state = self.instances[i].state;
                match old_state.transition_to(LifecycleState::Starting) {
                    Err(e) => Err(e),
                    Ok(starting) => {
                        let running = match starting.transition_to(LifecycleState::Running) {
                            Ok(s) => s,
                            Err(e) => {
                                return Err(e);
                            },
                        };
                        Ok(self.commit_launch(i, running, pid, now, stdout_log, stderr_log))
                    },
                }
            },
        }
    }

    fn stop_check(&self, name: &str) -> (r: Result<usize, SyspulseError>)
        requires
            self.well_formed(),
        ensures
            !self.has(name@) ==> (r matches Err(SyspulseError::DaemonNotFound(n)) && n@ == name@),
            self.has(name@) && !valid_transition(
                self.instance_named(name@).state,
                LifecycleState::Stopping,
            ) ==> (r matches Err(SyspulseError::InvalidStateTransition { from, to }) && from@
                == self.instance_named(name@).state.name_spec() && to@ == "Stopping"@),
            r is Ok <==> (self.has(name@) && valid_transition(
                self.instance_named(name@).state,
                LifecycleState::Stopping,
            )),
            r is Ok ==> r->Ok_0 == self.slot(name@) && r->Ok_0 < self.instance_seq().len(),
    {
        match self.find(name) {
            None => Err(SyspulseError::DaemonNotFound(String::from_str(name))),
            Some(i) => match self.instances[i].state.transition_to(LifecycleState::Stopping) {
                Ok(_) => Ok(i),
                Err(e) => Err(e),
            },
        }
    }

    /// Checks that the named daemon may stop and says how: the process to
    /// signal, whether to kill it outright, and how long to wait for it.
    pub fn plan_stop(&self, name: &str, force: bool) -> (r: Result<StopPlan, SyspulseError>)
        requires
            self.well_formed(),
        ensures
            !self.has(name@) ==> (r matches Err(SyspulseError::DaemonNotFound(n)) && n@ == name@),
            self.has(name@) && !valid_transition(
                self.instance_named(name@).state,
                LifecycleState::Stopping,
            ) ==> (r matches Err(SyspulseError::InvalidStateTransition { from, to }) && from@
                == self.instance_named(name@).state.name_spec() && to@ == "Stopping"@),
            self.has(name@) && valid_transition(
                self.instance_named(name@).state,
                LifecycleState::Stopping,
            ) ==> r == Ok::<StopPlan, SyspulseError>(
                StopPlan {
                    pid: self.instance_named(name@).pid->0,
                    force,
                    timeout_secs: self.spec_named(name@).stop_timeout_secs,
                },
            ),
    {
        match self.stop_check(name) {
            Err(e) => Err(e),
            Ok(i) => {
                proof {
                    assert(entry_wf(self.specs@[i as int], self.instances@[i as int]));
                }
                let pid = match self.instances[i].pid {
                    Some(p) => p,
                    None => 0,
                };
                Ok(StopPlan { pid, force, timeout_secs: self.specs[i].stop_timeout_secs })
            },
        }
    }

    /// Records that the named daemon's process was stopped and reaped with
    /// `exit_code` at time `now`: the instance moves through `Stopping` to
    /// `Stopped`. Fails, changing nothing, as `plan_stop` does.
    pub fn stop_daemon(&mut self, name: &str, exit_code: Option<i32>, now: i64) -> (r: Result<
        DaemonInstance,
        SyspulseError,
    >)
        requires
            old(self).well_formed(),
        ensures
            final(self).well_formed(),
            !old(self).has(name@) ==> (r matches Err(SyspulseError::DaemonNotFound(n)) && n@
                == name@),
            old(self).has(name@) && !valid_transition(
                old(self).instance_named(name@).state,
                LifecycleState::Stopping,
            ) ==> (r matches Err(SyspulseError::InvalidStateTransition { from, to }) && from@
                == old(self).instance_named(name@).state.name_spec() && to@ == "Stopping"@),
            r is Err ==> final(self).spec_seq() == old(self).spec_seq() && final(self).instance_seq()
                == old(self).instance_seq(),
            old(self).has(name@) && valid_transition(
                old(self).instance_named(name@).state,
                LifecycleState::Stopping,
            ) ==> {
                let inst = halted(
                    old(self).instance_named(name@),
                    old(self).spec_named(name@),
                    exit_code,
                    now,
                );
                &&& r == Ok::<DaemonInstance, SyspulseError>(inst)
                &&& final(self).spec_seq() == old(self).spec_seq()
                &&& final(self).instance_seq() == old(self).instance_seq().update(
                    old(self).slot(name@),
                    inst,
                )
            },
    {
        let i = match self.stop_check(name) {
            Err(e) => {
                return Err(e);
            },
            Ok(i) => i,
        };
        let stopping = match self.instances[i].state.transition_to(LifecycleState::Stopping) {
            Ok(s) => s,
            Err(e) => {
                return Err(e);
            },
        };
        let stopped = match stopping.transition_to(LifecycleState::Stopped) {
            Ok(s) => s,
            Err(e) => {
                return Err(e);
            },
        };
        proof {
            assert(entry_wf(self.specs@[i as int], self.instances@[i as int]));
        }
        let mut inst = self.instances[i].clone();
        inst.state = stopped;
        inst.pid = None;
        inst.stopped_at = Some(now);
        inst.exit_code = exit_code;
        inst.health_status = baseline_health_of(&self.specs[i]);
        let result = inst.clone();
        self.replace_instance(i, inst);
        Ok(result)
    }

    fn replace_instance(&mut self, i: usize, inst: DaemonInstance)
        requires
            old(self).well_formed(),
            i < old(self).instance_seq().len(),
            entry_wf(old(self).spec_seq()[i as int], inst),
        ensures
            final(self).well_formed(),
            final(self).spec_seq() == old(self).spec_seq(),
            final(self).instance_seq() == old(self).instance_seq().update(i as int, inst),
    {
        self.instances.set(i, inst);
        proof {
            assert forall|j: int| 0 <= j < self.specs@.len() implies #[trigger] entry_wf(
                self.specs@[j],
                self.instances@[j],
            ) by {
                assert(entry_wf(old(self).specs@[j], old(self).instances@[j]));
            }
        }
    }

    /// The daemons the monitor must watch: each running instance's name and pid.
    pub fn running_daemons(&self) -> (r: Vec<(String, u32)>)
        requires
            self.well_formed(),
        ensures
            forall|k: int|
                0 <= k < r@.len() ==> {
                    let inst = self.instance_named(#[trigger] r@[k].0@);
                    &&& self.has(r@[k].0@)
                    &&& inst.state == LifecycleState::Running
                    &&& inst.pid == Some(r@[k].1)
                },
            forall|i: int|
                0 <= i < self.instance_seq().len() && #[trigger] self.instance_seq()[i].state
                    == LifecycleState::Running ==> exists|k: int|
                    0 <= k < r@.len() && #[trigger] r@[k].0@ == self.instance_seq()[i].spec_name@,
    {
        let mut out: Vec<(String, u32)> = Vec::new();
        let ghost mut from: Seq<int> = Seq::empty();
        let ghost mut to: Seq<int> = Seq::empty();
        let mut i: usize = 0;
        while i < self.instances.len()
            invariant
                self.well_formed(),
                i <= self.instances@.len(),
                from.len() == out@.len(),
                to.len() == i,
                forall|k: int|
                    #![trigger from[k]]
                    0 <= k < out@.len() ==> 0 <= from[k] < i && self.instances@[from[k]].spec_name@
                        == out@[k].0@ && self.instances@[from[k]].state == LifecycleState::Running
                        && self.instances@[from[k]].pid == Some(out@[k].1),
                forall|j: int|
                    #![trigger to[j]]
                    0 <= j < i && self.instances@[j].state == LifecycleState::Running ==> 0 <= to[j]
                        < out@.len() && out@[to[j]].0@ == self.instances@[j].spec_name@,
            decreases self.instances@.len() - i,
        {
            if self.instances[i].state == LifecycleState::Running {
                proof {
                    assert(entry_wf(self.specs@[i as int], self.instances@[i as int]));
                }
                let pid = match self.instances[i].pid {
                    Some(p) => p,
                    None => 0,
                };
                proof {
                    to = to.push(out@.len() as int);
                    from = from.push(i as int);
                }
                out.push((self.instances[i].spec_name.clone(), pid));
            } else {
                proof {
                    to = to.push(0);
                }
            }
            i = i + 1;
        }
        proof {
            assert forall|k: int| 0 <= k < out@.len() implies {
                let inst = self.instance_named(#[trigger] out@[k].0@);
                &&& self.has(out@[k].0@)
                &&& inst.state == LifecycleState::Running
                &&& inst.pid == Some(out@[k].1)
            } by {
                let j = from[k];
                assert(self.instance_seq()[j].spec_name@ == out@[k].0@);
                let s = self.slot(out@[k].0@);
                assert(entry_wf(self.specs@[s], self.instances@[s]));
                assert(entry_wf(self.specs@[j], self.instances@[j]));
            }
            assert forall|j: int|
                0 <= j < self.instance_seq().len() && #[trigger] self.instance_seq()[j].state
                    == LifecycleState::Running implies exists|k: int|
                0 <= k < out@.len() && #[trigger] out@[k].0@ == self.instance_seq()[j].spec_name@ by {
                assert(0 <= to[j] < out@.len());
                assert(out@[to[j]].0@ == self.instance_seq()[j].spec_name@);
            }
        }
        out
    }

    /// Records that the monitor found the named daemon's process `pid` gone,
    /// reaped with `exit_code` at time `now`. Applies only while the instance
    /// is still running that process (otherwise the observation is stale and
    /// `None` comes back): it becomes `Failed`, and the restart policy decides
    /// whether and after how long to restart it, counting the restart.
    pub fn record_exit(&mut self, name: &str, pid: u32, exit_code: Option<i32>, now: i64) -> (r:
        Option<RestartDecision>)
        requires
            old(self).well_formed(),
        ensures
            final(self).well_formed(),
            final(self).spec_seq() == old(self).spec_seq(),
            ({
                let applies = old(self).has(name@) && old(self).instance_named(name@).state
                    == LifecycleState::Running && old(self).instance_named(name@).pid == Some(pid);
                let inst = old(self).instance_named(name@);
                let policy = old(self).spec_named(name@).restart_policy;
                &&& !applies ==> r is None && final(self).instance_seq() == old(self).instance_seq()
                &&& applies ==> {
                    &&& r is Some
                    &&& final(self).instance_seq() == old(self).instance_seq().update(
                        old(self).slot(name@),
                        crashed(inst, old(self).spec_named(name@), exit_code, now),
                    )
                    &&& r->0.restart == restart_due(policy, exit_code, inst.restart_count)
                    &&& r->0.restart ==> delay_fits(policy, inst.restart_count, r->0.delay_ms)
                    &&& !r->0.restart ==> r->0.delay_ms == 0
                }
            }),
    {
        let i = match self.find(name) {
            None => {
                return None;
            },
            Some(i) => i,
        };
        if self.instances[i].state != LifecycleState::Running || self.instances[i].pid != Some(pid) {
            return None;
        }
        let failed = match self.instances[i].state.transition_to(LifecycleState::Failed) {
            Ok(s) => s,
            Err(_) => {
                return None;
            },
        };
        let policy = self.specs[i].restart_policy;
        let count = self.instances[i].restart_count;
        let restart = RestartEvaluator::should_restart(&policy, exit_code, count);
        let delay_ms = if restart {
            RestartEvaluator::backoff_duration(&policy, count)
        } else {
            0
        };
        proof {
            assert(entry_wf(self.specs@[i as int], self.instances@[i as int]));
        }
        let mut inst = self.instances[i].clone();
        inst.state = failed;
        inst.pid = None;
        inst.stopped_at = Some(now);
        inst.exit_code = exit_code;
        inst.health_status = baseline_health_of(&self.specs[i]);
        if restart && count < u32::MAX {
            inst.restart_count = count + 1;
        }
        self.replace_instance(i, inst);
        Some(RestartDecision { restart, delay_ms })
    }

    /// Before a delayed restart: a daemon still `Failed` goes back to
    /// `Stopped` and `true` comes back; anything else is left alone.
    pub fn prepare_restart(&mut self, name: &str) -> (r: bool)
        requires
            old(self).well_formed(),
        ensures
            final(self).well_formed(),
            final(self).spec_seq() == old(self).spec_seq(),
            r == (old(self).has(name@) && old(self).instance_named(name@).state
                == LifecycleState::Failed),
            r ==> final(self).instance_seq() == old(self).instance_seq().update(
                old(self).slot(name@),
                DaemonInstance { state: LifecycleState::Stopped, ..old(self).instance_named(name@) },
            ),
            !r ==> final(self).instance_seq() == old(self).instance_seq(),
    {
        let i = match self.find(name) {
            None => {
                return false;
            },
            Some(i) => i,
        };
        if self.instances[i].state != LifecycleState::Failed {
            return false;
        }
        proof {
            assert(entry_wf(self.specs@[i as int], self.instances@[i as int]));
        }
        let mut inst = self.instances[i].clone();
        inst.state = LifecycleState::Stopped;
        self.replace_instance(i, inst);
        true
    }

    /// Applies one health probe result for the named daemon, given the run
    /// of consecutive failures so far. A healthy result clears the run and
    /// marks the daemon healthy; an unhealthy one (or a probe error) extends
    /// the run, and once it reaches the probe's retry count the daemon is
    /// marked unhealthy and the change must be persisted. Nothing is applied,
    /// and the loop must end, once the daemon is gone, no longer running, or
    /// without a probe.
    pub fn health_step(
        &mut self,
        name: &str,
        consecutive_failures: u32,
        outcome: Result<HealthStatus, SyspulseError>,
    ) -> (r: HealthStep)
        requires
            old(self).well_formed(),
        ensures
            final(self).well_formed(),
            final(self).spec_seq() == old(self).spec_seq(),
            ({
                let applies = old(self).has(name@) && old(self).instance_named(name@).state
                    == LifecycleState::Running && old(self).spec_named(name@).health_check is Some;
                let inst = old(self).instance_named(name@);
                let retries = old(self).spec_named(name@).health_check->0.retries;
                let verdict = probe_verdict(outcome);
                let health = health_after(inst.health_status, verdict, consecutive_failures, retries);
                &&& !applies ==> r == HealthStep {
                    consecutive_failures,
                    persist: false,
                    keep_running: false,
                } && final(self).instance_seq() == old(self).instance_seq()
                &&& applies ==> {
                    &&& r.keep_running
                    &&& r.consecutive_failures == failures_after(verdict, consecutive_failures)
                    &&& r.persist == (verdict == HealthStatus::Unhealthy && r.consecutive_failures >= retries)
                    &&& final(self).instance_seq() == old(self).instance_seq().update(
                        old(self).slot(name@),
                        DaemonInstance { health_status: health, ..inst },
                    )
                }
            }),
    {
        let idle = HealthStep { consecutive_failures, persist: false, keep_running: false };
        let i = match self.find(name) {
            None => {
                return idle;
            },
            Some(i) => i,
        };
        if self.instances[i].state != LifecycleState::Running {
            return idle;
        }
        let retries = match &self.specs[i].health_check {
            None => {
                return idle;
            },
            Some(hc) => hc.retries,
        };
        let verdict = match outcome {
            Ok(s) => s,
            Err(_) => HealthStatus::Unhealthy,
        };
        let mut inst = self.instances[i].clone();
        let mut failures = consecutive_failures;
        let mut persist = false;
        match verdict {
            HealthStatus::Healthy => {
                failures = 0;
                inst.health_status = HealthStatus::Healthy;
            },
            HealthStatus::Unhealthy => {
                failures = consecutive_failures.saturating_add(1);
                if failures >= retries {
                    inst.health_status = HealthStatus::Unhealthy;
                    persist = true;
                }
            },
            _ => {},
        }
        proof {
            assert(entry_wf(self.specs@[i as int], self.instances@[i as int]));
        }
        self.replace_instance(i, inst);
        HealthStep { consecutive_failures: failures, persist, keep_running: true }
    }

    /// What a cron trigger does for the named daemon: `Ok(Some(spec))` when it
    /// is `Scheduled` or `Stopped` and must be launched, `Ok(None)` when it is
    /// already running (the trigger is a no-op), an error otherwise.
    pub fn plan_cron_start(&self, name: &str) -> (r: Result<Option<&DaemonSpec>, SyspulseError>)
        requires
            self.well_formed(),
        ensures
            !self.has(name@) ==> (r matches Err(SyspulseError::DaemonNotFound(n)) && n@ == name@),
            self.has(name@) ==> {
                let st = self.instance_named(name@).state;
                &&& (st == LifecycleState::Scheduled || st == LifecycleState::Stopped) ==> r
                    == Ok::<Option<&DaemonSpec>, SyspulseError>(Some(&self.spec_named(name@)))
                &&& st == LifecycleState::Running ==> r == Ok::<
                    Option<&DaemonSpec>,
                    SyspulseError,
                >(None)
                &&& !(st == LifecycleState::Scheduled || st == LifecycleState::Stopped || st
                    == LifecycleState::Running) ==> (r matches Err(
                    SyspulseError::InvalidStateTransition { from, to },
                ) && from@ == st.name_spec() && to@ == "Starting"@)
            },
            r matches Ok(Some(spec)) ==> spec_runnable(*spec),
    {
        match self.find(name) {
            None => Err(SyspulseError::DaemonNotFound(String::from_str(name))),
            Some(i) => {
                proof {
                    assert(entry_wf(self.specs@[i as int], self.instances@[i as int]));
                }
                let st = self.instances[i].state;
                if st == LifecycleState::Scheduled || st == LifecycleState::Stopped {
                    Ok(Some(&self.specs[i]))
                } else if st == LifecycleState::Running {
                    Ok(None)
                } else {
                    Err(
                        SyspulseError::InvalidStateTransition {
                            from: st.name(),
                            to: String::from_str("Starting"),
                        },
                    )
                }
            },
        }
    }

    /// Records a cron-triggered launch of the named daemon as process `pid`:
    /// from `Scheduled` or `Stopped` it moves through `Starting` to `Running`;
    /// an instance already running is returned unchanged.
    pub fn cron_start_daemon(
        &mut self,
        name: &str,
        pid: u32,
        now: i64,
        stdout_log: String,
        stderr_log: String,
    ) -> (r: Result<DaemonInstance, SyspulseError>)
        requires
            old(self).well_formed(),
        ensures
            final(self).well_formed(),
            final(self).spec_seq() == old(self).spec_seq(),
            !old(self).has(name@) ==> (r matches Err(SyspulseError::DaemonNotFound(n)) && n@
                == name@),
            r is Err ==> final(self).instance_seq() == old(self).instance_seq(),
            old(self).has(name@) ==> {
                let inst = old(self).instance_named(name@);
                let st = inst.state;
                &&& (st == LifecycleState::Scheduled || st == LifecycleState::Stopped) ==> {
                    let next = launched(
                        inst,
                        old(self).spec_named(name@),
                        pid,
                        now,
                        stdout_log,
                        stderr_log,
                    );
                    &&& r == Ok::<DaemonInstance, SyspulseError>(next)
                    &&& final(self).instance_seq() == old(self).instance_seq().update(
                        old(self).slot(name@),
                        next,
                    )
                }
                &&& st == LifecycleState::Running ==> r == Ok::<DaemonInstance, SyspulseError>(inst)
                    && final(self).instance_seq() == old(self).instance_seq()
                &&& !(st == LifecycleState::Scheduled || st == LifecycleState::Stopped || st
                    == LifecycleState::Running) ==> (r matches Err(
                    SyspulseError::InvalidStateTransition { from, to },
                ) && from@ == st.name_spec() && to@ == "Starting"@)
            },
    {
        let i = match self.find(name) {
            None => {
                return Err(SyspulseError::DaemonNotFound(String::from_str(name)));
            },
            Some(i) => i,
        };
        let st = self.instances[i].state;
        if st == LifecycleState::Running {
            return Ok(self.instances[i].clone());
        }
        if !(st == LifecycleState::Scheduled || st == LifecycleState::Stopped) {
            return Err(
                SyspulseError::InvalidStateTransition {
                    from: st.name(),
                    to: String::from_str("Starting"),
                },
            );
        }
        let starting = match st.transition_to(LifecycleState::Starting) {
            Ok(s) => s,
            Err(e) => {
                return Err(e);
            },
        };
        let running = match starting.transition_to(LifecycleState::Running) {
            Ok(s) => s,
            Err(e) => {
                return Err(e);
            },
        };
        Ok(self.commit_launch(i, running, pid, now, stdout_log, stderr_log))
    }

    /// Unregisters the named daemon, spec and instance together. A daemon
    /// whose process is still active must be stopped first.
    pub fn remove_daemon(&mut self, name: &str) -> (r: Result<(), SyspulseError>)
        requires
            old(self).well_formed(),
        ensures
            final(self).well_formed(),
            !old(self).has(name@) ==> (r matches Err(SyspulseError::DaemonNotFound(n)) && n@
                == name@),
            old(self).has(name@) && active(old(self).instance_named(name@).state) ==> (r matches Err(
                SyspulseError::Process(m),
            ) && m@ == "Daemon '"@ + name@ + "' is still running. Use force to stop and remove."@),
            r is Err ==> final(self).spec_seq() == old(self).spec_seq() && final(self).instance_seq()
                == old(self).instance_seq(),
            r is Ok <==> (old(self).has(name@) && !active(old(self).instance_named(name@).state)),
            r is Ok ==> final(self).spec_seq() == old(self).spec_seq().remove(old(self).slot(name@))
                && final(self).instance_seq() == old(self).instance_seq().remove(
                old(self).slot(name@),
            ),
            r is Ok ==> !final(self).has(name@),
    {
        let i = match self.find(name) {
            None => {
                return Err(SyspulseError::DaemonNotFound(String::from_str(name)));
            },
            Some(i) => i,
        };
        if self.instances[i].state.is_active() {
            return Err(
                SyspulseError::Process(
                    concat3("Daemon '", name, "' is still running. Use force to stop and remove."),
                ),
            );
        }
        let ghost k = i as int;
        self.specs.remove(i);
        self.instances.remove(i);
        proof {
            let os = old(self).specs@;
            let oi = old(self).instances@;
            assert forall|j: int| 0 <= j < self.specs@.len() implies #[trigger] entry_wf(
                self.specs@[j],
                self.instances@[j],
            ) by {
                if j < k {
                    assert(entry_wf(os[j], oi[j]));
                } else {
                    assert(entry_wf(os[j + 1], oi[j + 1]));
                }
            }
            assert forall|a: int, b: int|
                0 <= a < self.specs@.len() && 0 <= b < self.specs@.len() && a != b implies
                self.specs@[a].name@ != self.specs@[b].name@ by {
                let a0 = if a < k { a } else { a + 1 };
                let b0 = if b < k { b } else { b + 1 };
                assert(self.specs@[a] == os[a0]);
                assert(self.specs@[b] == os[b0]);
            }
            assert forall|j: int| 0 <= j < self.instances@.len() implies #[trigger] self.instances@[j].spec_name@
                != name@ by {
                let j0 = if j < k { j } else { j + 1 };
                assert(self.instances@[j] == oi[j0]);
                assert(entry_wf(os[j0], oi[j0]));
                assert(entry_wf(os[k], oi[k]));
            }
        }
        Ok(())
    }

    fn fresh_instance(spec: &DaemonSpec) -> (r: DaemonInstance)
        ensures
            fresh_for(*spec, r),
    {
        let mut inst = DaemonInstance::new(spec.name.as_str());
        if spec.schedule.is_some() {
            inst.state = LifecycleState::Scheduled;
        }
        inst.health_status = baseline_health_of(spec);
        inst
    }

    fn adopt(spec: &DaemonSpec, st: &DaemonInstance) -> (r: DaemonInstance)
        ensures
            r == adopted(*spec, *st),
    {
        let mut inst = st.clone();
        let coupled = inst.pid.is_some() == inst.state.is_active();
        if !coupled {
            inst.state = LifecycleState::Stopped;
            inst.pid = None;
        }
        if spec.health_check.is_none() {
            inst.health_status = HealthStatus::NotConfigured;
        } else if inst.health_status == HealthStatus::NotConfigured {
            inst.health_status = HealthStatus::Unknown;
        }
        inst
    }

    fn find_state(states: &Vec<DaemonInstance>, name: &str) -> (r: Option<usize>)
        ensures
            match r {
                Some(i) => i < states@.len() && first_state(states@, name@) == Some(states@[i as int]),
                None => first_state(states@, name@) is None,
            },
    {
        let key = String::from_str(name);
        let mut i: usize = 0;
        proof {
            assert(states@.subrange(0, states@.len() as int) =~= states@);
        }
        while i < states.len()
            invariant
                i <= states@.len(),
                key@ == name@,
                first_state(states@, name@) == first_state(
                    states@.subrange(i as int, states@.len() as int),
                    name@,
                ),
            decreases states@.len() - i,
        {
            let ghost rest = states@.subrange(i as int, states@.len() as int);
            proof {
                assert(rest[0] == states@[i as int]);
                assert(rest.subrange(1, rest.len() as int) =~= states@.subrange(
                    i + 1,
                    states@.len() as int,
                ));
            }
            if states[i].spec_name == key {
                return Some(i);
            }
            i = i + 1;
        }
        proof {
            assert(states@.subrange(i as int, states@.len() as int).len() == 0);
        }
        None
    }

    fn push_entry(&mut self, spec: DaemonSpec, inst: DaemonInstance)
        requires
            old(self).well_formed(),
            entry_wf(spec, inst),
            !old(self).has(spec.name@),
        ensures
            final(self).well_formed(),
            final(self).spec_seq() == old(self).spec_seq().push(spec),
            final(self).instance_seq() == old(self).instance_seq().push(inst),
    {
        proof {
            assert forall|i: int| 0 <= i < self.specs@.len() implies self.specs@[i].name@
                != spec.name@ by {
                assert(entry_wf(self.specs@[i], self.instances@[i]));
                assert(self.instance_seq()[i].spec_name@ != spec.name@);
            }
        }
        self.specs.push(spec);
        self.instances.push(inst);
        proof {
            assert forall|j: int| 0 <= j < self.specs@.len() implies #[trigger] entry_wf(
                self.specs@[j],
                self.instances@[j],
            ) by {
                if j < old(self).specs@.len() {
                    assert(entry_wf(old(self).specs@[j], old(self).instances@[j]));
                }
            }
        }
    }

    /// Rebuilds the manager from what the registry held: each runnable spec
    /// (the first of any that share a name) with its persisted state adopted,
    /// or with a fresh instance when none was stored.
    pub fn restore(specs: Vec<DaemonSpec>, states: Vec<DaemonInstance>) -> (r: DaemonManager)
        ensures
            r.well_formed(),
            forall|k: int|
                #![trigger r.spec_seq()[k]]
                0 <= k < r.spec_seq().len() ==> spec_listed(specs@, r.spec_seq()[k]),
            forall|k: int|
                0 <= k < r.spec_seq().len() ==> #[trigger] restored_from(
                    r.spec_seq()[k],
                    states@,
                    r.instance_seq()[k],
                ),
            forall|j: int|
                0 <= j < specs@.len() && spec_runnable(#[trigger] specs@[j]) ==> r.has(
                    specs@[j].name@,
                ),
    {
        let mut m = DaemonManager::new();
        let mut rest = specs;
        let ghost all = rest@;
        let ghost mut taken: int = 0;
        let ghost mut origin: Seq<int> = Seq::empty();
        proof {
            assert(all == specs@);
            assert(rest@ =~= all.subrange(0, all.len() as int));
        }
        while rest.len() > 0
            invariant
                m.well_formed(),
                all == specs@,
                0 <= taken <= all.len(),
                rest@ == all.subrange(taken, all.len() as int),
                origin.len() == m.spec_seq().len(),
                forall|k: int|
                    #![trigger origin[k]]
                    0 <= k < m.spec_seq().len() ==> 0 <= origin[k] < specs@.len() && specs@[origin[k]]
                        == m.spec_seq()[k],
                forall|k: int|
                    0 <= k < m.spec_seq().len() ==> #[trigger] restored_from(
                        m.spec_seq()[k],
                        states@,
                        m.instance_seq()[k],
                    ),
                forall|j: int|
                    0 <= j < taken && spec_runnable(#[trigger] all[j]) ==> m.has(all[j].name@),
            decreases rest@.len(),
        {
            let spec = rest.remove(0);
            proof {
                assert(spec == all[taken]);
                assert(rest@ =~= all.subrange(taken + 1, all.len() as int));
            }
            let known = m.contains(spec.name.as_str());
            if !known && !spec.name.as_str().is_empty() && spec.command.len() > 0 {
                let inst = match DaemonManager::find_state(&states, spec.name.as_str()) {
                    Some(i) => DaemonManager::adopt(&spec, &states[i]),
                    None => DaemonManager::fresh_instance(&spec),
                };
                proof {
                    lemma_first_state_named(states@, spec.name@);
                    assert(restored_from(spec, states@, inst));
                    assert(inst.spec_name@ == spec.name@);
                    assert(entry_wf(spec, inst));
                }
                let ghost before = m;
                m.push_entry(spec, inst);
                proof {
                    let n = m.spec_seq().len() - 1;
                    origin = origin.push(taken);
                    assert forall|k: int| #![trigger origin[k]] 0 <= k < m.spec_seq().len() implies 0
                        <= origin[k] < specs@.len() && specs@[origin[k]] == m.spec_seq()[k] by {
                        if k < n {
                            assert(m.spec_seq()[k] == before.spec_seq()[k]);
                        }
                    }
                    assert forall|k: int| 0 <= k < m.spec_seq().len() implies #[trigger] restored_from(
                        m.spec_seq()[k],
                        states@,
                        m.instance_seq()[k],
                    ) by {
                        if k < n {
                            assert(m.spec_seq()[k] == before.spec_seq()[k]);
                            assert(m.instance_seq()[k] == before.instance_seq()[k]);
                        }
                    }
                    assert(m.instance_seq()[n].spec_name@ == all[taken].name@);
                    assert forall|j: int| 0 <= j < taken + 1 && spec_runnable(#[trigger] all[j])
                        implies m.has(all[j].name@) by {
                        if j < taken {
                            assert(before.has(all[j].name@));
                            let w = choose|w: int|
                                0 <= w < before.instance_seq().len()
                                    && #[trigger] before.instance_seq()[w].spec_name@ == all[j].name@;
                            assert(m.instance_seq()[w] == before.instance_seq()[w]);
                        } else {
                            assert(m.instance_seq()[n].spec_name@ == all[j].name@);
                        }
                    }
                }
            } else {
                proof {
                    assert forall|j: int| 0 <= j < taken + 1 && spec_runnable(#[trigger] all[j])
                        implies m.has(all[j].name@) by {
                        if j == taken {
                            assert(spec_runnable(spec) ==> known);
                        }
                    }
                }
            }
            proof {
                taken = taken + 1;
            }
        }
        proof {
            assert forall|k: int| #![trigger m.spec_seq()[k]] 0 <= k < m.spec_seq().len() implies spec_listed(specs@, m.spec_seq()[k]) by {
                assert(specs@[origin[k]] == m.spec_seq()[k]);
            }
        }
        m
    }

    /// Every daemon that was running when the manager went down is set back
    /// to `Stopped` without a pid, to be started afresh; their names come back.
    pub fn recover_running(&mut self) -> (r: Vec<String>)
        requires
            old(self).well_formed(),
        ensures
            final(self).well_formed(),
            final(self).spec_seq() == old(self).spec_seq(),
            final(self).instance_seq().len() == old(self).instance_seq().len(),
            forall|i: int|
                0 <= i < old(self).instance_seq().len() ==> #[trigger] final(self).instance_seq()[i]
                    == if old(self).instance_seq()[i].state == LifecycleState::Running {
                    recovery_reset(old(self).instance_seq()[i])
                } else {
                    old(self).instance_seq()[i]
                },
            forall|k: int|
                0 <= k < r@.len() ==> {
                    &&& old(self).has(#[trigger] r@[k]@)
                    &&& old(self).instance_named(r@[k]@).state == LifecycleState::Running
                },
            forall|i: int|
                0 <= i < old(self).instance_seq().len() && #[trigger] old(self).instance_seq()[i].state
                    == LifecycleState::Running ==> exists|k: int|
                    0 <= k < r@.len() && #[trigger] r@[k]@ == old(self).instance_seq()[i].spec_name@,
    {
        let mut out: Vec<String> = Vec::new();
        let ghost mut from: Seq<int> = Seq::empty();
        let ghost mut to: Seq<int> = Seq::empty();
        let ghost orig = self.instances@;
        let mut i: usize = 0;
        while i < self.instances.len()
            invariant
                self.well_formed(),
                self.specs@ == old(self).specs@,
                orig == old(self).instances@,
                self.instances@.len() == orig.len(),
                i <= orig.len(),
                forall|j: int|
                    0 <= j < orig.len() ==> #[trigger] self.instances@[j] == if j < i
                        && orig[j].state == LifecycleState::Running {
                        recovery_reset(orig[j])
                    } else {
                        orig[j]
                    },
                from.len() == out@.len(),
                to.len() == i,
                forall|k: int|
                    #![trigger from[k]]
                    0 <= k < out@.len() ==> 0 <= from[k] < i && orig[from[k]].spec_name@ == out@[k]@
                        && orig[from[k]].state == LifecycleState::Running,
                forall|j: int|
                    #![trigger to[j]]
                    0 <= j < i && orig[j].state == LifecycleState::Running ==> 0 <= to[j]
                        < out@.len() && out@[to[j]]@ == orig[j].spec_name@,
            decreases orig.len() - i,
        {
            if self.instances[i].state == LifecycleState::Running {
                proof {
                    assert(entry_wf(self.specs@[i as int], self.instances@[i as int]));
                    to = to.push(out@.len() as int);
                    from = from.push(i as int);
                }
                out.push(self.instances[i].spec_name.clone());
                let mut inst = self.instances[i].clone();
                inst.state = LifecycleState::Stopped;
                inst.pid = None;
                self.replace_instance(i, inst);
            } else {
                proof {
                    to = to.push(0);
                }
            }
            i = i + 1;
        }
        proof {
            assert forall|k: int| 0 <= k < out@.len() implies {
                &&& old(self).has(#[trigger] out@[k]@)
                &&& old(self).instance_named(out@[k]@).state == LifecycleState::Running
            } by {
                let j = from[k];
                assert(old(self).instance_seq()[j].spec_name@ == out@[k]@);
                let s = old(self).slot(out@[k]@);
                assert(entry_wf(old(self).specs@[s], old(self).instances@[s]));
                assert(entry_wf(old(self).specs@[j], old(self).instances@[j]));
            }
            assert forall|j: int|
                0 <= j < old(self).instance_seq().len() && #[trigger] old(self).instance_seq()[j].state
                    == LifecycleState::Running implies exists|k: int|
                0 <= k < out@.len() && #[trigger] out@[k]@ == old(self).instance_seq()[j].spec_name@ by {
                assert(out@[to[j]]@ == old(self).instance_seq()[j].spec_name@);
            }
        }
        out
    }

    fn commit_launch(
        &mut self,
        i: usize,
        running: LifecycleState,
        pid: u32,
        now: i64,
        stdout_log: String,
        stderr_log: String,
    ) -> (r: DaemonInstance)
        requires
            old(self).well_formed(),
            i < old(self).instance_seq().len(),
            running == LifecycleState::Running,
        ensures
            final(self).well_formed(),
            r == launched(
                old(self).instance_seq()[i as int],
                old(self).spec_seq()[i as int],
                pid,
                now,
                stdout_log,
                stderr_log,
            ),
            final(self).spec_seq() == old(self).spec_seq(),
            final(self).instance_seq() == old(self).instance_seq().update(i as int, r),
    {
        proof {
            assert(entry_wf(self.specs@[i as int], self.instances@[i as int]));
        }
        let mut inst = self.instances[i].clone();
        inst.state = running;
        inst.pid = Some(pid);
        inst.started_at = Some(now);
        inst.stopped_at = None;
        inst.exit_code = None;
        inst.health_status = baseline_health_of(&self.specs[i]);
        inst.stdout_log = Some(stdout_log);
        inst.stderr_log = Some(stderr_log);
        let result = inst.clone();
        self.replace_instance(i, inst);
        result
    }
}

} // verus!
