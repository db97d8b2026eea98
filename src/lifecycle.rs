use vstd::prelude::*;

use crate::error::SyspulseError;

verus! {

/// The runtime phase of a daemon instance.
#[derive(Debug, Clone, Copy, PartialEq, Eq, Structural)]
pub enum LifecycleState {
    Stopped,
    Starting,
    Running,
    Stopping,
    Failed,
    Scheduled,
}

/// The permitted transitions; everything else, self-loops included, is refused.
pub open spec fn valid_transition(from: LifecycleState, to: LifecycleState) -> bool {
    match from {
        LifecycleState::Stopped => to == LifecycleState::Starting || to == LifecycleState::Scheduled,
        LifecycleState::Starting => to == LifecycleState::Running || to == LifecycleState::Failed
            || to == LifecycleState::Stopping,
        LifecycleState::Running => to == LifecycleState::Stopping || to == LifecycleState::Failed,
        LifecycleState::Stopping => to == LifecycleState::Stopped || to == LifecycleState::Failed,
        LifecycleState::Failed => to == LifecycleState::Starting || to == LifecycleState::Stopped,
        LifecycleState::Scheduled => to == LifecycleState::Starting || to == LifecycleState::Stopped,
    }
}

/// States in which a child process exists (or is being created or torn down).
pub open spec fn active(s: LifecycleState) -> bool {
    s == LifecycleState::Starting || s == LifecycleState::Running || s == LifecycleState::Stopping
}

/// No state may transition to itself.
pub proof fn lemma_no_self_transition(s: LifecycleState)
    ensures
        !valid_transition(s, s),
{
}

/// Exactly the starting states `Stopped`, `Failed` and `Scheduled` may start,
/// and exactly `Starting` and `Running` may begin stopping.
pub proof fn lemma_start_and_stop_sources(s: LifecycleState)
    ensures
        valid_transition(s, LifecycleState::Starting) <==> (s == LifecycleState::Stopped || s
            == LifecycleState::Failed || s == LifecycleState::Scheduled),
        valid_transition(s, LifecycleState::Stopping) <==> (s == LifecycleState::Starting || s
            == LifecycleState::Running),
        valid_transition(s, LifecycleState::Stopping) ==> active(s),
{
}

impl LifecycleState {
    /// The variant's name as written in error messages.
    pub open spec fn name_spec(self) -> Seq<char> {
        match self {
            LifecycleState::Stopped => "Stopped"@,
            LifecycleState::Starting => "Starting"@,
            LifecycleState::Running => "Running"@,
            LifecycleState::Stopping => "Stopping"@,
            LifecycleState::Failed => "Failed"@,
            LifecycleState::Scheduled => "Scheduled"@,
        }
    }

    /// The lower-case label used for display and persistence.
    pub open spec fn label_spec(self) -> Seq<char> {
        match self {
            LifecycleState::Stopped => "stopped"@,
            LifecycleState::Starting => "starting"@,
            LifecycleState::Running => "running"@,
            LifecycleState::Stopping => "stopping"@,
            LifecycleState::Failed => "failed"@,
            LifecycleState::Scheduled => "scheduled"@,
        }
    }

    pub fn can_transition_to(&self, target: LifecycleState) -> (r: bool)
        ensures
            r == valid_transition(*self, target),
    {
        match *self {
            LifecycleState::Stopped => target == LifecycleState::Starting || target
                == LifecycleState::Scheduled,
            LifecycleState::Starting => target == LifecycleState::Running || target
                == LifecycleState::Failed || target == LifecycleState::Stopping,
            LifecycleState::Running => target == LifecycleState::Stopping || target
                == LifecycleState::Failed,
            LifecycleState::Stopping => target == LifecycleState::Stopped || target
                == LifecycleState::Failed,
            LifecycleState::Failed => target == LifecycleState::Starting || target
                == LifecycleState::Stopped,
            LifecycleState::Scheduled => target == LifecycleState::Starting || target
                == LifecycleState::Stopped,
        }
    }

    pub fn transition_to(&self, target: LifecycleState) -> (r: Result<LifecycleState, SyspulseError>)
        ensures
            valid_transition(*self, target) ==> r == Ok::<LifecycleState, SyspulseError>(target),
            !valid_transition(*self, target) ==> (r matches Err(
                SyspulseError::InvalidStateTransition { from, to },
            ) && from@ == self.name_spec() && to@ == target.name_spec()),
    {
        if self.can_transition_to(target) {
            Ok(target)
        } else {
            Err(SyspulseError::InvalidStateTransition { from: self.name(), to: target.name() })
        }
    }

    pub fn is_active(&self) -> (r: bool)
        ensures
            r == active(*self),
    {
        match *self {
            LifecycleState::Starting | LifecycleState::Running | LifecycleState::Stopping => true,
            _ => false,
        }
    }

    /// The variant's name, as error messages spell it.
    pub fn name(&self) -> (r: String)
        ensures
            r@ == self.name_spec(),
    {
        match *self {
            LifecycleState::Stopped => String::from_str("Stopped"),
            LifecycleState::Starting => String::from_str("Starting"),
            LifecycleState::Running => String::from_str("Running"),
            LifecycleState::Stopping => String::from_str("Stopping"),
            LifecycleState::Failed => String::from_str("Failed"),
            LifecycleState::Scheduled => String::from_str("Scheduled"),
        }
    }

    /// The lower-case label, as shown to operators and stored in the registry.
    pub fn to_string(&self) -> (r: String)
        ensures
            r@ == self.label_spec(),
    {
        match *self {
            LifecycleState::Stopped => String::from_str("stopped"),
            LifecycleState::Starting => String::from_str("starting"),
            LifecycleState::Running => String::from_str("running"),
            LifecycleState::Stopping => String::from_str("stopping"),
            LifecycleState::Failed => String::from_str("failed"),
            LifecycleState::Scheduled => String::from_str("scheduled"),
        }
    }
}

} // verus!
