use vstd::prelude::*;

use crate::text::{concat2, concat3, decimal, decimal_text};

verus! {

/// Every failure the engine reports; each becomes one IPC error response.
#[derive(Debug, Clone)]
pub enum SyspulseError {
    DaemonNotFound(String),
    DaemonAlreadyExists(String),
    InvalidStateTransition { from: String, to: String },
    Process(String),
    HealthCheck(String),
    Ipc(String),
    Registry(String),
    Config(String),
    Scheduler(String),
    Io(String),
    Serialization(String),
    Database(String),
    /// A probe or operation that ran past its limit, in whole seconds.
    Timeout(u64),
}

} // verus!

verus! {

/// The IPC status code that reports an error of this kind.
pub open spec fn error_code(e: SyspulseError) -> u32 {
    match e {
        SyspulseError::DaemonNotFound(_) => 404,
        SyspulseError::DaemonAlreadyExists(_) => 409,
        SyspulseError::InvalidStateTransition { .. } => 409,
        SyspulseError::Config(_) => 400,
        SyspulseError::Serialization(_) => 400,
        SyspulseError::Timeout(_) => 504,
        _ => 500,
    }
}

/// The text an operator sees for this error.
pub open spec fn error_message(e: SyspulseError) -> Seq<char> {
    match e {
        SyspulseError::DaemonNotFound(n) => "Daemon '"@ + n@ + "' not found"@,
        SyspulseError::DaemonAlreadyExists(n) => "Daemon '"@ + n@ + "' already exists"@,
        SyspulseError::InvalidStateTransition { from, to } => "Invalid state transition from \""@
            + from@ + "\" to \""@ + to@ + "\""@,
        SyspulseError::Process(m) => "Process error: "@ + m@,
        SyspulseError::HealthCheck(m) => "Health check failed: "@ + m@,
        SyspulseError::Ipc(m) => "IPC error: "@ + m@,
        SyspulseError::Registry(m) => "Registry error: "@ + m@,
        SyspulseError::Config(m) => "Config error: "@ + m@,
        SyspulseError::Scheduler(m) => "Scheduler error: "@ + m@,
        SyspulseError::Io(m) => "IO error: "@ + m@,
        SyspulseError::Serialization(m) => "Serialization error: "@ + m@,
        SyspulseError::Database(m) => "Database error: "@ + m@,
        SyspulseError::Timeout(secs) => "Timeout after "@ + decimal(secs as nat) + "s"@,
    }
}

impl SyspulseError {
    pub fn code(&self) -> (r: u32)
        ensures
            r == error_code(*self),
    {
        match self {
            SyspulseError::DaemonNotFound(_) => 404,
            SyspulseError::DaemonAlreadyExists(_) => 409,
            SyspulseError::InvalidStateTransition { .. } => 409,
            SyspulseError::Config(_) => 400,
            SyspulseError::Serialization(_) => 400,
            SyspulseError::Timeout(_) => 504,
            _ => 500,
        }
    }

    pub fn message(&self) -> (r: String)
        ensures
            r@ == error_message(*self),
    {
        match self {
            SyspulseError::DaemonNotFound(n) => concat3("Daemon '", n.as_str(), "' not found"),
            SyspulseError::DaemonAlreadyExists(n) => concat3(
                "Daemon '",
                n.as_str(),
                "' already exists",
            ),
            SyspulseError::InvalidStateTransition { from, to } => {
                let mut s = concat3("Invalid state transition from \"", from.as_str(), "\" to \"");
                s.append(to.as_str());
                s.append("\"");
                s
            },
            SyspulseError::Process(m) => concat2("Process error: ", m.as_str()),
            SyspulseError::HealthCheck(m) => concat2("Health check failed: ", m.as_str()),
            SyspulseError::Ipc(m) => concat2("IPC error: ", m.as_str()),
            SyspulseError::Registry(m) => concat2("Registry error: ", m.as_str()),
            SyspulseError::Config(m) => concat2("Config error: ", m.as_str()),
            SyspulseError::Scheduler(m) => concat2("Scheduler error: ", m.as_str()),
            SyspulseError::Io(m) => concat2("IO error: ", m.as_str()),
            SyspulseError::Serialization(m) => concat2("Serialization error: ", m.as_str()),
            SyspulseError::Database(m) => concat2("Database error: ", m.as_str()),
            SyspulseError::Timeout(secs) => {
                let d = decimal_text(*secs);
                concat3("Timeout after ", d.as_str(), "s")
            },
        }
    }
}

} // verus!
