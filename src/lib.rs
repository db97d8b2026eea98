//! A user-space process supervisor engine: lifecycle state machine, restart
//! policy, health tracking, persistence rows and the framed IPC codec, with
//! the side effects (spawning, signalling, sockets, storage) left to callers.

pub mod daemon;
pub mod display;
pub mod error;
pub mod health;
pub mod logs;
pub mod lifecycle;
pub mod manager;
pub mod paths;
pub mod process;
pub mod protocol;
pub mod registry;
pub mod restart;
pub mod scheduler;
pub mod text;
