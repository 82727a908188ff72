//! The control nucleus of a command-orchestration tool: a command is
//! decomposed into subtasks, each subtask is dispatched to the capability
//! that answers it, and a failed subtask is looked at by a self-repair
//! unit that may give up the rest of the session.

use vstd::prelude::*;

pub mod laws;
pub mod orchestrator;
pub mod outcome;
pub mod planning;
pub mod providers;
pub mod repair;
pub mod routing;
pub mod text;

verus! {

/// Version that every `AxionCore` carries.
pub const CORE_VERSION: &'static str = "0.1.0";

/// The identity of a running core: its version and when it was started.
#[derive(Debug)]
pub struct AxionCore {
    pub version: String,
    pub timestamp: String,
}

impl AxionCore {
    /// A core of the current version, started now: the timestamp is the
    /// clock's time in UTC, written as RFC 3339.
    pub fn new() -> (core: Self)
        ensures
            core.version@ == CORE_VERSION@,
    {
        AxionCore::started_at(providers::utc_now_rfc3339())
    }

    /// A core of the current version with the given start time.
    pub fn started_at(timestamp: String) -> (core: Self)
        ensures
            core.version@ == CORE_VERSION@,
            core.timestamp == timestamp,
    {
        AxionCore { version: CORE_VERSION.to_owned(), timestamp }
    }
}

} // verus!
