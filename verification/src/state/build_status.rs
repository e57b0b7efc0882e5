//! The last build of a project, as kept in `.byte/state/build.json`.
use vstd::prelude::*;

verus! {

/// Build status states
#[derive(Debug, Clone, Copy, PartialEq, Eq, Structural)]
pub enum BuildStatus {
    Success,
    Failed,
    Running,
}

/// Build state tracking information
#[derive(Debug, Clone)]
pub struct BuildState {
    /// Unix timestamp
    pub timestamp: i64,
    pub status: BuildStatus,
    /// Build task name (e.g., "release", "debug")
    pub task: String,
}

/// The state recorded when a build task ends: success or failure, at the given time.
pub fn finished_build(task: String, success: bool, timestamp: i64) -> (r: BuildState)
    ensures
        r.task == task,
        r.timestamp == timestamp,
        r.status == (if success {
            BuildStatus::Success
        } else {
            BuildStatus::Failed
        }),
{
    BuildState {
        timestamp,
        status: if success {
            BuildStatus::Success
        } else {
            BuildStatus::Failed
        },
        task,
    }
}

/// The state recorded when a build task starts.
pub fn running_build(task: String, timestamp: i64) -> (r: BuildState)
    ensures
        r.task == task,
        r.timestamp == timestamp,
        r.status == BuildStatus::Running,
{
    BuildState { timestamp, status: BuildStatus::Running, task }
}

} // verus!
