//! Completed actions: what the scheduler hands back after running one unit of
//! work. The estimator consumes these read-only.

use vstd::prelude::*;

verus! {

/// What a scheduled unit of work did. The core acts on running a target and
/// installing dependencies; every other kind of node is carried opaquely and
/// ignored rather than rejected.
pub enum ActionNode {
    /// Run the target with the given `project:task` identifier.
    RunTarget(String),
    /// Install workspace dependencies.
    InstallDeps,
    /// A node outside this core's concern.
    Other,
}

/// How one action ended.
#[derive(Clone, Copy, PartialEq, Eq, Structural, Debug)]
pub enum ActionStatus {
    Passed,
    Failed,
    Cached,
    Skipped,
}

/// The result record of one scheduled unit: what it did, how it ended, and
/// how long it ran, in milliseconds, when that was measured.
pub struct Action {
    pub node: Option<ActionNode>,
    pub status: ActionStatus,
    pub duration: Option<u64>,
}

} // verus!
