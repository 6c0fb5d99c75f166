//! The install gate: decides whether workspace dependencies must be
//! (re)installed, by comparing the lockfile's modification time against the
//! workspace record of the last installation.
//!
//! Reading the lockfile's metadata, running the package manager, and persisting
//! the record are the unverified shell's work; the decision and the record
//! update are verified here.

use vstd::prelude::*;

verus! {

/// The per-workspace record persisted between runs: the time (in milliseconds)
/// of the last successful dependency installation. `0` means no installation
/// has been recorded yet.
pub struct WorkspaceState {
    pub last_node_install_time: u64,
}

/// When dependencies must be installed: the lockfile is absent (a modification
/// time of `0`), or it was modified after the last recorded installation.
pub open spec fn spec_should_install(last_modified: u64, state: WorkspaceState) -> bool {
    last_modified == 0 || last_modified > state.last_node_install_time
}

/// Decide whether to install, from the lockfile's modification time in
/// milliseconds (`0` when no lockfile exists) and the workspace record.
pub fn should_install(last_modified: u64, state: &WorkspaceState) -> (r: bool)
    ensures
        r == spec_should_install(last_modified, *state),
{
    last_modified == 0 || last_modified > state.last_node_install_time
}

/// After a successful installation, advance the record to the present time.
/// The record's timestamp only ever advances.
pub fn record_install(state: &mut WorkspaceState, now_millis: u64)
    requires
        now_millis >= old(state).last_node_install_time,
    ensures
        final(state).last_node_install_time == now_millis,
{
    state.last_node_install_time = now_millis;
}

/// Whether the deduplication pass runs after an installation: only when the
/// node configuration is present, and then unless it opted out; the default
/// is to deduplicate.
pub fn should_dedupe(node_config_present: bool, dedupe_on_install: Option<bool>) -> (r: bool)
    ensures
        r == (node_config_present && dedupe_on_install != Some(false)),
{
    node_config_present && match dedupe_on_install {
        Some(d) => d,
        None => true,
    }
}

/// Law: with no prior record and an existing lockfile the installation runs,
/// and once the record has advanced to a time at or past the lockfile's
/// modification time, an identical invocation is skipped; a record at or past
/// the lockfile's modification time is always skipped.
pub proof fn lemma_install_gate(last_modified: u64, state: WorkspaceState, now_millis: u64)
    requires
        now_millis >= last_modified,
    ensures
        state.last_node_install_time == 0 && last_modified > 0 ==> spec_should_install(
            last_modified,
            state,
        ),
        last_modified > 0 && last_modified <= state.last_node_install_time
            ==> !spec_should_install(last_modified, state),
        last_modified > 0 ==> !spec_should_install(
            last_modified,
            WorkspaceState { last_node_install_time: now_millis },
        ),
{
}

} // verus!
