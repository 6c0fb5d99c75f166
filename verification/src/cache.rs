//! The cache gate and result writer. A target's record stands in for "these
//! inputs produced this exit code and output": when the fresh fingerprint
//! matches the stored one, the recorded outcome is replayed without running
//! anything; otherwise the runner executes, and only a successful run is
//! written back — a failed run leaves the record untouched, so the next run
//! with the same inputs executes again instead of replaying a failure.

use crate::action::ActionStatus;
use vstd::prelude::*;

verus! {

/// The per-target record persisted between runs: the fingerprint hash of the
/// last written run, its exit code, its captured output, and when it ran
/// (milliseconds).
pub struct RunTargetState {
    pub exit_code: i32,
    pub hash: String,
    pub last_run_time: u64,
    pub stdout: String,
    pub stderr: String,
}

/// A fresh fingerprint hits the cache exactly when it equals the stored one.
pub open spec fn spec_cache_hit(state: RunTargetState, fresh_hash: Seq<char>) -> bool {
    state.hash@ == fresh_hash
}

/// What a successful run writes into the record.
pub open spec fn spec_recorded(
    prev: RunTargetState,
    hash: String,
    outcome: RunCompletion,
    now_millis: u64,
) -> RunTargetState {
    RunTargetState {
        exit_code: outcome.exit_code,
        hash: hash,
        last_run_time: now_millis,
        stdout: outcome.stdout,
        stderr: outcome.stderr,
    }
}

/// What a failed run leaves behind: the record exactly as it was.
pub open spec fn spec_after_failed_run(prev: RunTargetState) -> RunTargetState {
    prev
}

/// What the cache gate decides before anything runs.
pub enum GateDecision {
    /// The stored hash matches: replay the recorded outcome, run nothing.
    Replay { exit_code: i32, stdout: String, stderr: String },
    /// The stored hash differs: assemble and execute the command.
    Execute,
}

/// Compare the fresh fingerprint against the record.
pub fn is_cache_hit(state: &RunTargetState, fresh_hash: &String) -> (r: bool)
    ensures
        r == spec_cache_hit(*state, fresh_hash@),
{
    state.hash == *fresh_hash
}

/// Evaluate the cache gate: replay the stored outcome on a hash match,
/// otherwise order an execution.
pub fn evaluate_gate(state: &RunTargetState, fresh_hash: &String) -> (r: GateDecision)
    ensures
        match r {
            GateDecision::Replay { exit_code, stdout, stderr } => spec_cache_hit(
                *state,
                fresh_hash@,
            ) && exit_code == state.exit_code && stdout@ == state.stdout@ && stderr@
                == state.stderr@,
            GateDecision::Execute => !spec_cache_hit(*state, fresh_hash@),
        },
{
    if is_cache_hit(state, fresh_hash) {
        GateDecision::Replay {
            exit_code: state.exit_code,
            stdout: state.stdout.clone(),
            stderr: state.stderr.clone(),
        }
    } else {
        GateDecision::Execute
    }
}

/// The final outcome the runner hands back after its retries are spent or a
/// run passed: whether it passed, the last exit code, and the captured output.
pub struct RunCompletion {
    pub success: bool,
    pub exit_code: i32,
    pub stdout: String,
    pub stderr: String,
}

/// The error surfaced when a target exhausts its retries: the last exit code
/// and the captured output, never swallowed.
#[derive(Debug)]
pub struct TargetRunError {
    pub exit_code: i32,
    pub stdout: String,
    pub stderr: String,
}

/// Write the run's result through the cache gate: a successful run
/// overwrites the record with the fresh hash, exit code, output, and timestamp; a failed run
/// writes nothing — the failing hash is never memoized — and surfaces an error
/// carrying the last exit code and output.
pub fn complete_run(
    state: &mut RunTargetState,
    fresh_hash: &String,
    outcome: RunCompletion,
    now_millis: u64,
) -> (r: Result<ActionStatus, TargetRunError>)
    ensures
        match r {
            Ok(st) => outcome.success && st == ActionStatus::Passed && *final(state)
                == spec_recorded(*old(state), *fresh_hash, outcome, now_millis),
            Err(e) => !outcome.success && *final(state) == spec_after_failed_run(*old(state))
                && e.exit_code == outcome.exit_code && e.stdout@ == outcome.stdout@ && e.stderr@
                == outcome.stderr@,
        },
{
    if outcome.success {
        state.exit_code = outcome.exit_code;
        state.hash = fresh_hash.clone();
        state.last_run_time = now_millis;
        state.stdout = outcome.stdout;
        state.stderr = outcome.stderr;
        Ok(ActionStatus::Passed)
    } else {
        Err(
            TargetRunError {
                exit_code: outcome.exit_code,
                stdout: outcome.stdout,
                stderr: outcome.stderr,
            },
        )
    }
}

/// Law: a target run twice with unchanged inputs replays — right after a
/// successful run's record is written, the same fresh hash hits the cache and
/// the replayed exit code and output are exactly what was recorded.
pub proof fn lemma_idempotent_cache_replay(
    prev: RunTargetState,
    hash: String,
    outcome: RunCompletion,
    now_millis: u64,
)
    requires
        outcome.success,
    ensures
        ({
            let s1 = spec_recorded(prev, hash, outcome, now_millis);
            &&& spec_cache_hit(s1, hash@)
            &&& s1.exit_code == outcome.exit_code
            &&& s1.stdout@ == outcome.stdout@
            &&& s1.stderr@ == outcome.stderr@
        }),
{
}

/// Law: a failure is never cached — a failed run leaves the record unchanged,
/// so a later run with the same inputs, whose fresh hash missed before, still
/// misses and re-executes.
pub proof fn lemma_failure_never_cached(
    prev: RunTargetState,
    fresh_hash: Seq<char>,
    outcome: RunCompletion,
)
    requires
        !outcome.success,
        !spec_cache_hit(prev, fresh_hash),
    ensures
        !spec_cache_hit(spec_after_failed_run(prev), fresh_hash),
{
}

} // verus!
