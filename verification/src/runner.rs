//! The retry-capable process runner, as a state machine decoupled from
//! process spawning: the shell launches the child process and hands each
//! attempt's exit code back; the decisions — retry, succeed, fail for good,
//! stream or capture output — are made and verified here. A launch failure
//! (the binary missing, spawning denied) is the shell's to propagate at once:
//! it is fatal and never retried, so it never reaches these decisions.

use vstd::prelude::*;

verus! {

/// Where one completed attempt leads.
#[derive(Clone, Copy, PartialEq, Eq, Structural, Debug)]
pub enum AttemptVerdict {
    /// Zero exit status: the run is done.
    Succeeded,
    /// Non-zero exit status with attempts remaining: run again.
    RetryPending,
    /// Non-zero exit status on the last allowed attempt: fail for good.
    FailedTerminal,
}

/// Decide what follows the `attempt`-th completed attempt (counted from one,
/// bounded by `attempt_count = retry_count + 1`) with the given exit code.
pub fn evaluate_attempt(attempt: u32, attempt_count: u32, exit_code: i32) -> (r: AttemptVerdict)
    requires
        1 <= attempt <= attempt_count,
    ensures
        exit_code == 0 ==> r == AttemptVerdict::Succeeded,
        exit_code != 0 && attempt < attempt_count ==> r == AttemptVerdict::RetryPending,
        exit_code != 0 && attempt == attempt_count ==> r == AttemptVerdict::FailedTerminal,
{
    if exit_code == 0 {
        AttemptVerdict::Succeeded
    } else if attempt < attempt_count {
        AttemptVerdict::RetryPending
    } else {
        AttemptVerdict::FailedTerminal
    }
}

/// Whether a run's output is streamed live to the parent's standard streams,
/// decided once per run, not per attempt: the primary target always streams,
/// and so does any target in a continuous-integration context outside of the
/// internal test harness; every other target's output is captured and only
/// emitted after the attempt completes, so concurrent targets do not
/// interleave.
pub fn should_stream_output(is_primary: bool, is_ci: bool, in_test_harness: bool) -> (r: bool)
    ensures
        r == (is_primary || (is_ci && !in_test_harness)),
{
    is_primary || (is_ci && !in_test_harness)
}

/// Whether an attempt's label is printed before the process starts: only in
/// streamed mode, where output follows live and may stay open, the label must
/// come first.
pub fn prints_label_before(streamed: bool) -> (r: bool)
    ensures
        r == streamed,
{
    streamed
}

/// Whether an attempt's label is printed after the process completes: only
/// for a failed attempt — on success a streamed run already printed its label,
/// and a captured run's label would clutter output that was never shown.
pub fn prints_label_after(exit_code: i32) -> (r: bool)
    ensures
        r == (exit_code != 0),
{
    exit_code != 0
}

/// How a whole run ended: whether it passed, how many attempts were made, and
/// the exit code of the attempt that ended it.
pub struct RunSummary {
    pub passed: bool,
    pub attempts: u32,
    pub exit_code: i32,
}

/// Drive the retry loop over a given sequence of attempt exit codes (one per
/// possible attempt, as a stand-in for the spawned process): the loop stops at
/// the first success, makes at most `retry_count + 1` attempts, and surfaces
/// the final non-zero exit code when every attempt failed.
pub fn run_to_completion(exit_codes: &Vec<i32>, retry_count: u32) -> (r: RunSummary)
    requires
        retry_count < u32::MAX,
        exit_codes@.len() >= retry_count + 1,
    ensures
        1 <= r.attempts <= retry_count + 1,
        r.passed ==> exit_codes@[r.attempts - 1] == 0,
        r.passed ==> r.exit_code == 0,
        !r.passed ==> r.attempts == retry_count + 1 && r.exit_code == exit_codes@[r.attempts - 1]
            && r.exit_code != 0,
        forall|j: int| 0 <= j < r.attempts - 1 ==> exit_codes@[j] != 0,
        r.passed <==> exists|j: int| 0 <= j < retry_count + 1 && exit_codes@[j] == 0,
{
    let attempt_count = retry_count + 1;
    let mut attempt: u32 = 1;
    loop
        invariant
            1 <= attempt <= attempt_count,
            attempt_count == retry_count + 1,
            exit_codes@.len() >= attempt_count,
            forall|j: int| 0 <= j < attempt - 1 ==> exit_codes@[j] != 0,
        decreases attempt_count - attempt,
    {
        let code = exit_codes[(attempt - 1) as usize];
        match evaluate_attempt(attempt, attempt_count, code) {
            AttemptVerdict::Succeeded => {
                return RunSummary { passed: true, attempts: attempt, exit_code: code };
            },
            AttemptVerdict::RetryPending => {
                attempt = attempt + 1;
            },
            AttemptVerdict::FailedTerminal => {
                proof {
                    assert forall|j: int| 0 <= j < attempt_count implies exit_codes@[j] != 0 by {
                        if j < attempt - 1 {
                        } else {
                            assert(j == attempt - 1);
                        }
                    }
                }
                return RunSummary { passed: false, attempts: attempt, exit_code: code };
            },
        }
    }
}

} // verus!
