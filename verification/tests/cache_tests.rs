use moon_core::action::ActionStatus;
use moon_core::cache::{
    complete_run, evaluate_gate, is_cache_hit, GateDecision, RunCompletion, RunTargetState,
};

fn empty_state() -> RunTargetState {
    RunTargetState {
        exit_code: 0,
        hash: String::new(),
        last_run_time: 0,
        stdout: String::new(),
        stderr: String::new(),
    }
}

#[test]
fn second_run_with_unchanged_inputs_replays() {
    let mut state = empty_state();
    let hash = "abc123".to_string();

    // first run: a miss, executed, then recorded
    assert!(matches!(evaluate_gate(&state, &hash), GateDecision::Execute));
    let outcome = RunCompletion {
        success: true,
        exit_code: 0,
        stdout: "built it".to_string(),
        stderr: String::new(),
    };
    let status = complete_run(&mut state, &hash, outcome, 1_700_000).unwrap();
    assert_eq!(status, ActionStatus::Passed);
    assert_eq!(state.hash, "abc123");
    assert_eq!(state.last_run_time, 1_700_000);

    // second run with the same hash: replay the recorded outcome
    match evaluate_gate(&state, &hash) {
        GateDecision::Replay { exit_code, stdout, stderr } => {
            assert_eq!(exit_code, 0);
            assert_eq!(stdout, "built it");
            assert_eq!(stderr, "");
        },
        GateDecision::Execute => panic!("expected a cache hit"),
    }
}

#[test]
fn failure_is_never_cached() {
    let mut state = empty_state();
    state.hash = "old-hash".to_string();
    let fresh = "new-hash".to_string();

    assert!(!is_cache_hit(&state, &fresh));
    let outcome = RunCompletion {
        success: false,
        exit_code: 2,
        stdout: String::new(),
        stderr: "boom".to_string(),
    };
    let err = complete_run(&mut state, &fresh, outcome, 1_700_000).unwrap_err();
    assert_eq!(err.exit_code, 2);
    assert_eq!(err.stderr, "boom");

    // the record still holds the old hash: a rerun misses and re-executes
    assert_eq!(state.hash, "old-hash");
    assert_eq!(state.last_run_time, 0);
    assert!(!is_cache_hit(&state, &fresh));
    assert!(matches!(evaluate_gate(&state, &fresh), GateDecision::Execute));
}

#[test]
fn changed_inputs_miss_the_cache() {
    let mut state = empty_state();
    let first = "h1".to_string();
    let outcome = RunCompletion {
        success: true,
        exit_code: 0,
        stdout: String::new(),
        stderr: String::new(),
    };
    complete_run(&mut state, &first, outcome, 10).unwrap();
    assert!(is_cache_hit(&state, &first));

    let second = "h2".to_string();
    assert!(!is_cache_hit(&state, &second));
}

#[test]
fn successful_run_overwrites_whole_record() {
    let mut state = RunTargetState {
        exit_code: 1,
        hash: "h1".to_string(),
        last_run_time: 5,
        stdout: "old out".to_string(),
        stderr: "old err".to_string(),
    };
    let outcome = RunCompletion {
        success: true,
        exit_code: 0,
        stdout: "new out".to_string(),
        stderr: "new err".to_string(),
    };
    complete_run(&mut state, &"h2".to_string(), outcome, 99).unwrap();
    assert_eq!(state.exit_code, 0);
    assert_eq!(state.hash, "h2");
    assert_eq!(state.last_run_time, 99);
    assert_eq!(state.stdout, "new out");
    assert_eq!(state.stderr, "new err");
}
