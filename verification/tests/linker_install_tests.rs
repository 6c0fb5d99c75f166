use moon_core::install::{record_install, should_dedupe, should_install, WorkspaceState};
use moon_core::linker::OutputLedger;

#[test]
fn linking_twice_is_idempotent() {
    let mut ledger = OutputLedger::new();
    let hash = "abc".to_string();
    let path = "dist".to_string();

    assert!(!ledger.contains(&hash, &path));
    assert!(ledger.link(&hash, &path));
    assert!(ledger.contains(&hash, &path));

    // a second link: no error, nothing duplicated
    assert!(!ledger.link(&hash, &path));
    assert!(ledger.contains(&hash, &path));
}

#[test]
fn distinct_pairs_link_independently() {
    let mut ledger = OutputLedger::new();
    assert!(ledger.link(&"h1".to_string(), &"dist".to_string()));
    assert!(ledger.link(&"h1".to_string(), &"lib".to_string()));
    assert!(ledger.link(&"h2".to_string(), &"dist".to_string()));
    assert!(!ledger.link(&"h2".to_string(), &"dist".to_string()));
    assert!(ledger.contains(&"h1".to_string(), &"lib".to_string()));
    assert!(!ledger.contains(&"h2".to_string(), &"lib".to_string()));
}

#[test]
fn installs_with_no_prior_record_and_existing_lockfile() {
    let mut state = WorkspaceState { last_node_install_time: 0 };
    let lockfile_mtime = 1_000;
    assert!(should_install(lockfile_mtime, &state));

    // record advances to now (at or past the lockfile's mtime)
    record_install(&mut state, 1_500);
    assert_eq!(state.last_node_install_time, 1_500);

    // unchanged lockfile: skipped
    assert!(!should_install(lockfile_mtime, &state));
}

#[test]
fn skips_when_record_is_at_or_past_lockfile_mtime() {
    let state = WorkspaceState { last_node_install_time: 2_000 };
    assert!(!should_install(2_000, &state));
    assert!(!should_install(1_999, &state));
    assert!(should_install(2_001, &state));
}

#[test]
fn installs_when_no_lockfile_exists() {
    // a modification time of zero means no lockfile: always install
    let fresh = WorkspaceState { last_node_install_time: 0 };
    assert!(should_install(0, &fresh));
    let old = WorkspaceState { last_node_install_time: 5_000 };
    assert!(should_install(0, &old));
}

#[test]
fn dedupe_defaults_on_and_respects_opt_out() {
    assert!(should_dedupe(true, None));
    assert!(should_dedupe(true, Some(true)));
    assert!(!should_dedupe(true, Some(false)));
    // without node configuration there is nothing to dedupe
    assert!(!should_dedupe(false, None));
    assert!(!should_dedupe(false, Some(true)));
}
