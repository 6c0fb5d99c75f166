use moon_core::action::{Action, ActionNode, ActionStatus};
use moon_core::estimator::Estimator;

fn run_action(target: &str, millis: u64) -> Action {
    Action {
        node: Some(ActionNode::RunTarget(target.to_string())),
        status: ActionStatus::Passed,
        duration: Some(millis),
    }
}

fn get(report: &Estimator, task: &str) -> Option<u64> {
    report.tasks.get(&task.to_string()).copied()
}

#[test]
fn parallel_savings_two_buckets() {
    // buckets of 10s and 15s, observed 12s: baseline 15s, savings 3s, 20%
    let actions = vec![run_action("a:build", 10_000), run_action("b:test", 15_000)];
    let report = Estimator::calculate(&actions, 12_000);
    assert_eq!(report.duration, 15_000);
    assert_eq!(report.savings, Some(3_000));
    assert_eq!(report.savings_percent_hundredths, 2_000);
    assert_eq!(get(&report, "build"), Some(10_000));
    assert_eq!(get(&report, "test"), Some(15_000));
}

#[test]
fn no_savings_when_pipeline_not_faster() {
    let actions = vec![run_action("a:build", 10_000)];
    let report = Estimator::calculate(&actions, 10_000);
    assert_eq!(report.savings, None);
    assert_eq!(report.savings_percent_hundredths, 0);

    let slower = Estimator::calculate(&actions, 11_000);
    assert_eq!(slower.savings, None);
    assert_eq!(slower.savings_percent_hundredths, 0);
    assert_eq!(slower.duration, 10_000);
}

#[test]
fn ignores_non_run_actions() {
    let actions = vec![
        Action {
            node: Some(ActionNode::InstallDeps),
            status: ActionStatus::Passed,
            duration: Some(9_000),
        },
        Action {
            node: Some(ActionNode::Other),
            status: ActionStatus::Passed,
            duration: Some(8_000),
        },
        Action { node: None, status: ActionStatus::Skipped, duration: Some(7_000) },
        Action {
            node: Some(ActionNode::RunTarget("a:build".to_string())),
            status: ActionStatus::Passed,
            duration: None,
        },
    ];
    let report = Estimator::calculate(&actions, 1_000);
    assert_eq!(report.duration, 0);
    assert_eq!(report.tasks.len(), 0);
    assert_eq!(report.savings, None);
    assert_eq!(report.savings_percent_hundredths, 0);
}

#[test]
fn sums_repeated_task_names_across_projects() {
    let actions = vec![
        run_action("a:build", 5_000),
        run_action("b:build", 7_000),
        run_action("a:test", 4_000),
    ];
    let report = Estimator::calculate(&actions, 20_000);
    assert_eq!(get(&report, "build"), Some(12_000));
    assert_eq!(get(&report, "test"), Some(4_000));
    assert_eq!(report.duration, 12_000);
    assert_eq!(report.savings, None);
}

#[test]
fn empty_pipeline_reports_zero() {
    let actions: Vec<Action> = vec![];
    let report = Estimator::calculate(&actions, 5_000);
    assert_eq!(report.duration, 0);
    assert_eq!(report.savings, None);
    assert_eq!(report.savings_percent_hundredths, 0);
}

#[test]
fn fractional_percent_is_exact_in_hundredths() {
    // baseline 3s, observed 2s: savings 1s, 33.33%
    let actions = vec![run_action("a:build", 3_000)];
    let report = Estimator::calculate(&actions, 2_000);
    assert_eq!(report.savings, Some(1_000));
    assert_eq!(report.savings_percent_hundredths, 3_333);
}
