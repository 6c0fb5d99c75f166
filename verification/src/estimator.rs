//! The savings estimator: a pure aggregation over all completed actions of a
//! pipeline. Durations of run-target actions are bucketed by task name; the
//! slowest bucket is the estimated baseline (buckets are assumed to have run
//! in parallel); savings exist only when the observed pipeline beat that
//! baseline, never as a negative figure.

use crate::action::{Action, ActionNode};
use crate::strmap::StringMap;
use crate::target::{task_part, valid_target_id, Target};
use vstd::prelude::*;

verus! {

/// An action contributes to a bucket when it ran a target and its duration
/// was measured.
pub open spec fn contributes(a: Action) -> bool {
    match (a.node, a.duration) {
        (Some(ActionNode::RunTarget(_)), Some(_)) => true,
        _ => false,
    }
}

/// The target identifier of a run-target action.
pub open spec fn action_target(a: Action) -> Seq<char> {
    match a.node {
        Some(ActionNode::RunTarget(t)) => t@,
        _ => Seq::empty(),
    }
}

/// The measured duration of an action, in milliseconds.
pub open spec fn action_millis(a: Action) -> int {
    match a.duration {
        Some(d) => d as int,
        None => 0,
    }
}

/// Durations summed per task name, over the contributing actions.
pub open spec fn task_buckets(s: Seq<Action>) -> Map<Seq<char>, int>
    decreases s.len(),
{
    if s.len() == 0 {
        Map::empty()
    } else {
        let m = task_buckets(s.drop_last());
        let a = s.last();
        if contributes(a) {
            let k = task_part(action_target(a));
            let prev = if m.contains_key(k) {
                m[k]
            } else {
                0
            };
            m.insert(k, prev + action_millis(a))
        } else {
            m
        }
    }
}

/// The sum of all contributing durations.
pub open spec fn total_millis(s: Seq<Action>) -> int
    decreases s.len(),
{
    if s.len() == 0 {
        0
    } else {
        total_millis(s.drop_last()) + if contributes(s.last()) {
            action_millis(s.last())
        } else {
            0
        }
    }
}

/// Every bucket is non-negative and bounded by the sum of all durations.
pub proof fn lemma_buckets_bounded(s: Seq<Action>)
    ensures
        total_millis(s) >= 0,
        forall|k: Seq<char>|
            task_buckets(s).contains_key(k) ==> 0 <= #[trigger] task_buckets(s)[k]
                <= total_millis(s),
    decreases s.len(),
{
    if s.len() > 0 {
        lemma_buckets_bounded(s.drop_last());
        let m = task_buckets(s.drop_last());
        let a = s.last();
        if contributes(a) {
            let k = task_part(action_target(a));
            let prev = if m.contains_key(k) {
                m[k]
            } else {
                0
            };
            assert(task_buckets(s) == m.insert(k, prev + action_millis(a)));
            assert forall|k2: Seq<char>| task_buckets(s).contains_key(k2) implies 0
                <= #[trigger] task_buckets(s)[k2] <= total_millis(s) by {
                if k2 != k {
                    assert(m.contains_key(k2) && task_buckets(s)[k2] == m[k2]);
                }
            }
        }
    }
}

/// A prefix's durations sum to no more than the whole sequence's.
pub proof fn lemma_total_take_le(s: Seq<Action>, i: int)
    requires
        0 <= i <= s.len(),
    ensures
        total_millis(s.take(i)) <= total_millis(s),
    decreases s.len() - i,
{
    if i == s.len() {
        assert(s.take(i) =~= s);
    } else {
        lemma_total_take_le(s, i + 1);
        let sp = s.take(i + 1);
        assert(sp.drop_last() =~= s.take(i));
        assert(sp.last() == s[i]);
        if contributes(s[i]) {
        }
    }
}

/// Law: an action whose node is not a run of a target, or which carries no
/// measured duration, contributes nothing to any bucket or to the total.
pub proof fn lemma_non_run_actions_ignored(s: Seq<Action>, a: Action)
    requires
        !contributes(a),
    ensures
        task_buckets(s.push(a)) == task_buckets(s),
        total_millis(s.push(a)) == total_millis(s),
{
    assert(s.push(a).drop_last() =~= s);
    assert(s.push(a).last() == a);
}

/// The end-of-pipeline report: the estimated baseline duration (milliseconds),
/// the per-task-name duration buckets, the time saved against the baseline if
/// any, and the savings as a percentage scaled by one hundred (hundredths of
/// a percent, so exact in integers).
pub struct Estimator {
    pub duration: u64,
    pub tasks: StringMap<u64>,
    pub savings: Option<u64>,
    pub savings_percent_hundredths: u64,
}

impl Estimator {
    /// Aggregate the completed actions against the observed pipeline duration.
    ///
    /// An action whose node is not a run-target, or which carries no duration,
    /// contributes to no bucket. The baseline is the largest bucket, zero when
    /// there is none. Savings exist exactly when the pipeline was strictly
    /// faster than the baseline, and are never negative.
    pub fn calculate(results: &Vec<Action>, pipeline_duration: u64) -> (r: Estimator)
        requires
            total_millis(results@) <= u64::MAX,
            forall|i: int|
                0 <= i < results@.len() && #[trigger] contributes(results@[i])
                    ==> valid_target_id(action_target(results@[i])),
        ensures
            forall|k: Seq<char>|
                r.tasks@.contains_key(k) <==> task_buckets(results@).contains_key(k),
            forall|k: Seq<char>|
                #[trigger] r.tasks@.contains_key(k) ==> r.tasks@[k] as int == task_buckets(
                    results@,
                )[k],
            forall|k: Seq<char>| #[trigger] r.tasks@.contains_key(k) ==> r.tasks@[k] <= r.duration,
            r.duration == 0 || exists|k: Seq<char>|
                #[trigger] r.tasks@.contains_key(k) && r.tasks@[k] == r.duration,
            pipeline_duration < r.duration ==> r.savings == Some(
                (r.duration - pipeline_duration) as u64,
            ) && r.savings_percent_hundredths as int == (r.duration - pipeline_duration) * 10000
                / (r.duration as int),
            pipeline_duration >= r.duration ==> r.savings is None
                && r.savings_percent_hundredths == 0,
    {
        let ghost s = results@;
        let mut tasks: StringMap<u64> = StringMap::new();
        let n = results.len();
        let mut idx: usize = 0;
        while idx < n
            invariant
                0 <= idx <= n,
                n == s.len(),
                s == results@,
                total_millis(s) <= u64::MAX,
                forall|i: int|
                    0 <= i < s.len() && #[trigger] contributes(s[i]) ==> valid_target_id(
                        action_target(s[i]),
                    ),
                forall|k: Seq<char>|
                    tasks@.contains_key(k) <==> task_buckets(s.take(idx as int)).contains_key(k),
                forall|k: Seq<char>|
                    #[trigger] tasks@.contains_key(k) ==> tasks@[k] as int == task_buckets(
                        s.take(idx as int),
                    )[k],
            decreases n - idx,
        {
            proof {
                let sp = s.take(idx as int + 1);
                assert(sp.drop_last() =~= s.take(idx as int));
                assert(sp.last() == s[idx as int]);
            }
            let a = &results[idx];
            if let Some(node) = &a.node {
                if let ActionNode::RunTarget(t) = node {
                    if let Some(d) = a.duration {
                        proof {
                            assert(contributes(s[idx as int]));
                            assert(action_target(s[idx as int]) == t@);
                            assert(action_millis(s[idx as int]) == d as int);
                        }
                        let task_id = match Target::parse(t.as_str()) {
                            Ok(tg) => tg.task_id,
                            // unreachable: every contributing action's target
                            // id is well-formed
                            Err(_) => {
                                proof {
                                    assert(false);
                                }
                                String::new()
                            },
                        };
                        let prev: u64 = match tasks.get(&task_id) {
                            Some(v) => *v,
                            None => 0,
                        };
                        proof {
                            let sp = s.take(idx as int + 1);
                            let k = task_part(action_target(s[idx as int]));
                            assert(task_id@ == k);
                            lemma_buckets_bounded(sp);
                            lemma_total_take_le(s, idx as int + 1);
                            assert(task_buckets(sp)[k] == prev + d);
                            assert(prev + d <= u64::MAX);
                        }
                        let total = prev + d;
                        tasks.insert(task_id, total);
                    }
                }
            }
            idx += 1;
        }
        proof {
            assert(s.take(n as int) =~= s);
        }
        // the slowest bucket is the estimated baseline
        let pairs = tasks.pairs();
        let m = pairs.len();
        let mut duration: u64 = 0;
        let mut i: usize = 0;
        while i < m
            invariant
                0 <= i <= m,
                m == pairs@.len(),
                forall|j: int|
                    0 <= j < m ==> tasks@.contains_key(#[trigger] pairs@[j].0@)
                        && tasks@[pairs@[j].0@] == pairs@[j].1,
                forall|k: Seq<char>|
                    tasks@.contains_key(k) ==> exists|j: int| 0 <= j < m && pairs@[j].0@ == k,
                forall|j: int| 0 <= j < i ==> #[trigger] pairs@[j].1 <= duration,
                duration == 0 || exists|j: int| 0 <= j < i && #[trigger] pairs@[j].1 == duration,
            decreases m - i,
        {
            let v = pairs[i].1;
            if v > duration {
                duration = v;
            }
            i += 1;
        }
        proof {
            assert forall|k: Seq<char>| #[trigger] tasks@.contains_key(k) implies tasks@[k]
                <= duration by {
                let j = choose|j: int| 0 <= j < m && pairs@[j].0@ == k;
                assert(pairs@[j].1 <= duration);
            }
            if duration != 0 {
                let j = choose|j: int| 0 <= j < i && #[trigger] pairs@[j].1 == duration;
                assert(tasks@.contains_key(pairs@[j].0@) && tasks@[pairs@[j].0@] == duration);
            }
            assert(duration == 0 || exists|k: Seq<char>|
                #[trigger] tasks@.contains_key(k) && tasks@[k] == duration);
        }
        // savings only when the pipeline beat the baseline
        let mut savings: Option<u64> = None;
        let mut savings_percent_hundredths: u64 = 0;
        if pipeline_duration < duration {
            let diff = duration - pipeline_duration;
            let num = (diff as u128) * 10000u128;
            let q = num / (duration as u128);
            proof {
                assert(q <= 10000) by (nonlinear_arith)
                    requires
                        num == diff as u128 * 10000u128,
                        q == num / (duration as u128),
                        0 < diff <= duration,
                {}
            }
            savings = Some(diff);
            savings_percent_hundredths = q as u64;
        }
        let ghost tv = tasks@;
        let r = Estimator { duration, tasks, savings, savings_percent_hundredths };
        proof {
            if duration != 0 {
                let k = choose|k: Seq<char>| #[trigger] tv.contains_key(k) && tv[k] == duration;
                assert(r.tasks@.contains_key(k) && r.tasks@[k] == duration);
            }
        }
        r
    }
}

} // verus!
