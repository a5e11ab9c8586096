//! The engine's run-wide decisions: when a run terminates, and how worker
//! records fold into one report.
//!
//! The surrounding binary spawns one worker per configured connection, trips
//! a shared flag when `should_stop` says so, and folds the workers' records
//! with `merge_all`; the fold's result is independent of the order in which
//! workers report (see the merge laws in `stats`).

use vstd::prelude::*;
use crate::config::Config;
use crate::stats::{lemma_merge_wf, merge_spec, stats_wf, Stats};

verus! {

/// Elapsed nanoseconds from `started` to `now` (zero if the clock ran
/// backwards).
pub open spec fn elapsed_spec(started: u64, now: u64) -> u64 {
    if now >= started {
        (now - started) as u64
    } else {
        0
    }
}

/// The run-wide termination condition: an external cancellation, an elapsed
/// configured duration, or an exhausted configured attempt budget.
pub open spec fn should_stop_spec(
    duration_nanos: Option<u64>,
    max_connections: Option<u64>,
    started: u64,
    now: u64,
    attempts: u64,
    cancelled: bool,
) -> bool {
    ||| cancelled
    ||| (duration_nanos matches Some(d) && elapsed_spec(started, now) >= d)
    ||| (max_connections matches Some(m) && attempts >= m)
}

/// Decides whether the run ends, from the run's start instant, the instant
/// `now`, the attempts begun so far across all workers (failures included, so
/// a run against a dead target still ends), and the external cancellation
/// flag. Workers observe the decision between attempts, never mid-attempt.
pub fn should_stop(config: &Config, started: u64, now: u64, attempts: u64, cancelled: bool) -> (stop:
    bool)
    ensures
        stop == should_stop_spec(
            config.duration_nanos,
            config.max_connections,
            started,
            now,
            attempts,
            cancelled,
        ),
{
    if cancelled {
        return true;
    }
    if let Some(d) = config.duration_nanos {
        let elapsed = if now >= started {
            now - started
        } else {
            0
        };
        if elapsed >= d {
            return true;
        }
    }
    if let Some(m) = config.max_connections {
        if attempts >= m {
            return true;
        }
    }
    false
}

/// Law: the termination condition is monotone in the clock and in the attempt
/// total. Once it holds, it holds at every later instant and attempt count,
/// so a worker that observes it between attempts never sees it lifted — after
/// the deadline each worker has at most its one in-flight attempt left.
pub proof fn lemma_should_stop_monotone(
    duration_nanos: Option<u64>,
    max_connections: Option<u64>,
    started: u64,
    now1: u64,
    now2: u64,
    attempts1: u64,
    attempts2: u64,
    cancelled: bool,
)
    requires
        now1 <= now2,
        attempts1 <= attempts2,
        should_stop_spec(duration_nanos, max_connections, started, now1, attempts1, cancelled),
    ensures
        should_stop_spec(duration_nanos, max_connections, started, now2, attempts2, cancelled),
{
}

/// Fold of worker records onto a seed, front to back.
pub open spec fn merge_fold(acc: Stats, rest: Seq<Stats>) -> Stats
    decreases rest.len(),
{
    if rest.len() == 0 {
        acc
    } else {
        merge_fold(merge_spec(acc, rest[0]), rest.drop_first())
    }
}

/// Merges every worker's record into one report.
pub fn merge_all(seed: Stats, results: &Vec<Stats>) -> (r: Stats)
    ensures
        r == merge_fold(seed, results@),
{
    let mut acc = seed;
    let mut i: usize = 0;
    proof {
        assert(results@.skip(0) =~= results@);
    }
    while i < results.len()
        invariant
            i <= results.len(),
            merge_fold(seed, results@) == merge_fold(acc, results@.skip(i as int)),
        decreases results.len() - i,
    {
        proof {
            assert(results@.skip(i as int).drop_first() =~= results@.skip(i as int + 1));
            assert(results@.skip(i as int)[0] == results@[i as int]);
        }
        acc = acc.merge(results[i]);
        i += 1;
    }
    acc
}

/// Law: folding well-formed records onto a well-formed seed yields a
/// well-formed report, so the final report shows no more connections than
/// attempts and a forward time span.
pub proof fn lemma_merge_fold_wf(acc: Stats, rest: Seq<Stats>)
    requires
        stats_wf(acc),
        forall|k: int| 0 <= k < rest.len() ==> stats_wf(rest[k]),
    ensures
        stats_wf(merge_fold(acc, rest)),
    decreases rest.len(),
{
    if rest.len() > 0 {
        lemma_merge_wf(acc, rest[0]);
        assert(forall|k: int| 0 <= k < rest.drop_first().len() ==> rest.drop_first()[k] == rest[k
            + 1]);
        lemma_merge_fold_wf(merge_spec(acc, rest[0]), rest.drop_first());
    }
}

} // verus!
