//! Aggregate run statistics and their order-independent merge.

use vstd::prelude::*;

verus! {

/// The sum of two counters, saturating at the machine word.
pub open spec fn sat_add_usize(a: usize, b: usize) -> usize {
    if a + b > usize::MAX {
        usize::MAX
    } else {
        (a + b) as usize
    }
}

/// The sum of two nanosecond counts, saturating at the machine word.
pub open spec fn sat_add_u64(a: u64, b: u64) -> u64 {
    if a + b > u64::MAX {
        u64::MAX
    } else {
        (a + b) as u64
    }
}

pub open spec fn min_u64(a: u64, b: u64) -> u64 {
    if a <= b {
        a
    } else {
        b
    }
}

pub open spec fn max_u64(a: u64, b: u64) -> u64 {
    if a >= b {
        a
    } else {
        b
    }
}

/// One run's (or one worker's) aggregate counters. Timestamps are wall-clock
/// samples in nanoseconds since the Unix epoch.
#[derive(Debug, Copy, Clone, PartialEq, Eq, Structural)]
pub struct Stats {
    pub bytes_read: usize,
    pub bytes_written: usize,
    /// Connections successfully established.
    pub connections: usize,
    /// Connection attempts, failures included.
    pub connection_attempts: usize,
    pub start_time: u64,
    pub end_time: u64,
}

/// Well-formedness: no more successes than attempts, and a forward time span.
pub open spec fn stats_wf(s: Stats) -> bool {
    &&& s.connections <= s.connection_attempts
    &&& s.start_time <= s.end_time
}

/// The merge of two statistics records: counters summed (saturating at the
/// machine word), the span widened to cover both.
pub open spec fn merge_spec(a: Stats, b: Stats) -> Stats {
    Stats {
        bytes_read: sat_add_usize(a.bytes_read, b.bytes_read),
        bytes_written: sat_add_usize(a.bytes_written, b.bytes_written),
        connections: sat_add_usize(a.connections, b.connections),
        connection_attempts: sat_add_usize(a.connection_attempts, b.connection_attempts),
        start_time: min_u64(a.start_time, b.start_time),
        end_time: max_u64(a.end_time, b.end_time),
    }
}

/// The span a record covers: zero when the samples are reversed.
pub open spec fn duration_spec(s: Stats) -> u64 {
    if s.end_time >= s.start_time {
        (s.end_time - s.start_time) as u64
    } else {
        0
    }
}

/// Relies on std::time::SystemTime::elapsed, on the Unix epoch: a wall-clock
/// sample, read out as nanoseconds since that epoch; a clock before the epoch
/// reads as zero. Nothing is promised of the value. `elapsed` returns an
/// error rather than panicking on a misset clock.
#[verifier::external_body]
pub(crate) fn now_nanos() -> (t: u64) {
    match std::time::UNIX_EPOCH.elapsed() {
        Ok(d) => d.as_nanos() as u64,
        Err(_) => 0,
    }
}

pub(crate) fn sat_add_usize_exec(a: usize, b: usize) -> (r: usize)
    ensures
        r == sat_add_usize(a, b),
{
    if usize::MAX - a >= b {
        a + b
    } else {
        usize::MAX
    }
}

pub(crate) fn sat_add_u64_exec(a: u64, b: u64) -> (r: u64)
    ensures
        r == sat_add_u64(a, b),
{
    if u64::MAX - a >= b {
        a + b
    } else {
        u64::MAX
    }
}

impl Stats {
    /// A fresh record: every counter zero, both timestamps set to the one
    /// wall-clock sample taken at construction.
    pub fn new() -> (s: Stats)
        ensures
            s.bytes_read == 0,
            s.bytes_written == 0,
            s.connections == 0,
            s.connection_attempts == 0,
            s.start_time == s.end_time,
            stats_wf(s),
    {
        let t = now_nanos();
        Stats {
            bytes_read: 0,
            bytes_written: 0,
            connections: 0,
            connection_attempts: 0,
            start_time: t,
            end_time: t,
        }
    }

    /// Nanoseconds between the record's first and last sample (zero if the
    /// samples are reversed).
    pub fn duration(&self) -> (d: u64)
        ensures
            d == duration_spec(*self),
            stats_wf(*self) ==> d == self.end_time - self.start_time,
    {
        if self.end_time >= self.start_time {
            self.end_time - self.start_time
        } else {
            0
        }
    }

    /// Merge another record into this one; workers' records may be folded in
    /// any order (see `lemma_merge_commutative`, `lemma_merge_associative`).
    pub fn merge(self, other: Stats) -> (r: Stats)
        ensures
            r == merge_spec(self, other),
    {
        Stats {
            bytes_read: sat_add_usize_exec(self.bytes_read, other.bytes_read),
            bytes_written: sat_add_usize_exec(self.bytes_written, other.bytes_written),
            connections: sat_add_usize_exec(self.connections, other.connections),
            connection_attempts: sat_add_usize_exec(
                self.connection_attempts,
                other.connection_attempts,
            ),
            start_time: if self.start_time <= other.start_time {
                self.start_time
            } else {
                other.start_time
            },
            end_time: if self.end_time >= other.end_time {
                self.end_time
            } else {
                other.end_time
            },
        }
    }
}

impl Default for Stats {
    fn default() -> (s: Stats)
        ensures
            s.bytes_read == 0,
            s.bytes_written == 0,
            s.connections == 0,
            s.connection_attempts == 0,
            s.start_time == s.end_time,
            stats_wf(s),
    {
        Stats::new()
    }
}

/// Law: merge is commutative in every field.
pub proof fn lemma_merge_commutative(a: Stats, b: Stats)
    ensures
        merge_spec(a, b) == merge_spec(b, a),
{
}

/// Law: merge is associative, so records may be folded pairwise or by tree
/// reduction with the same result.
pub proof fn lemma_merge_associative(a: Stats, b: Stats, c: Stats)
    ensures
        merge_spec(merge_spec(a, b), c) == merge_spec(a, merge_spec(b, c)),
{
}

/// Law: merging two well-formed records yields a well-formed record, so
/// `connections <= connection_attempts` and a forward span hold of every
/// merged total.
pub proof fn lemma_merge_wf(a: Stats, b: Stats)
    requires
        stats_wf(a),
        stats_wf(b),
    ensures
        stats_wf(merge_spec(a, b)),
{
}

/// Law: merging the records of workers none of whom ever connected — a run
/// against an address with no listener — keeps `connections` at zero while
/// the attempt total stays positive: failed attempts count as attempts,
/// never as connections.
pub proof fn lemma_merge_failed_run(a: Stats, b: Stats)
    requires
        a.connections == 0,
        b.connections == 0,
        a.connection_attempts + b.connection_attempts > 0,
    ensures
        merge_spec(a, b).connections == 0,
        merge_spec(a, b).connection_attempts > 0,
{
}

/// Law: merge preserves a flawless run's relations. If each worker's record
/// shows every attempt connected and `bytes_written` equal to `connections`
/// times the payload length, the merged record shows both too (stated within
/// the machine word, since counters saturate there).
pub proof fn lemma_merge_flawless_run(a: Stats, b: Stats, len: int)
    requires
        a.connections == a.connection_attempts,
        b.connections == b.connection_attempts,
        a.bytes_written == a.connections * len,
        b.bytes_written == b.connections * len,
        a.connection_attempts + b.connection_attempts <= usize::MAX,
        a.bytes_written + b.bytes_written <= usize::MAX,
    ensures
        merge_spec(a, b).connections == merge_spec(a, b).connection_attempts,
        merge_spec(a, b).bytes_written == merge_spec(a, b).connections * len,
{
    assert((a.connections + b.connections) * len == a.connections * len + b.connections * len)
        by (nonlinear_arith);
}

/// Law: a duration is never negative, and on a well-formed record it is the
/// exact distance between the two samples.
pub proof fn lemma_duration_nonnegative(s: Stats)
    ensures
        duration_spec(s) >= 0,
        stats_wf(s) ==> duration_spec(s) == s.end_time - s.start_time,
{
}

} // verus!
