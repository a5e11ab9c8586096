//! The per-connection worker lifecycle as a state machine.
//!
//! A worker drives one connection attempt at a time through
//! `Idle -> Connecting -> Writing -> Reading -> Closed` on the success path,
//! drops to `Failed` on any I/O error or timeout, and after either outcome
//! retries from `Idle` unless the run-wide termination condition has fired,
//! in which case it ends in `Terminated`. The surrounding binary performs the
//! socket calls and feeds the outcomes in as events; every statistics update
//! is decided here.

use vstd::prelude::*;
use crate::stats::{max_u64, sat_add_usize, sat_add_usize_exec, stats_wf, Stats};

verus! {

#[derive(Debug, Copy, Clone, PartialEq, Eq, Structural)]
pub enum WorkerState {
    Idle,
    Connecting,
    Writing,
    Reading,
    Closed,
    Failed,
    Terminated,
}

/// What the worker's surroundings observed since the last step.
#[derive(Debug, Copy, Clone, PartialEq, Eq, Structural)]
pub enum WorkerEvent {
    /// The rate limiter admitted a new attempt.
    Admitted,
    ConnectSucceeded,
    /// The connect failed or timed out.
    ConnectFailed,
    /// This many payload bytes were written (partial writes loop).
    Wrote(usize),
    WriteCompleted,
    WriteFailed,
    /// This many response bytes were read.
    ReadChunk(usize),
    /// The peer closed the connection: the attempt is complete.
    PeerClosed,
    /// The read failed or timed out.
    ReadFailed,
    /// The termination condition was checked; `true` means stop.
    Checked(bool),
}

/// A record with its last-activity sample advanced to `now`.
pub open spec fn touch_spec(s: Stats, now: u64) -> Stats {
    Stats { end_time: max_u64(s.end_time, now), ..s }
}

/// The worker transition relation: the next state and the updated local
/// statistics for one observed event at instant `now`. An attempt counts when
/// its connect resolves, a connection only when the connect succeeds; byte
/// counters saturate at the machine word. An event that cannot occur in the
/// given state changes nothing.
pub open spec fn step_spec(state: WorkerState, event: WorkerEvent, s: Stats, now: u64) -> (
    WorkerState,
    Stats,
) {
    match (state, event) {
        (WorkerState::Idle, WorkerEvent::Admitted) => (WorkerState::Connecting, touch_spec(s, now)),
        (WorkerState::Connecting, WorkerEvent::ConnectSucceeded) => (
            WorkerState::Writing,
            touch_spec(
                Stats {
                    connections: sat_add_usize(s.connections, 1),
                    connection_attempts: sat_add_usize(s.connection_attempts, 1),
                    ..s
                },
                now,
            ),
        ),
        (WorkerState::Connecting, WorkerEvent::ConnectFailed) => (
            WorkerState::Failed,
            touch_spec(
                Stats { connection_attempts: sat_add_usize(s.connection_attempts, 1), ..s },
                now,
            ),
        ),
        (WorkerState::Writing, WorkerEvent::Wrote(n)) => (
            WorkerState::Writing,
            touch_spec(Stats { bytes_written: sat_add_usize(s.bytes_written, n), ..s }, now),
        ),
        (WorkerState::Writing, WorkerEvent::WriteCompleted) => (
            WorkerState::Reading,
            touch_spec(s, now),
        ),
        (WorkerState::Writing, WorkerEvent::WriteFailed) => (
            WorkerState::Failed,
            touch_spec(s, now),
        ),
        (WorkerState::Reading, WorkerEvent::ReadChunk(n)) => (
            WorkerState::Reading,
            touch_spec(Stats { bytes_read: sat_add_usize(s.bytes_read, n), ..s }, now),
        ),
        (WorkerState::Reading, WorkerEvent::PeerClosed) => (
            WorkerState::Closed,
            touch_spec(s, now),
        ),
        (WorkerState::Reading, WorkerEvent::ReadFailed) => (
            WorkerState::Failed,
            touch_spec(s, now),
        ),
        (WorkerState::Closed, WorkerEvent::Checked(stop)) => (
            if stop {
                WorkerState::Terminated
            } else {
                WorkerState::Idle
            },
            touch_spec(s, now),
        ),
        (WorkerState::Failed, WorkerEvent::Checked(stop)) => (
            if stop {
                WorkerState::Terminated
            } else {
                WorkerState::Idle
            },
            touch_spec(s, now),
        ),
        _ => (state, s),
    }
}

fn touch(s: Stats, now: u64) -> (r: Stats)
    ensures
        r == touch_spec(s, now),
{
    Stats {
        end_time: if s.end_time >= now {
            s.end_time
        } else {
            now
        },
        ..s
    }
}

/// One worker step: applies the transition relation. Preserves
/// well-formedness, so a worker's local record always shows no more
/// connections than attempts and a forward time span.
pub fn step(state: WorkerState, event: WorkerEvent, stats: Stats, now: u64) -> (r: (
    WorkerState,
    Stats,
))
    ensures
        r == step_spec(state, event, stats, now),
        stats_wf(stats) ==> stats_wf(r.1),
{
    match (state, event) {
        (WorkerState::Idle, WorkerEvent::Admitted) => (
            WorkerState::Connecting,
            touch(stats, now),
        ),
        (WorkerState::Connecting, WorkerEvent::ConnectSucceeded) => (
            WorkerState::Writing,
            touch(
                Stats {
                    connections: sat_add_usize_exec(stats.connections, 1),
                    connection_attempts: sat_add_usize_exec(stats.connection_attempts, 1),
                    ..stats
                },
                now,
            ),
        ),
        (WorkerState::Connecting, WorkerEvent::ConnectFailed) => (
            WorkerState::Failed,
            touch(
                Stats {
                    connection_attempts: sat_add_usize_exec(stats.connection_attempts, 1),
                    ..stats
                },
                now,
            ),
        ),
        (WorkerState::Writing, WorkerEvent::Wrote(n)) => (
            WorkerState::Writing,
            touch(Stats { bytes_written: sat_add_usize_exec(stats.bytes_written, n), ..stats }, now),
        ),
        (WorkerState::Writing, WorkerEvent::WriteCompleted) => (
            WorkerState::Reading,
            touch(stats, now),
        ),
        (WorkerState::Writing, WorkerEvent::WriteFailed) => (
            WorkerState::Failed,
            touch(stats, now),
        ),
        (WorkerState::Reading, WorkerEvent::ReadChunk(n)) => (
            WorkerState::Reading,
            touch(Stats { bytes_read: sat_add_usize_exec(stats.bytes_read, n), ..stats }, now),
        ),
        (WorkerState::Reading, WorkerEvent::PeerClosed) => (
            WorkerState::Closed,
            touch(stats, now),
        ),
        (WorkerState::Reading, WorkerEvent::ReadFailed) => (
            WorkerState::Failed,
            touch(stats, now),
        ),
        (WorkerState::Closed, WorkerEvent::Checked(stop)) => (
            if stop {
                WorkerState::Terminated
            } else {
                WorkerState::Idle
            },
            touch(stats, now),
        ),
        (WorkerState::Failed, WorkerEvent::Checked(stop)) => (
            if stop {
                WorkerState::Terminated
            } else {
                WorkerState::Idle
            },
            touch(stats, now),
        ),
        _ => (state, stats),
    }
}

/// Law: a step never makes the record ill-formed, and failure events add to
/// the attempt counter, never to the connection counter.
pub proof fn lemma_step_preserves_wf(state: WorkerState, event: WorkerEvent, s: Stats, now: u64)
    requires
        stats_wf(s),
    ensures
        stats_wf(step_spec(state, event, s, now).1),
        step_spec(state, event, s, now).1.connections >= s.connections,
        event == WorkerEvent::ConnectFailed ==> step_spec(state, event, s, now).1.connections
            == s.connections,
{
}

} // verus!
