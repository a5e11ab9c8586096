//! The shared admission gate that bounds how fast new connection attempts
//! may be started across all workers.

use vstd::prelude::*;
use crate::stats::{max_u64, sat_add_u64};

verus! {

pub const NANOS_PER_SEC: u64 = 1_000_000_000;

/// A fixed-interval admission gate. An attempt may start only at or after
/// `next_slot`; each admission pushes the slot one interval past the
/// admission instant, so admissions are spaced at least one interval apart.
/// An interval of zero admits every attempt immediately.
#[derive(Debug, Copy, Clone, PartialEq, Eq, Structural)]
pub struct RateLimiter {
    /// Minimum spacing between admissions, in nanoseconds; zero means no limit.
    pub interval_nanos: u64,
    /// The earliest instant at which the next attempt may start.
    pub next_slot: u64,
}

/// The admission spacing a configured rate calls for: one second divided by
/// the rate, rounded up, so the effective admission rate never exceeds the
/// configured one. No rate, a zero rate, or a rate above one admission per
/// nanosecond all leave admissions unlimited.
pub open spec fn interval_spec(rate: Option<u64>) -> u64 {
    match rate {
        Option::None => 0,
        Option::Some(r) => if r == 0 || r > NANOS_PER_SEC {
            0
        } else {
            (((NANOS_PER_SEC + r - 1) as int) / (r as int)) as u64
        },
    }
}

/// Whether a poll at instant `now` is admitted.
pub open spec fn poll_admits(l: RateLimiter, now: u64) -> bool {
    l.interval_nanos == 0 || now >= l.next_slot
}

/// The limiter's state after a poll at instant `now`.
pub open spec fn poll_next(l: RateLimiter, now: u64) -> RateLimiter {
    if l.interval_nanos != 0 && now >= l.next_slot {
        RateLimiter { next_slot: sat_add_u64(now, l.interval_nanos), ..l }
    } else {
        l
    }
}

impl RateLimiter {
    /// A gate for the configured rate, ready to admit from instant `now` on.
    pub fn new(rate: Option<u64>, now: u64) -> (l: RateLimiter)
        ensures
            l.interval_nanos == interval_spec(rate),
            l.next_slot == now,
    {
        let interval: u64 = match rate {
            None => 0,
            Some(r) => if r == 0 || r > NANOS_PER_SEC {
                0
            } else {
                (NANOS_PER_SEC + r - 1) / r
            },
        };
        RateLimiter { interval_nanos: interval, next_slot: now }
    }

    /// One admission request at instant `now`: returns whether the attempt may
    /// start, and on admission books the next slot one interval later. A
    /// refused caller waits (outside this gate) and polls again; refusal is
    /// delay, never failure.
    pub fn poll(&mut self, now: u64) -> (admitted: bool)
        ensures
            admitted == poll_admits(*old(self), now),
            *final(self) == poll_next(*old(self), now),
    {
        if self.interval_nanos == 0 {
            true
        } else if now >= self.next_slot {
            self.next_slot = if u64::MAX - now >= self.interval_nanos {
                now + self.interval_nanos
            } else {
                u64::MAX
            };
            true
        } else {
            false
        }
    }
}

pub open spec fn times_sorted(times: Seq<u64>) -> bool {
    forall|a: int, b: int| 0 <= a <= b < times.len() ==> times[a] <= times[b]
}

/// How many of the polls at the given instants, made in order against a gate
/// starting in state `l`, are admitted.
pub open spec fn run_count(l: RateLimiter, times: Seq<u64>) -> int
    decreases times.len(),
{
    if times.len() == 0 {
        0
    } else {
        (if poll_admits(l, times[0]) {
            1int
        } else {
            0int
        }) + run_count(poll_next(l, times[0]), times.drop_first())
    }
}

proof fn lemma_run_count_nonneg(l: RateLimiter, times: Seq<u64>)
    ensures
        0 <= run_count(l, times) <= times.len(),
    decreases times.len(),
{
    if times.len() > 0 {
        lemma_run_count_nonneg(poll_next(l, times[0]), times.drop_first());
    }
}

proof fn lemma_rate_bound_rec(l: RateLimiter, times: Seq<u64>)
    requires
        l.interval_nanos > 0,
        times_sorted(times),
        forall|k: int| 0 <= k < times.len() ==> times[k] + l.interval_nanos <= u64::MAX,
        run_count(l, times) >= 1,
    ensures
        run_count(l, times) * l.interval_nanos <= times.last() + l.interval_nanos - max_u64(
            l.next_slot,
            times.first(),
        ),
    decreases times.len(),
{
    let iv = l.interval_nanos;
    let t0 = times.first();
    let rest = times.drop_first();
    let l2 = poll_next(l, t0);
    assert(times.len() > 0);
    assert(times.last() == times[times.len() - 1]);
    assert(t0 <= times.last());
    assert(forall|k: int| 0 <= k < rest.len() ==> rest[k] == times[k + 1]);
    assert(times_sorted(rest));
    let c2 = run_count(l2, rest);
    lemma_run_count_nonneg(l2, rest);
    if poll_admits(l, t0) {
        assert(t0 + iv <= u64::MAX);
        assert(l2.next_slot == t0 + iv);
        if c2 >= 1 {
            lemma_rate_bound_rec(l2, rest);
            assert(rest.last() == times.last());
            assert(max_u64(l2.next_slot, rest.first()) >= t0 + iv);
            assert(c2 * iv <= times.last() - t0);
            assert((1 + c2) * iv == iv + c2 * iv) by (nonlinear_arith);
        } else {
            assert(run_count(l, times) == 1);
            assert(1 * iv == iv) by (nonlinear_arith);
        }
    } else {
        assert(l2 == l);
        assert(c2 == run_count(l, times));
        lemma_rate_bound_rec(l, rest);
        assert(rest.last() == times.last());
        assert(max_u64(l.next_slot, rest.first()) >= max_u64(l.next_slot, t0));
    }
}

/// Law (rate bound): over any nondecreasing sequence of poll instants, the
/// number of admissions times the admission interval never exceeds the span
/// of the instants by more than one interval — one in-flight attempt of
/// slack. With rate `R` (interval `1/R`) over a window `T`, at most
/// `R * T + 1` attempts are admitted.
pub proof fn lemma_rate_limit_bound(l: RateLimiter, times: Seq<u64>)
    requires
        l.interval_nanos > 0,
        times_sorted(times),
        forall|k: int| 0 <= k < times.len() ==> times[k] + l.interval_nanos <= u64::MAX,
    ensures
        times.len() == 0 ==> run_count(l, times) == 0,
        times.len() > 0 ==> run_count(l, times) * l.interval_nanos <= (times.last()
            - times.first()) + l.interval_nanos,
{
    lemma_run_count_nonneg(l, times);
    if times.len() > 0 {
        assert(times.first() <= times.last());
        if run_count(l, times) >= 1 {
            lemma_rate_bound_rec(l, times);
            assert(max_u64(l.next_slot, times.first()) >= times.first());
        } else {
            assert(run_count(l, times) * l.interval_nanos == 0) by (nonlinear_arith)
                requires
                    run_count(l, times) == 0,
            ;
        }
    }
}

} // verus!
