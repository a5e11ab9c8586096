//! Building blocks for a TCP load-generation engine.
//!
//! The library holds the parts of the tool that decide and compute: the
//! message payload, the statistics record and its merge, validated run
//! configuration, the rate-limiter admission gate, the per-connection
//! worker state machine, and the engine's termination and folding rules.
//! The surrounding binary performs the sockets, threads and logging and
//! feeds plain values in and out of these functions.
//!
//! Targets are IPv4 socket addresses (`a.b.c.d:port`); IPv6 literals are
//! not supported (see `config`).

pub mod config;
pub mod engine;
pub mod limit;
pub mod stats;
pub mod worker;

use vstd::prelude::*;

verus! {

/// `s` concatenated with itself `n` times, in order.
pub open spec fn repeat_seq(s: Seq<u8>, n: nat) -> Seq<u8>
    decreases n,
{
    if n == 0 {
        Seq::empty()
    } else {
        repeat_seq(s, (n - 1) as nat) + s
    }
}

/// Message payload: an immutable byte body, shared read-only by all workers.
#[derive(Debug, Clone)]
pub struct Message {
    pub body: Vec<u8>,
}

impl Message {
    pub fn new(body: Vec<u8>) -> (m: Message)
        ensures
            m.body@ == body@,
    {
        Message { body }
    }

    /// Returns a new message whose body is this body repeated `n` times
    /// (`n == 0` gives an empty body).
    pub fn repeat(&self, n: usize) -> (m: Message)
        ensures
            m.body@ == repeat_seq(self.body@, n as nat),
    {
        let mut repeated: Vec<u8> = Vec::new();
        let mut i: usize = 0;
        while i < n
            invariant
                i <= n,
                repeated@ == repeat_seq(self.body@, i as nat),
            decreases n - i,
        {
            let mut j: usize = 0;
            while j < self.body.len()
                invariant
                    j <= self.body.len(),
                    repeated@ == repeat_seq(self.body@, i as nat) + self.body@.take(j as int),
                decreases self.body.len() - j,
            {
                repeated.push(self.body[j]);
                j += 1;
            }
            proof {
                assert(self.body@.take(self.body@.len() as int) =~= self.body@);
            }
            i += 1;
        }
        Message { body: repeated }
    }
}

/// Law: repeating yields a body of length `n * original_length`.
pub proof fn lemma_repeat_len(s: Seq<u8>, n: nat)
    ensures
        repeat_seq(s, n).len() == n * s.len(),
    decreases n,
{
    if n == 0 {
        assert(n * s.len() == 0) by (nonlinear_arith)
            requires
                n == 0,
        ;
    } else {
        let m = (n - 1) as nat;
        lemma_repeat_len(s, m);
        assert(m * s.len() + s.len() == n * s.len()) by (nonlinear_arith)
            requires
                m + 1 == n,
        ;
    }
}

/// Law: repeating once yields exactly the original content.
pub proof fn lemma_repeat_one(s: Seq<u8>)
    ensures
        repeat_seq(s, 1) == s,
{
    assert(repeat_seq(s, 0) =~= Seq::<u8>::empty());
    assert(repeat_seq(s, 1) =~= Seq::<u8>::empty() + s);
    assert(Seq::<u8>::empty() + s =~= s);
}

} // verus!
