//! Validated run configuration, built through a chainable builder.
//!
//! A target address is held as bytes and must be a well-formed IPv4 socket
//! address: four dot-separated decimal octets, a colon, and a decimal port.
//! Decimal fields carry no leading zeros (`"0"` itself is allowed), matching
//! the standard library's grammar for such addresses. This is deliberately
//! narrower than a general socket address: bracketed IPv6 literals and host
//! names are not in the grammar and are rejected at build time with
//! `InvalidAddress`.

use vstd::prelude::*;

verus! {

pub open spec fn is_digit(b: u8) -> bool {
    48 <= b && b <= 57
}

pub open spec fn all_digits(s: Seq<u8>) -> bool {
    forall|k: int| 0 <= k < s.len() ==> is_digit(s[k])
}

/// The number a digit string denotes, most significant digit first.
pub open spec fn num_value(s: Seq<u8>) -> int
    decreases s.len(),
{
    if s.len() == 0 {
        0
    } else {
        num_value(s.drop_last()) * 10 + (s.last() - 48)
    }
}

pub open spec fn pow10(k: nat) -> int
    decreases k,
{
    if k == 0 {
        1
    } else {
        10 * pow10((k - 1) as nat)
    }
}

/// A decimal field: one to five digits, no leading zero unless the field is
/// exactly `"0"`, denoting a value of at most `max`.
pub open spec fn valid_decimal(s: Seq<u8>, max: int) -> bool {
    &&& 1 <= s.len() <= 5
    &&& all_digits(s)
    &&& (s.len() == 1 || s[0] != 48)
    &&& num_value(s) <= max
}

/// The first position of `c` in `s` at or after `from`, or `s.len()` if there
/// is none.
pub open spec fn find_byte(s: Seq<u8>, c: u8, from: int) -> int
    decreases s.len() - from,
{
    if !(0 <= from < s.len()) {
        s.len() as int
    } else if s[from] == c {
        from
    } else {
        find_byte(s, c, from + 1)
    }
}

/// A well-formed target address: `a.b.c.d:port` with octets up to 255 and a
/// port up to 65535.
pub open spec fn valid_addr(s: Seq<u8>) -> bool {
    let i1 = find_byte(s, 46, 0);
    let i2 = find_byte(s, 46, i1 + 1);
    let i3 = find_byte(s, 46, i2 + 1);
    let ic = find_byte(s, 58, i3 + 1);
    &&& i1 < s.len()
    &&& i2 < s.len()
    &&& i3 < s.len()
    &&& ic < s.len()
    &&& valid_decimal(s.subrange(0, i1), 255)
    &&& valid_decimal(s.subrange(i1 + 1, i2), 255)
    &&& valid_decimal(s.subrange(i2 + 1, i3), 255)
    &&& valid_decimal(s.subrange(i3 + 1, ic), 255)
    &&& valid_decimal(s.subrange(ic + 1, s.len() as int), 65535)
}

proof fn lemma_pow10_pos(k: nat)
    ensures
        pow10(k) >= 1,
    decreases k,
{
    if k > 0 {
        lemma_pow10_pos((k - 1) as nat);
    }
}

proof fn lemma_pow10_mono(a: nat, b: nat)
    requires
        a <= b,
    ensures
        pow10(a) <= pow10(b),
    decreases b,
{
    if a < b {
        lemma_pow10_mono(a, (b - 1) as nat);
        lemma_pow10_pos((b - 1) as nat);
    }
}

/// A string of digits denotes a number below ten to its length.
proof fn lemma_num_value_range(s: Seq<u8>)
    requires
        all_digits(s),
    ensures
        0 <= num_value(s) < pow10(s.len()),
    decreases s.len(),
{
    if s.len() > 0 {
        assert(is_digit(s.last()));
        assert(all_digits(s.drop_last())) by {
            assert(forall|k: int|
                0 <= k < s.len() - 1 ==> s.drop_last()[k] == s[k] && is_digit(s[k]));
        }
        lemma_num_value_range(s.drop_last());
    }
}

fn find_byte_exec(s: &Vec<u8>, c: u8, from: usize) -> (r: usize)
    requires
        from <= s.len(),
    ensures
        from <= r <= s.len(),
        r == find_byte(s@, c, from as int),
    decreases s.len() - from,
{
    let mut i: usize = from;
    while i < s.len()
        invariant
            from <= i <= s.len(),
            find_byte(s@, c, from as int) == find_byte(s@, c, i as int),
        decreases s.len() - i,
    {
        if s[i] == c {
            return i;
        }
        i += 1;
    }
    i
}

fn check_decimal(s: &Vec<u8>, start: usize, end: usize, max: u64) -> (ok: bool)
    requires
        start <= end <= s.len(),
        max <= 65535,
    ensures
        ok == valid_decimal(s@.subrange(start as int, end as int), max as int),
{
    let ghost field = s@.subrange(start as int, end as int);
    let len = end - start;
    if len == 0 || len > 5 {
        return false;
    }
    if len > 1 && s[start] == 48 {
        proof {
            assert(field[0] == s@[start as int]);
        }
        return false;
    }
    let mut value: u64 = 0;
    let mut j: usize = start;
    while j < end
        invariant
            start <= j <= end,
            end <= s.len(),
            end - start <= 5,
            all_digits(s@.subrange(start as int, j as int)),
            value == num_value(s@.subrange(start as int, j as int)),
        decreases end - j,
    {
        let ghost sofar = s@.subrange(start as int, j as int);
        let b = s[j];
        if b < 48 || b > 57 {
            proof {
                assert(s@.subrange(start as int, end as int)[j - start] == s@[j as int]);
            }
            return false;
        }
        proof {
            lemma_num_value_range(sofar);
            lemma_pow10_mono(sofar.len() as nat, 4);
            assert(pow10(1) == 10 * pow10(0));
            assert(pow10(2) == 10 * pow10(1));
            assert(pow10(3) == 10 * pow10(2));
            assert(pow10(4) == 10 * pow10(3));
            let next = s@.subrange(start as int, j + 1int);
            assert(next.drop_last() =~= sofar);
            assert(next.last() == s@[j as int]);
            assert(forall|k: int| 0 <= k < next.len() ==> next[k] == s@[start + k]);
        }
        value = value * 10 + (b - 48) as u64;
        j += 1;
    }
    proof {
        assert(s@.subrange(start as int, j as int) =~= field);
        if len > 1 {
            assert(field[0] == s@[start as int]);
        }
    }
    value <= max
}

/// Decides whether `s` holds a well-formed `a.b.c.d:port` target address.
pub fn check_addr(s: &Vec<u8>) -> (ok: bool)
    ensures
        ok == valid_addr(s@),
{
    let n = s.len();
    let i1 = find_byte_exec(s, 46, 0);
    if i1 == n {
        return false;
    }
    let i2 = find_byte_exec(s, 46, i1 + 1);
    if i2 == n {
        return false;
    }
    let i3 = find_byte_exec(s, 46, i2 + 1);
    if i3 == n {
        return false;
    }
    let ic = find_byte_exec(s, 58, i3 + 1);
    if ic == n {
        return false;
    }
    let oct1 = check_decimal(s, 0, i1, 255);
    let oct2 = check_decimal(s, i1 + 1, i2, 255);
    let oct3 = check_decimal(s, i2 + 1, i3, 255);
    let oct4 = check_decimal(s, i3 + 1, ic, 255);
    let port = check_decimal(s, ic + 1, n, 65535);
    oct1 && oct2 && oct3 && oct4 && port
}

/// Why a configuration failed to build.
#[derive(Debug, Copy, Clone, PartialEq, Eq, Structural)]
pub enum ConfigError {
    /// The target is not a well-formed `a.b.c.d:port` address. IPv6 literals
    /// and host names are outside the accepted grammar.
    InvalidAddress,
    InvalidConcurrency,
    InvalidRate,
}

/// Immutable, already-validated run parameters. Durations and timeouts are in
/// nanoseconds; `rate` is new connection attempts per second.
#[derive(Debug, Clone)]
pub struct Config {
    pub address: Vec<u8>,
    pub connections: u32,
    pub rate: Option<u64>,
    pub duration_nanos: Option<u64>,
    pub max_connections: Option<u64>,
    pub connect_timeout_nanos: Option<u64>,
    pub read_timeout_nanos: Option<u64>,
}

/// Records options for a `Config`; `build` validates them all at once.
#[derive(Debug, Clone)]
pub struct ConfigBuilder {
    pub address: Vec<u8>,
    pub connections: u32,
    pub rate: Option<u64>,
    pub duration_nanos: Option<u64>,
    pub max_connections: Option<u64>,
    pub connect_timeout_nanos: Option<u64>,
    pub read_timeout_nanos: Option<u64>,
}

impl ConfigBuilder {
    /// Defaults: one connection, no rate limit, no termination bound, no
    /// timeouts.
    pub fn new(address: Vec<u8>) -> (b: ConfigBuilder)
        ensures
            b.address@ == address@,
            b.connections == 1,
            b.rate is None,
            b.duration_nanos is None,
            b.max_connections is None,
            b.connect_timeout_nanos is None,
            b.read_timeout_nanos is None,
    {
        ConfigBuilder {
            address,
            connections: 1,
            rate: None,
            duration_nanos: None,
            max_connections: None,
            connect_timeout_nanos: None,
            read_timeout_nanos: None,
        }
    }

    /// Sets the concurrency budget: how many workers run at once.
    pub fn connections(self, n: u32) -> (b: ConfigBuilder)
        ensures
            b == (ConfigBuilder { connections: n, ..self }),
    {
        ConfigBuilder { connections: n, ..self }
    }

    /// Sets the bound on new connection attempts per second.
    pub fn rate(self, limit: u64) -> (b: ConfigBuilder)
        ensures
            b == (ConfigBuilder { rate: Some(limit), ..self }),
    {
        ConfigBuilder { rate: Some(limit), ..self }
    }

    /// Sets the run duration, in nanoseconds.
    pub fn duration(self, nanos: u64) -> (b: ConfigBuilder)
        ensures
            b == (ConfigBuilder { duration_nanos: Some(nanos), ..self }),
    {
        ConfigBuilder { duration_nanos: Some(nanos), ..self }
    }

    /// Sets the total connection-attempt budget for the whole run.
    pub fn max_connections(self, n: u64) -> (b: ConfigBuilder)
        ensures
            b == (ConfigBuilder { max_connections: Some(n), ..self }),
    {
        ConfigBuilder { max_connections: Some(n), ..self }
    }

    /// Sets the per-attempt connect timeout, in nanoseconds.
    pub fn connect_timeout(self, nanos: u64) -> (b: ConfigBuilder)
        ensures
            b == (ConfigBuilder { connect_timeout_nanos: Some(nanos), ..self }),
    {
        ConfigBuilder { connect_timeout_nanos: Some(nanos), ..self }
    }

    /// Sets the per-attempt read timeout, in nanoseconds.
    pub fn read_timeout(self, nanos: u64) -> (b: ConfigBuilder)
        ensures
            b == (ConfigBuilder { read_timeout_nanos: Some(nanos), ..self }),
    {
        ConfigBuilder { read_timeout_nanos: Some(nanos), ..self }
    }

    /// Validates the recorded options and produces the configuration.
    ///
    /// The address must be a well-formed IPv4 socket address (IPv6 targets
    /// are not supported), the concurrency at least one, and a rate limit,
    /// if set, positive; the checks apply in that order, and each violation
    /// is rejected here, never at run time.
    pub fn build(self) -> (r: Result<Config, ConfigError>)
        ensures
            !valid_addr(self.address@) ==> r == Err::<Config, ConfigError>(
                ConfigError::InvalidAddress,
            ),
            valid_addr(self.address@) && self.connections == 0 ==> r == Err::<Config, ConfigError>(
                ConfigError::InvalidConcurrency,
            ),
            valid_addr(self.address@) && self.connections >= 1 && self.rate == Some(0u64) ==> r
                == Err::<Config, ConfigError>(ConfigError::InvalidRate),
            valid_addr(self.address@) && self.connections >= 1 && self.rate != Some(0u64) ==> (
            r matches Ok(c) && c.address@ == self.address@ && c.connections == self.connections
                && c.rate == self.rate && c.duration_nanos == self.duration_nanos
                && c.max_connections == self.max_connections && c.connect_timeout_nanos
                == self.connect_timeout_nanos && c.read_timeout_nanos == self.read_timeout_nanos),
    {
        if !check_addr(&self.address) {
            return Err(ConfigError::InvalidAddress);
        }
        if self.connections == 0 {
            return Err(ConfigError::InvalidConcurrency);
        }
        if let Some(limit) = self.rate {
            if limit == 0 {
                return Err(ConfigError::InvalidRate);
            }
        }
        Ok(
            Config {
                address: self.address,
                connections: self.connections,
                rate: self.rate,
                duration_nanos: self.duration_nanos,
                max_connections: self.max_connections,
                connect_timeout_nanos: self.connect_timeout_nanos,
                read_timeout_nanos: self.read_timeout_nanos,
            },
        )
    }
}

} // verus!
