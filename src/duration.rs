use vstd::prelude::*;
use vstd::arithmetic::div_mod::{
    lemma_fundamental_div_mod, lemma_fundamental_div_mod_converse, lemma_mod_bound,
};

use crate::NANOS_PER_SEC;

verus! {

/// Largest magnitude of a signed duration, in nanoseconds: `i64::MAX` milliseconds.
pub open spec fn signed_limit() -> int {
    i64::MAX as int * 1_000_000
}

/// A non-negative span of time: whole seconds and a sub-second part in nanoseconds.
#[derive(Debug, Clone, Copy, PartialEq, Eq, Structural)]
pub struct Duration {
    secs: u64,
    nanos: u32,
}

impl View for Duration {
    type V = int;

    /// The span as a count of nanoseconds.
    closed spec fn view(&self) -> int {
        self.secs * NANOS_PER_SEC + self.nanos
    }
}

impl Duration {
    /// The sub-second part is below one second.
    pub closed spec fn wf(self) -> bool {
        self.nanos < NANOS_PER_SEC
    }

    /// The duration of `n` nanoseconds.
    pub closed spec fn of_nanos(n: nat) -> Duration
        recommends
            n <= u64::MAX,
    {
        Duration { secs: (n / NANOS_PER_SEC as nat) as u64, nanos: (n % NANOS_PER_SEC as nat) as u32 }
    }

    /// Well-formed durations are equal exactly when they span the same time.
    pub proof fn lemma_view_injective(a: Duration, b: Duration)
        requires
            a.wf(),
            b.wf(),
            a@ == b@,
        ensures
            a == b,
    {
        lemma_fundamental_div_mod_converse(a@, NANOS_PER_SEC as int, a.secs as int, a.nanos as int);
        lemma_fundamental_div_mod_converse(b@, NANOS_PER_SEC as int, b.secs as int, b.nanos as int);
    }

    /// A duration is never negative.
    pub proof fn lemma_view_nonneg(d: Duration)
        ensures
            0 <= d@,
    {
    }

    /// Every count of nanoseconds that fits in 64 bits names a well-formed duration of that length.
    pub proof fn lemma_of_nanos(n: nat)
        requires
            n <= u64::MAX,
        ensures
            Duration::of_nanos(n).wf(),
            Duration::of_nanos(n)@ == n,
    {
        let d = Duration::of_nanos(n);
        assert(n == (n / 1_000_000_000nat) * 1_000_000_000nat + n % 1_000_000_000nat) by (nonlinear_arith);
        assert(n / 1_000_000_000nat <= n) by (nonlinear_arith);
    }

    /// Makes a duration of `secs` seconds and `nanos` nanoseconds.
    pub fn new(secs: u64, nanos: u32) -> (r: Duration)
        requires
            nanos < NANOS_PER_SEC,
        ensures
            r.wf(),
            r@ == secs * NANOS_PER_SEC + nanos,
    {
        Duration { secs, nanos }
    }

    /// Makes a duration of `n` nanoseconds.
    pub fn from_nanos(n: u64) -> (r: Duration)
        ensures
            r == Duration::of_nanos(n as nat),
            r.wf(),
            r@ == n,
    {
        proof {
            Duration::lemma_of_nanos(n as nat);
        }
        Duration { secs: n / NANOS_PER_SEC, nanos: (n % NANOS_PER_SEC) as u32 }
    }

    /// Makes a duration of `secs` whole seconds.
    pub fn from_secs(secs: u64) -> (r: Duration)
        ensures
            r.wf(),
            r@ == secs * NANOS_PER_SEC,
    {
        Duration { secs, nanos: 0 }
    }

    /// Makes a duration of `millis` milliseconds.
    pub fn from_millis(millis: u64) -> (r: Duration)
        ensures
            r.wf(),
            r@ == millis * 1_000_000,
    {
        let nanos = ((millis % 1000) as u32) * 1_000_000;
        let r = Duration { secs: millis / 1000, nanos };
        assert(r@ == millis * 1_000_000) by (nonlinear_arith)
            requires
                r.secs == millis / 1000,
                r.nanos == (millis % 1000) * 1_000_000,
                millis == (millis / 1000) * 1000 + millis % 1000,
        ;
        r
    }

    /// The number of whole seconds.
    pub fn as_secs(&self) -> (r: u64)
        requires
            self.wf(),
        ensures
            r == self@ / NANOS_PER_SEC as int,
    {
        proof {
            lemma_fundamental_div_mod_converse(self@, NANOS_PER_SEC as int, self.secs as int, self.nanos as int);
        }
        self.secs
    }

    /// The nanoseconds past the last whole second.
    pub fn subsec_nanos(&self) -> (r: u32)
        requires
            self.wf(),
        ensures
            r == self@ % NANOS_PER_SEC as int,
            r < NANOS_PER_SEC,
    {
        proof {
            lemma_fundamental_div_mod_converse(self@, NANOS_PER_SEC as int, self.secs as int, self.nanos as int);
        }
        self.nanos
    }

    /// The whole span in nanoseconds.
    pub fn as_nanos(&self) -> (r: u128)
        ensures
            r == self@,
    {
        proof {
            assert(self.secs * NANOS_PER_SEC <= u64::MAX * NANOS_PER_SEC) by (nonlinear_arith);
        }
        self.secs as u128 * NANOS_PER_SEC as u128 + self.nanos as u128
    }
}

/// A span of time that may be negative: whole seconds rounded toward negative
/// infinity, and a non-negative sub-second part in nanoseconds. Its magnitude is
/// at most `i64::MAX` milliseconds.
#[derive(Debug, Clone, Copy, PartialEq, Eq, Structural)]
pub struct SignedDuration {
    secs: i64,
    nanos: u32,
}

impl View for SignedDuration {
    type V = int;

    /// The span as a signed count of nanoseconds.
    closed spec fn view(&self) -> int {
        self.secs * NANOS_PER_SEC + self.nanos
    }
}

impl SignedDuration {
    /// The sub-second part is below one second and the span is within range.
    pub closed spec fn wf(self) -> bool {
        &&& self.nanos < NANOS_PER_SEC
        &&& -signed_limit() <= self@ <= signed_limit()
    }

    /// The duration of `n` nanoseconds.
    pub closed spec fn of_nanos(n: int) -> SignedDuration {
        SignedDuration { secs: (n / NANOS_PER_SEC as int) as i64, nanos: (n % NANOS_PER_SEC as int) as u32 }
    }

    /// Well-formed durations are equal exactly when they span the same time.
    pub proof fn lemma_view_injective(a: SignedDuration, b: SignedDuration)
        requires
            a.wf(),
            b.wf(),
            a@ == b@,
        ensures
            a == b,
    {
        lemma_fundamental_div_mod_converse(a@, NANOS_PER_SEC as int, a.secs as int, a.nanos as int);
        lemma_fundamental_div_mod_converse(b@, NANOS_PER_SEC as int, b.secs as int, b.nanos as int);
    }

    /// Every signed 64-bit count of nanoseconds names a well-formed duration of that length.
    pub proof fn lemma_of_nanos(n: int)
        requires
            i64::MIN <= n <= i64::MAX,
        ensures
            SignedDuration::of_nanos(n).wf(),
            SignedDuration::of_nanos(n)@ == n,
    {
        let q = n / 1_000_000_000int;
        let r = n % 1_000_000_000int;
        lemma_fundamental_div_mod(n, 1_000_000_000int);
        lemma_mod_bound(n, 1_000_000_000int);
        assert(i64::MIN <= q <= i64::MAX) by (nonlinear_arith)
            requires
                n == q * 1_000_000_000int + r,
                0 <= r < 1_000_000_000int,
                i64::MIN <= n <= i64::MAX,
        ;
    }

    /// Makes a duration of `n` nanoseconds.
    pub fn nanoseconds(n: i64) -> (r: SignedDuration)
        ensures
            r == SignedDuration::of_nanos(n as int),
            r.wf(),
            r@ == n,
    {
        proof {
            SignedDuration::lemma_of_nanos(n as int);
        }
        let (secs, nanos) = if n >= 0 {
            (n / NANOS_PER_SEC as i64, (n % NANOS_PER_SEC as i64) as u32)
        } else {
            // n == -m - 1, so floor(n / B) == -(m / B) - 1
            let m: u64 = (-(n + 1)) as u64;
            let q: u64 = m / NANOS_PER_SEC;
            let rem: u64 = m % NANOS_PER_SEC;
            proof {
                assert(m == q * NANOS_PER_SEC + rem);
                assert(q <= m) by (nonlinear_arith)
                    requires
                        m == q * 1_000_000_000 + rem,
                        0 <= rem,
                ;
            }
            (-(q as i64) - 1, (NANOS_PER_SEC - 1 - rem) as u32)
        };
        let r = SignedDuration { secs, nanos };
        proof {
            lemma_fundamental_div_mod_converse(n as int, NANOS_PER_SEC as int, secs as int, nanos as int);
            SignedDuration::lemma_view_injective(r, SignedDuration::of_nanos(n as int));
        }
        r
    }

    /// Makes a duration of `secs` seconds and `nanos` nanoseconds, where `secs`
    /// is rounded toward negative infinity; `None` unless `nanos` is below one
    /// second and the result is within range.
    pub fn new(secs: i64, nanos: u32) -> (r: Option<SignedDuration>)
        ensures
            match r {
                Some(d) => d.wf() && d@ == secs * NANOS_PER_SEC + nanos,
                None => !(nanos < NANOS_PER_SEC && -signed_limit() <= secs * NANOS_PER_SEC + nanos
                    <= signed_limit()),
            },
    {
        if nanos >= NANOS_PER_SEC as u32 {
            return None;
        }
        proof {
            assert(i64::MIN * NANOS_PER_SEC <= secs * NANOS_PER_SEC <= i64::MAX * NANOS_PER_SEC)
                by (nonlinear_arith);
        }
        let total: i128 = secs as i128 * NANOS_PER_SEC as i128 + nanos as i128;
        let limit: i128 = i64::MAX as i128 * 1_000_000;
        if total < -limit || total > limit {
            None
        } else {
            Some(SignedDuration { secs, nanos })
        }
    }

    /// The whole seconds, rounded toward negative infinity.
    pub fn secs_floor(&self) -> (r: i64)
        requires
            self.wf(),
        ensures
            r == self@ / NANOS_PER_SEC as int,
    {
        proof {
            lemma_fundamental_div_mod_converse(self@, NANOS_PER_SEC as int, self.secs as int, self.nanos as int);
        }
        self.secs
    }

    /// The nanoseconds past `secs_floor` whole seconds.
    pub fn subsec_nanos_floor(&self) -> (r: u32)
        requires
            self.wf(),
        ensures
            r == self@ % NANOS_PER_SEC as int,
            r < NANOS_PER_SEC,
    {
        proof {
            lemma_fundamental_div_mod_converse(self@, NANOS_PER_SEC as int, self.secs as int, self.nanos as int);
        }
        self.nanos
    }

    /// The whole span in nanoseconds.
    pub fn as_nanos(&self) -> (r: i128)
        ensures
            r == self@,
    {
        proof {
            assert(i64::MIN * NANOS_PER_SEC <= self.secs * NANOS_PER_SEC <= i64::MAX * NANOS_PER_SEC)
                by (nonlinear_arith);
        }
        self.secs as i128 * NANOS_PER_SEC as i128 + self.nanos as i128
    }
}

} // verus!
