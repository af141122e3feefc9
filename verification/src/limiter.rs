//! Per-key token-bucket admission control.
//!
//! Each key owns a bucket with a sustained refill rate (tokens per minute)
//! and a burst capacity, both fixed at construction. A check consumes one
//! token when one is available and never blocks or queues. A bucket is
//! kept as a theoretical arrival time on a scaled clock: milliseconds
//! multiplied by the rate, so that one token always costs exactly
//! [`TOKEN_COST`] scaled units, whatever the rate.

use std::collections::HashMap;
use vstd::prelude::*;

verus! {

/// Scaled cost of one token: one minute of milliseconds. At `rate` tokens
/// per minute a token is earned every `60000 / rate` milliseconds, which
/// is `60000` units on the clock scaled by `rate`.
pub const TOKEN_COST: u64 = 60000;

/// Largest accepted refill rate, tokens per minute.
pub const MAX_RATE: u64 = 1000000;

/// Largest accepted burst capacity.
pub const MAX_BURST: u64 = 1000000;

/// Largest accepted timestamp, in milliseconds (far beyond any realistic
/// clock). Keeps all scaled-clock arithmetic comfortably inside `u128`.
pub const MAX_NOW_MS: u64 = 0x4000000000000;

/// The millisecond clock scaled by the refill rate.
pub open spec fn scaled(now_ms: u64, rate: u64) -> int {
    now_ms * rate
}

/// A request at scaled instant `t` conforms when the bucket's theoretical
/// arrival time has not run more than a full burst ahead of it.
pub open spec fn conforming(tat: int, t: int, burst: u64) -> bool {
    tat <= t + (burst - 1) * TOKEN_COST
}

/// The theoretical arrival time after an admitted request: one token cost
/// past the later of the old arrival time and the present instant.
pub open spec fn bumped(tat: int, t: int) -> int {
    (if tat >= t {
        tat
    } else {
        t
    }) + TOKEN_COST
}

/// Upper bound on every stored arrival time.
pub open spec fn tat_bound() -> int {
    MAX_NOW_MS * MAX_RATE + TOKEN_COST * MAX_BURST
}

/// Token-bucket rate limiter, keyed by a numeric conversation identity.
/// Buckets are created lazily on first use and never evicted.
#[derive(Debug)]
pub struct Limiter {
    pub rate: u64,
    pub burst: u64,
    pub buckets: HashMap<i64, u128>,
}

impl Limiter {
    /// Rate and burst are in range and every stored arrival time is
    /// within the scaled-clock bound.
    pub open spec fn wf(self) -> bool {
        &&& 1 <= self.rate <= MAX_RATE
        &&& 1 <= self.burst <= MAX_BURST
        &&& forall|k: i64|
            self.buckets@.contains_key(k) ==> #[trigger] self.buckets@[k] <= tat_bound()
    }

    /// The arrival time `key`'s bucket is judged by at scaled instant
    /// `t`: a key never seen before behaves as an idle bucket born now.
    pub open spec fn effective_tat(self, key: i64, t: int) -> int {
        if self.buckets@.contains_key(key) {
            self.buckets@[key] as int
        } else {
            t
        }
    }

    /// A limiter refilling `rate` tokens per minute per key, each key's
    /// bucket holding at most `burst` tokens.
    pub fn new(rate: u64, burst: u64) -> (limiter: Limiter)
        requires
            1 <= rate <= MAX_RATE,
            1 <= burst <= MAX_BURST,
        ensures
            limiter.wf(),
            limiter.rate == rate,
            limiter.burst == burst,
            forall|key: i64| !limiter.buckets@.contains_key(key),
    {
        let limiter = Limiter { rate, burst, buckets: HashMap::new() };
        proof {
            assert(limiter.buckets@ =~= Map::<i64, u128>::empty());
        }
        limiter
    }

    /// Admit or deny one request for `key` at `now_ms`. Admission consumes
    /// one token; denial mutates nothing and never blocks or queues. The
    /// decision is exactly the conformance test of the scaled-clock
    /// bucket, so a fresh key is always admitted.
    pub fn check(&mut self, key: i64, now_ms: u64) -> (admitted: bool)
        requires
            old(self).wf(),
            now_ms <= MAX_NOW_MS,
        ensures
            final(self).wf(),
            final(self).rate == old(self).rate,
            final(self).burst == old(self).burst,
            admitted == conforming(
                old(self).effective_tat(key, scaled(now_ms, old(self).rate)),
                scaled(now_ms, old(self).rate),
                old(self).burst,
            ),
            !admitted ==> *final(self) == *old(self),
            admitted ==> final(self).buckets@ == old(self).buckets@.insert(
                key,
                bumped(
                    old(self).effective_tat(key, scaled(now_ms, old(self).rate)),
                    scaled(now_ms, old(self).rate),
                ) as u128,
            ),
    {
        proof {
            assert(now_ms * self.rate <= MAX_NOW_MS * MAX_RATE) by (nonlinear_arith)
                requires
                    now_ms <= MAX_NOW_MS,
                    self.rate <= MAX_RATE,
            ;
            assert((self.burst - 1) * TOKEN_COST < TOKEN_COST * MAX_BURST) by (nonlinear_arith)
                requires
                    1 <= self.burst <= MAX_BURST,
            ;
        }
        let t: u128 = (now_ms as u128) * (self.rate as u128);
        let tat: u128 = match self.buckets.get(&key) {
            Some(v) => *v,
            None => t,
        };
        let limit: u128 = t + (self.burst as u128 - 1) * (TOKEN_COST as u128);
        if tat <= limit {
            let base: u128 = if tat >= t {
                tat
            } else {
                t
            };
            let new_tat: u128 = base + TOKEN_COST as u128;
            self.buckets.insert(key, new_tat);
            true
        } else {
            false
        }
    }
}

/// The arrival time after `k` back-to-back admissions at one scaled
/// instant `t`, starting from arrival time `tat0`.
pub open spec fn tat_after(tat0: int, t: int, k: nat) -> int
    decreases k,
{
    if k == 0 {
        tat0
    } else {
        bumped(tat_after(tat0, t, (k - 1) as nat), t)
    }
}

/// From an idle bucket, `k` admissions at one instant leave the arrival
/// time exactly `k` token costs past that instant.
proof fn lemma_tat_after(tat0: int, t: int, k: nat)
    requires
        tat0 <= t,
    ensures
        k == 0 ==> tat_after(tat0, t, k) == tat0,
        k >= 1 ==> tat_after(tat0, t, k) == t + k * TOKEN_COST,
    decreases k,
{
    if k >= 1 {
        lemma_tat_after(tat0, t, (k - 1) as nat);
    }
}

/// Burst law: starting from an idle bucket (arrival time not in the
/// future), a run of requests at one instant is admitted exactly up to
/// the burst capacity: the request after `k` admissions conforms if and
/// only if `k < burst`. So at most `burst` admissions succeed
/// instantaneously.
pub proof fn lemma_burst_bound(tat0: int, t: int, burst: u64, k: nat)
    requires
        tat0 <= t,
        1 <= burst,
    ensures
        conforming(tat_after(tat0, t, k), t, burst) <==> k < burst,
{
    lemma_tat_after(tat0, t, k);
    if k >= 1 {
        assert(k * TOKEN_COST <= (burst - 1) * TOKEN_COST <==> k <= burst - 1) by (nonlinear_arith);
    }
}

/// Refill law: a saturated bucket (arrival time a full burst ahead, as
/// right after the admission that exhausted the burst at instant `t0`)
/// admits its next request at instant `t` if and only if at least one
/// token cost has passed: 60000 scaled units, that is `60000 / rate`
/// milliseconds, one per `60 / rate` seconds.
pub proof fn lemma_refill_spacing(t0: int, t: int, burst: u64)
    requires
        1 <= burst,
    ensures
        conforming(t0 + burst * TOKEN_COST, t, burst) <==> t - t0 >= TOKEN_COST,
{
    assert(burst * TOKEN_COST == (burst - 1) * TOKEN_COST + TOKEN_COST) by (nonlinear_arith);
}

/// A saturated bucket is what the burst law's last admission leaves
/// behind: after `burst` admissions at `t` from an idle bucket, the
/// arrival time is exactly a full burst ahead of `t`.
pub proof fn lemma_burst_exhausts(tat0: int, t: int, burst: u64)
    requires
        tat0 <= t,
        1 <= burst,
    ensures
        tat_after(tat0, t, burst as nat) == t + burst * TOKEN_COST,
{
    lemma_tat_after(tat0, t, burst as nat);
}

} // verus!
