use std::collections::HashMap;
use vstd::prelude::*;

verus! {

broadcast use vstd::std_specs::hash::group_hash_axioms;

/// Admission control by origin address. Each origin's attempt counter only
/// ever grows, so an origin refused once stays refused.
///
/// Origins are IP addresses as 128-bit integers (IPv4 addresses in their
/// IPv6-mapped form).
pub struct RateLimiter {
    inner: HashMap<u128, u64>,
    limit: u8,
}

/// The attempts recorded for `origin` in `m`; none when it is absent.
pub open spec fn count_of(m: Map<u128, u64>, origin: u128) -> u64 {
    if m.contains_key(origin) {
        m[origin]
    } else {
        0
    }
}

/// A counter after one more attempt; it stays put at its largest value.
pub open spec fn bumped(c: u64) -> u64 {
    if c == u64::MAX {
        c
    } else {
        (c + 1) as u64
    }
}

/// The counter of an origin after `k` further attempts from `start`.
pub open spec fn count_after(start: u64, k: nat) -> u64
    decreases k,
{
    if k == 0 {
        start
    } else {
        bumped(count_after(start, (k - 1) as nat))
    }
}

/// Whether an attempt that brings a counter to `c` is admitted under `limit`.
pub open spec fn admits(c: u64, limit: u8) -> bool {
    c <= limit
}

impl RateLimiter {
    /// Attempts recorded so far, by origin.
    pub closed spec fn attempts(&self) -> Map<u128, u64> {
        self.inner@
    }

    /// The number of attempts an origin may make.
    pub closed spec fn limit(&self) -> u8 {
        self.limit
    }

    /// A limiter that has seen no attempt yet.
    pub fn new(limit: u8) -> (r: RateLimiter)
        ensures
            r.attempts() == Map::<u128, u64>::empty(),
            r.limit() == limit,
    {
        RateLimiter { inner: HashMap::new(), limit }
    }

    /// Records one attempt of `origin` and says whether it is admitted: the
    /// counter is raised whether or not it is.
    pub fn check(&mut self, origin: u128) -> (r: bool)
        ensures
            final(self).limit() == old(self).limit(),
            final(self).attempts() == old(self).attempts().insert(
                origin,
                bumped(count_of(old(self).attempts(), origin)),
            ),
            r == admits(bumped(count_of(old(self).attempts(), origin)), old(self).limit()),
    {
        let c: u64 = match self.inner.get(&origin) {
            Some(c) => *c,
            None => 0,
        };
        let n: u64 = c.saturating_add(1);
        self.inner.insert(origin, n);
        n <= self.limit as u64
    }
}

/// A check never lowers any origin's counter.
pub proof fn lemma_counts_never_decrease(pre: Map<u128, u64>, origin: u128, other: u128)
    ensures
        count_of(pre.insert(origin, bumped(count_of(pre, origin))), other) >= count_of(pre, other),
{
}

/// From a fresh start, `k` attempts leave the counter at `k` (or at its
/// largest value).
pub proof fn lemma_count_from_zero(k: nat)
    ensures
        count_after(0, k) == if k < u64::MAX {
            k
        } else {
            u64::MAX as nat
        },
    decreases k,
{
    if k > 0 {
        lemma_count_from_zero((k - 1) as nat);
    }
}

/// Given limit `limit`, of the attempts of an origin that was never seen
/// before, the first `limit` are admitted and every later one is refused:
/// the attempt that follows `k` earlier ones is admitted exactly when
/// `k < limit`.
pub proof fn lemma_first_attempts_admitted(limit: u8, k: nat)
    ensures
        admits(bumped(count_after(0, k)), limit) <==> k < limit,
{
    lemma_count_from_zero(k);
    lemma_count_from_zero(k + 1);
    assert(bumped(count_after(0, k)) == count_after(0, k + 1));
}

/// Once an attempt of an origin has been refused, each further attempt of
/// it is refused too, however many follow.
pub proof fn lemma_refusal_is_permanent(refused_at: u64, limit: u8, k: nat)
    requires
        !admits(refused_at, limit),
    ensures
        !admits(bumped(count_after(refused_at, k)), limit),
    decreases k,
{
    if k > 0 {
        lemma_refusal_is_permanent(refused_at, limit, (k - 1) as nat);
    }
}

} // verus!
