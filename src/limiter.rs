use vstd::prelude::*;

verus! {

/// Whether an attempt recorded at `t` still counts at instant `now`: it is at
/// most `within` milliseconds old. An attempt stamped after `now` counts too.
pub open spec fn is_recent(t: u64, now: u64, within: u64) -> bool {
    now as int - t as int <= within as int
}

/// The attempts of `s` that still count at `now`, in their order.
pub open spec fn recent(s: Seq<u64>, now: u64, within: u64) -> Seq<u64>
    decreases s.len(),
{
    if s.len() == 0 {
        Seq::<u64>::empty()
    } else {
        let r = recent(s.drop_last(), now, within);
        if is_recent(s.last(), now, within) {
            r.push(s.last())
        } else {
            r
        }
    }
}

/// The record after one attempt at `now`: stale attempts dropped, `now` added.
pub open spec fn after_attempt(s: Seq<u64>, now: u64, within: u64) -> Seq<u64> {
    recent(s, now, within).push(now)
}

/// The record after attempts at each instant of `times`, in order, from none.
pub open spec fn history(times: Seq<u64>, within: u64) -> Seq<u64>
    decreases times.len(),
{
    if times.len() == 0 {
        Seq::<u64>::empty()
    } else {
        after_attempt(history(times.drop_last(), within), times.last(), within)
    }
}

/// Instants in nondecreasing order.
pub open spec fn nondecreasing(times: Seq<u64>) -> bool {
    forall|i: int, j: int| 0 <= i <= j < times.len() ==> times[i] <= times[j]
}

proof fn lemma_recent_all(s: Seq<u64>, now: u64, within: u64)
    requires
        forall|i: int| 0 <= i < s.len() ==> is_recent(#[trigger] s[i], now, within),
    ensures
        recent(s, now, within) == s,
    decreases s.len(),
{
    if s.len() > 0 {
        lemma_recent_all(s.drop_last(), now, within);
        assert(s.drop_last().push(s.last()) == s);
    }
}

proof fn lemma_recent_none(s: Seq<u64>, now: u64, within: u64)
    requires
        forall|i: int| 0 <= i < s.len() ==> !is_recent(#[trigger] s[i], now, within),
    ensures
        recent(s, now, within).len() == 0,
    decreases s.len(),
{
    if s.len() > 0 {
        lemma_recent_none(s.drop_last(), now, within);
    }
}

proof fn lemma_history_in_window(times: Seq<u64>, within: u64)
    requires
        times.len() > 0,
        nondecreasing(times),
        times.last() - times[0] <= within,
    ensures
        history(times, within) == times,
    decreases times.len(),
{
    let p = times.drop_last();
    if p.len() > 0 {
        assert(p[p.len() - 1] <= times.last());
        lemma_history_in_window(p, within);
    } else {
        assert(p == Seq::<u64>::empty());
    }
    assert(history(p, within) == p);
    assert forall|i: int| 0 <= i < p.len() implies is_recent(#[trigger] p[i], times.last(), within) by {
        assert(times[0] <= times[i]);
    }
    lemma_recent_all(p, times.last(), within);
    assert(p.push(times.last()) == times);
    assert(history(times, within) == after_attempt(p, times.last(), within));
}

/// Attempts that all fall within one window, starting from an empty record,
/// are all kept: the first `limit` of them are within the limit and the next
/// one is not.
pub proof fn lemma_window_fills(times: Seq<u64>, within: u64, limit: usize)
    requires
        times.len() > 0,
        nondecreasing(times),
        times.last() - times[0] <= within,
    ensures
        forall|k: int|
            1 <= k <= times.len() ==> #[trigger] history(times.take(k), within).len() == k,
        forall|k: int|
            1 <= k <= times.len() ==> ((#[trigger] history(times.take(k), within).len() <= limit)
                <==> k <= limit),
{
    assert forall|k: int| 1 <= k <= times.len() implies #[trigger] history(
        times.take(k),
        within,
    ).len() == k by {
        let t = times.take(k);
        assert(t.last() == times[k - 1]);
        assert(times[k - 1] <= times.last());
        lemma_history_in_window(t, within);
    }
}

/// Once every recorded attempt is older than the window, the next attempt is
/// the only one on record, so it is within any limit of at least one.
pub proof fn lemma_window_clears(attempts: Seq<u64>, now: u64, within: u64, limit: usize)
    requires
        limit >= 1,
        forall|i: int| 0 <= i < attempts.len() ==> now - #[trigger] attempts[i] > within,
    ensures
        after_attempt(attempts, now, within).len() == 1,
        after_attempt(attempts, now, within).len() <= limit,
{
    lemma_recent_none(attempts, now, within);
}

/// A sliding-window restart budget: at most `limit` attempts in any trailing
/// window of `within` milliseconds.
pub struct RestartLimiter {
    limit: usize,
    within: u64,
    attempts: Vec<u64>,
}

impl RestartLimiter {
    pub closed spec fn spec_limit(&self) -> usize {
        self.limit
    }

    pub closed spec fn spec_within(&self) -> u64 {
        self.within
    }

    /// The instants of the attempts that are still on record, oldest first.
    pub closed spec fn spec_attempts(&self) -> Seq<u64> {
        self.attempts@
    }

    /// A limiter with no attempts on record.
    pub fn new(limit: usize, within: u64) -> (r: Self)
        ensures
            r.spec_limit() == limit,
            r.spec_within() == within,
            r.spec_attempts() == Seq::<u64>::empty(),
    {
        RestartLimiter { limit, within, attempts: Vec::new() }
    }

    pub fn limit(&self) -> (r: usize)
        ensures
            r == self.spec_limit(),
    {
        self.limit
    }

    pub fn within(&self) -> (r: u64)
        ensures
            r == self.spec_within(),
    {
        self.within
    }

    /// Records an attempt at `now`, forgets the attempts older than the
    /// window, and reports whether the attempts on record are still within
    /// the limit.
    pub fn within_limit(&mut self, now: u64) -> (r: bool)
        ensures
            final(self).spec_limit() == old(self).spec_limit(),
            final(self).spec_within() == old(self).spec_within(),
            final(self).spec_attempts() == after_attempt(
                old(self).spec_attempts(),
                now,
                old(self).spec_within(),
            ),
            r == (final(self).spec_attempts().len() <= old(self).spec_limit()),
    {
        let ghost s = self.attempts@;
        let mut kept: Vec<u64> = Vec::new();
        let mut i: usize = 0;
        while i < self.attempts.len()
            invariant
                i <= self.attempts@.len(),
                self.attempts@ == s,
                kept@ == recent(s.subrange(0, i as int), now, self.within),
            decreases self.attempts@.len() - i,
        {
            let t = self.attempts[i];
            assert(s.subrange(0, i + 1).drop_last() == s.subrange(0, i as int));
            if now <= t || now - t <= self.within {
                kept.push(t);
            }
            i = i + 1;
        }
        assert(s.subrange(0, s.len() as int) == s);
        kept.push(now);
        self.attempts = kept;
        self.attempts.len() <= self.limit
    }
}

} // verus!
