//! How long to wait before the stream of messages is opened again.

use vstd::prelude::*;

verus! {

/// The wait after the first failure, in seconds.
pub const MIN_RECONNECT_DELAY: u64 = 1;

/// The longest wait, in seconds.
pub const MAX_RECONNECT_DELAY: u64 = 60;

/// What to do when a connection has ended.
#[derive(Debug, Clone, Copy, PartialEq, Eq, Structural)]
pub enum Reconnect {
    /// Connect again at once.
    Now,
    /// Connect again after a wait.
    After { secs: u64 },
}

/// The wait that follows a wait of `delay` seconds: twice as long, up to the longest wait.
pub open spec fn next_delay(delay: u64) -> u64 {
    if 2 * delay <= MAX_RECONNECT_DELAY {
        (2 * delay) as u64
    } else {
        MAX_RECONNECT_DELAY
    }
}

/// The wait after `n` failures in a row, where the wait was `delay` seconds before them.
pub open spec fn delay_after(delay: u64, n: nat) -> u64
    decreases n,
{
    if n == 0 {
        delay
    } else {
        next_delay(delay_after(delay, (n - 1) as nat))
    }
}

/// What to do when a connection has ended at a time when the wait was `delay` seconds, and the
/// wait from then on.
pub open spec fn ended(delay: u64, failed: bool) -> (Reconnect, u64) {
    if failed {
        (Reconnect::After { secs: delay }, next_delay(delay))
    } else {
        (Reconnect::Now, MIN_RECONNECT_DELAY)
    }
}

/// The wait after a run of connections, for each of which it is known whether it failed.
pub open spec fn wait_after(outcomes: Seq<bool>) -> u64
    decreases outcomes.len(),
{
    if outcomes.len() == 0 {
        MIN_RECONNECT_DELAY
    } else {
        ended(wait_after(outcomes.drop_last()), outcomes.last()).1
    }
}

/// The wait before the next attempt, which grows from failure to failure.
pub struct Backoff {
    delay: u64,
}

impl Backoff {
    #[verifier::type_invariant]
    spec fn in_bounds(self) -> bool {
        MIN_RECONNECT_DELAY <= self.delay <= MAX_RECONNECT_DELAY
    }

    /// The next wait, in seconds.
    pub closed spec fn delay(self) -> u64 {
        self.delay
    }

    /// A wait that has not grown.
    pub fn new() -> (r: Backoff)
        ensures
            r.delay() == MIN_RECONNECT_DELAY,
    {
        Backoff { delay: MIN_RECONNECT_DELAY }
    }

    /// Takes note of how a connection ended: a failure is followed by the wait, and the wait
    /// doubles; after a connection that closed by itself the wait begins anew.
    pub fn connection_ended(&mut self, failed: bool) -> (r: Reconnect)
        ensures
            MIN_RECONNECT_DELAY <= old(self).delay() <= MAX_RECONNECT_DELAY,
            failed ==> r == (Reconnect::After { secs: old(self).delay() }) && final(self).delay()
                == next_delay(old(self).delay()),
            !failed ==> r == Reconnect::Now && final(self).delay() == MIN_RECONNECT_DELAY,
            (r, final(self).delay()) == ended(old(self).delay(), failed),
    {
        proof {
            use_type_invariant(&*self);
        }
        if failed {
            let secs = self.delay;
            self.delay =
            if secs <= MAX_RECONNECT_DELAY / 2 {
                2 * secs
            } else {
                MAX_RECONNECT_DELAY
            };
            Reconnect::After { secs }
        } else {
            self.delay = MIN_RECONNECT_DELAY;
            Reconnect::Now
        }
    }
}

proof fn lemma_delay_after(n: nat)
    ensures
        n < 6 ==> delay_after(MIN_RECONNECT_DELAY, n) == vstd::arithmetic::power2::pow2(n),
        n >= 6 ==> delay_after(MIN_RECONNECT_DELAY, n) == MAX_RECONNECT_DELAY,
        n < 6 <==> vstd::arithmetic::power2::pow2(n) <= MAX_RECONNECT_DELAY,
    decreases n,
{
    vstd::arithmetic::power2::lemma2_to64();
    if n > 0 {
        lemma_delay_after((n - 1) as nat);
        if n >= 6 {
            if n > 6 {
                vstd::arithmetic::power2::lemma_pow2_strictly_increases(6, n);
            }
        } else {
            vstd::arithmetic::power2::lemma_pow2_unfold(n);
        }
    }
}

/// After `n` failures in a row the wait is two to the power of `n` seconds, or the longest wait
/// where that is less.
pub proof fn backoff_is_exponential(n: nat)
    ensures
        delay_after(MIN_RECONNECT_DELAY, n) == (if vstd::arithmetic::power2::pow2(n)
            <= MAX_RECONNECT_DELAY {
            vstd::arithmetic::power2::pow2(n) as u64
        } else {
            MAX_RECONNECT_DELAY
        }),
{
    lemma_delay_after(n);
}

/// A failure is followed by the wait and doubles it, up to a minute; a connection that closed by
/// itself is followed by no wait, and the next wait is a second.
pub proof fn failures_double_the_wait(delay: u64)
    requires
        1 <= delay <= 60,
    ensures
        ended(delay, true).0 == (Reconnect::After { secs: delay }),
        delay <= 30 ==> ended(delay, true).1 == 2 * delay,
        delay > 30 ==> ended(delay, true).1 == 60,
        ended(delay, false) == (Reconnect::Now, 1u64),
{
}

/// The wait depends only on the failures since the last connection that closed by itself, or
/// since the beginning: after `n` of them it is two to the power of `n` seconds, at most 60.
pub proof fn wait_counts_failures_in_a_row(before: Seq<bool>, n: nat)
    requires
        before.len() > 0 ==> !before.last(),
    ensures
        wait_after(before + Seq::new(n, |i: int| true)) == (if n < 6 {
            vstd::arithmetic::power2::pow2(n) as int
        } else {
            60
        }),
    decreases n,
{
    let run = before + Seq::new(n, |i: int| true);
    vstd::arithmetic::power2::lemma2_to64();
    if n == 0 {
        assert(run =~= before);
    } else {
        let m = (n - 1) as nat;
        wait_counts_failures_in_a_row(before, m);
        assert(run.drop_last() =~= before + Seq::new(m, |i: int| true));
        assert(run.last());
        if n < 6 {
            vstd::arithmetic::power2::lemma_pow2_unfold(n);
        }
    }
}

} // verus!
