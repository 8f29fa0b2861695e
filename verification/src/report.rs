//! Progress reporting of the throughput and task-limit benchmarks.
use vstd::prelude::*;

verus! {

/// Whether the task-limit benchmark logs after spawning task `n`: every
/// thousandth task (those numbered `1`, `1001`, `2001`, ...) below
/// 192 000 000, and every task from there on.
pub open spec fn spec_is_print(n: i32) -> bool {
    n >= 192000000 || (n >= 0 && n % 1000 == 1)
}

/// Whether the task-limit benchmark logs after spawning task `n`.
pub fn is_print(n: i32) -> (b: bool)
    ensures
        b == spec_is_print(n),
{
    if n < 192000000 {
        if n >= 0 && n % 1000 == 1 {
            true
        } else {
            false
        }
    } else {
        true
    }
}

/// A worker's count of finished rounds that it has not reported yet; it
/// reports in batches of `period` rounds.
pub struct RoundCounter {
    pub period: usize,
    pub pending: usize,
}

/// The pending count and the batch reported, if any, after one more round.
pub open spec fn spec_tick(period: nat, pending: nat) -> (nat, nat) {
    if pending + 1 == period {
        (0, period)
    } else {
        ((pending + 1) as nat, 0)
    }
}

/// The pending count and the total reported after `k` rounds from nothing.
pub open spec fn spec_after_rounds(period: nat, k: nat) -> (nat, nat)
    decreases k,
{
    if k == 0 {
        (0, 0)
    } else {
        let prev = spec_after_rounds(period, (k - 1) as nat);
        let step = spec_tick(period, prev.0);
        (step.0, prev.1 + step.1)
    }
}

impl RoundCounter {
    /// A counter that reports every `period` rounds.
    pub fn new(period: usize) -> (c: RoundCounter)
        requires
            period > 0,
        ensures
            c.period == period,
            c.pending == 0,
    {
        RoundCounter { period, pending: 0 }
    }

    /// Records one finished round; returns the batch to report when the
    /// pending count reaches `period`, and then starts again from zero.
    pub fn tick(&mut self) -> (report: Option<usize>)
        requires
            old(self).pending < old(self).period,
        ensures
            final(self).period == old(self).period,
            final(self).pending < final(self).period,
            final(self).pending == spec_tick(old(self).period as nat, old(self).pending as nat).0,
            (match report {
                Some(b) => b as nat,
                None => 0nat,
            }) == spec_tick(old(self).period as nat, old(self).pending as nat).1,
            report matches Some(b) ==> b == old(self).period,
    {
        self.pending = self.pending + 1;
        if self.pending == self.period {
            self.pending = 0;
            Some(self.period)
        } else {
            None
        }
    }
}

/// After `k` rounds, all but the last `k % period` have been reported, in
/// whole batches: nothing is lost and nothing is counted twice.
pub proof fn lemma_rounds_reported(period: nat, k: nat)
    requires
        period > 0,
    ensures
        spec_after_rounds(period, k).0 == k % period,
        spec_after_rounds(period, k).1 == k - k % period,
    decreases k,
{
    if k > 0 {
        lemma_rounds_reported(period, (k - 1) as nat);
        let km = (k - 1) as nat;
        assert(km == period * (km / period) + km % period) by (nonlinear_arith)
            requires
                period > 0,
        ;
        assert(k % period == (if km % period + 1 == period {
            0
        } else {
            km % period + 1
        })) by (nonlinear_arith)
            requires
                period > 0,
                km == period * (km / period) + km % period,
                k == km + 1,
                0 <= km % period < period,
        {
            if km % period + 1 == period {
                assert(k == period * (km / period + 1));
                vstd::arithmetic::div_mod::lemma_mod_multiples_basic((km / period + 1) as int, period as int);
            } else {
                assert(k == period * (km / period) + (km % period + 1));
                vstd::arithmetic::div_mod::lemma_mod_multiples_vanish((km / period) as int, (km % period + 1) as int, period as int);
                vstd::arithmetic::div_mod::lemma_small_mod((km % period + 1) as nat, period);
            }
        }
    }
}

/// The task numbers in `1 .. k` after which the task-limit benchmark logs.
pub open spec fn printed_below(k: int) -> Set<i32> {
    Set::new(|n: i32| 1 <= n < k && spec_is_print(n))
}

/// One more task adds one to the count `(k + 998) / 1000` exactly when its
/// number `k - 1` ends in `001`.
proof fn lemma_count_step(k: int)
    requires
        k >= 2,
    ensures
        (k + 998) / 1000 == (k + 997) / 1000 + (if (k - 1) % 1000 == 1 {
            1int
        } else {
            0int
        }),
{
    let q = (k + 997) / 1000;
    let r = (k + 997) % 1000;
    vstd::arithmetic::div_mod::lemma_fundamental_div_mod(k + 997, 1000);
    assert(k + 997 == q * 1000 + r && 0 <= r < 1000);
    if r >= 998 {
        vstd::arithmetic::div_mod::lemma_fundamental_div_mod_converse(k - 1, 1000, q, r - 998);
    } else {
        vstd::arithmetic::div_mod::lemma_fundamental_div_mod_converse(k - 1, 1000, q - 1, r + 2);
    }
    if r == 999 {
        vstd::arithmetic::div_mod::lemma_fundamental_div_mod_converse(k + 998, 1000, q + 1, 0);
    } else {
        vstd::arithmetic::div_mod::lemma_fundamental_div_mod_converse(k + 998, 1000, q, r + 1);
    }
}

/// Below 192 000 000 the benchmark logs once in every thousand tasks: for
/// `1 <= k <= 192 000 000` it has logged after `(k + 998) / 1000` of the tasks
/// `1 .. k`.
pub proof fn lemma_printed_below(k: int)
    requires
        1 <= k <= 192000000,
    ensures
        printed_below(k).finite(),
        printed_below(k).len() == (k + 998) / 1000,
    decreases k,
{
    if k == 1 {
        assert(printed_below(1) =~= Set::<i32>::empty());
    } else {
        lemma_printed_below(k - 1);
        lemma_count_step(k);
        let prev = printed_below(k - 1);
        let m = (k - 1) as i32;
        assert(spec_is_print(m) <==> (k - 1) % 1000 == 1);
        if spec_is_print(m) {
            assert(printed_below(k) =~= prev.insert(m));
            assert(!prev.contains(m));
        } else {
            assert(printed_below(k) =~= prev);
        }
    }
}

/// The benchmark logs after exactly 192 000 of the tasks numbered below
/// 192 000 000.
pub proof fn lemma_print_count_below_threshold()
    ensures
        printed_below(192000000).len() == 192000,
{
    lemma_printed_below(192000000);
}

} // verus!
