//! Fixed-capacity rolling history of metric samples.
//!
//! Each metric keeps its most recent samples, oldest first, capped at
//! [`HISTORY_CAPACITY`] entries (five minutes of once-a-second samples); the
//! displayed value for a metric is the arithmetic mean of the whole window,
//! rounded to the nearest integer.

use vstd::prelude::*;

verus! {

/// Capacity of every history window: five minutes of one-per-second samples.
pub const HISTORY_CAPACITY: usize = 300;

/// One append step on a history window: push the new sample, then evict the
/// single oldest sample if the capacity is now exceeded.
pub open spec fn push_capped_spec(entries: Seq<u64>, sample: u64) -> Seq<u64> {
    let grown = entries.push(sample);
    if grown.len() > HISTORY_CAPACITY {
        grown.drop_first()
    } else {
        grown
    }
}

/// The window contents after appending each element of `more` in order.
pub open spec fn push_all_spec(entries: Seq<u64>, more: Seq<u64>) -> Seq<u64>
    decreases more.len(),
{
    if more.len() == 0 {
        entries
    } else {
        push_all_spec(push_capped_spec(entries, more.first()), more.drop_first())
    }
}

/// Sum of a sample sequence.
pub open spec fn sum_seq(s: Seq<u64>) -> int
    decreases s.len(),
{
    if s.len() == 0 {
        0
    } else {
        sum_seq(s.drop_last()) + s.last()
    }
}

/// Arithmetic mean of the samples, rounded half up to the nearest integer;
/// zero for an empty sequence.
pub open spec fn mean_rounded_spec(s: Seq<u64>) -> int {
    if s.len() == 0 {
        0
    } else {
        (2 * sum_seq(s) + s.len()) / (2 * s.len() as int)
    }
}

/// Rolling window of the most recent samples of one metric, oldest first.
pub struct HistoryWindow {
    /// The stored samples, oldest first.
    pub entries: Vec<u64>,
}

impl HistoryWindow {
    /// The window never exceeds its capacity.
    pub open spec fn wf(self) -> bool {
        self.entries@.len() <= HISTORY_CAPACITY
    }

    /// An empty window.
    pub fn new() -> (w: HistoryWindow)
        ensures
            w.entries@ == Seq::<u64>::empty(),
            w.wf(),
    {
        let w = HistoryWindow { entries: Vec::new() };
        proof {
            assert(w.entries@ =~= Seq::<u64>::empty());
        }
        w
    }

    /// Number of stored samples.
    pub fn len(&self) -> (n: usize)
        ensures
            n == self.entries@.len(),
    {
        self.entries.len()
    }

    /// Append one sample, evicting exactly the oldest sample if the capacity
    /// is now exceeded.
    pub fn push_capped(&mut self, sample: u64)
        ensures
            final(self).entries@ == push_capped_spec(old(self).entries@, sample),
            old(self).wf() ==> final(self).wf(),
    {
        let ghost pre = self.entries@;
        self.entries.push(sample);
        if self.entries.len() > HISTORY_CAPACITY {
            let _evicted = self.entries.remove(0);
            proof {
                assert(self.entries@ =~= pre.push(sample).drop_first());
            }
        }
    }

    /// The arithmetic mean of the current window contents, rounded half up to
    /// the nearest integer; zero when the window is empty.
    pub fn mean_rounded(&self) -> (m: u64)
        requires
            self.wf(),
        ensures
            m == mean_rounded_spec(self.entries@),
    {
        let n = self.entries.len();
        if n == 0 {
            return 0u64;
        }
        let mut sum: u128 = 0;
        let mut i: usize = 0;
        while i < n
            invariant
                i <= n,
                n == self.entries@.len(),
                sum == sum_seq(self.entries@.take(i as int)),
                n <= HISTORY_CAPACITY,
                sum <= (i as int) * (u64::MAX as int),
            decreases n - i,
        {
            let ghost prefix = self.entries@.take(i as int);
            let v = self.entries[i];
            proof {
                assert(self.entries@.take(i + 1).drop_last() =~= prefix);
                assert(self.entries@.take(i + 1).last() == self.entries@[i as int]);
                assert((i as int) * (u64::MAX as int) + (u64::MAX as int)
                    == (i + 1) * (u64::MAX as int)) by (nonlinear_arith);
                assert((i + 1) * (u64::MAX as int) <= (n as int) * (u64::MAX as int))
                    by (nonlinear_arith)
                    requires i + 1 <= n as int;
                assert((n as int) * (u64::MAX as int) < u128::MAX) by (nonlinear_arith)
                    requires n <= HISTORY_CAPACITY;
            }
            sum = sum + v as u128;
            i = i + 1;
        }
        proof {
            assert(self.entries@.take(n as int) =~= self.entries@);
            assert(2 * (sum as int) + (n as int) < u128::MAX) by (nonlinear_arith)
                requires
                    sum as int <= (n as int) * (u64::MAX as int),
                    n <= HISTORY_CAPACITY;
        }
        let num: u128 = 2 * sum + n as u128;
        let den: u128 = 2 * (n as u128);
        let m = num / den;
        proof {
            let s = self.entries@;
            assert(sum_seq(s) <= s.len() * (u64::MAX as int)) by {
                lemma_sum_le_max(s);
            }
            assert((2 * sum_seq(s) + s.len() as int) / (2 * s.len() as int) <= u64::MAX as int)
                by (nonlinear_arith)
                requires
                    s.len() >= 1,
                    sum_seq(s) >= 0,
                    sum_seq(s) <= s.len() * (u64::MAX as int);
        }
        m as u64
    }
}

/// The sum of a sample sequence is at most the number of samples times the
/// largest sample value, and never negative.
proof fn lemma_sum_le_max(s: Seq<u64>)
    ensures
        0 <= sum_seq(s) <= s.len() * (u64::MAX as int),
    decreases s.len(),
{
    if s.len() == 0 {
    } else {
        lemma_sum_le_max(s.drop_last());
        assert((s.len() - 1) * (u64::MAX as int) + (u64::MAX as int) == s.len() * (u64::MAX as int))
            by (nonlinear_arith);
    }
}

/// Appending any sequence of samples to a window within its capacity leaves
/// it within its capacity, and the surviving samples are exactly the newest
/// ones in insertion order: the window after the appends is a suffix of the
/// old contents followed by all appended samples.
pub proof fn lemma_push_all_bounded(entries: Seq<u64>, more: Seq<u64>)
    requires
        entries.len() <= HISTORY_CAPACITY,
    ensures
        push_all_spec(entries, more).len() <= HISTORY_CAPACITY,
        (entries + more).len() >= push_all_spec(entries, more).len(),
        push_all_spec(entries, more)
            == (entries + more).skip((entries + more).len() - push_all_spec(entries, more).len()),
    decreases more.len(),
{
    if more.len() == 0 {
        assert(entries + more =~= entries);
        assert((entries + more).skip(0) =~= entries + more);
    } else {
        let stepped = push_capped_spec(entries, more.first());
        lemma_push_all_bounded(stepped, more.drop_first());
        let rest = more.drop_first();
        let full = entries + more;
        let full_stepped = stepped + rest;
        let result = push_all_spec(entries, more);
        if entries.push(more.first()).len() > HISTORY_CAPACITY {
            assert(full_stepped =~= full.skip(1));
        } else {
            assert(full_stepped =~= full);
        }
        assert(result == full_stepped.skip(full_stepped.len() - result.len()));
        assert(full_stepped.skip(full_stepped.len() - result.len())
            =~= full.skip(full.len() - result.len()));
    }
}

} // verus!
