//! Bounded, time-ordered sample queues for plotting.
//!
//! Each link keeps a queue of `(timestamp, value)` samples.  After every
//! insertion the queue evicts from the front until it holds at most
//! `HISTORY_SAMPLES` samples, none older than `HISTORY_WINDOW_NS` before
//! the newest one.  Timestamps are nanoseconds since simulation start and
//! never decrease.

use vstd::prelude::*;

verus! {

/// Greatest number of samples one queue retains.
pub const HISTORY_SAMPLES: usize = 1024;

/// Greatest age of a retained sample relative to the newest one:
/// 60 seconds, in nanoseconds.
pub const HISTORY_WINDOW_NS: i64 = 60_000_000_000;

/// Drop samples from the front while the front one is out of the window
/// ending at `t` or the queue is over its size cap.
pub open spec fn spec_evict(s: Seq<(i64, i64)>, t: int) -> Seq<(i64, i64)>
    decreases s.len(),
{
    if s.len() > 0 && (t - s[0].0 > HISTORY_WINDOW_NS as int || s.len() > HISTORY_SAMPLES as nat) {
        spec_evict(s.drop_first(), t)
    } else {
        s
    }
}

/// Append a sample, then evict from the front.
pub open spec fn spec_push_sample(s: Seq<(i64, i64)>, t: i64, value: i64) -> Seq<(i64, i64)> {
    spec_evict(s.push((t, value)), t as int)
}

/// Eviction only ever removes the oldest samples: what it keeps is a
/// suffix of the queue, in its original order.
pub proof fn lemma_evict_keeps_a_suffix(s: Seq<(i64, i64)>, t: int)
    ensures
        exists|k: int| 0 <= k <= s.len() && spec_evict(s, t) == s.skip(k),
    decreases s.len(),
{
    if s.len() > 0 && (t - s[0].0 > HISTORY_WINDOW_NS as int || s.len() > HISTORY_SAMPLES as nat) {
        lemma_evict_keeps_a_suffix(s.drop_first(), t);
        let k: int = choose|k: int|
            0 <= k <= s.drop_first().len() && spec_evict(s.drop_first(), t) == s.drop_first().skip(
                k,
            );
        assert(s.drop_first().skip(k) =~= s.skip(k + 1));
    } else {
        assert(spec_evict(s, t) =~= s.skip(0));
    }
}

/// After a push, the retained samples are the newest ones of the appended
/// sequence, oldest first, in their original order.
pub proof fn lemma_push_keeps_a_suffix(s: Seq<(i64, i64)>, t: i64, value: i64)
    ensures
        exists|k: int|
            0 <= k <= s.len() && spec_push_sample(s, t, value) == s.push((t, value)).skip(k),
{
    lemma_evict_keeps_a_suffix(s.push((t, value)), t as int);
    let k: int = choose|k: int|
        0 <= k <= s.push((t, value)).len() && spec_evict(s.push((t, value)), t as int) == s.push(
            (t, value),
        ).skip(k);
    if k == s.len() + 1 {
        // Even a full eviction keeps the sample just pushed.
        assert(s.push((t, value)).skip(k).len() == 0);
        assert(spec_evict(s.push((t, value)), t as int).len() > 0) by {
            lemma_evict_keeps_last(s.push((t, value)), t as int);
        }
    }
}

/// Eviction never removes the newest sample when it lies in its own
/// window, so the result of evicting a nonempty queue stays nonempty.
proof fn lemma_evict_keeps_last(s: Seq<(i64, i64)>, t: int)
    requires
        s.len() > 0,
        t - s[s.len() - 1].0 <= HISTORY_WINDOW_NS as int,
    ensures
        spec_evict(s, t).len() > 0,
        spec_evict(s, t)[spec_evict(s, t).len() - 1] == s[s.len() - 1],
    decreases s.len(),
{
    if t - s[0].0 > HISTORY_WINDOW_NS as int || s.len() > HISTORY_SAMPLES as nat {
        if s.len() == 1 {
            assert(s.len() <= HISTORY_SAMPLES as nat);
        }
        lemma_evict_keeps_last(s.drop_first(), t);
    }
}

/// A bounded, insertion-ordered queue of timestamped samples.
pub struct History {
    samples: Vec<(i64, i64)>,
}

impl History {
    /// The retained samples, oldest first.
    pub closed spec fn view(&self) -> Seq<(i64, i64)> {
        self.samples@
    }

    /// Well-formed: within the size cap, timestamps nonnegative and
    /// nondecreasing, and nothing older than the window before the newest.
    pub open spec fn wf(&self) -> bool {
        &&& self@.len() <= HISTORY_SAMPLES
        &&& forall|i: int, j: int| 0 <= i <= j < self@.len() ==> self@[i].0 <= self@[j].0
        &&& forall|i: int| 0 <= i < self@.len() ==> 0 <= self@[i].0
        &&& forall|i: int|
            0 <= i < self@.len() ==> self@[self@.len() - 1].0 - #[trigger] self@[i].0
                <= HISTORY_WINDOW_NS as int
    }

    /// An empty queue.
    pub fn new() -> (h: History)
        ensures
            h@ == Seq::<(i64, i64)>::empty(),
            h.wf(),
    {
        History { samples: Vec::new() }
    }

    /// Forget every sample; the queue accepts insertions as before.
    pub fn clear(&mut self)
        ensures
            final(self)@ == Seq::<(i64, i64)>::empty(),
            final(self).wf(),
    {
        self.samples.clear();
    }

    /// How many samples are retained.
    pub fn len(&self) -> (r: usize)
        ensures
            r == self@.len(),
    {
        self.samples.len()
    }

    /// The sample at position `i`, oldest first.
    pub fn get(&self, i: usize) -> (r: (i64, i64))
        requires
            i < self@.len(),
        ensures
            r == self@[i as int],
    {
        self.samples[i]
    }

    /// Append the sample `(t, value)`, then evict from the front until the
    /// queue is back within its cap and window.  The newest sample always
    /// survives, the kept ones keep their order, and after the call every
    /// retained sample lies within the window ending at `t`.
    pub fn push(&mut self, t: i64, value: i64)
        requires
            old(self).wf(),
            t >= 0,
            old(self)@.len() > 0 ==> old(self)@[old(self)@.len() - 1].0 <= t,
        ensures
            final(self)@ == spec_push_sample(old(self)@, t, value),
            final(self).wf(),
            1 <= final(self)@.len() <= HISTORY_SAMPLES,
            final(self)@[final(self)@.len() - 1] == (t, value),
            forall|i: int|
                0 <= i < final(self)@.len() ==> t - final(self)@[i].0 <= HISTORY_WINDOW_NS as int,
    {
        let ghost target: Seq<(i64, i64)> = spec_push_sample(old(self)@, t, value);
        self.samples.push((t, value));
        while self.samples.len() > HISTORY_SAMPLES || t - self.samples[0].0 > HISTORY_WINDOW_NS
            invariant
                1 <= self.samples@.len() <= HISTORY_SAMPLES + 1,
                self.samples@[self.samples@.len() - 1] == (t, value),
                forall|i: int, j: int|
                    0 <= i <= j < self.samples@.len() ==> self.samples@[i].0
                        <= self.samples@[j].0,
                forall|i: int|
                    0 <= i < self.samples@.len() ==> 0 <= #[trigger] self.samples@[i].0 <= t,
                spec_evict(self.samples@, t as int) == target,
            decreases self.samples@.len(),
        {
            proof {
                // The newest sample is never the one evicted: if it were
                // alone it would satisfy both bounds and the loop would
                // have stopped.
                if self.samples@.len() == 1 {
                    assert(self.samples@[0] == (t, value));
                }
                assert(self.samples@.drop_first() =~= self.samples@.remove(0));
            }
            self.samples.remove(0);
        }
        proof {
            assert(spec_evict(self.samples@, t as int) == self.samples@);
            assert(forall|i: int|
                0 <= i < self.samples@.len() ==> t - self.samples@[i].0
                    <= HISTORY_WINDOW_NS as int) by {
                assert(forall|i: int|
                    0 <= i < self.samples@.len() ==> self.samples@[0].0 <= #[trigger] self.samples@[i].0);
            }
        }
    }
}

} // verus!
