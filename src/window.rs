//! A fixed-capacity running mean over the most recent samples.
use vstd::prelude::*;

verus! {

/// Sum of a sequence of samples.
pub open spec fn seq_sum(s: Seq<u64>) -> int
    decreases s.len(),
{
    if s.len() == 0 {
        0
    } else {
        seq_sum(s.drop_last()) + s.last() as int
    }
}

/// Mean of `samples`, rounded down, or `seed` when there are none.
pub open spec fn window_average(samples: Seq<u64>, seed: u64) -> int {
    if samples.len() == 0 {
        seed as int
    } else {
        seq_sum(samples) / (samples.len() as int)
    }
}

/// The samples after `v` is recorded in a window of `capacity` samples.
pub open spec fn submitted(samples: Seq<u64>, capacity: nat, v: u64) -> Seq<u64> {
    let pushed = samples.push(v);
    if pushed.len() > capacity {
        pushed.drop_first()
    } else {
        pushed
    }
}

/// The samples after all but the `count` most recent are dropped.
pub open spec fn retained(samples: Seq<u64>, count: nat) -> Seq<u64> {
    if samples.len() > count {
        samples.subrange(samples.len() - count, samples.len() as int)
    } else {
        samples
    }
}

/// The samples after each of `vs` is recorded in turn.
pub open spec fn submitted_all(samples: Seq<u64>, capacity: nat, vs: Seq<u64>) -> Seq<u64>
    decreases vs.len(),
{
    if vs.len() == 0 {
        samples
    } else {
        submitted(submitted_all(samples, capacity, vs.drop_last()), capacity, vs.last())
    }
}

proof fn lemma_sum_bound(s: Seq<u64>)
    ensures
        0 <= seq_sum(s) <= s.len() * (u64::MAX as int),
    decreases s.len(),
{
    if s.len() > 0 {
        lemma_sum_bound(s.drop_last());
    }
}

/// The mean of a window lies within the range of a sample.
pub proof fn lemma_average_bounds(w: WindowState)
    ensures
        0 <= w.average() <= u64::MAX,
{
    if w.samples.len() > 0 {
        lemma_sum_bound(w.samples);
        let n = w.samples.len() as int;
        let t = seq_sum(w.samples);
        assert(0 <= t / n <= u64::MAX) by (nonlinear_arith)
            requires
                n > 0,
                0 <= t <= n * (u64::MAX as int),
        ;
    }
}

/// Samples recorded into an empty window that can hold them all are kept in
/// order.
proof fn lemma_submitted_all_from_empty(capacity: nat, vs: Seq<u64>)
    requires
        vs.len() <= capacity,
    ensures
        submitted_all(Seq::empty(), capacity, vs) == vs,
    decreases vs.len(),
{
    if vs.len() > 0 {
        lemma_submitted_all_from_empty(capacity, vs.drop_last());
        assert(vs.drop_last().push(vs.last()) =~= vs);
    }
}

/// Recording `n` samples into an empty window that holds at least `n`, then
/// keeping the `k < n` most recent, leaves exactly the last `k` samples
/// recorded, and the mean is taken over those alone.
pub proof fn lemma_retain_keeps_most_recent(capacity: nat, vs: Seq<u64>, k: nat, seed: u64)
    requires
        vs.len() <= capacity,
        k < vs.len(),
    ensures
        retained(submitted_all(Seq::empty(), capacity, vs), k) == vs.subrange(
            vs.len() - k,
            vs.len() as int,
        ),
        window_average(retained(submitted_all(Seq::empty(), capacity, vs), k), seed)
            == window_average(vs.subrange(vs.len() - k, vs.len() as int), seed),
{
    lemma_submitted_all_from_empty(capacity, vs);
}

/// What a window holds: its samples, oldest first, how many it keeps, and
/// the value it reports while empty.
pub struct WindowState {
    pub samples: Seq<u64>,
    pub capacity: nat,
    pub seed: u64,
}

impl WindowState {
    pub open spec fn wf(self) -> bool {
        self.samples.len() <= self.capacity
    }

    pub open spec fn average(self) -> int {
        window_average(self.samples, self.seed)
    }

    pub open spec fn submit(self, v: u64) -> WindowState {
        WindowState { samples: submitted(self.samples, self.capacity, v), ..self }
    }

    pub open spec fn retain(self, count: nat) -> WindowState {
        WindowState { samples: retained(self.samples, count), ..self }
    }
}

/// An empty window.
pub open spec fn empty_window(capacity: nat, seed: u64) -> WindowState {
    WindowState { samples: Seq::empty(), capacity, seed }
}

/// A running mean over at most `max_history_size` samples, falling back to an
/// initial value while it holds none.
pub struct SlidingWindowAverage {
    history_buffer: Vec<u64>,
    max_history_size: usize,
    initial_value: u64,
}

impl View for SlidingWindowAverage {
    type V = WindowState;

    closed spec fn view(&self) -> WindowState {
        WindowState {
            samples: self.history_buffer@,
            capacity: self.max_history_size as nat,
            seed: self.initial_value,
        }
    }
}

impl SlidingWindowAverage {
    /// An empty window of `max_history_size` samples that reports
    /// `initial_value` until a sample arrives.
    pub fn new(initial_value: u64, max_history_size: usize) -> (r: Self)
        ensures
            r@ == empty_window(max_history_size as nat, initial_value),
    {
        SlidingWindowAverage { history_buffer: Vec::new(), max_history_size, initial_value }
    }

    /// Records a sample, dropping the oldest one once over capacity.
    pub fn submit_sample(&mut self, sample: u64)
        requires
            old(self)@.wf(),
        ensures
            final(self)@.wf(),
            final(self)@ == old(self)@.submit(sample),
    {
        self.history_buffer.push(sample);
        if self.history_buffer.len() > self.max_history_size {
            self.history_buffer.remove(0);
        }
        proof {
            let pushed = old(self)@.samples.push(sample);
            if pushed.len() > old(self)@.capacity {
                assert(self.history_buffer@ =~= pushed.drop_first());
            }
        }
    }

    /// Keeps only the `count` most recent samples.
    pub fn retain(&mut self, count: usize)
        requires
            old(self)@.wf(),
        ensures
            final(self)@.wf(),
            final(self)@ == old(self)@.retain(count as nat),
    {
        let len = self.history_buffer.len();
        if len > count {
            let start = len - count;
            let mut kept: Vec<u64> = Vec::new();
            let mut i: usize = start;
            while i < len
                invariant
                    start <= i <= len,
                    len == self.history_buffer@.len(),
                    kept@ == self.history_buffer@.subrange(start as int, i as int),
                decreases len - i,
            {
                kept.push(self.history_buffer[i]);
                i = i + 1;
                assert(kept@ =~= self.history_buffer@.subrange(start as int, i as int));
            }
            self.history_buffer = kept;
        }
    }

    /// The mean of the samples held, rounded down, or the initial value when
    /// there are none.
    pub fn get_average(&self) -> (r: u64)
        requires
            self@.wf(),
        ensures
            r == self@.average(),
    {
        let len = self.history_buffer.len();
        if len == 0 {
            return self.initial_value;
        }
        let mut sum: u128 = 0;
        let mut i: usize = 0;
        while i < len
            invariant
                i <= len,
                len == self.history_buffer@.len(),
                sum == seq_sum(self.history_buffer@.subrange(0, i as int)),
            decreases len - i,
        {
            proof {
                let s = self.history_buffer@.subrange(0, i as int + 1);
                assert(s.drop_last() =~= self.history_buffer@.subrange(0, i as int));
                lemma_sum_bound(s);
                assert(s.len() * (u64::MAX as int) <= (usize::MAX as int) * (u64::MAX as int))
                    by (nonlinear_arith)
                    requires
                        s.len() <= usize::MAX,
                ;
            }
            sum = sum + self.history_buffer[i] as u128;
            i = i + 1;
        }
        proof {
            assert(self.history_buffer@.subrange(0, len as int) =~= self.history_buffer@);
            lemma_sum_bound(self.history_buffer@);
            let n = len as int;
            let t = sum as int;
            assert(t / n <= u64::MAX) by (nonlinear_arith)
                requires
                    n > 0,
                    0 <= t <= n * (u64::MAX as int),
            ;
        }
        (sum / (len as u128)) as u64
    }
}

} // verus!
