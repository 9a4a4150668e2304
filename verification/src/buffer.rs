//! The resampling ring buffer: a bounded first-in-first-out window of
//! samples at the canonical rate.

use std::collections::VecDeque;
use vstd::prelude::*;

verus! {

/// The rate, in samples per second, that every stream is brought to
/// before it is buffered.
pub const CANONICAL_RATE: u32 = 16000;

/// Position in the raw input from which the `k`-th retained sample is
/// taken: the index accumulator advances by `source_rate / CANONICAL_RATE`
/// per retained sample and is truncated.
pub open spec fn pick(k: int, source_rate: int) -> int {
    (k * source_rate) / (CANONICAL_RATE as int)
}

/// How many samples are retained out of `n` raw ones: the number of `k`
/// with `pick(k, source_rate) < n`.
pub open spec fn retained(n: int, source_rate: int) -> int {
    (n * (CANONICAL_RATE as int) + source_rate - 1) / source_rate
}

/// The raw input brought to the canonical rate by nearest-index
/// decimation.
pub open spec fn decimated<T>(raw: Seq<T>, source_rate: int) -> Seq<T> {
    Seq::new(retained(raw.len() as int, source_rate) as nat, |k: int| raw[pick(k, source_rate)])
}

/// The most recent `cap` elements of `s`.
pub open spec fn keep_last<T>(s: Seq<T>, cap: int) -> Seq<T> {
    if s.len() <= cap {
        s
    } else {
        s.subrange(s.len() - cap, s.len() as int)
    }
}

/// Contents of a window that held `window`, after `raw` arrived at
/// `source_rate` and the oldest samples beyond `cap` were dropped.
pub open spec fn ingested<T>(window: Seq<T>, raw: Seq<T>, source_rate: int, cap: int) -> Seq<T> {
    keep_last(window + decimated(raw, source_rate), cap)
}

/// The first `k` retained samples of `raw`.
spec fn decimated_prefix<T>(raw: Seq<T>, source_rate: int, k: int) -> Seq<T> {
    Seq::new(k as nat, |j: int| raw[pick(j, source_rate)])
}

/// A pick lies inside the input exactly when the scaled position does.
proof fn lemma_pick_bound(k: int, source_rate: int, n: int)
    requires
        0 <= k,
        0 < source_rate,
        0 <= n,
    ensures
        pick(k, source_rate) < n <==> k * source_rate < n * (CANONICAL_RATE as int),
        0 <= pick(k, source_rate),
{
    let c = CANONICAL_RATE as int;
    let x = k * source_rate;
    assert(0 <= x) by (nonlinear_arith)
        requires
            0 <= k,
            0 < source_rate,
            x == k * source_rate,
    ;
    assert(x / c < n <==> x < n * c) by (nonlinear_arith)
        requires
            c == 16000,
            0 <= x,
    ;
}

/// The walk over the input stops after exactly `retained` samples.
proof fn lemma_walk_ends(k: int, source_rate: int, n: int)
    requires
        0 <= k,
        0 < source_rate,
        0 <= n,
        pick(k, source_rate) >= n,
        k > 0 ==> pick(k - 1, source_rate) < n,
    ensures
        k == retained(n, source_rate),
{
    let c = CANONICAL_RATE as int;
    lemma_pick_bound(k, source_rate, n);
    if k > 0 {
        lemma_pick_bound(k - 1, source_rate, n);
    }
    let m = n * c;
    assert(0 <= m) by (nonlinear_arith)
        requires
            0 <= n,
            c == 16000,
            m == n * c,
    ;
    assert((m + source_rate - 1) / source_rate == k) by (nonlinear_arith)
        requires
            0 <= k,
            0 < source_rate,
            0 <= m,
            k * source_rate >= m,
            k > 0 ==> (k - 1) * source_rate < m,
    ;
}

/// Appending one sample and then dropping the oldest, if the window grew
/// past `cap`, keeps the window equal to the most recent `cap` samples.
proof fn lemma_keep_last_push<T>(s: Seq<T>, x: T, cap: int)
    requires
        0 <= cap,
    ensures
        keep_last(s.push(x), cap) == ({
            let grown = keep_last(s, cap).push(x);
            if grown.len() > cap {
                grown.subrange(1, grown.len() as int)
            } else {
                grown
            }
        }),
{
    let grown = keep_last(s, cap).push(x);
    if grown.len() > cap {
        assert(keep_last(s.push(x), cap) =~= grown.subrange(1, grown.len() as int));
    } else {
        assert(keep_last(s.push(x), cap) =~= grown);
    }
}

/// Brings `input`, sampled at `input_rate`, to the canonical rate and
/// appends it to `buffer`, which is then cut at the front to its most
/// recent `max_samples` samples.
pub fn write_input_data<T: Copy>(
    input: &[T],
    buffer: &mut VecDeque<T>,
    input_rate: u32,
    max_samples: usize,
)
    requires
        input_rate > 0,
    ensures
        final(buffer)@ == ingested(
            old(buffer)@,
            input@,
            input_rate as int,
            max_samples as int,
        ),
        final(buffer)@.len() <= max_samples,
{
    broadcast use vstd::std_specs::vecdeque::group_vec_dequeue_axioms;

    let ghost window = buffer@;
    while buffer.len() > max_samples
        invariant
            buffer@.len() <= window.len(),
            buffer@ == window.subrange(window.len() - buffer@.len(), window.len() as int),
            window.len() <= max_samples ==> buffer@.len() == window.len(),
            window.len() > max_samples ==> buffer@.len() >= max_samples,
        decreases buffer@.len(),
    {
        let _ = buffer.pop_front();
    }
    assert(buffer@ == keep_last(window, max_samples as int));

    let n = input.len();
    let mut position: u128 = 0;
    let ghost mut k: int = 0;
    proof {
        assert(decimated_prefix(input@, input_rate as int, 0) =~= Seq::<T>::empty());
        assert(window + decimated_prefix(input@, input_rate as int, 0) =~= window);
    }
    while position / 16000 < n as u128
        invariant
            n == input@.len(),
            input_rate > 0,
            0 <= k,
            position == k * input_rate,
            k > 0 ==> pick(k - 1, input_rate as int) < n,
            buffer@ == keep_last(
                window + decimated_prefix(input@, input_rate as int, k),
                max_samples as int,
            ),
        decreases
            if position < n * 16000 {
                n * 16000 - position
            } else {
                0
            },
    {
        let at: usize = (position / 16000) as usize;
        let sample = input[at];
        proof {
            let before = decimated_prefix(input@, input_rate as int, k);
            let after = decimated_prefix(input@, input_rate as int, k + 1);
            assert(pick(k, input_rate as int) == at);
            assert(after =~= before.push(sample));
            assert(window + after =~= (window + before).push(sample));
            lemma_keep_last_push(window + before, sample, max_samples as int);
            assert((k + 1) * input_rate == position + input_rate) by (nonlinear_arith)
                requires
                    position == k * input_rate,
            ;
        }
        buffer.push_back(sample);
        if buffer.len() > max_samples {
            let _ = buffer.pop_front();
        }
        position = position + input_rate as u128;
        proof {
            k = k + 1;
        }
    }
    proof {
        assert(pick(k, input_rate as int) >= n);
        lemma_walk_ends(k, input_rate as int, n as int);
        assert(decimated_prefix(input@, input_rate as int, k) =~= decimated(
            input@,
            input_rate as int,
        ));
    }
}

/// Number of samples that a window of `duration_secs` seconds holds at
/// the canonical rate, where that number fits the machine word.
pub fn max_samples_for(duration_secs: usize) -> (cap: Option<usize>)
    ensures
        cap == (if CANONICAL_RATE * duration_secs <= usize::MAX {
            Some((CANONICAL_RATE * duration_secs) as usize)
        } else {
            None
        }),
{
    let rate: usize = 16000;
    rate.checked_mul(duration_secs)
}

/// A rolling window over the most recent samples of a stream, in
/// arrival order, oldest first. It never holds more than `max_samples`.
pub struct SampleBuffer<T> {
    samples: VecDeque<T>,
    max_samples: usize,
}

impl<T> View for SampleBuffer<T> {
    type V = Seq<T>;

    closed spec fn view(&self) -> Seq<T> {
        self.samples@
    }
}

impl<T> SampleBuffer<T> {
    #[verifier::type_invariant]
    spec fn bounded(self) -> bool {
        self.samples@.len() <= self.max_samples
    }

    /// The bound on the window's length.
    pub closed spec fn capacity(&self) -> nat {
        self.max_samples as nat
    }

    /// An empty window that will hold at most `max_samples` samples.
    pub fn new(max_samples: usize) -> (buffer: Self)
        ensures
            buffer@ == Seq::<T>::empty(),
            buffer.capacity() == max_samples,
    {
        SampleBuffer { samples: VecDeque::new(), max_samples }
    }

    /// The bound on the window's length.
    pub fn max_samples(&self) -> (cap: usize)
        ensures
            cap == self.capacity(),
    {
        self.max_samples
    }

    /// Number of samples in the window.
    pub fn len(&self) -> (len: usize)
        ensures
            len == self@.len(),
            len <= self.capacity(),
    {
        proof {
            use_type_invariant(self);
        }
        self.samples.len()
    }

    /// Whether the window holds no sample.
    pub fn is_empty(&self) -> (empty: bool)
        ensures
            empty == (self@.len() == 0),
    {
        self.samples.len() == 0
    }

    /// Empties the window; its capacity stays.
    pub fn clear(&mut self)
        ensures
            final(self)@ == Seq::<T>::empty(),
            final(self).capacity() == old(self).capacity(),
    {
        self.samples = VecDeque::new();
    }
}

impl<T: Copy> SampleBuffer<T> {
    /// Takes in raw samples of a stream running at `source_rate`: they are
    /// brought to the canonical rate and appended, and the oldest samples
    /// beyond the capacity leave the window.
    pub fn ingest(&mut self, raw: &[T], source_rate: u32)
        requires
            source_rate > 0,
        ensures
            final(self)@ == ingested(
                old(self)@,
                raw@,
                source_rate as int,
                old(self).capacity() as int,
            ),
            final(self).capacity() == old(self).capacity(),
            final(self)@.len() <= final(self).capacity(),
    {
        let mut samples: VecDeque<T> = VecDeque::new();
        std::mem::swap(&mut samples, &mut self.samples);
        write_input_data(raw, &mut samples, source_rate, self.max_samples);
        self.samples = samples;
    }

    /// A copy of the window's contents, oldest sample first.
    pub fn snapshot(&self) -> (copy: Vec<T>)
        ensures
            copy@ == self@,
    {
        let n = self.samples.len();
        let mut copy: Vec<T> = Vec::with_capacity(n);
        let mut i: usize = 0;
        while i < n
            invariant
                n == self.samples@.len(),
                i <= n,
                copy@ == self.samples@.subrange(0, i as int),
            decreases n - i,
        {
            copy.push(self.samples[i]);
            i = i + 1;
            assert(copy@ =~= self.samples@.subrange(0, i as int));
        }
        assert(copy@ =~= self.samples@);
        copy
    }
}

/// The retained samples are exactly those whose position lies inside the
/// input: the `k`-th pick does so if and only if `k` is less than
/// `retained`.
pub proof fn lemma_retained_counts_picks(n: int, source_rate: int, k: int)
    requires
        0 <= n,
        0 < source_rate,
        0 <= k,
    ensures
        0 <= pick(k, source_rate),
        pick(k, source_rate) < n <==> k < retained(n, source_rate),
{
    lemma_pick_bound(k, source_rate, n);
    let m = n * (CANONICAL_RATE as int);
    assert(0 <= m) by (nonlinear_arith)
        requires
            0 <= n,
            m == n * 16000,
    ;
    assert(k < (m + source_rate - 1) / source_rate <==> k * source_rate < m) by (nonlinear_arith)
        requires
            0 <= k,
            0 < source_rate,
            0 <= m,
    ;
}

/// Contents of a window after the batches of `batches` arrived one after
/// another, each with its own source rate.
pub open spec fn ingested_all<T>(window: Seq<T>, batches: Seq<(Seq<T>, int)>, cap: int) -> Seq<T>
    decreases batches.len(),
{
    if batches.len() == 0 {
        window
    } else {
        ingested(
            ingested_all(window, batches.drop_last(), cap),
            batches.last().0,
            batches.last().1,
            cap,
        )
    }
}

/// Whatever arrives, in however many batches, the window is within its
/// capacity afterwards: from the first batch on, and before it if it
/// started so.
pub proof fn lemma_window_stays_bounded<T>(window: Seq<T>, batches: Seq<(Seq<T>, int)>, cap: int)
    requires
        0 <= cap,
        window.len() <= cap || batches.len() > 0,
    ensures
        ingested_all(window, batches, cap).len() <= cap,
    decreases batches.len(),
{
    if batches.len() > 1 {
        lemma_window_stays_bounded(window, batches.drop_last(), cap);
    }
}

/// A stream that already runs at the canonical rate passes through
/// unchanged: every sample is retained, in order, so the window is a
/// plain first-in-first-out queue.
pub proof fn lemma_canonical_rate_is_fifo<T>(window: Seq<T>, raw: Seq<T>, cap: int)
    ensures
        decimated(raw, CANONICAL_RATE as int) == raw,
        ingested(window, raw, CANONICAL_RATE as int, cap) == keep_last(window + raw, cap),
{
    let c = CANONICAL_RATE as int;
    let n = raw.len() as int;
    assert(retained(n, c) == n) by (nonlinear_arith)
        requires
            c == 16000,
            0 <= n,
            retained(n, c) == (n * c + c - 1) / c,
    ;
    assert forall|k: int| 0 <= k < n implies #[trigger] pick(k, c) == k by {
        assert((k * c) / c == k) by (nonlinear_arith)
            requires
                c == 16000,
        ;
    }
    assert(decimated(raw, c) =~= raw);
}

/// A stream at twice the canonical rate loses every other sample: the
/// ones at the even positions 0, 2, 4, ... are retained, in order.
pub proof fn lemma_double_rate_keeps_even_positions<T>(raw: Seq<T>)
    ensures
        decimated(raw, 2 * CANONICAL_RATE) == Seq::new(
            ((raw.len() + 1) / 2) as nat,
            |k: int| raw[2 * k],
        ),
{
    let c = CANONICAL_RATE as int;
    let n = raw.len() as int;
    assert(retained(n, 2 * c) == (n + 1) / 2) by (nonlinear_arith)
        requires
            c == 16000,
            0 <= n,
            retained(n, 2 * c) == (n * c + 2 * c - 1) / (2 * c),
    ;
    let double = 2 * c;
    assert forall|k: int| 0 <= k implies #[trigger] pick(k, double) == 2 * k by {
        assert((k * double) / c == 2 * k) by (nonlinear_arith)
            requires
                c == 16000,
                double == 2 * c,
        ;
    }
    assert(decimated(raw, double) =~= Seq::new(((n + 1) / 2) as nat, |k: int| raw[2 * k]));
}

/// When more arrives than the window can hold, the oldest samples go
/// first: what stays are the most recent `cap` samples of everything the
/// window has seen, in their order of arrival.
pub proof fn lemma_overflow_keeps_most_recent<T>(
    window: Seq<T>,
    raw: Seq<T>,
    source_rate: int,
    cap: int,
)
    requires
        0 <= cap,
    ensures
        ({
            let seen = window + decimated(raw, source_rate);
            let kept = ingested(window, raw, source_rate, cap);
            &&& kept.len() == if seen.len() <= cap {
                seen.len() as int
            } else {
                cap
            }
            &&& forall|i: int|
                0 <= i < kept.len() ==> kept[i] == seen[seen.len() - kept.len() + i]
        }),
{
}

} // verus!
