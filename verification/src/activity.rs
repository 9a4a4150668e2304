//! The buffer activity monitor: a histogram of fixed resolution over the
//! whole configured window, whatever part of it has been filled so far.
//!
//! The live samples are taken to occupy the tail of the full window. Each
//! bucket is mapped to the part of the live samples that it covers, over
//! which the caller measures the energy; a bucket that lies in the
//! unfilled head covers nothing and shows no energy.

use crate::buffer::SampleBuffer;
use vstd::prelude::*;

verus! {

/// Number of buckets in the histogram.
pub const ACTIVITY_BUCKETS: usize = 100;

/// A range `start..end` of positions in the live samples.
#[derive(Clone, Copy, Debug, PartialEq, Eq, Structural)]
pub struct BucketSpan {
    pub start: usize,
    pub end: usize,
}

/// Samples per bucket in a window of `max_samples`.
pub open spec fn bucket_size(max_samples: int) -> int {
    max_samples / (ACTIVITY_BUCKETS as int)
}

/// Length of the unfilled head: the position in the full window at which
/// the live samples start.
pub open spec fn virtual_start(max_samples: int, current_len: int) -> int {
    max_samples - current_len
}

/// The live samples under bucket `bucket`: `None` where the bucket ends
/// at or before the live samples start, else the two ends of the overlap
/// of the bucket with the live samples, counted from the oldest live
/// sample.
pub open spec fn span_of(max_samples: int, current_len: int, bucket: int) -> Option<(int, int)> {
    let size = bucket_size(max_samples);
    let head = virtual_start(max_samples, current_len);
    let lo = bucket * size;
    let hi = lo + size;
    if hi <= head {
        None
    } else {
        Some((if lo > head {
            lo - head
        } else {
            0
        }, hi - head))
    }
}

/// The two ends of a span, if there is one.
pub open spec fn ends(span: Option<BucketSpan>) -> Option<(int, int)> {
    match span {
        Some(s) => Some((s.start as int, s.end as int)),
        None => None,
    }
}

/// The live samples that one bucket of the histogram covers.
pub fn bucket_span(max_samples: usize, current_len: usize, bucket: usize) -> (span: Option<
    BucketSpan,
>)
    requires
        current_len <= max_samples,
        bucket < ACTIVITY_BUCKETS,
    ensures
        ends(span) == span_of(max_samples as int, current_len as int, bucket as int),
        span matches Some(s) ==> s.start < s.end <= current_len,
{
    let size = max_samples / ACTIVITY_BUCKETS;
    let head = max_samples - current_len;
    assert(bucket * size + size <= max_samples && (size == 0 ==> bucket * size == 0))
        by (nonlinear_arith)
        requires
            bucket < 100,
            size == max_samples / 100,
    ;
    let lo = bucket * size;
    let hi = lo + size;
    if hi <= head {
        None
    } else {
        let start = if lo > head {
            lo - head
        } else {
            0
        };
        Some(BucketSpan { start, end: hi - head })
    }
}

/// The whole histogram's mapping, bucket by bucket, oldest first.
pub fn activity_spans(max_samples: usize, current_len: usize) -> (spans: Vec<Option<BucketSpan>>)
    requires
        current_len <= max_samples,
    ensures
        spans@.len() == ACTIVITY_BUCKETS,
        forall|b: int|
            0 <= b < ACTIVITY_BUCKETS ==> ends(#[trigger] spans@[b]) == span_of(
                max_samples as int,
                current_len as int,
                b,
            ),
{
    let mut spans: Vec<Option<BucketSpan>> = Vec::with_capacity(ACTIVITY_BUCKETS);
    let mut bucket: usize = 0;
    while bucket < ACTIVITY_BUCKETS
        invariant
            current_len <= max_samples,
            bucket <= ACTIVITY_BUCKETS,
            spans@.len() == bucket,
            forall|b: int|
                0 <= b < bucket ==> ends(#[trigger] spans@[b]) == span_of(
                    max_samples as int,
                    current_len as int,
                    b,
                ),
        decreases ACTIVITY_BUCKETS - bucket,
    {
        spans.push(bucket_span(max_samples, current_len, bucket));
        bucket = bucket + 1;
    }
    spans
}

impl<T: Copy> SampleBuffer<T> {
    /// The histogram's mapping for this window as it stands.
    pub fn activity_spans(&self) -> (spans: Vec<Option<BucketSpan>>)
        ensures
            spans@.len() == ACTIVITY_BUCKETS,
            forall|b: int|
                0 <= b < ACTIVITY_BUCKETS ==> ends(#[trigger] spans@[b]) == span_of(
                    self.capacity() as int,
                    self@.len() as int,
                    b,
                ),
    {
        let current_len = self.len();
        activity_spans(self.max_samples(), current_len)
    }
}

/// The buckets of the unfilled head show nothing: bucket `b` covers no
/// live sample exactly when it ends at or before the first live sample,
/// so the first `virtual_start / bucket_size` buckets are all empty.
pub proof fn lemma_head_buckets_are_empty(max_samples: int, current_len: int, b: int)
    requires
        0 <= current_len <= max_samples,
        0 <= b < ACTIVITY_BUCKETS,
    ensures
        span_of(max_samples, current_len, b) is None <==> (b + 1) * bucket_size(max_samples)
            <= virtual_start(max_samples, current_len),
        bucket_size(max_samples) > 0 && b < virtual_start(max_samples, current_len) / bucket_size(
            max_samples,
        ) ==> span_of(max_samples, current_len, b) is None,
{
    let size = bucket_size(max_samples);
    let head = virtual_start(max_samples, current_len);
    assert((b + 1) * size == b * size + size) by (nonlinear_arith);
    if size > 0 && b < head / size {
        assert((b + 1) * size <= head) by (nonlinear_arith)
            requires
                size > 0,
                b + 1 <= head / size,
                0 <= head,
        ;
    }
}

/// The buckets over the live samples follow one another without gap or
/// overlap: the first of them starts at the oldest live sample, and each
/// one starts where the one before it ended.
pub proof fn lemma_live_buckets_are_contiguous(max_samples: int, current_len: int, b: int)
    requires
        0 <= current_len <= max_samples,
        0 <= b < ACTIVITY_BUCKETS,
        span_of(max_samples, current_len, b) is Some,
    ensures
        ({
            let here = span_of(max_samples, current_len, b)->0;
            &&& 0 <= here.0 < here.1 <= current_len
            &&& b + 1 < ACTIVITY_BUCKETS ==> {
                &&& span_of(max_samples, current_len, b + 1) matches Some(next)
                &&& next.0 == here.1
            }
            &&& (b == 0 || span_of(max_samples, current_len, b - 1) is None) ==> here.0 == 0
            &&& b > 0 ==> (span_of(max_samples, current_len, b - 1) matches Some(before)
                ==> before.1 == here.0)
        }),
{
    let size = bucket_size(max_samples);
    let head = virtual_start(max_samples, current_len);
    assert((b + 1) * size == b * size + size) by (nonlinear_arith);
    assert((b - 1) * size == b * size - size) by (nonlinear_arith);
    assert(0 <= b * size && b * size + size <= max_samples && (size == 0 ==> b * size == 0))
        by (nonlinear_arith)
        requires
            0 <= b < 100,
            size == max_samples / 100,
            0 <= max_samples,
    ;
    if b + 1 < ACTIVITY_BUCKETS {
        assert((b + 1) * size + size <= max_samples) by (nonlinear_arith)
            requires
                0 <= b + 1 < 100,
                size == max_samples / 100,
                0 <= max_samples,
        ;
    }
}

} // verus!
