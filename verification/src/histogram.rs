//! The latency histogram: an `hdrhistogram::Histogram<u64>` behind contracts.
//!
//! Verus does not look inside the histogram. What it holds is given a name,
//! `samples_of`: the multiset of the values recorded since it was created or
//! last reset. The functions below state, over that name, what the crate's
//! methods do. Their contracts are taken on trust.

use vstd::multiset::Multiset;
use vstd::prelude::*;

verus! {

/// `hdrhistogram::CreationError`, carried through as it is.
#[verifier::external_type_specification]
#[verifier::external_body]
pub struct ExCreationError(hdrhistogram::CreationError);

/// `hdrhistogram::RecordError`, carried through as it is.
#[verifier::external_type_specification]
#[verifier::external_body]
pub struct ExRecordError(hdrhistogram::RecordError);

/// A histogram of `u64` values with a fixed range and precision: an
/// `hdrhistogram::Histogram<u64>`, which Verus does not look into.
#[verifier::external_body]
pub struct LatencyHistogram {
    inner: hdrhistogram::Histogram<u64>,
}

/// The values recorded in `h` since it was created or last reset.
pub uninterp spec fn samples_of(h: LatencyHistogram) -> Multiset<u64>;

/// The lowest discernible value that `h` was created with.
pub uninterp spec fn low_of(h: LatencyHistogram) -> u64;

/// The highest trackable value that `h` was created with.
pub uninterp spec fn high_of(h: LatencyHistogram) -> u64;

/// A list of `(value, count)` pairs is a list of buckets when the values
/// rise strictly and no count is 0.
pub open spec fn is_bucket_list(buckets: Seq<(u64, u64)>) -> bool {
    &&& forall|i: int| 0 <= i < buckets.len() ==> (#[trigger] buckets[i]).1 >= 1
    &&& forall|i: int, j: int|
        0 <= i < j < buckets.len() ==> (#[trigger] buckets[i]).0 < (#[trigger] buckets[j]).0
}

/// The sum of the counts of a list of `(value, count)` pairs.
pub open spec fn total_count(buckets: Seq<(u64, u64)>) -> nat
    decreases buckets.len(),
{
    if buckets.len() == 0 {
        0
    } else {
        total_count(buckets.drop_last()) + buckets.last().1 as nat
    }
}

/// `Histogram::new_with_bounds`. The histogram starts empty, with the bounds
/// given. With a lowest value of 1, a highest value of at least 2 and at most
/// five significant figures the call succeeds.
#[verifier::external_body]
pub(crate) fn create(low: u64, high: u64, figures: u8) -> (out: Result<
    LatencyHistogram,
    hdrhistogram::CreationError,
>)
    ensures
        low == 1 && high >= 2 && figures <= 5 ==> out is Ok,
        out is Ok ==> samples_of(out->Ok_0) == Multiset::<u64>::empty(),
        out is Ok ==> low_of(out->Ok_0) == low,
        out is Ok ==> high_of(out->Ok_0) == high,
{
    match hdrhistogram::Histogram::<u64>::new_with_bounds(low, high, figures) {
        Ok(inner) => Ok(LatencyHistogram { inner }),
        Err(e) => Err(e),
    }
}

/// `Histogram::record`. A value up to the highest trackable one is recorded;
/// when the call fails nothing has changed.
#[verifier::external_body]
pub(crate) fn record(h: &mut LatencyHistogram, value: u64) -> (out: Result<
    (),
    hdrhistogram::RecordError,
>)
    ensures
        value <= high_of(*old(h)) ==> out is Ok,
        out is Ok ==> samples_of(*final(h)) == samples_of(*old(h)).insert(value),
        out is Err ==> samples_of(*final(h)) == samples_of(*old(h)),
        low_of(*final(h)) == low_of(*old(h)),
        high_of(*final(h)) == high_of(*old(h)),
{
    h.inner.record(value)
}

/// `Histogram::reset`. Empties the histogram and keeps its bounds.
#[verifier::external_body]
pub(crate) fn reset(h: &mut LatencyHistogram)
    ensures
        samples_of(*final(h)) == Multiset::<u64>::empty(),
        low_of(*final(h)) == low_of(*old(h)),
        high_of(*final(h)) == high_of(*old(h)),
{
    h.inner.reset();
}

/// `Histogram::max`. No recorded value is above the result. An empty
/// histogram whose lowest discernible value is 1 answers 0.
#[verifier::external_body]
pub(crate) fn max(h: &LatencyHistogram) -> (out: u64)
    ensures
        forall|v: u64| samples_of(*h).contains(v) ==> v <= out,
        samples_of(*h).len() == 0 && low_of(*h) == 1 ==> out == 0,
{
    h.inner.max()
}

/// `Histogram::len`. The number of values recorded, as long as that number
/// fits in a `u64`.
#[verifier::external_body]
pub(crate) fn len(h: &LatencyHistogram) -> (out: u64)
    ensures
        samples_of(*h).len() <= u64::MAX ==> out == samples_of(*h).len(),
{
    h.inner.len()
}

/// `Histogram::iter_recorded`. The non-empty buckets as `(value, count)`
/// pairs, by rising value. As long as the number of recorded values fits in a
/// `u64`, the counts add up to it.
#[verifier::external_body]
pub(crate) fn recorded(h: &LatencyHistogram) -> (out: Vec<(u64, u64)>)
    ensures
        is_bucket_list(out@),
        samples_of(*h).len() <= u64::MAX ==> total_count(out@) == samples_of(*h).len(),
{
    h.inner.iter_recorded().map(|v| (v.value_iterated_to(), v.count_at_value())).collect()
}

} // verus!
