//! Latency histograms of the `hdrhistogram` crate.

use vstd::multiset::Multiset;
use vstd::prelude::*;

verus! {

/// A histogram of the `hdrhistogram` crate with three significant digits. It
/// counts values up to a limit.
#[verifier::external_body]
pub struct LatencyHistogram {
    inner: hdrhistogram::Histogram<u64>,
}

/// The values that were recorded.
pub uninterp spec fn samples(h: LatencyHistogram) -> Multiset<u64>;

/// The largest value that can be recorded.
pub uninterp spec fn limit(h: LatencyHistogram) -> u64;

/// What `Histogram::value_at_percentile` makes of values that were recorded with
/// three significant digits.
pub uninterp spec fn percentile_of(recorded: Multiset<u64>, percent: Seq<char>) -> u64;

/// The bits of what `Histogram::mean` makes of values that were recorded with
/// three significant digits.
pub uninterp spec fn mean_of(recorded: Multiset<u64>) -> u64;

/// The last value below the first span that exceeds `high`; spans double.
pub open spec fn covered(span: int, high: int) -> int
    decreases
        (if span > high {
            0
        } else {
            high - span + 1
        }),
    when span > 0
{
    if span > high {
        span - 1
    } else {
        covered(2 * span, high)
    }
}

/// `Histogram::new_with_bounds`: an empty histogram that does not resize. With
/// three significant digits the first bucket holds 2048 values and each further
/// one doubles the span; as many are made as it takes to hold `high`.
#[verifier::external_body]
pub(crate) fn new_with_bounds(low: u64, high: u64, sigfig: u8) -> (r: Option<LatencyHistogram>)
    requires
        low == 1,
        sigfig == 3,
        2 <= high < 0x4000_0000_0000_0000,
    ensures
        r is Some,
        samples(r.unwrap()) == Multiset::<u64>::empty(),
        limit(r.unwrap()) == covered(2048, high as int),
{
    hdrhistogram::Histogram::new_with_bounds(low, high, sigfig).ok().map(
        |inner| LatencyHistogram { inner },
    )
}

/// `Histogram::record`: counts `value` where it is not beyond the largest value
/// that can be recorded, and refuses it otherwise. The result tells which.
#[verifier::external_body]
pub(crate) fn record(h: &mut LatencyHistogram, value: u64) -> (r: bool)
    ensures
        r == (value <= limit(*old(h))),
        limit(*final(h)) == limit(*old(h)),
        samples(*final(h)) == (if r {
            samples(*old(h)).insert(value)
        } else {
            samples(*old(h))
        }),
{
    h.inner.record(value).is_ok()
}

/// `Histogram::is_empty`: nothing was recorded.
#[verifier::external_body]
pub(crate) fn is_empty(h: &LatencyHistogram) -> (r: bool)
    ensures
        r == (samples(*h).len() == 0),
{
    h.inner.is_empty()
}

/// The order of the percentiles that reports show; other percentages have none.
pub open spec fn percent_rank(percent: Seq<char>) -> int {
    if percent == "50"@ {
        1
    } else if percent == "90"@ {
        2
    } else if percent == "99"@ {
        3
    } else if percent == "99.9"@ {
        4
    } else {
        0
    }
}

/// `value` is a recorded value, or at most one part in a thousand above one.
pub open spec fn near_sample(value: u64, recorded: Multiset<u64>) -> bool {
    exists|x: u64|
        #![trigger recorded.count(x)]
        recorded.count(x) > 0 && x <= value && (value - x) * 1000 <= x
}

/// No percentile up to `percent` is larger than `value`.
pub open spec fn tops_percentiles(value: u64, recorded: Multiset<u64>, percent: Seq<char>) -> bool {
    forall|q: Seq<char>|
        0 < percent_rank(q) <= percent_rank(percent) ==> #[trigger] percentile_of(recorded, q)
            <= value
}

/// `Histogram::value_at_percentile` of a percentage in decimal notation. The
/// value depends on what was recorded alone and is named. It lies within one
/// part in a thousand above a recorded value, and a larger percentage never
/// gives a smaller value. Which recorded value it is, is left unsaid: the crate
/// computes the rank in floating point.
#[verifier::external_body]
pub(crate) fn value_at_percentile(h: &LatencyHistogram, percent: &str) -> (r: u64)
    requires
        percent_rank(percent@) > 0,
        0 < samples(*h).len() <= u64::MAX,
    ensures
        r == percentile_of(samples(*h), percent@),
        near_sample(r, samples(*h)),
        tops_percentiles(r, samples(*h), percent@),
{
    h.inner.value_at_percentile(percent.parse().unwrap_or_default())
}

/// The bits of `Histogram::mean`, which depends on what was recorded alone. The
/// value is only named: it is computed in floating point.
#[verifier::external_body]
pub(crate) fn mean_bits(h: &LatencyHistogram) -> (r: u64)
    requires
        0 < samples(*h).len() <= u64::MAX,
    ensures
        r == mean_of(samples(*h)),
{
    h.inner.mean().to_bits()
}

} // verus!
