//! When requests are due.
//!
//! Times are nanoseconds since the start of the run. A variable pattern fires at
//! once the first time; afterwards it waits until the next request is due, and
//! each firing says when that is.

use crate::binary64::Real;
use vstd::prelude::*;

verus! {

/// When the next request of a variable pattern is due.
#[derive(Debug, Clone, Copy, PartialEq, Eq, Structural)]
pub struct Pacer {
    pub fired_first: bool,
    pub next_due: u128,
}

/// What a pacer does when it is asked for the next request.
#[derive(Debug, Clone, Copy, PartialEq, Eq, Structural)]
pub enum Wait {
    /// The request is due, and nothing is left to be done.
    Fire,
    /// Wait for so many nanoseconds, which may be none, and say so.
    Sleep(u128),
}

impl Pacer {
    /// A pacer that is made at `now`.
    pub fn new(now: u128) -> (r: Self)
        ensures
            r == (Pacer { fired_first: false, next_due: now }),
    {
        Pacer { fired_first: false, next_due: now }
    }

    /// How long a pacer that has fired before waits.
    pub open spec fn pause(self, now: u128) -> u128 {
        if now < self.next_due {
            (self.next_due - now) as u128
        } else {
            0
        }
    }

    /// Asks for the next request. The first one is due at once; later ones wait
    /// until they are due, and are over with [`Pacer::fired`].
    pub fn tick(&mut self, now: u128) -> (r: Wait)
        ensures
            final(self).fired_first,
            !old(self).fired_first ==> r == Wait::Fire && final(self).next_due == now,
            old(self).fired_first ==> *final(self) == *old(self) && r == Wait::Sleep(
                old(self).pause(now),
            ),
    {
        if !self.fired_first {
            self.fired_first = true;
            self.next_due = now;
            return Wait::Fire;
        }
        if now < self.next_due {
            Wait::Sleep(self.next_due - now)
        } else {
            Wait::Sleep(0)
        }
    }

    /// The pacer after a request was fired at `fire_at`.
    pub open spec fn after_firing(self, fire_at: u128, period: u128) -> Pacer {
        Pacer { next_due: (fire_at + period) as u128, ..self }
    }

    /// A request was fired at `fire_at`; the next one is due a period later.
    pub fn fired(&mut self, fire_at: u128, period: u128)
        requires
            fire_at + period <= u128::MAX,
        ensures
            *final(self) == old(self).after_firing(fire_at, period),
    {
        self.next_due = fire_at + period;
    }
}

/// Requests keep their distance: whoever waits as told fires the next request no
/// sooner than a whole period after the last one, however late it asks.
pub proof fn requests_keep_their_distance(
    pacer: Pacer,
    fire_at: u128,
    period: u128,
    asked_at: u128,
    next_fire: u128,
)
    requires
        fire_at + period <= u128::MAX,
        next_fire >= asked_at + pacer.after_firing(fire_at, period).pause(asked_at),
    ensures
        next_fire >= fire_at + period,
{
}

/// A burst of requests: from `from` until `until`, in seconds.
#[derive(Debug, Clone, Copy, PartialEq, Eq, Structural)]
pub struct SpikeWindow {
    pub from: Real,
    pub until: Real,
    pub rps: Real,
}

impl SpikeWindow {
    /// Whether a time lies within the burst.
    pub open spec fn covers(self, elapsed: Real) -> bool {
        &&& !self.from.nan() && !elapsed.nan() && self.from.rank() <= elapsed.rank()
        &&& elapsed.less(self.until)
    }

    fn is_active(&self, elapsed: Real) -> (r: bool)
        ensures
            r == self.covers(elapsed),
    {
        !self.from.is_nan() && !elapsed.is_nan() && !elapsed.lt(self.from) && elapsed.lt(self.until)
    }
}

/// The first burst from `i` on that covers a time.
pub open spec fn active_from(windows: Seq<SpikeWindow>, elapsed: Real, i: int) -> Option<
    SpikeWindow,
>
    decreases windows.len() - i,
{
    if i >= windows.len() {
        None
    } else if windows[i].covers(elapsed) {
        Some(windows[i])
    } else {
        active_from(windows, elapsed, i + 1)
    }
}

/// The rate of a spike pattern at a time: that of the first burst that covers
/// it, else the baseline.
pub fn spike_rps_at(baseline: Real, windows: &Vec<SpikeWindow>, elapsed: Real) -> (r: Real)
    ensures
        r == (match active_from(windows@, elapsed, 0) {
            Some(w) => w.rps,
            None => baseline,
        }),
{
    let mut i: usize = 0;
    while i < windows.len()
        invariant
            i <= windows@.len(),
            active_from(windows@, elapsed, 0) == active_from(windows@, elapsed, i as int),
        decreases windows@.len() - i,
    {
        if windows[i].is_active(elapsed) {
            return windows[i].rps;
        }
        i += 1;
    }
    baseline
}

/// Outside of every burst the rate is the baseline.
pub proof fn baseline_outside_of_bursts(windows: Seq<SpikeWindow>, elapsed: Real)
    requires
        forall|i: int| 0 <= i < windows.len() ==> !(#[trigger] windows[i]).covers(elapsed),
    ensures
        active_from(windows, elapsed, 0) is None,
{
    no_burst_from(windows, elapsed, 0);
}

proof fn no_burst_from(windows: Seq<SpikeWindow>, elapsed: Real, i: int)
    requires
        0 <= i,
        forall|j: int| 0 <= j < windows.len() ==> !(#[trigger] windows[j]).covers(elapsed),
    ensures
        active_from(windows, elapsed, i) is None,
    decreases windows.len() - i,
{
    if i < windows.len() {
        assert(!windows[i].covers(elapsed));
        no_burst_from(windows, elapsed, i + 1);
    }
}

/// Where bursts overlap, the first one in the list sets the rate: the one that
/// covers the time while none before it does. A burst covers the times from its
/// start on and before its end.
pub proof fn the_first_covering_burst_sets_the_rate(
    windows: Seq<SpikeWindow>,
    elapsed: Real,
    k: int,
)
    requires
        0 <= k < windows.len(),
        !elapsed.nan() && !windows[k].from.nan() && !windows[k].until.nan(),
        windows[k].from.rank() <= elapsed.rank() && elapsed.rank() < windows[k].until.rank(),
        forall|i: int|
            0 <= i < k ==> (#[trigger] windows[i]).from.nan() || windows[i].until.nan()
                || elapsed.rank() < windows[i].from.rank() || windows[i].until.rank()
                <= elapsed.rank(),
    ensures
        active_from(windows, elapsed, 0) == Some(windows[k]),
{
    bursts_are_passed(windows, elapsed, 0, k);
}

proof fn bursts_are_passed(windows: Seq<SpikeWindow>, elapsed: Real, from: int, k: int)
    requires
        0 <= from <= k <= windows.len(),
        forall|i: int| from <= i < k ==> !(#[trigger] windows[i]).covers(elapsed),
    ensures
        active_from(windows, elapsed, from) == active_from(windows, elapsed, k),
    decreases k - from,
{
    if from < k {
        assert(!windows[from].covers(elapsed));
        bursts_are_passed(windows, elapsed, from + 1, k);
    }
}

/// A pause ends when the next request is due: it lasts until then, or not at all
/// where that time has passed; firing sets the next one a period later.
pub proof fn a_pause_lasts_until_the_next_request(
    pacer: Pacer,
    now: u128,
    fire_at: u128,
    period: u128,
)
    requires
        fire_at + period <= u128::MAX,
    ensures
        now <= pacer.next_due ==> now + pacer.pause(now) == pacer.next_due,
        now >= pacer.next_due ==> pacer.pause(now) == 0,
        pacer.after_firing(fire_at, period).next_due == fire_at + period,
{
}

} // verus!
