//! The decisions of a run: when the scheduler goes on, what a tick becomes, and
//! how a run ends.

use super::metrics::{alike, count_in, countable, MetricsAggregator, RunView};
use crate::config::{LoadPattern, RunStatus};
use vstd::prelude::*;

verus! {

/// What happened to the scheduler.
#[derive(Debug, Clone, Copy, PartialEq, Eq, Structural)]
pub enum SchedulerEvent {
    /// It is about to wait; so many nanoseconds of the run are over.
    Ready { elapsed_nanos: u128 },
    /// The run was cancelled while it waited.
    Cancelled,
    /// The next request is due.
    Due,
    /// There was a free slot; the run is in this second.
    SlotTaken { second: u64 },
    /// There was none.
    NoSlot,
}

/// What the scheduler does next.
#[derive(Debug, Clone, Copy, PartialEq, Eq, Structural)]
pub enum SchedulerAction {
    /// Stop for good.
    Stop,
    /// Wait until the next request is due, or the run is cancelled.
    Wait,
    /// Try to take a slot, without waiting for one.
    TakeSlot,
    /// Send a request, which gives the slot back when it is done, and go on.
    Send,
    /// Leave this request out, and go on.
    Skip,
}

/// What the scheduler does, on its own account.
pub open spec fn scheduled_action(event: SchedulerEvent, duration_secs: u64) -> SchedulerAction {
    match event {
        SchedulerEvent::Ready { elapsed_nanos } => if elapsed_nanos >= duration_secs
            * 1_000_000_000 {
            SchedulerAction::Stop
        } else {
            SchedulerAction::Wait
        },
        SchedulerEvent::Cancelled => SchedulerAction::Stop,
        SchedulerEvent::Due => SchedulerAction::TakeSlot,
        SchedulerEvent::SlotTaken { .. } => SchedulerAction::Send,
        SchedulerEvent::NoSlot => SchedulerAction::Skip,
    }
}

/// What becomes of the metrics.
pub open spec fn scheduled_view(event: SchedulerEvent, run: RunView) -> RunView {
    match event {
        SchedulerEvent::SlotTaken { second } => RunView {
            scheduled: (run.scheduled + 1) as u64,
            started: run.started.insert(second, (count_in(run.started, second) + 1) as u64),
            ..run
        },
        SchedulerEvent::NoSlot => RunView { skipped: (run.skipped + 1) as u64, ..run },
        _ => run,
    }
}

/// One step of the scheduler. A request that is due is either sent and counted
/// as scheduled and started, or counted as skipped.
pub fn scheduler_step(
    event: SchedulerEvent,
    duration_secs: u64,
    agg: &mut MetricsAggregator,
) -> (r: SchedulerAction)
    requires
        old(agg).wf(),
        old(agg)@.scheduled < u64::MAX,
        old(agg)@.skipped < u64::MAX,
        event matches SchedulerEvent::SlotTaken { second } ==> count_in(
            old(agg)@.started,
            second,
        ) < u64::MAX,
    ensures
        final(agg).wf(),
        r == scheduled_action(event, duration_secs),
        final(agg)@ == scheduled_view(event, old(agg)@),
{
    match event {
        SchedulerEvent::Ready { elapsed_nanos } => {
            if elapsed_nanos >= duration_secs as u128 * 1_000_000_000 {
                SchedulerAction::Stop
            } else {
                SchedulerAction::Wait
            }
        },
        SchedulerEvent::Cancelled => SchedulerAction::Stop,
        SchedulerEvent::Due => SchedulerAction::TakeSlot,
        SchedulerEvent::SlotTaken { second } => {
            agg.record_scheduled();
            agg.record_started_at(second);
            SchedulerAction::Send
        },
        SchedulerEvent::NoSlot => {
            agg.record_skipped();
            SchedulerAction::Skip
        },
    }
}

/// Every request that was due is counted once, as scheduled or as skipped.
pub proof fn a_due_request_counts_once(event: SchedulerEvent, run: RunView)
    requires
        event is SlotTaken || event is NoSlot,
        run.scheduled < u64::MAX,
        run.skipped < u64::MAX,
    ensures
        scheduled_view(event, run).scheduled + scheduled_view(event, run).skipped == run.scheduled
            + run.skipped + 1,
        scheduled_view(event, run).records == run.records,
        event is NoSlot ==> scheduled_view(event, run).started == run.started,
{
}

/// A scheduler that is asked after the duration is over stops, whatever it
/// missed before.
pub proof fn the_clock_stops_the_scheduler(elapsed_nanos: u128, duration_secs: u64)
    requires
        elapsed_nanos >= duration_secs * 1_000_000_000,
    ensures
        scheduled_action(SchedulerEvent::Ready { elapsed_nanos }, duration_secs)
            == SchedulerAction::Stop,
{
}

/// How often a run writes its metrics to disk: only a soak run does, with a
/// period other than zero.
pub fn checkpoint_period(pattern: &LoadPattern) -> (r: Option<u64>)
    ensures
        r == (match pattern {
            LoadPattern::Soak { checkpoint_secs, .. } => if *checkpoint_secs > 0 {
                Some(*checkpoint_secs)
            } else {
                None
            },
            _ => None,
        }),
{
    match pattern {
        LoadPattern::Soak { checkpoint_secs, .. } => if *checkpoint_secs > 0 {
            Some(*checkpoint_secs)
        } else {
            None
        },
        _ => None,
    }
}

/// What is done about requests that are still under way at the end.
#[derive(Debug, Clone, Copy, PartialEq, Eq, Structural)]
pub enum Drain {
    /// There are none.
    Done,
    /// Look again after so many milliseconds.
    Wait(u64),
    /// The time is over; so many are given up.
    GiveUp(usize),
}

/// How long requests that are under way at the end are waited for, in
/// milliseconds.
pub const DRAIN_LIMIT_MS: u64 = 10_000;

/// How long it takes to look again, in milliseconds.
pub const DRAIN_POLL_MS: u64 = 50;

/// Looks at the free slots out of `concurrency`, after waiting for `waited_ms`.
pub fn drain_step(free: usize, concurrency: usize, waited_ms: u64) -> (r: Drain)
    ensures
        r == (if free >= concurrency {
            Drain::Done
        } else if waited_ms >= DRAIN_LIMIT_MS {
            Drain::GiveUp((concurrency - free) as usize)
        } else {
            Drain::Wait(DRAIN_POLL_MS)
        }),
        free < concurrency && waited_ms < 10_000 ==> r == Drain::Wait(50),
        free < concurrency && waited_ms >= 10_000 ==> (r matches Drain::GiveUp(n) && n + free
            == concurrency),
        free >= concurrency ==> r == Drain::Done,
{
    if free >= concurrency {
        Drain::Done
    } else if waited_ms >= DRAIN_LIMIT_MS {
        Drain::GiveUp(concurrency - free)
    } else {
        Drain::Wait(DRAIN_POLL_MS)
    }
}

/// The outcome of a run that came to its end.
pub fn run_outcome(interrupted: bool) -> (r: RunStatus)
    ensures
        r == (if interrupted {
            RunStatus::Interrupted
        } else {
            RunStatus::Completed
        }),
{
    if interrupted {
        RunStatus::Interrupted
    } else {
        RunStatus::Completed
    }
}

/// Makes a run's metrics anew, where the ones that were shared cannot be taken:
/// from its records, with the counts that no record holds. The counts of each
/// second are not kept.
pub fn rebuilt(agg: &MetricsAggregator) -> (r: MetricsAggregator)
    requires
        countable(agg@.records),
    ensures
        r.wf(),
        alike(r@.records, agg@.records),
        r@ == (RunView {
            records: r@.records,
            started: Map::empty(),
            completed: Map::empty(),
            ..agg@
        }),
{
    let mut fresh = MetricsAggregator::from_records(
        agg.per_request(),
        agg.run_started_at().to_owned(),
    );
    fresh.merge_counters_from(agg);
    fresh
}

/// What follows what: a scheduler that is ready waits until its time is over and
/// stops then; it stops when it is cancelled, takes a slot when a request is
/// due, sends with a slot and leaves the request out without one. Only a taken
/// slot counts as scheduled, and only a missing one as skipped.
pub proof fn every_event_has_its_action(event: SchedulerEvent, duration_secs: u64, run: RunView)
    requires
        run.scheduled < u64::MAX,
        run.skipped < u64::MAX,
    ensures
        match event {
            SchedulerEvent::Ready { elapsed_nanos } => {
                &&& elapsed_nanos < duration_secs * 1_000_000_000 ==> scheduled_action(
                    event,
                    duration_secs,
                ) == SchedulerAction::Wait
                &&& elapsed_nanos >= duration_secs * 1_000_000_000 ==> scheduled_action(
                    event,
                    duration_secs,
                ) == SchedulerAction::Stop
                &&& scheduled_view(event, run) == run
            },
            SchedulerEvent::Cancelled => scheduled_action(event, duration_secs)
                == SchedulerAction::Stop && scheduled_view(event, run) == run,
            SchedulerEvent::Due => scheduled_action(event, duration_secs)
                == SchedulerAction::TakeSlot && scheduled_view(event, run) == run,
            SchedulerEvent::SlotTaken { second } => {
                &&& scheduled_action(event, duration_secs) == SchedulerAction::Send
                &&& scheduled_view(event, run).scheduled == run.scheduled + 1
                &&& scheduled_view(event, run).skipped == run.skipped
                &&& run.started.contains_key(second) && run.started[second] < u64::MAX
                    ==> scheduled_view(event, run).started[second] == run.started[second] + 1
                &&& !run.started.contains_key(second) ==> scheduled_view(
                    event,
                    run,
                ).started[second] == 1
                &&& forall|s: u64|
                    s != second && #[trigger] run.started.contains_key(s) ==> scheduled_view(
                        event,
                        run,
                    ).started[s] == run.started[s]
                &&& scheduled_view(event, run).records == run.records
                &&& scheduled_view(event, run).completed == run.completed
            },
            SchedulerEvent::NoSlot => {
                &&& scheduled_action(event, duration_secs) == SchedulerAction::Skip
                &&& scheduled_view(event, run).skipped == run.skipped + 1
                &&& scheduled_view(event, run).scheduled == run.scheduled
                &&& scheduled_view(event, run).started == run.started
                &&& scheduled_view(event, run).records == run.records
            },
        },
{
}

} // verus!
