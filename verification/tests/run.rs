use power_test::binary64::Real;
use power_test::config::{LoadPattern, RunStatus};
use power_test::runner::executor::{
    checkpoint_period, drain_step, run_outcome, scheduler_step, Drain, SchedulerAction,
    SchedulerEvent,
};
use power_test::runner::metrics::MetricsAggregator;
use power_test::runner::pattern::{spike_rps_at, Pacer, SpikeWindow, Wait};

fn number(x: f64) -> Real {
    Real { bits: x.to_bits() }
}

#[test]
fn spike_current_rps_reflects_phase() {
    let windows =
        vec![SpikeWindow { from: number(5.0), until: number(7.0), rps: number(50.0) }];
    let rate = |t: f64| f64::from_bits(spike_rps_at(number(3.0), &windows, number(t)).bits);
    assert_eq!(rate(0.0), 3.0);
    assert_eq!(rate(5.0), 50.0);
    assert_eq!(rate(6.0), 50.0);
    assert_eq!(rate(7.0), 3.0);
    assert_eq!(rate(8.0), 3.0);
}

#[test]
fn the_first_of_two_bursts_counts() {
    let windows = vec![
        SpikeWindow { from: number(0.0), until: number(4.0), rps: number(8.0) },
        SpikeWindow { from: number(2.0), until: number(6.0), rps: number(9.0) },
    ];
    assert_eq!(spike_rps_at(number(1.0), &windows, number(3.0)), number(8.0));
    assert_eq!(spike_rps_at(number(1.0), &windows, number(5.0)), number(9.0));
}

#[test]
fn a_pacer_fires_at_once_and_then_waits() {
    let mut p = Pacer::new(1000);
    assert_eq!(p.tick(1500), Wait::Fire);
    p.fired(1500, 500);
    assert_eq!(p.tick(1600), Wait::Sleep(400));
    p.fired(2000, 500);
    assert_eq!(p.tick(9000), Wait::Sleep(0));
}

#[test]
fn ramp_tick_count_matches_elapsed_time() {
    let mut p = Pacer::new(0);
    let mut now: u128 = 0;
    assert_eq!(p.tick(now), Wait::Fire);
    let mut count = 1;
    loop {
        match p.tick(now) {
            Wait::Fire => panic!("only the first request is due at once"),
            Wait::Sleep(nanos) => now += nanos,
        }
        p.fired(now, 500_000_000);
        count += 1;
        if now >= 4_500_000_000 {
            break;
        }
    }
    assert!((8..=12).contains(&count), "expected ~10 ticks in 4.5s @ 2rps, got {count}");
}

#[test]
fn a_due_request_is_sent_or_skipped() {
    let mut agg = MetricsAggregator::new("t".to_string());
    let step = |e: SchedulerEvent, agg: &mut MetricsAggregator| scheduler_step(e, 10, agg);
    let ready = SchedulerEvent::Ready { elapsed_nanos: 9_999_999_999 };
    assert_eq!(step(ready, &mut agg), SchedulerAction::Wait);
    assert_eq!(step(SchedulerEvent::Due, &mut agg), SchedulerAction::TakeSlot);
    assert_eq!(
        step(SchedulerEvent::SlotTaken { second: 9 }, &mut agg),
        SchedulerAction::Send
    );
    assert_eq!(step(SchedulerEvent::NoSlot, &mut agg), SchedulerAction::Skip);
    let over = SchedulerEvent::Ready { elapsed_nanos: 10_000_000_000 };
    assert_eq!(step(over, &mut agg), SchedulerAction::Stop);
    assert_eq!(step(SchedulerEvent::Cancelled, &mut agg), SchedulerAction::Stop);
    assert_eq!(agg.scheduled(), 1);
    assert_eq!(agg.skipped(), 1);
    assert_eq!(agg.per_second_started().get(&9), Some(&1));
}

#[test]
fn only_soak_runs_write_checkpoints() {
    let soak = |secs: u64| LoadPattern::Soak { rps: number(1.0), checkpoint_secs: secs };
    assert_eq!(checkpoint_period(&soak(60)), Some(60));
    assert_eq!(checkpoint_period(&soak(0)), None);
    assert_eq!(checkpoint_period(&LoadPattern::Constant { rps: number(1.0) }), None);
}

#[test]
fn a_run_waits_for_its_requests_for_a_while() {
    assert_eq!(drain_step(4, 4, 0), Drain::Done);
    assert_eq!(drain_step(1, 4, 9_999), Drain::Wait(50));
    assert_eq!(drain_step(1, 4, 10_000), Drain::GiveUp(3));
    assert_eq!(drain_step(4, 4, 10_000), Drain::Done);
    assert_eq!(run_outcome(true), RunStatus::Interrupted);
    assert_eq!(run_outcome(false), RunStatus::Completed);
}
