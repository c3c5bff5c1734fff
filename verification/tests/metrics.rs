use power_test::client::RequestMetrics;
use power_test::runner::executor::rebuilt;
use power_test::runner::metrics::{
    CompletionContext, HistKind, MetricsAggregator, Percentile, Ratio, RequestRecord, TokenRate,
};

const START: &str = "2026-01-01T00:00:00Z";

fn new_aggregator() -> MetricsAggregator {
    MetricsAggregator::new(START.to_string())
}

fn quotient(r: Ratio) -> f64 {
    if r.den == 0 {
        0.0
    } else {
        r.num as f64 / r.den as f64
    }
}

fn per_second(r: TokenRate) -> f64 {
    r.tokens as f64 / (r.micros as f64 / 1_000_000.0)
}

fn dummy_metrics(us: u64, ttft: Option<u64>, itl: Vec<u64>, tokens: u32) -> RequestMetrics {
    let mut m = RequestMetrics::default();
    m.status = 200;
    m.ttft = ttft.map(|t| t as u128 * 1000);
    m.itl_samples = itl.into_iter().map(|t| t as u128 * 1000).collect();
    m.completion_tokens = tokens;
    m.prompt_tokens = 10;
    m.total_duration = us as u128 * 1000;
    m
}

fn turn(id: &str, n: u32, continuation: bool) -> CompletionContext {
    CompletionContext::turn(id.to_string(), n, continuation)
}

#[test]
fn histogram_percentile_math() {
    let mut agg = new_aggregator();
    for i in 1..=100 {
        let m = dummy_metrics(i * 1000, Some(i * 1000), vec![], 10);
        agg.record_completed(&m, 0, &CompletionContext::none());
    }
    let p50 = agg.percentile(HistKind::Latency, Percentile::P50).unwrap();
    let p99 = agg.percentile(HistKind::Latency, Percentile::P99).unwrap();
    assert!((50_000..=60_000).contains(&p50), "p50 = {}", p50);
    assert!((95_000..=110_000).contains(&p99), "p99 = {}", p99);
}

#[test]
fn percentiles_and_means_follow_the_samples() {
    let mut agg = new_aggregator();
    for us in [1000u64, 2000, 3000, 4000] {
        let m = dummy_metrics(us, None, vec![us], 3);
        agg.record_completed(&m, 0, &CompletionContext::none());
    }
    assert_eq!(agg.percentile(HistKind::Ttft, Percentile::P50), None);
    let p50 = agg.percentile(HistKind::Latency, Percentile::P50).unwrap();
    let p999 = agg.percentile(HistKind::Latency, Percentile::P999).unwrap();
    assert!((2000..=2002).contains(&p50), "p50 = {p50}");
    assert!((4000..=4004).contains(&p999), "p99.9 = {p999}");
    let mean = f64::from_bits(agg.mean(HistKind::Itl).unwrap().bits);
    assert!((mean - 2500.0).abs() < 5.0, "mean = {mean}");
    assert!(agg.mean(HistKind::Ttft).is_none());
}

#[test]
fn requests_beyond_the_limit_are_counted_only() {
    let mut agg = new_aggregator();
    let m = dummy_metrics(100_000_000, None, vec![], 1);
    agg.record_completed(&m, 0, &CompletionContext::none());
    assert_eq!(agg.percentile(HistKind::Latency, Percentile::P50), None);
    assert_eq!(agg.total_requests(), 1);
    let m = dummy_metrics(60_000_000, None, vec![], 1);
    agg.record_completed(&m, 0, &CompletionContext::none());
    assert!(agg.percentile(HistKind::Latency, Percentile::P50).is_some());
}

#[test]
fn empty_histogram_percentile_is_none() {
    let agg = new_aggregator();
    assert_eq!(agg.percentile(HistKind::Latency, Percentile::P50), None);
}

#[test]
fn error_count_and_messages() {
    let mut agg = new_aggregator();
    let mut err = RequestMetrics::default();
    err.status = 500;
    err.error = Some("oops".to_string());
    agg.record_completed(&err, 0, &CompletionContext::none());
    let mut ok = RequestMetrics::default();
    ok.status = 200;
    agg.record_completed(&ok, 0, &CompletionContext::none());
    assert_eq!(agg.error_count(), 1);
    assert_eq!(agg.success_count(), 1);
    let oops: Vec<u64> =
        agg.error_messages().iter().filter(|(m, _)| m == "oops").map(|(_, n)| *n).collect();
    assert_eq!(oops, vec![1]);
    assert_eq!(agg.status_codes().get(&500), Some(&1));
    assert_eq!(agg.total_requests(), 2);
}

#[test]
fn tps_calculation() {
    let rec = RequestRecord {
        started_at: START.to_string(),
        finished_at: START.to_string(),
        status: 200,
        error: None,
        total_duration_us: 1_000_000,
        ttft_us: Some(100_000),
        itl_samples_us: vec![],
        completion_tokens: 20,
        prompt_tokens: 5,
        estimated: false,
        session_id: None,
        session_turn: None,
        session_continuation: false,
        cache_creation_input_tokens: 0,
        cache_hit_input_tokens: 0,
        spec_decoded_tok: 0,
        spec_accepted_tok: 0,
        spec_iterations: 0,
    };
    assert!((per_second(rec.tps().unwrap()) - 20.0).abs() < 0.01);
}

#[test]
fn cache_stats_empty_aggregator_is_zero() {
    let agg = new_aggregator();
    let c = agg.cache_stats();
    assert_eq!(c.cache_creation_total, 0);
    assert_eq!(c.cache_hit_total, 0);
    assert_eq!(quotient(c.rate_overall), 0.0);
    assert_eq!(quotient(c.rate_turn1), 0.0);
    assert_eq!(quotient(c.rate_turn2plus), 0.0);
}

fn cached(prompt: u32, created: u32, hit: u32) -> RequestMetrics {
    let mut m = RequestMetrics::default();
    m.prompt_tokens = prompt;
    m.cache_creation_input_tokens = created;
    m.cache_hit_input_tokens = hit;
    m.status = 200;
    m
}

#[test]
fn cache_stats_single_turn_lands_in_turn1_bucket() {
    let mut agg = new_aggregator();
    agg.record_completed(&cached(100, 80, 0), 0, &CompletionContext::none());
    let c = agg.cache_stats();
    assert_eq!(c.cache_creation_total, 80);
    assert_eq!(c.cache_hit_total, 0);
    assert_eq!(quotient(c.rate_turn1), 0.0);
    assert_eq!(quotient(c.rate_turn2plus), 0.0);
    assert_eq!(quotient(c.rate_overall), 0.0);
}

#[test]
fn cache_stats_two_turn_session_splits_by_turn() {
    let mut agg = new_aggregator();
    agg.record_completed(&cached(100, 100, 0), 0, &turn("s1", 1, false));
    agg.record_completed(&cached(100, 0, 100), 0, &turn("s1", 2, true));
    agg.record_session_finished(false);

    let c = agg.cache_stats();
    assert_eq!(c.cache_creation_total, 100);
    assert_eq!(c.cache_hit_total, 100);
    assert!((quotient(c.rate_overall) * 100.0 - 50.0).abs() < 1e-6);
    assert_eq!(quotient(c.rate_turn1), 0.0);
    assert!((quotient(c.rate_turn2plus) * 100.0 - 100.0).abs() < 1e-6);
    assert_eq!(c.cache_creation_turn1, 100);
    assert_eq!(c.cache_creation_turn2plus, 0);
    assert_eq!(c.cache_hit_turn1, 0);
    assert_eq!(c.cache_hit_turn2plus, 100);
}

#[test]
fn cache_stats_zero_prompt_tokens_does_not_pollute_rate() {
    let mut agg = new_aggregator();
    let mut m = cached(0, 0, 0);
    m.status = 500;
    m.error = Some("oops".to_string());
    agg.record_completed(&m, 0, &CompletionContext::none());
    let c = agg.cache_stats();
    assert_eq!(quotient(c.rate_overall), 0.0);
    assert_eq!(c.prompt_turn1, 0);
    assert_eq!(c.prompt_turn2plus, 0);
}

#[test]
fn cache_stats_from_records_replays_per_turn_buckets() {
    let mut saved: Vec<RequestRecord> = Vec::new();
    for n in 1u32..=2 {
        let m = cached(100, if n == 1 { 100 } else { 0 }, if n == 1 { 0 } else { 100 });
        saved.push(RequestRecord::from_metrics(&m, &turn("s1", n, n > 1)));
    }
    let reloaded = MetricsAggregator::from_records(&saved, START.to_string());
    let c = reloaded.cache_stats();
    assert_eq!(c.cache_creation_total, 100);
    assert_eq!(c.cache_hit_total, 100);
    assert_eq!(c.cache_creation_turn1, 100);
    assert_eq!(c.cache_creation_turn2plus, 0);
    assert_eq!(c.cache_hit_turn1, 0);
    assert_eq!(c.cache_hit_turn2plus, 100);
}

#[test]
fn merge_counters_from_carries_over_bookkeeping() {
    let mut src = new_aggregator();
    src.record_scheduled();
    src.record_scheduled();
    src.record_skipped();
    src.record_session_finished(false);
    src.record_session_finished(true);
    let mut m = dummy_metrics(500_000, Some(100_000), vec![], 5);
    m.prompt_tokens = 100;
    m.cache_creation_input_tokens = 50;
    m.cache_hit_input_tokens = 30;
    src.record_completed(&m, 0, &turn("s1", 1, false));
    let mut m2 = dummy_metrics(600_000, Some(110_000), vec![], 6);
    m2.prompt_tokens = 200;
    m2.cache_hit_input_tokens = 180;
    src.record_completed(&m2, 0, &turn("s1", 2, true));

    let mut fresh = new_aggregator();
    for r in src.per_request() {
        fresh.push_record_clone(r);
    }
    assert_eq!(fresh.scheduled(), 0);
    assert_eq!(fresh.session_stats().0, 0);
    assert_eq!(fresh.cache_stats().cache_creation_total, 50);
    assert_eq!(fresh.cache_stats().cache_hit_total, 210);

    fresh.merge_counters_from(&src);
    assert_eq!(fresh.scheduled(), 2);
    assert_eq!(fresh.skipped(), 1);
    assert_eq!(fresh.session_stats(), (2, 2, 1));
    assert_eq!(fresh.cache_stats().cache_creation_total, 50);
    assert_eq!(fresh.cache_stats().cache_hit_total, 210);

    let again = rebuilt(&src);
    assert_eq!(again.scheduled(), 2);
    assert_eq!(again.skipped(), 1);
    assert_eq!(again.total_requests(), 2);
}

fn timed(total_ms: u64, ttft_ms: Option<u64>, completion: u32, prompt: u32) -> RequestMetrics {
    let mut m = RequestMetrics::default();
    m.status = 200;
    m.total_duration = total_ms as u128 * 1_000_000;
    m.ttft = ttft_ms.map(|t| t as u128 * 1_000_000);
    m.completion_tokens = completion;
    m.prompt_tokens = prompt;
    m
}

#[test]
fn tpot_ms_average_over_requests() {
    let mut agg = new_aggregator();
    for _ in 0..2 {
        agg.record_completed(&timed(200, Some(50), 100, 10), 0, &CompletionContext::none());
    }
    let tpot = quotient(agg.tpot_ms()) / 1000.0;
    assert!(tpot > 1.4 && tpot < 1.6, "tpot = {} (expected ~1.5)", tpot);
    assert_eq!(agg.tpot_ms(), Ratio { num: 300_000, den: 198 });
}

#[test]
fn tpot_ms_zero_for_short_responses() {
    let mut agg = new_aggregator();
    for _ in 0..3 {
        agg.record_completed(&timed(100, Some(50), 1, 0), 0, &CompletionContext::none());
    }
    assert_eq!(quotient(agg.tpot_ms()), 0.0);
}

#[test]
fn output_throughput_matches_total_per_sec() {
    let mut agg = new_aggregator();
    agg.record_completed(&timed(1000, Some(100), 1000, 100), 0, &CompletionContext::none());
    let t = per_second(agg.output_throughput_tps());
    assert!((t - 1000.0).abs() < 0.1, "got {} tok/s", t);
}

#[test]
fn total_throughput_includes_prompt() {
    let mut agg = new_aggregator();
    agg.record_completed(&timed(1000, Some(100), 500, 500), 0, &CompletionContext::none());
    let t = per_second(agg.total_throughput_tps());
    assert!((t - 1000.0).abs() < 0.1, "got {} tok/s", t);
}

#[test]
fn avg_turns_per_request_basic() {
    let mut agg = new_aggregator();
    for _ in 0..3 {
        agg.record_completed(&timed(100, None, 1, 0), 0, &CompletionContext::none());
    }
    assert!((quotient(agg.avg_turns_per_request()) - 1.0).abs() < 1e-9);
    for t in 1u32..=3 {
        agg.record_completed(&timed(100, None, 5, 0), 0, &turn("s1", t, t > 1));
    }
    assert!((quotient(agg.avg_turns_per_request()) - 1.0).abs() < 1e-9);
}

#[test]
fn speculative_stats_zero_by_default() {
    let agg = new_aggregator();
    let (d, a) = agg.speculative_stats();
    assert_eq!(quotient(d), 0.0);
    assert_eq!(quotient(a), 0.0);
}

#[test]
fn speculative_stats_with_data() {
    let mut agg = new_aggregator();
    let mut m = timed(100, None, 10, 0);
    m.spec_decoded_tok = 20;
    m.spec_accepted_tok = 8;
    m.spec_iterations = 4;
    agg.record_completed(&m, 0, &CompletionContext::none());
    let (d, a) = agg.speculative_stats();
    assert!((quotient(d) - 5.0).abs() < 1e-9);
    assert!((quotient(a) * 100.0 - 40.0).abs() < 1e-9);
}

#[test]
fn seconds_are_counted_apart() {
    let mut agg = new_aggregator();
    agg.record_started_at(0);
    agg.record_started_at(0);
    agg.record_started_at(2);
    agg.record_completed(&timed(10, None, 1, 1), 1, &CompletionContext::none());
    assert_eq!(agg.per_second_started().get(&0), Some(&2));
    assert_eq!(agg.per_second_started().get(&2), Some(&1));
    assert_eq!(agg.per_second_started().get(&1), None);
    assert_eq!(agg.per_second_completed().get(&1), Some(&1));
    assert_eq!(agg.run_started_at(), START);
    agg.set_run_started_at("later".to_string());
    assert_eq!(agg.run_started_at(), "later");
}

#[test]
fn rates_are_those_of_the_requests_with_tokens() {
    let mut agg = new_aggregator();
    agg.record_completed(&timed(500, None, 10, 1), 0, &CompletionContext::none());
    agg.record_completed(&timed(500, None, 0, 1), 0, &CompletionContext::none());
    let rates = agg.tps_values();
    assert_eq!(rates, vec![TokenRate { tokens: 10, micros: 500_000 }]);
    assert_eq!(agg.total_completion_tokens(), 10);
    assert_eq!(agg.total_prompt_tokens(), 2);
}
