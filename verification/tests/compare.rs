use power_test::binary64::Real;
use power_test::client::RequestMetrics;
use power_test::compare::{
    color_class, colorize, compute, format_delta, render_html, render_text, shape_warnings,
    AggregatorSnapshot, Change, ColorClass, CompareFigures, CompareInputs, Delta, Direction,
    LatencyPair, LatencyQuartiles, MetricDiff, SideFigures,
};
use power_test::config::{
    ApiKind, DatasetSpec, LoadPattern, PromptDistribution, PromptSource, RequestStrategy,
    RunConfig, RunStatus,
};
use power_test::report::data::{CompareNumbers, SideNumbers};
use power_test::runner::metrics::{
    CompletionContext, MetricsAggregator, RequestRecord, TokenRate,
};

fn number(x: f64) -> Real {
    Real { bits: x.to_bits() }
}

fn cfg(run_id: &str, model: &str, target: &str, duration: u64, rps: f64) -> RunConfig {
    RunConfig {
        run_id: run_id.to_string(),
        target: target.to_string(),
        api: ApiKind::Openai,
        model: model.to_string(),
        prompt: PromptSource::Literal { text: "hi".to_string() },
        dataset: DatasetSpec::Literal { text: "hi".to_string() },
        strategy: RequestStrategy::Random,
        prompt_distribution: PromptDistribution::from_single(1),
        pattern: LoadPattern::Constant { rps: number(rps) },
        max_tokens: 16,
        stream: true,
        target_rps: number(rps),
        duration_secs: duration,
        concurrency: 8,
        tag: None,
        api_key: None,
        started_at: "2026-01-01T00:00:00Z".to_string(),
        raw_body_file: None,
        raw_content_type: None,
        model_alias: None,
    }
}

fn make_record(
    latency_ms: u64,
    ttft_ms: Option<u64>,
    itl: Vec<u64>,
    tokens: u32,
) -> RequestRecord {
    RequestRecord {
        started_at: "t".to_string(),
        finished_at: "t".to_string(),
        status: 200,
        error: None,
        total_duration_us: latency_ms * 1000,
        ttft_us: ttft_ms.map(|v| v * 1000),
        itl_samples_us: itl.into_iter().map(|v| v * 1000).collect(),
        completion_tokens: tokens,
        prompt_tokens: 5,
        estimated: false,
        session_id: None,
        session_turn: None,
        session_continuation: false,
        cache_creation_input_tokens: 0,
        cache_hit_input_tokens: 0,
        spec_decoded_tok: 0,
        spec_accepted_tok: 0,
        spec_iterations: 0,
    }
}

fn delta(a: f64, b: f64) -> Delta {
    let pct = if a.abs() < f64::EPSILON { None } else { Some(number((b - a) / a * 100.0)) };
    Delta { abs: number(b - a), pct }
}

fn change(a: f64, b: f64) -> Change {
    let pct = if a == 0.0 { 0.0 } else { (b - a) / a * 100.0 };
    Change {
        delta: delta(a, b),
        abs_text: format!("{:.2}", b - a),
        pct_text: format!("{:.2}", pct),
    }
}

fn millis(x: Option<u64>) -> f64 {
    x.unwrap_or(0) as f64 / 1000.0
}

fn mean_rate(rates: &[TokenRate]) -> f64 {
    if rates.is_empty() {
        return 0.0;
    }
    rates.iter().map(|r| r.tokens as f64 / (r.micros as f64 / 1e6)).sum::<f64>()
        / rates.len() as f64
}

fn achieved(s: &AggregatorSnapshot) -> f64 {
    if s.duration_secs == 0 {
        0.0
    } else {
        s.total_requests as f64 / s.duration_secs as f64
    }
}

fn success(s: &AggregatorSnapshot) -> f64 {
    if s.total_requests == 0 {
        0.0
    } else {
        s.success_count as f64 / s.total_requests as f64 * 100.0
    }
}

fn side(s: &AggregatorSnapshot) -> SideFigures {
    let two = |x: f64| format!("{x:.2}");
    let mean = s.itl_mean.map(|r| f64::from_bits(r.bits) / 1000.0).unwrap_or(0.0);
    SideFigures {
        target_rps: "2.00".to_string(),
        achieved_rps: two(achieved(s)),
        success_rate: two(success(s)),
        success_short: format!("{:.1}", success(s)),
        latency_p50: two(millis(s.latency_p50)),
        latency_p90: two(millis(s.latency_p90)),
        latency_p99: two(millis(s.latency_p99)),
        latency_p999: two(millis(s.latency_p999)),
        ttft_p50: two(millis(s.ttft_p50)),
        ttft_p99: two(millis(s.ttft_p99)),
        itl_mean: two(mean),
        itl_p99: two(millis(s.itl_p99)),
        tps_mean: two(mean_rate(&s.token_rates)),
        tps_p99: two(mean_rate(&s.token_rates)),
        duration: format!("{}", s.duration_secs),
    }
}

fn figures(inputs: &CompareInputs) -> (CompareFigures, Vec<String>) {
    let (a, b, warnings) = compute(inputs);
    let ms = |x: Option<u64>, y: Option<u64>| change(millis(x), millis(y));
    let diff = MetricDiff {
        achieved_rps: change(achieved(&a), achieved(&b)),
        total_requests: change(a.total_requests as f64, b.total_requests as f64),
        success_rate: change(success(&a), success(&b)),
        latency: LatencyQuartiles {
            p50: ms(a.latency_p50, b.latency_p50),
            p90: ms(a.latency_p90, b.latency_p90),
            p99: ms(a.latency_p99, b.latency_p99),
            p99_9: ms(a.latency_p999, b.latency_p999),
        },
        ttft: LatencyPair {
            first: ms(a.ttft_p50, b.ttft_p50),
            second: ms(a.ttft_p99, b.ttft_p99),
        },
        itl: LatencyPair {
            first: change(0.0, 0.0),
            second: ms(a.itl_p99, b.itl_p99),
        },
        tps: LatencyPair {
            first: change(mean_rate(&a.token_rates), mean_rate(&b.token_rates)),
            second: change(0.0, 0.0),
        },
        total_tokens: change(
            a.total_completion_tokens as f64,
            b.total_completion_tokens as f64,
        ),
        duration_secs: change(a.duration_secs as f64, b.duration_secs as f64),
    };
    let numbers = || SideNumbers {
        target_rps: serde_json::Value::from(2.0),
        success_rate: serde_json::Value::from(100.0),
        achieved_rps: serde_json::Value::from(0.5),
        latency_ms: serde_json::Value::Null,
    };
    let data = CompareNumbers { a: numbers(), b: numbers(), diff: serde_json::Value::Null };
    (CompareFigures { a: side(&a), b: side(&b), diff, data }, warnings)
}

fn inputs(
    cfg_a: RunConfig,
    records_a: Vec<RequestRecord>,
    cfg_b: RunConfig,
    records_b: Vec<RequestRecord>,
) -> CompareInputs {
    CompareInputs {
        cfg_a,
        records_a,
        status_a: RunStatus::Completed,
        cfg_b,
        records_b,
        status_b: RunStatus::Completed,
    }
}

const TARGET: &str = "http://x/v1/chat/completions";

#[test]
fn color_class_picks_good_bad_neutral() {
    assert_eq!(color_class(delta(100.0, 50.0), Direction::Down), ColorClass::Good);
    assert_eq!(color_class(delta(100.0, 200.0), Direction::Down), ColorClass::Bad);
    assert_eq!(color_class(delta(10.0, 12.0), Direction::Up), ColorClass::Good);
    assert_eq!(color_class(delta(10.0, 8.0), Direction::Up), ColorClass::Bad);
    assert_eq!(color_class(delta(100.0, 100.4), Direction::Up), ColorClass::Neutral);
    assert_eq!(color_class(delta(60.0, 30.0), Direction::Neutral), ColorClass::Neutral);
}

#[test]
fn diff_is_correct_for_synthetic_runs() {
    let records_a: Vec<RequestRecord> =
        (0..4).map(|_| make_record(50, Some(20), vec![10, 10], 10)).collect();
    let records_b: Vec<RequestRecord> =
        (0..6).map(|_| make_record(30, Some(15), vec![7, 7, 7], 10)).collect();
    let inputs =
        inputs(cfg("a", "m", TARGET, 2, 2.0), records_a, cfg("b", "m", TARGET, 2, 2.0), records_b);
    let (f, warnings) = figures(&inputs);
    assert!(warnings.is_empty(), "expected no shape warnings, got {warnings:?}");
    let abs = |c: &Change| f64::from_bits(c.delta.abs.bits);
    let pct = |c: &Change| f64::from_bits(c.delta.pct.unwrap().bits);
    assert!((abs(&f.diff.achieved_rps) - 1.0).abs() < 1e-6);
    assert!((pct(&f.diff.achieved_rps) - 50.0).abs() < 1e-6);
    assert!((abs(&f.diff.total_requests) - 2.0).abs() < 1e-6);
    assert!(abs(&f.diff.success_rate).abs() < 1e-6);
    assert!((abs(&f.diff.latency.p50) + 20.0).abs() < 0.5);
    assert!((pct(&f.diff.latency.p50) + 40.0).abs() < 1.0);
}

#[test]
fn shape_warnings_detect_incompatible_runs() {
    let cfg_a = cfg("a", "m1", TARGET, 2, 2.0);
    let mut cfg_b = cfg("b", "m2", TARGET, 2, 2.0);
    cfg_b.pattern = LoadPattern::Ramp {
        start: number(1.0),
        end: number(5.0),
        duration_secs: number(2.0),
    };
    let cfg_c = cfg("c", "m1", "http://y/v1/chat/completions", 2, 2.0);

    let w = shape_warnings(&cfg_a, &cfg_b);
    assert!(w.iter().any(|s| s.contains("model")));
    assert!(w.iter().any(|s| s.contains("pattern")));

    let w = shape_warnings(&cfg_a, &cfg_c);
    assert!(w.iter().any(|s| s.contains("target")));

    let w = shape_warnings(&cfg_a, &cfg_a);
    assert!(w.is_empty());
}

fn pair(ids: (&str, &str)) -> CompareInputs {
    inputs(
        cfg(ids.0, "m", TARGET, 2, 2.0),
        vec![make_record(50, Some(20), vec![10, 10], 10)],
        cfg(ids.1, "m", TARGET, 2, 2.0),
        vec![make_record(80, Some(30), vec![15, 15, 15], 12)],
    )
}

#[test]
fn text_render_includes_metrics_and_deltas() {
    let inputs = pair(("aaaa", "bbbb"));
    let out = render_text(&inputs, &figures(&inputs).0, false);
    assert!(out.contains("power_test compare"));
    assert!(out.contains("aaaa"));
    assert!(out.contains("bbbb"));
    assert!(out.contains("achieved rps"));
    assert!(out.contains("latency (ms)"));
    assert!(out.contains("tps (tokens/sec)"));
    assert!(out.contains("duration (s)"));
    assert!(out.contains("+30.0"), "the change of the latency: {out}");
}

#[test]
fn text_render_emits_ansi_when_color_enabled() {
    let inputs = inputs(
        cfg("a", "m", TARGET, 2, 2.0),
        vec![make_record(50, Some(20), vec![10, 10], 10)],
        cfg("b", "m", TARGET, 2, 2.0),
        vec![make_record(20, Some(15), vec![7, 7], 12)],
    );
    let (f, _) = figures(&inputs);
    let out_color = render_text(&inputs, &f, true);
    let out_plain = render_text(&inputs, &f, false);
    assert!(out_color.contains("\x1b["), "expected ANSI escape in color output");
    assert!(!out_plain.contains('\x1b'));
}

#[test]
fn html_render_contains_run_ids_and_metrics() {
    let inputs = pair(("run-aaa", "run-bbb"));
    let out = render_html(&inputs, &figures(&inputs).0, "now", "", "0.1.0");
    assert!(out.contains("run-aaa"));
    assert!(out.contains("run-bbb"));
    assert!(out.contains("chart.js"));
    assert!(out.contains("latency_ms"));
    assert!(out.contains("<table"));
}

#[test]
fn html_render_does_not_panic_with_empty_data() {
    let inputs =
        inputs(cfg("a", "m", "http://x", 0, 1.0), vec![], cfg("b", "m", "http://x", 0, 1.0), vec![]);
    let out = render_html(&inputs, &figures(&inputs).0, "now", "", "0.1.0");
    assert!(out.contains("power_test compare"));
}

#[test]
fn the_page_holds_its_library_and_its_data() {
    let mut inputs = pair(("run-aaa", "run-bbb"));
    inputs.cfg_b.model = "a & b </script>".to_string();
    let out = render_html(&inputs, &figures(&inputs).0, "now", "/* charts */", "0.1.0");
    assert!(out.contains(">/* charts */</script>"));
    assert!(!out.contains("src=\"http"));
    let marker = "<script id=\"compare-data\" type=\"application/json\">";
    let start = out.find(marker).unwrap() + marker.len();
    let end = start + out[start..].find("</script>").unwrap();
    let data: serde_json::Value = serde_json::from_str(&out[start..end]).unwrap();
    assert_eq!(data["a"]["run_id"], "run-aaa");
    assert_eq!(data["b"]["model"], "a & b </script>");
    assert_eq!(data["a"]["total_requests"], inputs.records_a.len());
    assert_eq!(data["a"]["achieved_rps"], 0.5);
    assert_eq!(data["b"]["status"], inputs.status_b.as_str());
}

#[test]
fn text_render_does_not_panic_with_empty_data() {
    let inputs =
        inputs(cfg("a", "m", "http://x", 0, 1.0), vec![], cfg("b", "m", "http://x", 0, 1.0), vec![]);
    let out = render_text(&inputs, &figures(&inputs).0, false);
    assert!(out.contains("power_test compare"));
}

#[test]
fn colorize_wraps_in_ansi_codes() {
    assert!(colorize("hi", ColorClass::Good).contains("\x1b[32m"));
    assert!(colorize("hi", ColorClass::Bad).contains("\x1b[31m"));
    assert!(colorize("hi", ColorClass::Neutral).contains("\x1b[90m"));
}

#[test]
fn changes_are_written_with_and_without_a_percentage() {
    let c = change(10.0, 12.0);
    let with = format_delta(&c, true);
    assert_eq!(with, "+2.00  (+20.00%)");
    assert_eq!(format_delta(&c, false), "+2.00");
    assert_eq!(format_delta(&change(0.0, 5.0), true), "+5.00  (n/a)");
    assert_eq!(format_delta(&change(12.0, 9.0), true), "-3.00  (-25.00%)");
}

#[test]
fn warnings_come_before_the_table() {
    let inputs = inputs(
        cfg("a", "m1", TARGET, 2, 2.0),
        vec![],
        cfg("b", "m2", TARGET, 2, 2.0),
        vec![],
    );
    let out = render_text(&inputs, &figures(&inputs).0, false);
    let warning = out.find("m2").unwrap();
    assert!(warning < out.find("achieved rps").unwrap());
}

#[test]
fn snapshot_uses_metrics_correctly() {
    let mut agg = MetricsAggregator::new("t".to_string());
    let mut m = RequestMetrics::default();
    m.status = 200;
    m.total_duration = 100_000_000;
    m.ttft = Some(50_000_000);
    m.completion_tokens = 10;
    m.itl_samples = vec![10_000_000; 5];
    agg.record_completed(&m, 0, &CompletionContext::none());
    let snap = AggregatorSnapshot::from(&agg, &cfg("s", "m", "http://x", 1, 1.0));
    assert!((achieved(&snap) - 1.0).abs() < 1e-6);
    assert!((success(&snap) - 100.0).abs() < 1e-6);
    assert!(snap.total_completion_tokens == 10);
    assert!((mean_rate(&snap.token_rates) - 100.0).abs() < 1e-6);
}

#[test]
fn exchanging_the_runs_keeps_the_number_of_warnings() {
    let a = cfg("a", "m1", "http://x", 1, 1.0);
    let b = cfg("b", "m2", "http://y", 1, 1.0);
    assert_eq!(shape_warnings(&a, &b).len(), 3);
    assert_eq!(shape_warnings(&b, &a).len(), 3);
    assert!(shape_warnings(&a, &a).is_empty());
}
