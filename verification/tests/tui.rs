use power_test::binary64::Real;
use power_test::client::RequestMetrics;
use power_test::config::{
    ApiKind, DatasetSpec, LoadPattern, PromptDistribution, PromptSource, RequestStrategy,
    RunConfig,
};
use power_test::runner::metrics::{CompletionContext, MetricsAggregator};
use power_test::tui::{
    apply_action, parse_key_event, render_bottom_bar, render_panels, render_top_bar, shorten,
    view_is_over, CurrentRate, KeyCode, KeyEvent, KeyKind, Panel, PanelFigures, Snapshot,
    TuiAction,
};

fn base_cfg() -> RunConfig {
    RunConfig {
        run_id: "abcd1234-5678-90ab-cdef-1234567890ab".to_string(),
        target: "https://api.example.com/v1/chat/completions".to_string(),
        api: ApiKind::Openai,
        model: "gpt-3.5-turbo".to_string(),
        prompt: PromptSource::Literal { text: "hi".to_string() },
        dataset: DatasetSpec::Literal { text: "hi".to_string() },
        strategy: RequestStrategy::Random,
        prompt_distribution: PromptDistribution::from_single(1),
        pattern: LoadPattern::Constant { rps: Real { bits: 4.0f64.to_bits() } },
        max_tokens: 32,
        stream: true,
        target_rps: Real { bits: 4.0f64.to_bits() },
        duration_secs: 30,
        concurrency: 16,
        tag: Some("tui-test".to_string()),
        api_key: None,
        started_at: "2026-01-01T00:00:00Z".to_string(),
        raw_body_file: None,
        raw_content_type: None,
        model_alias: None,
    }
}

fn empty_figures() -> PanelFigures {
    let dash = || "\u{2014}".to_string();
    PanelFigures {
        target_rps: "4.00".to_string(),
        current_rps: "0.00".to_string(),
        seconds_remaining: "10.0".to_string(),
        latency_p50: dash(),
        latency_p90: dash(),
        latency_p99: dash(),
        ttft_p50: dash(),
        ttft_p99: dash(),
        itl_mean: dash(),
        itl_p99: dash(),
        tps_mean: dash(),
        tps_p99: dash(),
    }
}

fn render(snap: &Snapshot, cfg: &RunConfig) -> String {
    let f = empty_figures();
    let mut out = render_top_bar(cfg, &f).join("\n");
    for panel in [Panel::Latency, Panel::Ttft, Panel::Itl, Panel::Tps] {
        out.push('\n');
        out.push_str(panel.title());
    }
    out.push('\n');
    out.push_str(&render_panels(snap, &f).join("\n"));
    out.push('\n');
    out.push_str(&render_bottom_bar(snap, &f));
    out
}

fn empty_snapshot() -> Snapshot {
    Snapshot::from_aggregator(&MetricsAggregator::new("t".to_string()), 0, 10)
}

#[test]
fn render_produces_nonempty_output_with_empty_aggregator() {
    let s = render(&empty_snapshot(), &base_cfg());
    assert!(!s.is_empty(), "rendered output should be non-empty");
    assert!(s.contains("abcd1234"), "short run id should appear");
    assert!(s.contains("0/0"), "zero counters expected");
}

#[test]
fn render_includes_target_and_model() {
    let mut cfg = base_cfg();
    cfg.target = "http://x/y".to_string();
    let s = render(&empty_snapshot(), &cfg);
    assert!(s.contains("gpt-3.5-turbo"), "model missing: {s}");
    assert!(s.contains("http://x/y"), "target missing: {s}");
}

#[test]
fn render_includes_percentile_labels() {
    let s = render(&empty_snapshot(), &base_cfg());
    assert!(s.contains("p50"), "p50 label missing");
    assert!(s.contains("p99"), "p99 label missing");
    assert!(s.contains("TTFT"), "TTFT label missing");
    assert!(s.contains("ITL"), "ITL label missing");
    assert!(s.contains("TPS"), "TPS label missing");
    assert!(s.contains("Latency"), "Latency label missing");
}

#[test]
fn render_handles_no_aggregator_data() {
    let s = render(&empty_snapshot(), &base_cfg());
    assert!(s.contains("\u{2014}"), "missing em-dash for empty histograms");
}

fn press(code: KeyCode) -> KeyEvent {
    KeyEvent { kind: KeyKind::Press, code }
}

#[test]
fn parse_key_quit_returns_cancel() {
    assert_eq!(parse_key_event(press(KeyCode::Char('q'))), TuiAction::Quit);
    assert_eq!(parse_key_event(press(KeyCode::Esc)), TuiAction::Quit);
}

#[test]
fn parse_key_pause_returns_pause() {
    assert_eq!(parse_key_event(press(KeyCode::Char('p'))), TuiAction::Pause);
}

#[test]
fn parse_key_other_returns_none() {
    assert_eq!(parse_key_event(press(KeyCode::Char('x'))), TuiAction::Nothing);
    assert_eq!(parse_key_event(press(KeyCode::Other)), TuiAction::Nothing);
    let released = KeyEvent { kind: KeyKind::Release, code: KeyCode::Char('q') };
    assert_eq!(parse_key_event(released), TuiAction::Nothing);
}

#[test]
fn snapshot_from_aggregator_computes_basics() {
    let cfg = base_cfg();
    let mut agg = MetricsAggregator::new("t".to_string());
    let mut m = RequestMetrics::default();
    m.status = 200;
    m.ttft = Some(20_000_000);
    m.itl_samples = vec![15_000_000];
    m.completion_tokens = 5;
    m.total_duration = 100_000_000;
    agg.record_completed(&m, 0, &CompletionContext::none());
    let snap = Snapshot::from_aggregator(&agg, 0, cfg.duration_secs);
    assert_eq!(snap.total, 1);
    assert_eq!(snap.success, 1);
    assert_eq!(snap.errors, 0);
    assert!(snap.latency_p50.is_some());
    assert_eq!(snap.nanos_remaining, 30_000_000_000);
}

#[test]
fn the_rate_is_that_of_the_running_second() {
    let mut agg = MetricsAggregator::new("t".to_string());
    let mut m = RequestMetrics::default();
    m.status = 200;
    agg.record_completed(&m, 2, &CompletionContext::none());
    agg.record_completed(&m, 2, &CompletionContext::none());
    let snap = Snapshot::from_aggregator(&agg, 2_500_000_000, 10);
    assert!(matches!(snap.current_rps, CurrentRate::PerSecond(2)));
}

#[test]
fn quitting_stops_and_pausing_toggles() {
    assert_eq!(apply_action(TuiAction::Quit, false), (true, false));
    assert_eq!(apply_action(TuiAction::Pause, false), (false, true));
    assert_eq!(apply_action(TuiAction::Pause, true), (false, false));
    assert_eq!(apply_action(TuiAction::Nothing, true), (false, true));
}

#[test]
fn long_texts_are_shortened() {
    assert_eq!(shorten("abcdef", 6), "abcdef");
    assert_eq!(shorten("abcdefg", 6), "abc\u{2026}");
}

#[test]
fn the_view_ends_after_the_run() {
    assert!(!view_is_over(9_999_999_999, 10));
    assert!(view_is_over(10_000_000_000, 10));
}
