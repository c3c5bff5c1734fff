use power_test::binary64::Real;
use power_test::client::RequestMetrics;
use power_test::config::{
    ApiKind, DatasetSpec, LoadPattern, PromptDistribution, PromptSource, RequestStrategy,
    RunConfig, SpikeSpec,
};
use power_test::report::charts::{latency_percentiles, rps_timeline, status_breakdown};
use power_test::report::data::{ReportNumbers, RowNumbers};
use power_test::report::figures::{
    format_pattern_detail, CacheFigures, PatternFigures, PercentileFigures, ReportFigures,
    SpikeFigures,
};
use power_test::report::html::{build_cache_card, render_html, render_html_with_compare, PageParts};
use power_test::report::i18n::{dict_to_json, en_dict, key_count, t, zh_dict, Locale};
use power_test::report::model_dashboard::{render_dashboard, run_summary_from_run, DashboardRow};
use power_test::report::summary::{render_summary, SummaryFigures};
use power_test::runner::metrics::{CompletionContext, HistKind, MetricsAggregator, Percentile};
use power_test::text::html_escape;
use serde_json::Value;

fn number(x: f64) -> Real {
    Real { bits: x.to_bits() }
}

fn new_aggregator() -> MetricsAggregator {
    MetricsAggregator::new("2026-01-01T00:00:00Z".to_string())
}

fn cfg() -> RunConfig {
    RunConfig {
        run_id: "test-run".to_string(),
        target: "https://api.example.com/v1/chat/completions".to_string(),
        api: ApiKind::Openai,
        model: "gpt-3.5-turbo".to_string(),
        prompt: PromptSource::Literal { text: "hi".to_string() },
        dataset: DatasetSpec::Literal { text: "hi".to_string() },
        strategy: RequestStrategy::Random,
        prompt_distribution: PromptDistribution::from_single(1),
        pattern: LoadPattern::Constant { rps: number(2.0) },
        max_tokens: 16,
        stream: true,
        target_rps: number(2.0),
        duration_secs: 5,
        concurrency: 8,
        tag: Some("smoke".to_string()),
        api_key: None,
        started_at: "2026-01-01T00:00:00Z".to_string(),
        raw_body_file: None,
        raw_content_type: None,
        model_alias: None,
    }
}

fn ms(agg: &MetricsAggregator, kind: HistKind, p: Percentile) -> String {
    match agg.percentile(kind, p) {
        Some(us) => format!("{:.2}", us as f64 / 1000.0),
        None => String::new(),
    }
}

fn percentiles(agg: &MetricsAggregator, kind: HistKind) -> PercentileFigures {
    PercentileFigures {
        p50: ms(agg, kind, Percentile::P50),
        p90: ms(agg, kind, Percentile::P90),
        p99: ms(agg, kind, Percentile::P99),
        p999: ms(agg, kind, Percentile::P999),
    }
}

fn same(text: &str) -> PercentileFigures {
    PercentileFigures {
        p50: text.to_string(),
        p90: text.to_string(),
        p99: text.to_string(),
        p999: text.to_string(),
    }
}

fn written(x: Real) -> String {
    format!("{}", f64::from_bits(x.bits))
}

fn pattern_figures(pattern: &LoadPattern) -> PatternFigures {
    match pattern {
        LoadPattern::Constant { rps } => PatternFigures::Constant { rps: written(*rps) },
        LoadPattern::Ramp { start, end, duration_secs } => PatternFigures::Ramp {
            start: written(*start),
            end: written(*end),
            duration_secs: written(*duration_secs),
        },
        LoadPattern::Spike { baseline, spikes } => PatternFigures::Spike {
            baseline: written(*baseline),
            spikes: spikes
                .iter()
                .map(|s| SpikeFigures {
                    at_secs: written(s.at_secs),
                    rps: written(s.rps),
                    duration_secs: written(s.duration_secs),
                })
                .collect(),
        },
        LoadPattern::Soak { rps, checkpoint_secs } => {
            PatternFigures::Soak { rps: written(*rps), checkpoint_secs: *checkpoint_secs }
        }
    }
}

fn figures(c: &RunConfig, agg: &MetricsAggregator) -> ReportFigures {
    ReportFigures {
        target_rps: "2.00".to_string(),
        achieved_rps: "1.20".to_string(),
        success_rate: "100.0".to_string(),
        prompt_mean: "50.0".to_string(),
        latency: percentiles(agg, HistKind::Latency),
        ttft: percentiles(agg, HistKind::Ttft),
        itl: percentiles(agg, HistKind::Itl),
        tps: same("12.50"),
        tpot_ms: "1.50".to_string(),
        output_tps: "10.00".to_string(),
        total_tps: "20.00".to_string(),
        avg_input: "1.0".to_string(),
        avg_output: "2.0".to_string(),
        avg_turns: "1.00".to_string(),
        spec_decoded: "0.00".to_string(),
        spec_accept: "0.0".to_string(),
        pattern: pattern_figures(&c.pattern),
        cache: CacheFigures {
            overall: "50.0%".to_string(),
            turn1: "0.0%".to_string(),
            turn2plus: "100.0%".to_string(),
            bar_overall: 50,
            bar_turn1: 0,
            bar_turn2plus: 100,
        },
        data: ReportNumbers {
            target_rps: Value::from(2.0),
            pattern: Value::from("pattern"),
            dataset: Value::from("dataset"),
            prompt_distribution: Value::from("distribution"),
            values_ms: Value::from(vec![1.5, 2.5, 3.5, 4.5]),
        },
    }
}

fn parts() -> PageParts {
    PageParts { chart_js: "/* Chart.js v4.4.0 */".to_string(), version: "0.1.0".to_string() }
}

fn page(c: &RunConfig, agg: &MetricsAggregator) -> String {
    render_html(c, agg, false, &figures(c, agg), &parts())
}

fn timed(status: u16, total_ms: u64, ttft_ms: Option<u64>, tokens: u32) -> RequestMetrics {
    let mut m = RequestMetrics::default();
    m.status = status;
    m.total_duration = total_ms as u128 * 1_000_000;
    m.ttft = ttft_ms.map(|t| t as u128 * 1_000_000);
    m.completion_tokens = tokens;
    m
}

fn two_turns() -> MetricsAggregator {
    let mut agg = new_aggregator();
    for turn in 1u32..=2 {
        let mut m = RequestMetrics::default();
        m.status = 200;
        m.prompt_tokens = 100;
        m.cache_creation_input_tokens = if turn == 1 { 100 } else { 0 };
        m.cache_hit_input_tokens = if turn == 1 { 0 } else { 100 };
        agg.record_completed(&m, 0, &CompletionContext::turn("s".to_string(), turn, turn > 1));
    }
    agg
}

/// What stands in the script block with the given id.
fn block<'a>(html: &'a str, id: &str) -> &'a str {
    let marker = format!("<script id=\"{id}\" type=\"application/json\">");
    let start = html.find(&marker).expect("script tag must exist") + marker.len();
    let end = html[start..].find("</script>").expect("script must close") + start;
    &html[start..end]
}

#[test]
fn lookup_zh_default() {
    assert_eq!(t(Locale::Zh, "card.target"), "目标");
    assert_eq!(t(Locale::Zh, "metric.latency"), "延迟 (毫秒)");
}

#[test]
fn lookup_en_returns_english() {
    assert_eq!(t(Locale::En, "card.target"), "Target");
    assert_eq!(t(Locale::En, "metric.latency"), "Latency (ms)");
}

#[test]
fn default_locale_is_zh() {
    assert_eq!(Locale::default(), Locale::Zh);
}

#[test]
fn locale_as_str() {
    assert_eq!(Locale::Zh.as_str(), "zh");
    assert_eq!(Locale::En.as_str(), "en");
}

#[test]
fn missing_key_returns_key_string() {
    assert_eq!(t(Locale::Zh, "card.does_not_exist"), "card.does_not_exist");
    assert_eq!(t(Locale::En, "card.does_not_exist"), "card.does_not_exist");
}

#[test]
fn dictionaries_have_same_keys() {
    let zh: std::collections::BTreeSet<&str> = zh_dict().iter().map(|(k, _)| *k).collect();
    let en: std::collections::BTreeSet<&str> = en_dict().iter().map(|(k, _)| *k).collect();
    let only_zh: Vec<&&str> = zh.difference(&en).collect();
    let only_en: Vec<&&str> = en.difference(&zh).collect();
    assert!(only_zh.is_empty(), "keys in zh but not en: {:?}", only_zh);
    assert!(only_en.is_empty(), "keys in en but not zh: {:?}", only_en);
    assert_eq!(zh.len(), key_count());
}

#[test]
fn dict_to_json_is_valid_and_round_trips() {
    let json = dict_to_json(Locale::En);
    let parsed: serde_json::Value =
        serde_json::from_str(&json).expect("en dict must be valid JSON");
    assert_eq!(parsed["card.target"], "Target");
    assert_eq!(parsed["metric.latency"], "Latency (ms)");
    let zh_json = dict_to_json(Locale::Zh);
    let zh_parsed: serde_json::Value =
        serde_json::from_str(&zh_json).expect("zh dict must be valid JSON");
    assert_eq!(zh_parsed["card.target"], "目标");
    assert_eq!(parsed.as_object().unwrap().len(), key_count());
}

#[test]
fn dict_to_json_escapes_unsafe_substrings() {
    let json = dict_to_json(Locale::En);
    assert!(!json.contains("</script>"));
}

#[test]
fn empty_charts() {
    let agg = new_aggregator();
    let lp = latency_percentiles(&agg);
    assert_eq!(lp.labels.len(), 4);
    assert_eq!(lp.values_us.iter().all(|v| *v == 0), true);
    let sb = status_breakdown(&agg);
    assert!(sb.labels.is_empty());
    let rt = rps_timeline(&agg);
    assert!(rt.seconds.is_empty());
}

#[test]
fn populated_charts() {
    let mut agg = new_aggregator();
    agg.record_completed(&timed(200, 50, None, 4), 0, &CompletionContext::none());
    let lp = latency_percentiles(&agg);
    assert_eq!(lp.values_us.len(), 4);
    let sb = status_breakdown(&agg);
    assert_eq!(sb.labels, vec!["200"]);
    assert_eq!(sb.counts, vec![1]);
}

#[test]
fn charts_are_ordered() {
    let mut agg = new_aggregator();
    for status in [500, 200, 404, 200] {
        agg.record_completed(&timed(status, 1, None, 1), 3, &CompletionContext::none());
    }
    agg.record_started_at(7);
    agg.record_started_at(0);
    let sb = status_breakdown(&agg);
    assert_eq!(sb.labels, vec!["200", "404", "500"]);
    assert_eq!(sb.counts, vec![2, 1, 1]);
    let rt = rps_timeline(&agg);
    assert_eq!(rt.seconds, vec![0, 3, 7]);
    assert_eq!(rt.started, vec![1, 0, 1]);
    assert_eq!(rt.completed, vec![0, 4, 0]);
}

#[test]
fn renders_basic_html() {
    let html = page(&cfg(), &new_aggregator());
    assert!(html.contains("power_test report"));
    assert!(html.contains("test-run"));
    assert!(html.contains("smoke"));
    assert!(
        html.contains("Chart.js v4.4.0"),
        "expected chart.js UMD bundle to be inlined in the report"
    );
    assert!(html.contains("metrics-data"));
}

#[test]
fn renders_html_with_data() {
    let mut agg = new_aggregator();
    for _ in 0..5 {
        agg.record_completed(&timed(200, 42, Some(20), 7), 0, &CompletionContext::none());
    }
    let mut err = timed(500, 100, None, 0);
    err.error = Some("boom".to_string());
    agg.record_completed(&err, 0, &CompletionContext::none());
    let html = page(&cfg(), &agg);
    assert!(
        html.contains("42.0") || html.contains("42.1"),
        "expected '42.0x' in HTML output"
    );
    assert!(html.contains("boom"));
}

#[test]
fn html_escapes_quotes() {
    let s = r#"<script>alert("x")</script>"#;
    let e = html_escape(s);
    assert!(!e.contains('<'));
    assert!(!e.contains('>'));
    assert!(!e.contains('"'));
}

#[test]
fn summary_table_fills_all_four_percentiles_per_metric() {
    let mut agg = new_aggregator();
    for i in 1..=50u64 {
        let mut m = timed(200, 100 + i, Some(40 + i / 2), 5);
        m.itl_samples = vec![20_000_000, 30_000_000, 40_000_000];
        agg.record_completed(&m, 0, &CompletionContext::none());
    }
    let html = page(&cfg(), &agg);
    let summary_start = html
        .find(r#"<h2 data-i18n="metric.heading">"#)
        .expect("summary section heading");
    let summary_end = html[summary_start..]
        .find("</table>")
        .map(|i| summary_start + i + "</table>".len())
        .unwrap_or(html.len());
    let summary = &html[summary_start..summary_end];
    let rows: &[(&str, &[&str])] = &[
        ("Latency (ms)", &["延迟 (毫秒)", "Latency (ms)"]),
        ("TTFT (ms)", &["首 token (毫秒)", "TTFT (ms)"]),
        ("ITL (ms)", &["token 间隔 (毫秒)", "ITL (ms)"]),
        ("TPS (tok/s)", &["TPS (token/秒)", "TPS (tok/s)"]),
    ];
    for (label, candidates) in rows {
        let row_start = candidates
            .iter()
            .filter_map(|c| summary.find(c))
            .next()
            .unwrap_or_else(|| panic!("{label} row not found in summary section"));
        let row_end = summary[row_start..]
            .find("</tr>")
            .map(|i| row_start + i + "</tr>".len())
            .unwrap_or(summary.len());
        let row = &summary[row_start..row_end];
        assert!(!row.contains("—"), "{label} row still has a dash: {row}");
        let td_count = row.matches("<td>").count();
        assert_eq!(td_count, 4, "{label} row should have 4 cells, got {td_count}: {row}");
    }
}

#[test]
fn percentiles_without_samples_are_dashes() {
    let html = page(&cfg(), &new_aggregator());
    assert!(html.contains("—"));
}

#[test]
fn html_includes_m2_fields_for_ramp_and_builtin() {
    let mut c = cfg();
    c.pattern = LoadPattern::Ramp {
        start: number(1.0),
        end: number(5.0),
        duration_secs: number(10.0),
    };
    c.dataset = DatasetSpec::Builtin;
    c.strategy = RequestStrategy::RoundRobin;
    c.prompt_distribution = PromptDistribution { count: 12, min: 1, max: 200, total: 600 };
    let html = page(&c, &new_aggregator());
    assert!(
        html.contains("Run identity") || html.contains("基本信息"),
        "missing Run identity subsection"
    );
    assert!(html.contains("Load") || html.contains("负载"), "missing Load subsection");
    assert!(html.contains("Dataset") || html.contains("数据集"), "missing Dataset subsection");
    assert!(html.contains(">ramp<"));
    assert!(html.contains(">built-in<"));
    assert!(html.contains("round-robin"));
    assert!(html.contains("Prompt tokens") || html.contains("Prompt token"));
    assert!(html.contains("12 prompts"));
}

#[test]
fn cache_card_renders_zero_state_when_no_data() {
    let html = page(&cfg(), &new_aggregator());
    assert!(
        html.contains("cache.heading") || html.contains("提示词缓存"),
        "cache section heading must always be present"
    );
    assert!(
        html.contains("cache.no_data") || html.contains("无缓存命中"),
        "zero-state label must appear when no cache data was observed"
    );
}

#[test]
fn html_includes_cache_card_when_data_present() {
    let html = page(&cfg(), &two_turns());
    assert!(
        html.contains("cache.heading") || html.contains("提示词缓存"),
        "section heading missing"
    );
    assert!(html.contains("cache.overall") || html.contains("总体"));
    assert!(html.contains("cache.turn1") || html.contains("第 1 轮"));
    assert!(html.contains("cache.turn2plus") || html.contains("第 2 轮"));
    assert!(html.contains(r#"data-i18n="cache.turn2plus""#));
}

#[test]
fn cache_card_hides_turn2plus_when_no_continuation_turns() {
    let mut agg = new_aggregator();
    let mut m = RequestMetrics::default();
    m.status = 200;
    m.prompt_tokens = 100;
    m.cache_creation_input_tokens = 80;
    agg.record_completed(&m, 0, &CompletionContext::none());
    let html = page(&cfg(), &agg);
    assert!(html.contains("cache.heading") || html.contains("提示词缓存"));
    assert!(
        !html.contains(r#"data-i18n="cache.turn2plus""#),
        "Turn 2+ row must be hidden for single-turn runs"
    );
    assert!(
        html.contains("cache.no_continuations") || html.contains("无第 2 轮"),
        "single-turn runs should show the no-continuations hint"
    );
}

#[test]
fn html_default_lang_is_zh() {
    let html = page(&cfg(), &new_aggregator());
    assert!(
        html.contains(r#"<html lang="zh">"#),
        "default lang must be zh; got: {}",
        html.lines().find(|l| l.contains("<html")).unwrap_or("")
    );
}

#[test]
fn html_embeds_i18n_dict() {
    let html = page(&cfg(), &new_aggregator());
    assert!(
        html.contains(r#"<script id="i18n-dict-en" type="application/json">"#),
        "English dict script must be present"
    );
    assert!(
        html.contains(r#"<script id="i18n-dict-zh" type="application/json">"#),
        "Chinese dict script must be present"
    );
}

#[test]
fn html_contains_language_toggle_button() {
    let html = page(&cfg(), &new_aggregator());
    assert!(html.contains(r#"class="lang-toggle""#), "lang-toggle container must exist");
    assert!(html.contains(r#"data-lang="zh""#), "Chinese toggle button must exist");
    assert!(html.contains(r#"data-lang="en""#), "English toggle button must exist");
}

#[test]
fn html_contains_chinese_labels() {
    let html = page(&cfg(), &new_aggregator());
    for label in &["目标", "模型", "时长", "成功率"] {
        assert!(html.contains(label), "expected Chinese label {label:?} in rendered HTML");
    }
}

#[test]
fn metrics_data_block_is_valid_json() {
    let mut agg = new_aggregator();
    agg.record_completed(&timed(200, 50, None, 3), 0, &CompletionContext::none());
    let html = page(&cfg(), &agg);
    let payload = block(&html, "metrics-data");
    let parsed: serde_json::Value =
        serde_json::from_str(payload).expect("metrics-data JSON must parse cleanly");
    assert!(parsed.get("summary").is_some(), "missing 'summary' key");
    assert!(parsed.get("latencyPercentiles").is_some(), "missing 'latencyPercentiles' key");
    assert!(
        payload.contains('"'),
        "metrics-data JSON must contain literal quote characters; got: {payload}"
    );
}

#[test]
fn metrics_data_block_escapes_closing_script_substring() {
    let error = "<html><body>oops</body></html> </script> ALERT";
    let mut agg = new_aggregator();
    let mut m = RequestMetrics::default();
    m.status = 500;
    m.error = Some(error.to_string());
    agg.record_completed(&m, 0, &CompletionContext::none());
    let html = page(&cfg(), &agg);
    let payload = block(&html, "metrics-data");
    assert!(
        !payload.contains("</script>"),
        "metrics-data block must not contain a raw </script> substring; got: {payload}"
    );
    let parsed: serde_json::Value = serde_json::from_str(payload)
        .expect("metrics-data JSON must parse even with </script> in error text");
    assert!(parsed.get("errors").is_some(), "errors key should be present");
    assert_eq!(parsed["errors"][error], 1);
}

#[test]
fn the_data_of_a_report_follows_from_its_run() {
    let mut agg = new_aggregator();
    agg.record_scheduled();
    agg.record_scheduled();
    agg.record_skipped();
    agg.record_completed(&timed(200, 50, None, 3), 7, &CompletionContext::none());
    agg.record_completed(&timed(404, 10, None, 0), 9, &CompletionContext::none());
    let mut c = cfg();
    c.tag = None;
    let html = render_html(&c, &agg, true, &figures(&c, &agg), &parts());
    let data: Value = serde_json::from_str(block(&html, "metrics-data")).unwrap();
    let summary = &data["summary"];
    assert_eq!(summary["run_id"], c.run_id.as_str());
    assert_eq!(summary["scheduled"], 2);
    assert_eq!(summary["skipped"], 1);
    assert_eq!(summary["total_requests"], 2);
    assert_eq!(summary["interrupted"], true);
    assert_eq!(summary["tag"], Value::Null);
    assert_eq!(summary["strategy"], c.strategy.as_str());
    assert_eq!(summary["target_rps"], 2.0);
    assert_eq!(data["latencyPercentiles"]["labels"][3], "p99.9");
    assert_eq!(data["latencyPercentiles"]["values_ms"][0], 1.5);
    assert_eq!(data["statusBreakdown"]["labels"], Value::from(vec!["200", "404"]));
    assert_eq!(data["statusBreakdown"]["counts"], Value::from(vec![1, 1]));
    assert_eq!(data["rpsTimeline"]["seconds"], Value::from(vec![7, 9]));
    assert_eq!(data["rpsTimeline"]["completed"], Value::from(vec![1, 1]));
}

#[test]
fn i18n_dicts_are_valid_json() {
    let html = page(&cfg(), &new_aggregator());
    for id in &["i18n-dict-en", "i18n-dict-zh"] {
        let payload = block(&html, id);
        let _parsed: serde_json::Value = serde_json::from_str(payload)
            .unwrap_or_else(|e| panic!("{id} JSON must parse: {e}; payload: {payload}"));
    }
}

#[test]
fn compare_links_are_listed_where_there_are_some() {
    let c = cfg();
    let agg = new_aggregator();
    let links = vec![("other-run".to_string(), "compare-a-vs-b.html".to_string())];
    let html = render_html_with_compare(&c, &agg, false, &links, &figures(&c, &agg), &parts());
    assert!(html.contains("compare-a-vs-b.html"));
    assert!(html.contains("other-run"));
    assert!(!page(&c, &agg).contains("compare-a-vs-b.html"));
}

#[test]
fn texts_of_a_run_are_escaped_in_its_page() {
    let mut c = cfg();
    c.model = "<img src=x>".to_string();
    let html = page(&c, &new_aggregator());
    let markup = html.replace(block(&html, "metrics-data"), "");
    assert!(!markup.contains("<img src=x>"));
    assert!(markup.contains("&lt;img src=x&gt;"));
}

fn summary_figures(c: &RunConfig, agg: &MetricsAggregator) -> SummaryFigures {
    SummaryFigures {
        rps: "1.00".to_string(),
        target_rps: "1.00".to_string(),
        achieved_rps: "0.50".to_string(),
        prompt_mean: "50.0".to_string(),
        pattern: pattern_figures(&c.pattern),
        latency: percentiles(agg, HistKind::Latency),
        ttft_p50: ms(agg, HistKind::Ttft, Percentile::P50),
        ttft_p99: ms(agg, HistKind::Ttft, Percentile::P99),
        itl_mean: String::new(),
        itl_p99: String::new(),
        tps_mean: "1.00".to_string(),
        tps_p99: "2.00".to_string(),
        cache_overall: "50.0%".to_string(),
        cache_turn1: "0.0%".to_string(),
        cache_turn2plus: "100.0%".to_string(),
    }
}

fn summary_cfg() -> RunConfig {
    let mut c = cfg();
    c.run_id = "r".to_string();
    c.target = "http://x".to_string();
    c.model = "m".to_string();
    c.pattern = LoadPattern::Constant { rps: number(1.0) };
    c.max_tokens = 8;
    c.target_rps = number(1.0);
    c.duration_secs = 2;
    c.concurrency = 4;
    c.tag = None;
    c
}

fn summary(c: &RunConfig, agg: &MetricsAggregator, interrupted: bool) -> String {
    render_summary(c, agg, interrupted, &summary_figures(c, agg))
}

#[test]
fn summary_contains_key_sections() {
    let text = summary(&summary_cfg(), &new_aggregator(), false);
    assert!(text.contains("power_test summary"));
    assert!(text.contains("latency (ms)"));
    assert!(text.contains("tps (tokens/sec)"));
}

#[test]
fn summary_with_no_data_doesnt_panic() {
    let _ = summary(&summary_cfg(), &new_aggregator(), true);
}

#[test]
fn summary_with_data() {
    let mut agg = new_aggregator();
    agg.record_completed(&timed(200, 50, Some(20), 5), 0, &CompletionContext::none());
    let text = summary(&summary_cfg(), &agg, false);
    assert!(text.contains("p50"));
    assert!(text.contains("tps"));
}

#[test]
fn summary_shows_pattern_and_dataset_lines() {
    let mut c = summary_cfg();
    c.pattern = LoadPattern::Spike {
        baseline: number(3.0),
        spikes: vec![SpikeSpec {
            at_secs: number(5.0),
            rps: number(50.0),
            duration_secs: number(2.0),
        }],
    };
    c.dataset = DatasetSpec::Builtin;
    c.strategy = RequestStrategy::RoundRobin;
    c.prompt_distribution = PromptDistribution { count: 12, min: 1, max: 200, total: 600 };
    let text = summary(&c, &new_aggregator(), false);
    assert!(text.contains("pattern: spike"));
    assert!(text.contains("dataset: built-in"));
    assert!(text.contains("strategy=round-robin"));
    assert!(text.contains("12 prompts"));
    assert_eq!(
        format_pattern_detail(&pattern_figures(&c.pattern)),
        "baseline 3 rps, spikes: t=5s@50rps/2s"
    );
}

#[test]
fn summary_omits_cache_section_when_no_data() {
    let text = summary(&summary_cfg(), &new_aggregator(), false);
    assert!(
        !text.contains("prompt cache"),
        "summary should omit cache section when no cache data was observed"
    );
}

#[test]
fn summary_shows_cache_section_when_data_present() {
    let text = summary(&summary_cfg(), &two_turns(), false);
    assert!(text.contains("prompt cache"), "section header missing");
    assert!(text.contains("hit rate:"), "overall rate line missing");
    assert!(text.contains("turn 1:"), "turn-1 line missing");
    assert!(text.contains("turn 2+:"), "turn-2+ line missing");
    assert!(text.contains("cache creation:"), "cache creation line missing");
}

#[test]
fn a_dashboard_has_a_row_for_each_run() {
    let c = cfg();
    let agg = two_turns();
    let row = |id: &str| {
        let mut run = run_summary_from_run(&c, &agg, format!("{id}/report.html"));
        run.run_id = id.to_string();
        DashboardRow {
            run,
            target_rps: "2.00".to_string(),
            success_rate: "100.0".to_string(),
            latency_p50: "1.00".to_string(),
            latency_p99: "2.00".to_string(),
            tps_mean: "3.00".to_string(),
            cache_rate: "50.0%".to_string(),
            data: RowNumbers {
                target_rps: Value::from(2.0),
                success_rate: Value::from(100.0),
                achieved_rps: Value::from(1.2),
                latency_ms: Value::Null,
                ttft_ms: Value::Null,
                itl_ms: Value::Null,
                tps: Value::Null,
                rate_overall: Value::from(50.0),
                rate_turn1: Value::from(0.0),
                rate_turn2plus: Value::from(100.0),
            },
        }
    };
    let rows = vec![row("first-run"), row("second-run")];
    let html = render_dashboard("gpt", "gpt-3.5-turbo", &None, &rows, &parts());
    assert!(html.contains("first-run/report.html"));
    assert!(html.contains("second-run/report.html"));
    assert!(html.contains("gpt-3.5-turbo"));
    let empty = render_dashboard("gpt", "gpt-3.5-turbo", &None, &vec![], &parts());
    assert!(!empty.contains("report.html"));
    assert_eq!(block(&empty, "dash-data"), "[]");
    let data: Value = serde_json::from_str(block(&html, "dash-data")).unwrap();
    assert_eq!(data[1]["run_id"], "second-run");
    assert_eq!(data[0]["report_filename"], "first-run/report.html");
    assert_eq!(data[0]["total_requests"], agg.total_requests());
    assert_eq!(data[0]["model_alias"], Value::Null);
    assert_eq!(data[0]["achieved_rps"], 1.2);
    assert_eq!(data[0]["cache"]["hit_total"], agg.cache_stats().cache_hit_total);
}

#[test]
fn the_zero_denominator_hint_is_for_runs_without_prompt_tokens() {
    let hint = r#"data-i18n="cache.denominator_zero""#;
    let none = r#"data-i18n="cache.no_data""#;
    let c = cfg();
    let mut agg = new_aggregator();
    let mut f = figures(&c, &agg).cache;
    f.overall = "0.0%".to_string();
    let card = build_cache_card(&agg, &f);
    assert!(card.contains(hint) && card.contains(none));

    let mut m = RequestMetrics::default();
    m.status = 200;
    m.prompt_tokens = 100;
    agg.record_completed(&m, 0, &CompletionContext::none());
    let card = build_cache_card(&agg, &f);
    assert!(card.contains("0.0%") && card.contains(none));
    assert!(!card.contains(hint));
    assert!(card.contains(r#"margin-bottom:8px;"></div>"#));
}

#[test]
fn keys_are_different_and_labels_show_something() {
    for dict in [zh_dict(), en_dict()] {
        let keys: std::collections::BTreeSet<&str> = dict.iter().map(|(k, _)| *k).collect();
        assert_eq!(keys.len(), dict.len());
        assert_eq!(keys.len(), key_count());
        assert!(dict.iter().all(|(_, v)| !v.is_empty()));
    }
    assert_eq!(t(Locale::En, "no.such.key"), "no.such.key");
}

#[test]
fn equal_runs_have_equal_pages() {
    let c = cfg();
    assert_eq!(page(&c, &two_turns()), page(&c, &two_turns()));
    assert_ne!(page(&c, &two_turns()), page(&c, &new_aggregator()));
}
