use power_test::binary64::Real;
use power_test::client::RequestMetrics;
use power_test::commands::{
    artifacts_text, compare_filename, discover_compare_links, list_table, log_filter,
    rerendered_text, short_id, ListedRun,
};
use power_test::config::{
    ApiKind, DatasetSpec, LoadPattern, PromptDistribution, PromptSource, RequestStrategy,
    RunConfig, RunStatus,
};
use power_test::error::Error;
use power_test::runner::metrics::{CompletionContext, MetricsAggregator};
use power_test::runner::metrics_json::{aggregator_to_json, metrics_text, MetricNumbers};
use power_test::storage::history::{
    effective_group_key, history_entry, indexed_group, insert_entry, list_group_keys, list_runs,
    list_runs_by_alias, list_runs_by_model, list_runs_by_target, load_run, lookup_index,
    lookup_status, read_metrics, run_dir, sanitize_model_dir, saved_requests, scanned_entry,
    HistoryEntry, RunPlace,
};
use serde_json::Value;

type Index = Vec<(String, HistoryEntry)>;

fn make_config(run_id: &str) -> RunConfig {
    let rate = Real { bits: 5.0f64.to_bits() };
    RunConfig {
        run_id: run_id.to_string(),
        target: "http://localhost:1234/v1/chat/completions".to_string(),
        api: ApiKind::Openai,
        model: "gpt-3.5-turbo".to_string(),
        prompt: PromptSource::Literal { text: "hi".to_string() },
        dataset: DatasetSpec::Literal { text: "hi".to_string() },
        strategy: RequestStrategy::Random,
        prompt_distribution: PromptDistribution::from_single(1),
        pattern: LoadPattern::Constant { rps: rate },
        max_tokens: 16,
        stream: true,
        target_rps: rate,
        duration_secs: 10,
        concurrency: 32,
        tag: None,
        api_key: None,
        started_at: "2026-01-01T00:00:00Z".to_string(),
        raw_body_file: None,
        raw_content_type: None,
        model_alias: None,
    }
}

fn numbers() -> MetricNumbers {
    MetricNumbers {
        avg_latency_ms: Value::from(1.5),
        tpot_ms: Value::from(0.5),
        output_throughput_tps: Value::from(3.0),
        total_throughput_tps: Value::from(4.0),
        avg_turns_per_request: Value::from(1.0),
        spec_decoded_per_iter: Value::from(0.0),
        spec_accept_rate: Value::from(0.0),
        rate_overall_pct: Value::from(12.5),
        rate_turn1_pct: Value::from(2.5),
        rate_turn2plus_pct: Value::from(0.0),
    }
}

/// Saves a run at an instant: its entry goes into the index.
fn save(index: &mut Index, cfg: &RunConfig, instant: i128) -> HistoryEntry {
    let agg = MetricsAggregator::new(cfg.started_at.clone());
    let entry = history_entry(&cfg.run_id, cfg, instant, &agg, RunStatus::Completed);
    insert_entry(index, &cfg.run_id, entry.clone());
    entry
}

fn entries(index: &Index) -> Vec<HistoryEntry> {
    index.iter().map(|(_, e)| e.clone()).collect()
}

fn ids(runs: &[HistoryEntry]) -> Vec<&str> {
    runs.iter().map(|e| e.run_id.as_str()).collect()
}

#[test]
fn save_and_reload_round_trip() {
    let mut index: Index = Vec::new();
    let cfg = make_config("run-abc");
    let entry = save(&mut index, &cfg, 1);
    assert_eq!(entry.run_id, "run-abc");
    assert_eq!(entry.model.as_deref(), Some("gpt-3.5-turbo"));
    assert_eq!(run_dir("gpt-3.5-turbo", "run-abc"), vec!["gpt-3.5-turbo", "run-abc"]);

    let found = lookup_index(&Some(index.clone()), "run-abc");
    assert!(matches!(load_run(&found, "run-abc", true, false), Ok(RunPlace::Grouped)));
    assert_eq!(f64::from_bits(found.unwrap().rps.bits), 5.0);

    let agg = MetricsAggregator::new(cfg.started_at.clone());
    let m = read_metrics(&metrics_text(&agg, &numbers(), Vec::new())).unwrap();
    assert_eq!(m["scheduled"], 0);

    let all = list_runs(&entries(&index));
    assert_eq!(all.len(), 1);
    assert_eq!(all[0].run_id, "run-abc");
}

#[test]
fn saved_metrics_can_be_read_again() {
    let mut agg = MetricsAggregator::new("2026-01-01T00:00:00Z".to_string());
    agg.record_scheduled();
    agg.record_scheduled();
    agg.record_skipped();
    let mut m = RequestMetrics::default();
    m.status = 503;
    m.error = Some("busy \u{1f4a5} \"now\"".to_string());
    agg.record_completed(&m, 12, &CompletionContext::none());
    let requests = vec![Value::from("first")];
    let value = aggregator_to_json(&agg, &numbers(), requests.clone());
    let text = metrics_text(&agg, &numbers(), requests);
    assert!(text.starts_with("{\n  "));
    let back = read_metrics(&text).unwrap();
    assert_eq!(back, value);
    assert_eq!(back["scheduled"], 2);
    assert_eq!(back["skipped"], 1);
    assert_eq!(back["total_requests"], 1);
    assert_eq!(back["status_codes"]["503"], 1);
    assert_eq!(back["per_second_completed"]["12"], 1);
    assert_eq!(back["error_messages"]["busy \u{1f4a5} \"now\""], 1);
    assert_eq!(back["run_started_at"], "2026-01-01T00:00:00Z");
    assert_eq!(back["cache"]["hit_total"], 0);
    assert_eq!(back["cache"]["rate_turn1_pct"], 2.5);
    assert_eq!(back["tpot_ms"], 0.5);
    assert_eq!(saved_requests(&back).unwrap()[0], "first");
    assert_eq!(saved_requests(&Value::Null), None);
    assert!(matches!(read_metrics("{"), Err(Error::Json(_))));
}

#[test]
fn load_missing_run_errors() {
    let err = load_run(&None, "nope", false, false).unwrap_err();
    assert!(matches!(err, Error::RunNotFound(_)));
}

#[test]
fn list_empty_history_returns_empty() {
    assert!(list_runs(&Vec::new()).is_empty());
}

#[test]
fn list_runs_by_target_filters_and_excludes() {
    let target_a = "http://api-a.example.com/v1/chat/completions";
    let target_b = "http://api-b.example.com/v1/chat/completions";
    let mut index: Index = Vec::new();
    for (i, (id, tgt)) in [("a-1", target_a), ("a-2", target_a), ("b-1", target_b)]
        .into_iter()
        .enumerate()
    {
        let mut cfg = make_config(id);
        cfg.target = tgt.to_string();
        save(&mut index, &cfg, i as i128);
    }
    let all = entries(&index);

    let only_a = list_runs_by_target(&all, target_a, &None);
    assert_eq!(only_a.len(), 2);
    assert!(only_a.iter().all(|e| e.target == target_a));

    let a_minus_a1 = list_runs_by_target(&all, target_a, &Some("a-1".to_string()));
    assert_eq!(a_minus_a1.len(), 1);
    assert_eq!(a_minus_a1[0].run_id, "a-2");

    let none = list_runs_by_target(&all, "http://nope.example.com/v1/chat/completions", &None);
    assert!(none.is_empty());
}

#[test]
fn load_compare_data_returns_records_and_status() {
    let mut index: Index = Vec::new();
    save(&mut index, &make_config("cmp-1"), 1);
    let index = Some(index);
    assert_eq!(lookup_status(&index, "cmp-1"), RunStatus::Completed);
    assert_eq!(lookup_index(&index, "cmp-1").unwrap().total_requests, 0);
}

#[test]
fn save_run_creates_model_subdir() {
    let mut index: Index = Vec::new();
    let mut cfg = make_config("run-1");
    cfg.model = "MiniMax-M3".to_string();
    save(&mut index, &cfg, 1);
    let entry = lookup_index(&Some(index), "run-1").unwrap();
    assert_eq!(entry.model.as_deref(), Some("MiniMax-M3"));
    assert_eq!(run_dir(&entry.group_key(), "run-1"), vec!["MiniMax-M3", "run-1"]);
}

#[test]
fn save_two_models_creates_two_subdirs() {
    let mut index: Index = Vec::new();
    for (rid, model) in [("r1", "gpt-3.5-turbo"), ("r2", "mistral-3-small")] {
        let mut cfg = make_config(rid);
        cfg.model = model.to_string();
        save(&mut index, &cfg, 1);
    }
    let dirs: Vec<Vec<String>> =
        entries(&index).iter().map(|e| run_dir(&e.group_key(), &e.run_id)).collect();
    assert!(dirs.contains(&vec!["gpt-3.5-turbo".to_string(), "r1".to_string()]));
    assert!(dirs.contains(&vec!["mistral-3-small".to_string(), "r2".to_string()]));
    assert!(!dirs.contains(&vec!["gpt-3.5-turbo".to_string(), "r2".to_string()]));
}

#[test]
fn sanitize_model_dir_replaces_path_separators() {
    assert_eq!(sanitize_model_dir("MiniMax-M3"), "MiniMax-M3");
    assert_eq!(sanitize_model_dir("openai/gpt-4"), "openai_gpt-4");
    assert_eq!(sanitize_model_dir("mistral:3:haiku"), "mistral_3_haiku");
    assert_eq!(sanitize_model_dir("model with spaces"), "model_with_spaces");
    assert_eq!(sanitize_model_dir(""), "_unnamed_");
    assert_eq!(sanitize_model_dir("   "), "_unnamed_");
}

#[test]
fn sanitized_names_stay_as_they_are() {
    for name in ["a/b\\c:d", " x ", "plain", "\u{6a21}\u{578b}", "..", "a*b?c\"d<e>f|g"] {
        let once = sanitize_model_dir(name);
        assert!(!once.contains('/') && !once.contains('\\'), "{once}");
        assert_eq!(sanitize_model_dir(&once), once);
    }
}

#[test]
fn load_run_falls_back_to_flat_layout_for_old_runs() {
    assert!(matches!(load_run(&None, "legacy-run", false, true), Ok(RunPlace::Flat)));
    let entry = scanned_entry("legacy-run", "", &make_config("legacy-run"), 1);
    assert_eq!(entry.run_id, "legacy-run");
    assert!(matches!(load_run(&Some(entry), "legacy-run", false, true), Ok(RunPlace::Flat)));
}

#[test]
fn an_entry_without_a_model_has_no_group() {
    let mut index: Index = Vec::new();
    let mut entry = save(&mut index, &make_config("old-1"), 1);
    entry.model = None;
    assert_eq!(entry.group_key(), "");
    assert_eq!(indexed_group(&Some(entry.clone())), None);
    assert!(matches!(load_run(&Some(entry), "old-1", true, true), Ok(RunPlace::Flat)));
}

#[test]
fn list_runs_by_model_filters_and_excludes() {
    let mut index: Index = Vec::new();
    for (rid, model) in
        [("m-1", "MiniMax-M3"), ("m-2", "MiniMax-M3"), ("g-1", "gpt-3.5-turbo")]
    {
        let mut cfg = make_config(rid);
        cfg.model = model.to_string();
        save(&mut index, &cfg, 1);
    }
    let all = entries(&index);

    let only_m = list_runs_by_model(&all, "MiniMax-M3", &None);
    assert_eq!(only_m.len(), 2);
    assert!(only_m.iter().all(|e| e.model.as_deref() == Some("MiniMax-M3")));

    let m_minus_1 = list_runs_by_model(&all, "MiniMax-M3", &Some("m-1".to_string()));
    assert_eq!(m_minus_1.len(), 1);
    assert_eq!(m_minus_1[0].run_id, "m-2");

    assert!(list_runs_by_model(&all, "no-such-model", &None).is_empty());

    let only_g = list_runs_by_model(&all, "gpt-3.5-turbo", &None);
    assert_eq!(only_g.len(), 1);
    assert_eq!(only_g[0].run_id, "g-1");
}

#[test]
fn effective_group_key_prefers_alias() {
    assert_eq!(effective_group_key("m", None), "m");
    assert_eq!(effective_group_key("m", Some("")), "m");
    assert_eq!(effective_group_key("m", Some("   ")), "m");
    assert_eq!(effective_group_key("m", Some("a")), "a");
    assert_eq!(
        effective_group_key("DeepSeek-V4-Flash-20260115", Some("DeepSeek-V4-Flash")),
        "DeepSeek-V4-Flash"
    );
}

#[test]
fn alias_groups_dated_snapshots_together() {
    let mut index: Index = Vec::new();
    for (rid, model, alias) in [
        ("jan", "DeepSeek-V4-Flash-20260115", "DeepSeek-V4-Flash"),
        ("feb", "DeepSeek-V4-Flash-20260201", "DeepSeek-V4-Flash"),
    ] {
        let mut cfg = make_config(rid);
        cfg.model = model.to_string();
        cfg.model_alias = Some(alias.to_string());
        let entry = save(&mut index, &cfg, 1);
        assert_eq!(run_dir(&entry.group_key(), rid), vec!["DeepSeek-V4-Flash", rid]);
    }
    let all = entries(&index);
    assert_eq!(list_runs_by_alias(&all, "DeepSeek-V4-Flash", &None).len(), 2);
    assert_eq!(list_runs_by_model(&all, "DeepSeek-V4-Flash-20260115", &None).len(), 1);
    assert_eq!(list_runs_by_model(&all, "DeepSeek-V4-Flash-20260201", &None).len(), 1);
}

#[test]
fn list_runs_by_alias_falls_back_to_model_when_no_alias() {
    let mut index: Index = Vec::new();
    save(&mut index, &make_config("legacy"), 1);
    let hits = list_runs_by_alias(&entries(&index), "gpt-3.5-turbo", &None);
    assert_eq!(hits.len(), 1);
    assert_eq!(hits[0].run_id, "legacy");
}

#[test]
fn alias_persists_in_index() {
    let mut index: Index = Vec::new();
    let mut cfg = make_config("aliased");
    cfg.model_alias = Some("MyAlias".to_string());
    save(&mut index, &cfg, 1);
    let entry = lookup_index(&Some(index), "aliased").unwrap();
    assert_eq!(entry.model_alias.as_deref(), Some("MyAlias"));
    assert_eq!(entry.model.as_deref(), Some("gpt-3.5-turbo"));
}

#[test]
fn load_run_uses_alias_subdirectory() {
    let mut index: Index = Vec::new();
    let mut cfg = make_config("aliased-load");
    cfg.model = "MiniMax-M3-20260101".to_string();
    cfg.model_alias = Some("MiniMax-M3".to_string());
    save(&mut index, &cfg, 1);
    let entry = lookup_index(&Some(index), "aliased-load");
    let group = indexed_group(&entry).unwrap();
    assert_eq!(run_dir(&group, "aliased-load"), vec!["MiniMax-M3", "aliased-load"]);
    assert!(matches!(load_run(&entry, "aliased-load", true, false), Ok(RunPlace::Grouped)));
    assert_eq!(entry.unwrap().model.as_deref(), Some("MiniMax-M3-20260101"));
}

#[test]
fn the_newest_runs_come_first() {
    let mut index: Index = Vec::new();
    for (id, at) in [("mid", 5), ("new", 9), ("old", 1)] {
        save(&mut index, &make_config(id), at);
    }
    let once = list_runs(&entries(&index));
    assert_eq!(ids(&once), vec!["new", "mid", "old"]);
    assert_eq!(ids(&list_runs(&once)), vec!["new", "mid", "old"]);
}

#[test]
fn a_run_that_is_saved_again_replaces_its_entry() {
    let mut index: Index = Vec::new();
    save(&mut index, &make_config("r"), 1);
    let mut cfg = make_config("r");
    cfg.tag = Some("again".to_string());
    save(&mut index, &cfg, 2);
    assert_eq!(index.len(), 1);
    assert_eq!(lookup_index(&Some(index), "r").unwrap().tag.as_deref(), Some("again"));
}

#[test]
fn groups_are_listed_once_and_in_order() {
    let mut index: Index = Vec::new();
    for (id, model) in [("1", "zeta"), ("2", "alpha"), ("3", "zeta"), ("4", "")] {
        let mut cfg = make_config(id);
        cfg.model = model.to_string();
        save(&mut index, &cfg, 1);
    }
    assert_eq!(list_group_keys(&entries(&index)), vec!["alpha", "zeta"]);
}

#[test]
fn names_of_compare_pages_are_short_and_plain() {
    assert_eq!(short_id("20260102-03-04-05-abcdef"), "20260102-03-");
    assert_eq!(short_id("a/b c"), "a_b_c");
    assert_eq!(short_id(""), "run");
    assert_eq!(
        compare_filename("one", "two", "2026-01-02T03:04:05.678+08:00"),
        "compare-one-vs-two-20260102T030405.html"
    );
}

#[test]
fn compare_links_lead_to_at_most_ten_runs() {
    let mut index: Index = Vec::new();
    for i in 0..12 {
        save(&mut index, &make_config(&format!("run-{i}")), i);
    }
    let others = list_runs(&entries(&index));
    let links = discover_compare_links("self", &others);
    assert_eq!(links.len(), 10);
    assert_eq!(links[0].0, "run-11");
    assert_eq!(links[0].1, "compare-self-vs-run-11-20260101T000000.html");
}

#[test]
fn a_link_is_the_name_of_the_written_page() {
    let mut index: Index = Vec::new();
    let mut other = make_config("run-b");
    other.started_at = "2026-03-04T05:06:07.891+00:00".to_string();
    save(&mut index, &other, 1);
    let links = discover_compare_links("run-a", &entries(&index));
    assert_eq!(links[0].1, compare_filename("run-a", "run-b", &other.started_at));
    assert_eq!(links[0].1, "compare-run-a-vs-run-b-20260304T050607.html");
}

#[test]
fn a_run_of_an_unnamed_model_is_found_in_its_directory() {
    let mut index: Index = Vec::new();
    let mut cfg = make_config("unnamed-1");
    cfg.model = String::new();
    let entry = save(&mut index, &cfg, 1);
    assert_eq!(indexed_group(&Some(entry.clone())).as_deref(), Some(""));
    assert_eq!(run_dir("", "unnamed-1"), vec!["_unnamed_", "unnamed-1"]);
    assert!(matches!(load_run(&Some(entry), "unnamed-1", true, false), Ok(RunPlace::Grouped)));
}

#[test]
fn runs_are_listed_in_columns() {
    assert_eq!(list_table(&Vec::new()), "(no runs)\n");
    let mut index: Index = Vec::new();
    let mut cfg = make_config("run-abc");
    cfg.target = "x".repeat(61);
    let entry = save(&mut index, &cfg, 1);
    let table = list_table(&vec![ListedRun {
        entry,
        time: "2026-01-01T00:00:00Z".to_string(),
        rps: "5.00".to_string(),
    }]);
    let rows: Vec<&str> = table.lines().collect();
    assert_eq!(rows.len(), 2);
    assert_eq!(
        rows[0],
        format!(
            "{:<36}  {:<23}  {:>6}  {:<11}  {:>8}  {}",
            "RUN ID", "TIMESTAMP", "RPS", "STATUS", "REQUESTS", "TARGET"
        )
    );
    let target = format!("{}\u{2026}", "x".repeat(57));
    assert_eq!(
        rows[1],
        format!(
            "{:<36}  {:<23}  {:>6}  {:<11}  {:>8}  {}",
            "run-abc", "2026-01-01T00:00:00Z", "5.00", "completed", 0, target
        )
    );
}

#[test]
fn commands_say_what_they_did() {
    assert_eq!(
        artifacts_text("r", "/h/r"),
        "artifacts\n---------\n  run id:      r\n  history dir: /h/r\n  \
report:      /h/r/report.html\n  summary:     /h/r/summary.txt\n"
    );
    assert_eq!(
        rerendered_text("r", "/d", 3),
        "re-rendered report for run r\n  report.html: /d/report.html\n  \
summary.txt: /d/summary.txt\n  records:     3\n"
    );
    assert_eq!(log_filter("info", false), "info");
    assert_eq!(log_filter("info", true), "warn");
}
