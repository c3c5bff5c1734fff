use power_test::binary64::Real;
use power_test::cli::{make_run_id, run_id, ArgsError, DashboardArgs, RunArgs};
use power_test::commands::dashboard_groups;
use power_test::config::{ApiKind, DatasetSpec, LoadPattern, RequestStrategy, RunConfig};
use power_test::dataset::custom::{jsonl_rows, CustomFile};
use power_test::dataset::sharegpt::{Conversation, Turn};
use power_test::dataset::DatasetFiles;

fn number(x: f64) -> Real {
    Real { bits: x.to_bits() }
}

fn value(x: Real) -> f64 {
    f64::from_bits(x.bits)
}

fn base_args() -> RunArgs {
    RunArgs {
        target: Some("http://localhost:8080/v1/chat/completions".to_string()),
        rps: number(10.0),
        duration: 5,
        model: "m".to_string(),
        model_alias: None,
        prompt: None,
        prompt_tokens: None,
        max_tokens: 32,
        stream: Some(true),
        api: "openai".to_string(),
        concurrency: None,
        output_dir: None,
        tag: None,
        api_key: None,
        pattern: "constant".to_string(),
        rps_start: None,
        rps_end: None,
        spike_at: vec![],
        spike_rps: None,
        spike_duration: None,
        soak_checkpoint: None,
        dataset: None,
        sharegpt_path: None,
        custom_path: None,
        request_strategy: "random".to_string(),
        raw_body_file: None,
        raw_content_type: None,
        tui: false,
        quiet: false,
        print_config: false,
    }
}

fn no_files() -> DatasetFiles {
    DatasetFiles { sharegpt: None, custom: None }
}

fn build(args: &RunArgs) -> Result<RunConfig, ArgsError> {
    args.to_run_config(number(args.duration as f64), &no_files())
}

fn text(e: ArgsError) -> String {
    e.message("-", "-")
}

#[test]
fn format_is_stable() {
    let id = make_run_id();
    assert_eq!(id.len(), 24, "got {id:?}");
    let parts: Vec<&str> = id.split('-').collect();
    assert_eq!(parts.len(), 5, "expected 5 dash-separated parts, got {id:?}");
    for (i, part) in parts.iter().enumerate() {
        assert!(!part.is_empty(), "empty part at index {i} in {id:?}");
        assert!(
            part.chars().all(|c| c.is_ascii_hexdigit()),
            "non-hex char in part {i} of {id:?}"
        );
    }
    assert_eq!(parts[0].len(), 8, "YYYYMMDD: {id:?}");
    assert_eq!(parts[1].len(), 2, "HH: {id:?}");
    assert_eq!(parts[2].len(), 2, "mm: {id:?}");
    assert_eq!(parts[3].len(), 2, "ss: {id:?}");
    assert_eq!(parts[4].len(), 6, "6-hex suffix: {id:?}");
}

#[test]
fn run_id_uses_local_time() {
    let stamp = |secs: i64| {
        (chrono::Local::now() + chrono::TimeDelta::seconds(secs))
            .format("%Y%m%d-%H-%M-%S")
            .to_string()
    };
    let before = stamp(0);
    let id = make_run_id();
    let window = [before, stamp(0), stamp(2)];
    let prefix: String = id.split('-').take(4).collect::<Vec<_>>().join("-");
    assert!(window.contains(&prefix), "{prefix} is not in {window:?}");
}

#[test]
fn run_ids_join_a_stamp_and_six_digits() {
    assert_eq!(
        run_id("20260102-03-04-05", 0x0123_4567_89ab_cdef_0123_4567_89ab_cdef),
        "20260102-03-04-05-012345"
    );
}

#[test]
fn ids_with_different_first_digits_are_distinct() {
    let mut seen = std::collections::HashSet::new();
    for i in 0..1000u128 {
        assert!(seen.insert(run_id("20260102-03-04-05", i << 104)));
    }
    assert!(!seen.insert(run_id("20260102-03-04-05", (7 << 104) + 1)));
}

#[test]
fn run_config_defaults_compute() {
    let cfg = build(&base_args()).unwrap();
    assert_eq!(value(cfg.target_rps), 10.0);
    assert_eq!(cfg.concurrency, 256);
    assert!(cfg.stream);
    match cfg.dataset {
        DatasetSpec::Literal { ref text } => {
            assert!(text.contains("quantum entanglement"));
        }
        other => panic!("expected literal dataset, got {other:?}"),
    }
}

#[test]
fn run_config_with_prompt_tokens() {
    let mut args = base_args();
    args.prompt_tokens = Some(120);
    let cfg = build(&args).unwrap();
    match cfg.dataset {
        DatasetSpec::TokenBudget { target_tokens } => assert_eq!(target_tokens, 120),
        other => panic!("expected token-budget dataset, got {other:?}"),
    }
    assert_eq!(value(cfg.target_rps), 10.0);
}

#[test]
fn unknown_api_errors() {
    let mut args = base_args();
    args.api = "bogus".to_string();
    assert!(build(&args).is_err());
    assert!(text(args.api_kind().unwrap_err()).contains("'bogus'"));
}

#[test]
fn pattern_ramp_requires_endpoints() {
    let mut args = base_args();
    args.pattern = "ramp".to_string();
    let err = text(build(&args).unwrap_err());
    assert!(err.contains("--rps-start"));
}

#[test]
fn pattern_ramp_builds() {
    let mut args = base_args();
    args.pattern = "ramp".to_string();
    args.rps_start = Some(number(2.0));
    args.rps_end = Some(number(8.0));
    args.duration = 30;
    let cfg = build(&args).unwrap();
    assert!(matches!(cfg.pattern, LoadPattern::Ramp { .. }));
    assert!((value(cfg.target_rps) - 8.0).abs() < 1e-9);
}

#[test]
fn rates_have_to_be_positive() {
    let mut args = base_args();
    args.pattern = "ramp".to_string();
    args.rps_start = Some(number(0.0));
    args.rps_end = Some(number(8.0));
    let err = build(&args).unwrap_err();
    assert!(matches!(err, ArgsError::RampRates { .. }));
    assert_eq!(
        err.message("0", "8"),
        "--rps-start and --rps-end must be > 0 (got 0 and 8)"
    );
    let mut args = base_args();
    args.pattern = "spike".to_string();
    args.spike_at = vec![number(1.0)];
    args.spike_rps = Some(number(-1.0));
    args.spike_duration = Some(number(2.0));
    assert!(matches!(build(&args).unwrap_err(), ArgsError::SpikeNumbers { .. }));
}

#[test]
fn pattern_spike_requires_at_least_one_at() {
    let mut args = base_args();
    args.pattern = "spike".to_string();
    args.spike_rps = Some(number(50.0));
    args.spike_duration = Some(number(2.0));
    let err = text(build(&args).unwrap_err());
    assert!(err.contains("--spike-at"));
}

#[test]
fn pattern_spike_builds() {
    let mut args = base_args();
    args.pattern = "spike".to_string();
    args.rps = number(3.0);
    args.spike_at = vec![number(5.0), number(15.0)];
    args.spike_rps = Some(number(50.0));
    args.spike_duration = Some(number(2.0));
    let cfg = build(&args).unwrap();
    match cfg.pattern {
        LoadPattern::Spike { baseline, spikes } => {
            assert!((value(baseline) - 3.0).abs() < 1e-9);
            assert_eq!(spikes.len(), 2);
            assert!((value(spikes[0].at_secs) - 5.0).abs() < 1e-9);
            assert!((value(spikes[1].at_secs) - 15.0).abs() < 1e-9);
            assert!((value(spikes[0].rps) - 50.0).abs() < 1e-9);
        }
        _ => panic!("expected spike pattern"),
    }
}

#[test]
fn pattern_soak_default_checkpoint() {
    let mut args = base_args();
    args.pattern = "soak".to_string();
    let cfg = build(&args).unwrap();
    match cfg.pattern {
        LoadPattern::Soak { checkpoint_secs, .. } => assert_eq!(checkpoint_secs, 60),
        _ => panic!("expected soak pattern"),
    }
}

#[test]
fn dataset_builtin_loads() {
    let mut args = base_args();
    args.dataset = Some("built-in".to_string());
    let cfg = build(&args).unwrap();
    assert!(matches!(cfg.dataset, DatasetSpec::Builtin));
    assert!(cfg.prompt_distribution.count >= 10);
}

#[test]
fn dataset_sharegpt_requires_path() {
    let mut args = base_args();
    args.dataset = Some("sharegpt".to_string());
    let err = text(build(&args).unwrap_err());
    assert!(err.contains("--sharegpt-path"));
}

#[test]
fn dataset_custom_requires_path() {
    let mut args = base_args();
    args.dataset = Some("custom".to_string());
    let err = text(build(&args).unwrap_err());
    assert!(err.contains("--custom-path"));
}

#[test]
fn dataset_sharegpt_loads_real_file() {
    let turn = |from: &str, value: &str| Turn {
        from: Some(from.to_string()),
        value: Some(value.to_string()),
    };
    let files = DatasetFiles {
        sharegpt: Some(Ok(vec![
            Conversation { conversations: vec![turn("human", "first"), turn("gpt", "r1")] },
            Conversation { conversations: vec![turn("user", "second")] },
        ])),
        custom: None,
    };
    let mut args = base_args();
    args.dataset = Some("sharegpt".to_string());
    args.sharegpt_path = Some("conversations.json".to_string());
    let cfg = args.to_run_config(number(5.0), &files).unwrap();
    assert_eq!(cfg.prompt_distribution.count, 2);
}

#[test]
fn dataset_custom_loads_jsonl() {
    let body = "{\"prompt\":\"a\"}\n{\"prompt\":\"bb\"}\n{\"prompt\":\"ccc\"}\n";
    let rows = jsonl_rows(body)
        .iter()
        .map(|(_, row)| {
            let v: serde_json::Value = serde_json::from_str(row).unwrap();
            Ok(v["prompt"].as_str().unwrap().to_string())
        })
        .collect();
    let files = DatasetFiles { sharegpt: None, custom: Some(CustomFile::JsonLines(rows)) };
    let mut args = base_args();
    args.dataset = Some("custom".to_string());
    args.custom_path = Some("prompts.jsonl".to_string());
    let cfg = args.to_run_config(number(5.0), &files).unwrap();
    assert_eq!(cfg.prompt_distribution.count, 3);
}

#[test]
fn request_strategy_parses() {
    let mut args = base_args();
    args.request_strategy = "round-robin".to_string();
    let cfg = build(&args).unwrap();
    assert_eq!(cfg.strategy, RequestStrategy::RoundRobin);
    args.request_strategy = "bogus".to_string();
    assert!(build(&args).is_err());
}

#[test]
fn raw_api_parses() {
    let mut args = base_args();
    args.api = "raw".to_string();
    let cfg = build(&args).unwrap();
    assert_eq!(cfg.api, ApiKind::Raw);
}

#[test]
fn raw_body_file_passes_through() {
    let mut args = base_args();
    args.api = "raw".to_string();
    args.raw_body_file = Some("/tmp/body".to_string());
    args.raw_content_type = Some("text/plain".to_string());
    let cfg = build(&args).unwrap();
    assert_eq!(cfg.raw_body_file.as_deref(), Some("/tmp/body"));
    assert_eq!(cfg.raw_content_type.as_deref(), Some("text/plain"));
}

#[test]
fn anthropic_api_parses() {
    let mut args = base_args();
    args.api = "anthropic".to_string();
    args.api_key = Some("sk-ant-test".to_string());
    let cfg = build(&args).unwrap();
    assert_eq!(cfg.api, ApiKind::Anthropic);
}

#[test]
fn anthropic_api_without_key_still_parses() {
    let mut args = base_args();
    args.api = "anthropic".to_string();
    let cfg = build(&args).unwrap();
    assert_eq!(cfg.api, ApiKind::Anthropic);
    assert!(cfg.api_key.is_none());
}

#[test]
fn names_of_apis_are_read_in_any_case() {
    let mut args = base_args();
    args.api = "OpenAI".to_string();
    assert_eq!(args.api_kind().unwrap(), ApiKind::Openai);
    args.api = "RESPONSES".to_string();
    assert_eq!(args.api_kind().unwrap(), ApiKind::Responses);
}

#[test]
fn tui_flag_defaults_to_false() {
    let args = base_args();
    assert!(!args.tui);
}

#[test]
fn tui_flag_round_trip() {
    let mut args = base_args();
    args.tui = true;
    let cfg = build(&args).unwrap();
    assert_eq!(cfg.api, ApiKind::Openai);
}

#[test]
fn a_run_needs_a_target() {
    let mut args = base_args();
    args.target = None;
    assert!(text(build(&args).unwrap_err()).contains("--target"));
}

#[test]
fn the_output_directory_wins_over_the_default_one() {
    let mut args = base_args();
    assert_eq!(
        args.history_dir(false, None, Some("/h".to_string())),
        vec!["/h", ".power_test", "history"]
    );
    args.output_dir = Some("/out".to_string());
    assert_eq!(args.history_dir(false, None, Some("/h".to_string())), vec!["/out"]);
}

#[test]
fn a_dashboard_may_be_asked_for_by_name() {
    let args = DashboardArgs {
        name: Some("gpt-3.5-turbo".to_string()),
        no_write: true,
        history_dir: None,
    };
    assert_eq!(dashboard_groups(&args, &vec![]), vec!["gpt-3.5-turbo"]);
    let args = DashboardArgs { name: None, no_write: false, history_dir: None };
    assert!(dashboard_groups(&args, &vec![]).is_empty());
}

#[test]
fn a_run_starts_at_a_local_time() {
    let cfg = build(&base_args()).unwrap();
    let started = chrono::DateTime::parse_from_rfc3339(&cfg.started_at).unwrap();
    let age = chrono::Utc::now().signed_duration_since(started);
    assert!(age.num_seconds().abs() <= 5, "{}", cfg.started_at);
    assert_eq!(&cfg.started_at[10..11], "T");
}
