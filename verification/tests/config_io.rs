use power_test::binary64::Real;
use power_test::cli::RunArgs;
use power_test::config_io::{
    find_default, load, merge_into_run_args, print_config, ConfigPlace, DatasetToml, PatternToml,
    SpikeToml, TomlConfig,
};

fn number(x: f64) -> Real {
    Real { bits: x.to_bits() }
}

fn numbers(xs: &[f64]) -> Vec<Real> {
    xs.iter().map(|x| number(*x)).collect()
}

fn some(s: &str) -> Option<String> {
    Some(s.to_string())
}

fn fresh_args() -> RunArgs {
    RunArgs {
        target: None,
        rps: number(10.0),
        duration: 60,
        model: "gpt-3.5-turbo".to_string(),
        prompt: None,
        prompt_tokens: None,
        max_tokens: 256,
        stream: None,
        api: "openai".to_string(),
        concurrency: None,
        output_dir: None,
        tag: None,
        api_key: None,
        pattern: "constant".to_string(),
        rps_start: None,
        rps_end: None,
        spike_at: vec![],
        spike_rps: None,
        spike_duration: None,
        soak_checkpoint: None,
        dataset: None,
        sharegpt_path: None,
        custom_path: None,
        request_strategy: "random".to_string(),
        model_alias: None,
        raw_body_file: None,
        raw_content_type: None,
        tui: false,
        quiet: false,
        print_config: false,
    }
}

#[test]
fn load_missing_file_errors() {
    let err = load("nope.toml", some("No such file"), Ok(TomlConfig::default())).unwrap_err();
    let msg = err.message();
    assert!(msg.contains("nope.toml"), "msg should mention path: {msg}");
}

#[test]
fn malformed_toml_errors() {
    let body = "target = \"x\"\n[pattern]\nkind = \"ramp\"\nstart = 1.0, end = 2.0\n";
    let cause = body.parse::<toml::Table>().unwrap_err().to_string();
    let msg = load("bad.toml", None, Err(cause)).unwrap_err().message();
    assert!(msg.contains("malformed TOML"), "msg should say malformed: {msg}");
    assert!(msg.contains("bad.toml"), "msg should mention path: {msg}");
}

#[test]
fn a_readable_file_is_taken_as_it_is() {
    let mut cfg = TomlConfig::default();
    cfg.model = some("m");
    let got = load("good.toml", None, Ok(cfg)).unwrap();
    assert_eq!(got.model.as_deref(), Some("m"));
    assert!(got.target.is_none());
}

#[test]
fn merge_applies_toml_defaults_when_cli_omits() {
    let mut cli = fresh_args();
    let mut toml = TomlConfig::default();
    toml.target = some("http://localhost:1234/v1");
    toml.duration = Some(5);
    toml.model = some("haiku");
    merge_into_run_args(&toml, &mut cli, &None);
    assert_eq!(cli.target.as_deref(), Some("http://localhost:1234/v1"));
    assert_eq!(cli.duration, 5);
    assert_eq!(cli.model, "haiku");
}

#[test]
fn merge_preserves_cli_overrides() {
    let mut cli = fresh_args();
    cli.target = some("http://override.example/");
    cli.duration = 999;
    cli.rps = number(42.0);
    let mut toml = TomlConfig::default();
    toml.target = some("http://toml.example/");
    toml.duration = Some(1);
    toml.rps = Some(number(7.0));
    merge_into_run_args(&toml, &mut cli, &None);
    assert_eq!(cli.target.as_deref(), Some("http://override.example/"));
    assert_eq!(cli.duration, 999);
    assert!((f64::from_bits(cli.rps.bits) - 42.0).abs() < 1e-9);
}

#[test]
fn merge_model_alias_from_toml() {
    let mut cli = fresh_args();
    let mut toml = TomlConfig::default();
    toml.model_alias = some("DeepSeek-V4-Flash");
    merge_into_run_args(&toml, &mut cli, &None);
    assert_eq!(cli.model_alias.as_deref(), Some("DeepSeek-V4-Flash"));

    let mut cli2 = fresh_args();
    cli2.model_alias = some("OtherAlias");
    merge_into_run_args(&toml, &mut cli2, &None);
    assert_eq!(cli2.model_alias.as_deref(), Some("OtherAlias"));
}

#[test]
fn print_config_includes_model_alias() {
    let mut cli = fresh_args();
    cli.model_alias = some("MyAlias");
    assert_eq!(print_config(&cli).model_alias.as_deref(), Some("MyAlias"));
}

#[test]
fn merge_pattern_ramp_requires_endpoints() {
    let mut cli = fresh_args();
    let mut toml = TomlConfig::default();
    toml.pattern =
        Some(PatternToml::Ramp { start: number(1.0), end: number(5.0), duration: Some(10) });
    merge_into_run_args(&toml, &mut cli, &None);
    assert_eq!(cli.pattern, "ramp");
    assert_eq!(cli.rps_start, Some(number(1.0)));
    assert_eq!(cli.rps_end, Some(number(5.0)));
    assert_eq!(cli.duration, 10);
}

#[test]
fn merge_dataset_literal_applies_text() {
    let mut cli = fresh_args();
    let mut toml = TomlConfig::default();
    toml.dataset = Some(DatasetToml::Literal { text: some("Hello, world.") });
    merge_into_run_args(&toml, &mut cli, &None);
    assert_eq!(cli.dataset.as_deref(), Some("literal"));
    assert_eq!(cli.prompt.as_deref(), Some("Hello, world."));
}

#[test]
fn merge_dataset_sharegpt_sets_path() {
    let mut cli = fresh_args();
    let mut toml = TomlConfig::default();
    toml.dataset = Some(DatasetToml::ShareGpt { path: "/tmp/sg.json".to_string() });
    merge_into_run_args(&toml, &mut cli, &None);
    assert_eq!(cli.dataset.as_deref(), Some("sharegpt"));
    assert_eq!(cli.sharegpt_path.as_deref(), Some("/tmp/sg.json"));
}

#[test]
fn merge_spike_populates_spike_fields() {
    let spike = |at: f64, rps: f64, secs: f64| SpikeToml {
        at_secs: number(at),
        rps: number(rps),
        duration_secs: number(secs),
    };
    let mut cli = fresh_args();
    let mut toml = TomlConfig::default();
    toml.pattern = Some(PatternToml::Spike {
        baseline: number(1.0),
        spikes: vec![spike(5.0, 20.0, 2.0), spike(15.0, 25.0, 3.0)],
    });
    merge_into_run_args(&toml, &mut cli, &None);
    assert_eq!(cli.pattern, "spike");
    assert_eq!(cli.spike_at, numbers(&[5.0, 15.0]));
    assert_eq!(cli.spike_rps, Some(number(25.0)));
    assert_eq!(cli.spike_duration, Some(number(3.0)));
}

#[test]
fn merge_api_key_env_reads_environment() {
    let mut cli = fresh_args();
    let mut toml = TomlConfig::default();
    toml.api_key_env = some("POWER_TEST_M5_TEST_KEY");
    merge_into_run_args(&toml, &mut cli, &some("secret-from-env"));
    assert_eq!(cli.api_key.as_deref(), Some("secret-from-env"));

    let mut cli = fresh_args();
    cli.api_key = some("given");
    merge_into_run_args(&toml, &mut cli, &some("secret-from-env"));
    assert_eq!(cli.api_key.as_deref(), Some("given"));
}

#[test]
fn arguments_win_over_the_tables_of_the_file() {
    let mut cli = fresh_args();
    cli.pattern = "soak".to_string();
    cli.prompt = some("mine");
    let mut toml = TomlConfig::default();
    toml.pattern =
        Some(PatternToml::Ramp { start: number(1.0), end: number(5.0), duration: None });
    toml.dataset = Some(DatasetToml::Builtin);
    merge_into_run_args(&toml, &mut cli, &None);
    assert_eq!(cli.pattern, "soak");
    assert_eq!(cli.dataset, None);
    assert_eq!(cli.prompt.as_deref(), Some("mine"));
}

#[test]
fn find_default_prefers_cwd_over_home() {
    assert!(matches!(find_default(true, Some(true)), Some(ConfigPlace::WorkingDirectory)));
    assert!(matches!(find_default(false, Some(true)), Some(ConfigPlace::Home)));
}

#[test]
fn find_default_returns_none_when_no_config() {
    assert!(find_default(false, Some(false)).is_none());
    assert!(find_default(false, None).is_none());
}

#[test]
fn print_config_dumps_effective_settings() {
    let mut cli = fresh_args();
    cli.target = some("http://x.example/v1");
    cli.rps = number(12.5);
    cli.duration = 30;
    cli.model = "test-model".to_string();
    cli.tag = some("nightly");
    let out = print_config(&cli);
    assert_eq!(out.target.as_deref(), Some("http://x.example/v1"));
    assert_eq!(out.model.as_deref(), Some("test-model"));
    assert_eq!(out.tag.as_deref(), Some("nightly"));
    assert_eq!(out.duration, Some(30));
    assert_eq!(out.pattern.as_ref().unwrap().name(), "constant");
}

#[test]
fn a_printed_configuration_gives_the_same_arguments_again() {
    let mut cli = fresh_args();
    cli.target = some("http://x.example/v1");
    cli.duration = 7;
    cli.rps = number(3.5);
    cli.prompt = some("ask");
    let out = print_config(&cli);
    assert_eq!(out.target.as_deref(), Some("http://x.example/v1"));
    assert_eq!(out.duration, Some(7));
    assert_eq!(out.rps, Some(number(3.5)));
    let mut again = fresh_args();
    merge_into_run_args(&out, &mut again, &None);
    assert_eq!(again.target, cli.target);
    assert_eq!(again.duration, 7);
    assert_eq!(again.rps, number(3.5));
    assert_eq!(again.prompt, cli.prompt);
}

#[test]
fn a_printed_token_budget_needs_no_dataset_flag() {
    let mut cli = fresh_args();
    cli.prompt_tokens = Some(120);
    let out = print_config(&cli);
    assert!(matches!(out.dataset, Some(DatasetToml::TokenBudget { target_tokens: Some(120) })));
    let mut again = fresh_args();
    merge_into_run_args(&out, &mut again, &None);
    assert_eq!(again.dataset.as_deref(), Some("token-budget"));
    assert_eq!(again.prompt_tokens, Some(120));
}

#[test]
fn names_are_printed_whatever_their_case() {
    let mut cli = fresh_args();
    cli.pattern = "RAMP".to_string();
    cli.rps_start = Some(number(1.0));
    cli.rps_end = Some(number(2.0));
    cli.dataset = some("BuiltIn");
    let out = print_config(&cli);
    assert_eq!(out.pattern.as_ref().unwrap().name(), "ramp");
    assert!(matches!(out.dataset, Some(DatasetToml::Builtin)));
}
