use power_test::binary64::Real;
use power_test::config::{
    default_history_dir, estimate_tokens, generate_prompt_for_tokens, ApiKind, DatasetSpec,
    LoadPattern, PromptDistribution, PromptSource, RequestStrategy, RunConfig, RunStatus,
    SpikeSpec,
};
use power_test::error::Error;

fn number(x: f64) -> Real {
    Real { bits: x.to_bits() }
}

fn value(x: Real) -> f64 {
    f64::from_bits(x.bits)
}

#[test]
fn default_concurrency_uses_floor_256() {
    assert_eq!(RunConfig::default_concurrency(number(1.0)), 256);
    assert_eq!(RunConfig::default_concurrency(number(10.0)), 256);
    assert_eq!(RunConfig::default_concurrency(number(100.0)), 400);
    assert_eq!(RunConfig::default_concurrency(number(1000.0)), 1024);
    assert_eq!(RunConfig::default_concurrency(number(100_000.0)), 1024);
}

#[test]
fn default_concurrency_agrees_with_the_formula() {
    for rps in [0.0, 0.25, 63.9, 64.0, 64.1, 64.25, 99.99, 200.5, 255.76, 256.0, 256.1, 1e300] {
        let want = ((rps * 4.0f64).ceil() as usize).clamp(256, 1024);
        assert_eq!(RunConfig::default_concurrency(number(rps)), want, "rps {rps}");
    }
    assert_eq!(RunConfig::default_concurrency(number(-5.0)), 256);
    assert_eq!(RunConfig::default_concurrency(number(f64::NAN)), 256);
}

#[test]
fn estimate_tokens_basic() {
    assert!(estimate_tokens("hello world foo bar") >= 4);
    assert_eq!(estimate_tokens(""), 0);
}

#[test]
fn generate_prompt_for_tokens_grows() {
    let p1 = generate_prompt_for_tokens(10);
    let p2 = generate_prompt_for_tokens(500);
    assert!(p2.len() > p1.len());
    assert!(estimate_tokens(&p2) >= 400);
}

#[test]
fn prompts_resolve_to_a_text_and_its_estimate() {
    let s = PromptSource::Literal { text: "hello world foo bar".to_string() };
    let (text, tokens) = s.resolve();
    assert_eq!(text, "hello world foo bar");
    assert_eq!(tokens, estimate_tokens("hello world foo bar"));
    let (text, tokens) = PromptSource::TokenBudget { target_tokens: 50 }.resolve();
    assert_eq!(text, generate_prompt_for_tokens(50));
    assert_eq!(tokens, estimate_tokens(&text));
}

#[test]
fn load_pattern_peak_rps() {
    let p = LoadPattern::Constant { rps: number(5.0) };
    assert!((value(p.peak_rps()) - 5.0).abs() < 1e-9);

    let p = LoadPattern::Ramp {
        start: number(2.0),
        end: number(10.0),
        duration_secs: number(30.0),
    };
    assert!((value(p.peak_rps()) - 10.0).abs() < 1e-9);

    let p = LoadPattern::Spike {
        baseline: number(3.0),
        spikes: vec![
            SpikeSpec { at_secs: number(5.0), rps: number(20.0), duration_secs: number(2.0) },
            SpikeSpec { at_secs: number(15.0), rps: number(8.0), duration_secs: number(1.0) },
        ],
    };
    assert!((value(p.peak_rps()) - 20.0).abs() < 1e-9);
}

fn ramp(start: f64, end: f64) -> LoadPattern {
    LoadPattern::Ramp { start: number(start), end: number(end), duration_secs: number(30.0) }
}

#[test]
fn ramp_peak_is_max_of_endpoints() {
    assert!((value(ramp(2.0, 10.0).peak_rps()) - 10.0).abs() < 1e-9);
    assert!((value(ramp(10.0, 2.0).peak_rps()) - 10.0).abs() < 1e-9);
}

#[test]
fn spike_peak_is_max_of_burst_and_baseline() {
    let p = LoadPattern::Spike {
        baseline: number(3.0),
        spikes: vec![SpikeSpec {
            at_secs: number(0.0),
            rps: number(20.0),
            duration_secs: number(1.0),
        }],
    };
    assert!((value(p.peak_rps()) - 20.0).abs() < 1e-9);
    let p = LoadPattern::Spike { baseline: number(7.0), spikes: vec![] };
    assert!((value(p.peak_rps()) - 7.0).abs() < 1e-9);
}

#[test]
fn patterns_have_a_peak_and_a_name() {
    let p = LoadPattern::Ramp {
        start: number(12.0),
        end: number(4.0),
        duration_secs: number(10.0),
    };
    assert_eq!(value(p.peak_rps()), 12.0);
    let p = LoadPattern::Soak { rps: number(7.0), checkpoint_secs: 60 };
    assert_eq!(value(p.peak_rps()), 7.0);
    assert_eq!(p.name(), "soak");
}

#[test]
fn dataset_spec_name() {
    assert_eq!(DatasetSpec::Literal { text: "x".to_string() }.name(), "literal");
    assert_eq!(DatasetSpec::TokenBudget { target_tokens: 10 }.name(), "token-budget");
    assert_eq!(DatasetSpec::Builtin.name(), "built-in");
    assert_eq!(DatasetSpec::ShareGpt { path: "/x".to_string() }.name(), "sharegpt");
    assert_eq!(DatasetSpec::Custom { path: "/x".to_string() }.name(), "custom");
}

#[test]
fn prompt_distribution_from_slice() {
    let d = PromptDistribution::from_slice(&[10, 20, 30]);
    assert_eq!(d.count, 3);
    assert_eq!(d.min, 10);
    assert_eq!(d.max, 30);
    assert!((d.total as f64 / d.count as f64 - 20.0).abs() < 1e-9);

    let d = PromptDistribution::from_slice(&[]);
    assert_eq!(d.count, 0);
    assert_eq!(d.min, 0);
    assert_eq!(d.max, 0);

    let d = PromptDistribution::from_single(42);
    assert_eq!(d.count, 1);
    assert_eq!(d.min, 42);
    assert_eq!(d.max, 42);
}

#[test]
fn kinds_have_names() {
    assert_eq!(ApiKind::Openai.as_str(), "openai");
    assert_eq!(ApiKind::Anthropic.as_str(), "anthropic");
    assert_eq!(ApiKind::Raw.as_str(), "raw");
    assert_eq!(ApiKind::Responses.as_str(), "responses");
    assert_eq!(RequestStrategy::RoundRobin.as_str(), "round-robin");
    assert_eq!(RequestStrategy::Random.as_str(), "random");
    assert_eq!(RunStatus::Completed.as_str(), "completed");
    assert_eq!(RunStatus::Interrupted.as_str(), "interrupted");
    assert_eq!(RunStatus::Failed.as_str(), "failed");
}

#[test]
fn the_history_is_below_the_home_directory() {
    let parts = default_history_dir(false, None, Some("/home/u".to_string()));
    assert_eq!(parts, vec!["/home/u", ".power_test", "history"]);
    let parts = default_history_dir(
        true,
        Some("C:\\Users\\u".to_string()),
        Some("/home/u".to_string()),
    );
    assert_eq!(parts[0], "C:\\Users\\u");
}

#[test]
fn every_error_has_its_message() {
    let s = || "cause".to_string();
    assert_eq!(Error::InvalidConfig(s()).message(), "invalid configuration: cause");
    assert_eq!(Error::Http(s()).message(), "HTTP error: cause");
    assert_eq!(Error::Json(s()).message(), "JSON error: cause");
    assert_eq!(Error::io_at("/p".to_string(), s()).message(), "I/O error at /p: cause");
    assert_eq!(Error::Histogram(s()).message(), "histogram error: cause");
    assert_eq!(Error::NotImplemented(s()).message(), "operation not implemented in M1: cause");
    assert_eq!(Error::RunNotFound(s()).message(), "run not found: cause");
    assert_eq!(Error::Storage(s()).message(), "storage error: cause");
    assert_eq!(Error::Other(s()).message(), "other: cause");
}

#[test]
fn generated_prompts_have_the_estimate_that_was_asked_for() {
    for n in [0u32, 1, 2, 3, 5, 10, 11, 12, 200, 4096] {
        let (text, tokens) = PromptSource::TokenBudget { target_tokens: n }.resolve();
        assert_eq!(text.len(), 4 * n as usize);
        assert_eq!(tokens, n);
        assert_eq!(estimate_tokens(&text), n);
    }
}
