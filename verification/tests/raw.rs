use power_test::binary64::Real;
use power_test::client::raw::RawClient;
use power_test::client::HttpFault;
use power_test::config::{
    ApiKind, DatasetSpec, LoadPattern, PromptDistribution, PromptSource, RequestStrategy,
    RunConfig,
};

fn number(x: f64) -> Real {
    Real { bits: x.to_bits() }
}

fn base_config() -> RunConfig {
    RunConfig {
        run_id: "test".to_string(),
        target: "http://localhost:9999/raw".to_string(),
        api: ApiKind::Raw,
        model: "raw".to_string(),
        prompt: PromptSource::Literal { text: "ignored".to_string() },
        dataset: DatasetSpec::Literal { text: "ignored".to_string() },
        strategy: RequestStrategy::Random,
        prompt_distribution: PromptDistribution::from_single(0),
        pattern: LoadPattern::Constant { rps: number(1.0) },
        max_tokens: 0,
        stream: false,
        target_rps: number(1.0),
        duration_secs: 1,
        concurrency: 4,
        tag: None,
        api_key: None,
        started_at: "2026-01-01T00:00:00Z".to_string(),
        raw_body_file: None,
        raw_content_type: None,
        model_alias: None,
    }
}

fn with_file(bytes: &[u8]) -> RawClient {
    let mut cfg = base_config();
    cfg.raw_body_file = Some("body.json".to_string());
    RawClient::new(&cfg, Some(bytes.to_vec())).unwrap()
}

#[test]
fn loads_body_file_at_construction() {
    assert_eq!(with_file(b"hello raw").body_len(), 9);
}

#[test]
fn sets_content_type_header() {
    let mut cfg = base_config();
    cfg.raw_body_file = Some("body.xml".to_string());
    cfg.raw_content_type = Some("application/xml".to_string());
    let c = RawClient::new(&cfg, Some(b"{}".to_vec())).unwrap();
    assert_eq!(c.content_type, "application/xml");
}

#[test]
fn missing_body_file_errors_at_build() {
    let mut cfg = base_config();
    cfg.raw_body_file = Some("/no/such/file.json".to_string());
    let msg = RawClient::new(&cfg, None).unwrap_err().message();
    assert!(msg.contains("not found") || msg.contains("/no/such/file.json"));
    assert_eq!(msg, "invalid configuration: --raw-body-file not found: /no/such/file.json");
}

#[test]
fn default_content_type_is_json() {
    let c = RawClient::new(&base_config(), None).unwrap();
    assert_eq!(c.content_type, "application/json");
}

#[test]
fn raw_non_2xx_response_records_error() {
    let c = RawClient::new(&base_config(), None).unwrap();
    let mut m = c.begin();
    c.finish(&mut m, 500, Ok(4), 10);
    assert_eq!(m.status, 500);
    assert!(m.error.is_some(), "error should be set on 500");
    assert_eq!(m.error.as_deref(), Some("HTTP 500"));
}

#[test]
fn success_response_estimates_tokens_from_bytes() {
    let c = RawClient::new(&base_config(), None).unwrap();
    let mut m = c.begin();
    c.finish(&mut m, 200, Ok(2), 10);
    assert_eq!(m.status, 200);
    assert!(m.error.is_none(), "unexpected error: {:?}", m.error);
    assert!(m.estimated);
    assert!(m.completion_tokens <= 1, "got {}", m.completion_tokens);
    let mut m = c.begin();
    c.finish(&mut m, 200, Ok(43), 10);
    assert_eq!(m.completion_tokens, 10);
}

#[test]
fn an_unreadable_reply_is_an_error() {
    let c = RawClient::new(&base_config(), None).unwrap();
    let mut m = c.begin();
    c.finish(&mut m, 200, Err("reset".to_string()), 10);
    assert_eq!(m.error.as_deref(), Some("body read: reset"));
    assert!(!m.estimated);
}

#[test]
fn sends_the_key_that_is_set() {
    let mut cfg = base_config();
    cfg.api_key = Some("my-secret".to_string());
    let c = RawClient::new(&cfg, None).unwrap();
    assert_eq!(c.api_key.as_deref(), Some("my-secret"));
    cfg.api_key = Some("  ".to_string());
    let c = RawClient::new(&cfg, None).unwrap();
    assert_eq!(c.api_key, None);
}

#[test]
fn empty_body_when_no_file() {
    let c = RawClient::new(&base_config(), None).unwrap();
    assert_eq!(c.body_len(), 0);
    assert_eq!(c.begin().prompt_tokens, 1);
}

#[test]
fn prompt_token_estimate_uses_body_bytes() {
    let c = with_file(b"a]a]a]a]");
    assert_eq!(c.body_len(), 8);
    assert_eq!(c.begin().prompt_tokens, 2);
}

#[test]
fn a_request_without_a_reply_is_an_error() {
    let fault = HttpFault {
        message: "error sending request".to_string(),
        url: String::new(),
        causes: vec![],
        is_decode: false,
        is_body: false,
        is_timeout: true,
        is_connect: false,
        is_request: true,
    };
    let c = with_file(b"hello raw");
    let mut m = c.begin();
    assert_eq!(m.prompt_tokens, 2);
    c.unsent(&mut m, &fault, 12);
    assert_eq!(
        m.error.as_deref(),
        Some(
            "transport: error sending request\n  is_timeout: true\n  is_connect: false\n  \
             is_request: true\n  is_body: false"
        )
    );
    assert_eq!(m.total_duration, 12);
    assert_eq!(m.status, 0);
}
