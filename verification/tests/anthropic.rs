use power_test::client::anthropic::{
    AnthropicClient, AnthropicSseEvent, AnthropicSseParser, EventKind, ANTHROPIC_VERSION,
};
use power_test::client::{Arrival, RequestMetrics};
use power_test::text::truncate;
use power_test::binary64::Real;
use power_test::config::{
    ApiKind, DatasetSpec, LoadPattern, PromptDistribution, PromptSource, RequestStrategy,
    RunConfig,
};

fn number(x: f64) -> Real {
    Real { bits: x.to_bits() }
}

fn base_config() -> RunConfig {
    RunConfig {
        run_id: "test".to_string(),
        target: "http://localhost:9999/v1/messages".to_string(),
        api: ApiKind::Anthropic,
        model: "messages-test".to_string(),
        prompt: PromptSource::Literal { text: "hi".to_string() },
        dataset: DatasetSpec::Literal { text: "hi".to_string() },
        strategy: RequestStrategy::Random,
        prompt_distribution: PromptDistribution::from_single(1),
        pattern: LoadPattern::Constant { rps: number(1.0) },
        max_tokens: 16,
        stream: true,
        target_rps: number(1.0),
        duration_secs: 1,
        concurrency: 4,
        tag: None,
        api_key: Some("sk-ant-test".to_string()),
        started_at: "2026-01-01T00:00:00Z".to_string(),
        raw_body_file: None,
        raw_content_type: None,
        model_alias: None,
    }
}

/// Reads a stream of which each piece arrives ten milliseconds after the one before.
fn read(pieces: &[&str], fault: Option<&str>) -> RequestMetrics {
    let client = AnthropicClient::new(&base_config()).unwrap();
    let mut arrivals: Vec<Arrival> = Vec::new();
    let mut at: u128 = 0;
    for piece in pieces {
        at += 10_000_000;
        arrivals.push(Arrival { bytes: piece.as_bytes().to_vec(), at });
    }
    let mut m = RequestMetrics::default();
    m.status = 200;
    client.parse_stream(&arrivals, &fault.map(|f| f.to_string()), at + 1, &mut m);
    m
}

#[test]
fn build_body_has_anthropic_shape() {
    let cfg = base_config();
    let c = AnthropicClient::new(&cfg).unwrap();
    let body = c.build_body("hello world");
    assert_eq!(body.model, "messages-test");
    assert_eq!(body.max_tokens, 16);
    assert!(body.stream);
    assert_eq!(body.messages.len(), 1);
    assert_eq!(body.messages[0].role, "user");
    assert_eq!(body.messages[0].content, "hello world");
}

#[test]
fn headers_include_x_api_key_and_version() {
    let cfg = base_config();
    let c = AnthropicClient::new(&cfg).unwrap();
    assert_eq!(c.target, "http://localhost:9999/v1/messages");
    let headers = c.headers();
    let has = |name: &str, value: &str| headers.iter().any(|(k, v)| k == name && v == value);
    assert!(has("x-api-key", "sk-ant-test"), "x-api-key header missing");
    assert!(has("anthropic-version", ANTHROPIC_VERSION), "anthropic-version header missing");
    assert!(has("content-type", "application/json"), "content-type header missing");
}

#[test]
fn missing_api_key_errors() {
    let mut cfg = base_config();
    cfg.api_key = None;
    let msg = AnthropicClient::new(&cfg).unwrap_err().message();
    assert!(msg.contains("anthropic") || msg.contains("api-key"), "got: {msg}");
    let mut cfg = base_config();
    cfg.api_key = Some("   ".to_string());
    let msg = AnthropicClient::new(&cfg).unwrap_err().message();
    assert!(msg.contains("anthropic") || msg.contains("api-key"), "got: {msg}");
}

#[test]
fn parses_non_streaming_response() {
    let raw = r#"{
        "id": "msg_1",
        "type": "message",
        "role": "assistant",
        "content": [{"type": "text", "text": "hi"}],
        "model": "messages-test",
        "stop_reason": "end_turn",
        "usage": {"input_tokens": 10, "output_tokens": 20}
    }"#;
    let v: serde_json::Value = serde_json::from_str(raw).unwrap();
    assert_eq!(v["usage"]["input_tokens"], 10);
    assert_eq!(v["usage"]["output_tokens"], 20);
    assert_eq!(v["content"][0]["text"], "hi");

    let c = AnthropicClient::new(&base_config()).unwrap();
    let mut m = RequestMetrics::default();
    c.parse_single(&serde_json::from_str(raw).unwrap(), 5, &mut m);
    assert_eq!(m.prompt_tokens, 10);
    assert_eq!(m.completion_tokens, 20);
    assert_eq!(m.response_text, "hi");
    assert_eq!(m.total_duration, 5);
    assert!(m.ttft.is_none());
}

#[test]
fn parses_streaming_text_deltas_for_ttft_itl_tps() {
    let stream = "event: message_start\n\
data: {\"type\":\"message_start\",\"message\":{\"usage\":{\"input_tokens\":5,\"output_tokens\":0}}}\n\
\n\
event: content_block_start\n\
data: {\"type\":\"content_block_start\",\"index\":0,\"content_block\":{\"type\":\"text\",\"text\":\"\"}}\n\
\n\
event: content_block_delta\n\
data: {\"type\":\"content_block_delta\",\"index\":0,\"delta\":{\"type\":\"text_delta\",\"text\":\"hi\"}}\n\
\n\
event: content_block_delta\n\
data: {\"type\":\"content_block_delta\",\"index\":0,\"delta\":{\"type\":\"text_delta\",\"text\":\" there\"}}\n\
\n\
event: content_block_stop\n\
data: {\"type\":\"content_block_stop\",\"index\":0}\n\
\n\
event: message_delta\n\
data: {\"type\":\"message_delta\",\"usage\":{\"output_tokens\":7}}\n\
\n\
event: message_stop\n\
data: {\"type\":\"message_stop\"}\n\
\n";
    let mut p = AnthropicSseParser::new();
    let events = p.feed(stream.as_bytes());
    let of = |kind: EventKind| -> Vec<&AnthropicSseEvent> {
        events.iter().filter(|e| e.event_kind == kind).collect()
    };
    assert_eq!(of(EventKind::MessageStart).len(), 1);
    assert_eq!(of(EventKind::ContentBlockDelta).len(), 2, "two text deltas expected");
    let msg_deltas = of(EventKind::MessageDelta);
    assert_eq!(msg_deltas.len(), 1);
    let v: serde_json::Value = serde_json::from_str(&msg_deltas[0].data).unwrap();
    assert_eq!(v["usage"]["output_tokens"], 7);
}

#[test]
fn streaming_message_delta_updates_usage() {
    let v: serde_json::Value =
        serde_json::from_str("{\"usage\":{\"output_tokens\":42}}").unwrap();
    let out = v["usage"]["output_tokens"].as_u64().unwrap();
    assert_eq!(out, 42);

    let m = read(
        &["event: content_block_delta\n\
data: {\"delta\":{\"type\":\"text_delta\",\"text\":\"x\"}}\n\n\
event: message_delta\ndata: {\"usage\":{\"output_tokens\":42}}\n\n"],
        None,
    );
    assert_eq!(m.completion_tokens, 42);
    assert!(!m.estimated);
}

#[test]
fn anthropic_non_2xx_response_records_error() {
    let snippet = r#"{"type":"error","error":{"type":"invalid_request_error","message":"bad model"}}"#;
    let expected = format!("HTTP 400: {snippet}");
    assert!(expected.starts_with("HTTP 400:"));

    let mut m = RequestMetrics::default();
    m.status = 400;
    m.refuse(snippet, 9);
    assert_eq!(m.error, Some(expected));
    assert_eq!(m.total_duration, 9);
    assert!(!m.is_ok());
}

#[test]
fn event_error_in_stream_records_error() {
    let stream = "event: message_start\n\
data: {\"type\":\"message_start\",\"message\":{\"usage\":{\"input_tokens\":0,\"output_tokens\":0}}}\n\
\n\
event: error\n\
data: {\"type\":\"error\",\"error\":{\"type\":\"rate_limit_error\",\"message\":\"too many\"}}\n\
\n";
    let mut p = AnthropicSseParser::new();
    let events = p.feed(stream.as_bytes());
    let err_event = events
        .iter()
        .find(|e| e.event_kind == EventKind::Error)
        .expect("error event should be parsed");
    let v: serde_json::Value = serde_json::from_str(&err_event.data).unwrap();
    assert_eq!(v["error"]["type"], "rate_limit_error");

    let m = read(&[stream], None);
    assert!(m.error.is_some());
}

#[test]
fn full_streaming_request() {
    let body = "event: message_start\n\
data: {\"type\":\"message_start\",\"message\":{\"usage\":{\"input_tokens\":7,\"output_tokens\":0}}}\n\
\n\
event: content_block_delta\n\
data: {\"type\":\"content_block_delta\",\"index\":0,\"delta\":{\"type\":\"text_delta\",\"text\":\"hello\"}}\n\
\n\
event: content_block_delta\n\
data: {\"type\":\"content_block_delta\",\"index\":0,\"delta\":{\"type\":\"text_delta\",\"text\":\" world\"}}\n\
\n\
event: message_delta\n\
data: {\"type\":\"message_delta\",\"usage\":{\"output_tokens\":11}}\n\
\n\
event: message_stop\n\
data: {\"type\":\"message_stop\"}\n\
\n";
    let m = read(&[body], None);
    assert_eq!(m.status, 200);
    assert!(m.error.is_none(), "unexpected error: {:?}", m.error);
    assert_eq!(m.completion_tokens, 11);
    assert!(!m.estimated, "should not be estimated when message_delta.usage is present");
    assert_eq!(m.prompt_tokens, 7);
    assert!(m.ttft.is_some());
    assert_eq!(m.itl_samples.len(), 1);
    assert_eq!(m.response_text, "hello world");
}

#[test]
fn full_streaming_with_thinking_delta_counts_as_ttft() {
    let head = "event: message_start\n\
data: {\"type\":\"message_start\",\"message\":{\"usage\":{\"input_tokens\":3,\"output_tokens\":0}}}\n\
\n";
    let thinking = "event: content_block_delta\n\
data: {\"type\":\"content_block_delta\",\"index\":0,\"delta\":{\"type\":\"thinking_delta\",\"thinking\":\"Let me think...\"}}\n\
\n";
    let text = "event: content_block_delta\n\
data: {\"type\":\"content_block_delta\",\"index\":0,\"delta\":{\"type\":\"text_delta\",\"text\":\"ok\"}}\n\
\n";
    let tail = "event: message_delta\n\
data: {\"type\":\"message_delta\",\"usage\":{\"output_tokens\":5}}\n\
\n";
    let m = read(&[head, thinking, text, tail], None);
    assert!(m.error.is_none());
    assert_eq!(m.ttft, Some(20_000_000));
    assert_eq!(m.itl_samples, vec![10_000_000]);
    assert_eq!(m.completion_tokens, 5);
    assert_eq!(m.response_text, "ok");
    assert_eq!(m.total_duration, 40_000_001);
}

#[test]
fn cuts_inside_of_events_change_nothing() {
    let stream = "event: content_block_delta\r\n\
data: {\"delta\":{\"type\":\"text_delta\",\"text\":\"h\u{e9}\"}}\r\n\r\n\
event: content_block_delta\n\
data: {\"delta\":{\"type\":\"text_delta\",\"text\":\"llo\"}}\n\n";
    let whole = read(&[stream], None);
    assert_eq!(whole.response_text, "h\u{e9}llo");
    for cut in 1..stream.len() {
        let client = AnthropicClient::new(&base_config()).unwrap();
        let arrivals = vec![
            Arrival { bytes: stream.as_bytes()[..cut].to_vec(), at: 7 },
            Arrival { bytes: stream.as_bytes()[cut..].to_vec(), at: 7 },
        ];
        let mut m = RequestMetrics::default();
        client.parse_stream(&arrivals, &None, 8, &mut m);
        assert_eq!(m.response_text, whole.response_text, "cut at {cut}");
        assert_eq!(m.completion_tokens, whole.completion_tokens, "cut at {cut}");
    }
}

#[test]
fn a_broken_stream_keeps_what_came_before() {
    let m = read(
        &["event: content_block_delta\n\
data: {\"delta\":{\"type\":\"text_delta\",\"text\":\"x\"}}\n\n"],
        Some("stream error: gone"),
    );
    assert_eq!(m.error.as_deref(), Some("stream error: gone"));
    assert_eq!(m.response_text, "x");
    assert_eq!(m.completion_tokens, 1);
    assert!(m.estimated);
    assert_eq!(m.ttft, None);
}

#[test]
fn parses_streaming_split_across_chunks() {
    let mut p = AnthropicSseParser::new();
    let full = "event: ping\n\
data: {}\n\
\n\
event: content_block_delta\n\
data: {\"type\":\"content_block_delta\",\"delta\":{\"type\":\"text_delta\",\"text\":\"x\"}}\n\
\n";
    let bytes = full.as_bytes();
    let first = p.feed(&bytes[..22]);
    assert_eq!(first.len(), 1, "first event should be emitted at boundary");
    assert_eq!(first[0].event_kind, EventKind::Other);
    let split = 22 + 14;
    let partial = p.feed(&bytes[22..split]);
    assert!(partial.is_empty(), "no event expected before second boundary");
    let rest = p.feed(&bytes[split..]);
    let kinds: Vec<EventKind> = rest.iter().map(|e| e.event_kind).collect();
    assert_eq!(kinds, vec![EventKind::ContentBlockDelta]);
}

#[test]
fn empty_and_blank_lines_ignored() {
    let mut p = AnthropicSseParser::new();
    let evs = p.feed(b"\n\nevent: ping\ndata: {}\n\n\n");
    assert_eq!(evs.len(), 1);
    assert_eq!(evs[0].event_kind, EventKind::Other);
}

#[test]
fn truncate_handles_multibyte() {
    let s = "h\u{e9}llo";
    let t = truncate(s, 2);
    assert!(t.ends_with('\u{2026}') || t == "h\u{e9}llo");
}

fn cache_stream(created: u32, hit: u32, output: u32) -> String {
    let mut s = String::new();
    s.push_str("event: message_start\ndata: {\"type\":\"message_start\",\"message\":{\"usage\":{");
    s.push_str(&format!(
        "\"input_tokens\":1000,\"cache_creation_input_tokens\":{created},\
\"cache_read_input_tokens\":{hit},\"output_tokens\":0"
    ));
    s.push_str("}}}\n\nevent: content_block_delta\n");
    s.push_str("data: {\"delta\":{\"type\":\"text_delta\",\"text\":\"ok\"}}\n\n");
    s.push_str("event: message_delta\n");
    s.push_str(&format!("data: {{\"usage\":{{\"output_tokens\":{output}}}}}\n\n"));
    s
}

#[test]
fn full_streaming_reads_cache_creation_and_cache_read() {
    let m = read(&[&cache_stream(800, 0, 2)], None);
    assert_eq!(m.prompt_tokens, 1000);
    assert_eq!(m.cache_creation_input_tokens, 800);
    assert_eq!(m.cache_hit_input_tokens, 0);
    assert_eq!(m.completion_tokens, 2);
}

#[test]
fn full_streaming_reads_cache_read_on_continuation() {
    let m = read(&[&cache_stream(0, 900, 1)], None);
    assert_eq!(m.cache_creation_input_tokens, 0);
    assert_eq!(m.cache_hit_input_tokens, 900);
}

#[test]
fn non_streaming_reads_cache_fields() {
    let body = r#"{
        "id": "msg_1",
        "content": [{"type": "text", "text": "ok"}],
        "usage": {
            "input_tokens": 200,
            "output_tokens": 1,
            "cache_creation_input_tokens": 50,
            "cache_read_input_tokens": 0
        }
    }"#;
    let c = AnthropicClient::new(&base_config()).unwrap();
    let mut m = RequestMetrics::default();
    c.parse_single(&serde_json::from_str(body).unwrap(), 1, &mut m);
    assert_eq!(m.prompt_tokens, 200);
    assert_eq!(m.cache_creation_input_tokens, 50);
    assert_eq!(m.cache_hit_input_tokens, 0);
}
