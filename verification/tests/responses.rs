use power_test::binary64::Real;
use power_test::client::responses::{
    InputText, ResponsesClient, ResponsesInput, ResponsesSseParser,
};
use power_test::client::{Arrival, RequestMetrics};
use power_test::config::{
    ApiKind, DatasetSpec, LoadPattern, PromptDistribution, PromptSource, RequestStrategy,
    RunConfig,
};
use power_test::dataset::OwnedChatMessage;

fn number(x: f64) -> Real {
    Real { bits: x.to_bits() }
}

fn base_config() -> RunConfig {
    RunConfig {
        run_id: "test".to_string(),
        target: "http://localhost:9999/v1/responses".to_string(),
        api: ApiKind::Responses,
        model: "responses-test-model".to_string(),
        prompt: PromptSource::Literal { text: "hi".to_string() },
        dataset: DatasetSpec::Literal { text: "hi".to_string() },
        strategy: RequestStrategy::Random,
        prompt_distribution: PromptDistribution::from_single(1),
        pattern: LoadPattern::Constant { rps: number(1.0) },
        max_tokens: 64,
        stream: true,
        target_rps: number(1.0),
        duration_secs: 1,
        concurrency: 4,
        tag: None,
        api_key: Some("sk-responses-test".to_string()),
        started_at: "2026-01-01T00:00:00Z".to_string(),
        raw_body_file: None,
        raw_content_type: None,
        model_alias: None,
    }
}

fn read(pieces: &[(&str, u128)]) -> RequestMetrics {
    let client = ResponsesClient::new(&base_config());
    let arrivals: Vec<Arrival> = pieces
        .iter()
        .map(|(text, at)| Arrival { bytes: text.as_bytes().to_vec(), at: *at })
        .collect();
    let mut m = RequestMetrics::default();
    m.status = 200;
    client.parse_stream(&arrivals, &None, 1000, &mut m);
    m
}

#[test]
fn sse_parser_typed_event() {
    let mut p = ResponsesSseParser::new();
    let evs = p.feed(b"event: response.output_text.delta\ndata: {\"delta\":\"hi\"}\n\n");
    assert_eq!(evs.len(), 1);
    assert_eq!(evs[0].event_type, "response.output_text.delta");
    assert_eq!(evs[0].data, "{\"delta\":\"hi\"}");
}

#[test]
fn sse_parser_data_only_event() {
    let mut p = ResponsesSseParser::new();
    let evs = p.feed(b"data: {\"x\":1}\n\n");
    assert_eq!(evs.len(), 1);
    assert_eq!(evs[0].event_type, "");
    assert_eq!(evs[0].data, "{\"x\":1}");
}

#[test]
fn responses_sse_parser_split_across_chunks() {
    let mut p = ResponsesSseParser::new();
    let evs1 = p.feed(b"event: response.create");
    assert!(evs1.is_empty());
    let evs2 = p.feed(b"d\ndata: {\"a\":1}\n\n");
    assert_eq!(evs2.len(), 1);
    assert_eq!(evs2[0].event_type, "response.created");
    assert_eq!(evs2[0].data, "{\"a\":1}");
}

#[test]
fn sse_parser_multiple_events_in_one_chunk() {
    let mut p = ResponsesSseParser::new();
    let evs = p.feed(b"event: a\ndata: 1\n\nevent: b\ndata: 2\n\n");
    assert_eq!(evs.len(), 2);
    assert_eq!(evs[0].event_type, "a");
    assert_eq!(evs[0].data, "1");
    assert_eq!(evs[1].event_type, "b");
    assert_eq!(evs[1].data, "2");
}

#[test]
fn sse_parser_ignores_comment_lines() {
    let mut p = ResponsesSseParser::new();
    let evs = p.feed(b": keepalive\ndata: 1\n\n");
    assert_eq!(evs.len(), 1);
    assert_eq!(evs[0].data, "1");
}

#[test]
fn responses_sse_parser_crlf_endings() {
    let mut p = ResponsesSseParser::new();
    let evs = p.feed(b"event: a\r\ndata: 1\r\n\r\n");
    assert_eq!(evs.len(), 1);
    assert_eq!(evs[0].event_type, "a");
    assert_eq!(evs[0].data, "1");
}

#[test]
fn streaming_response_with_text_delta_records_ttft_and_response_id() {
    let m = read(&[
        (
            "event: response.created\n\
data: {\"type\":\"response.created\",\"response\":{\"id\":\"resp_abc123\"}}\n\n",
            10,
        ),
        (
            "event: response.output_text.delta\n\
data: {\"type\":\"response.output_text.delta\",\"delta\":\"ok\"}\n\n",
            25,
        ),
        (
            "event: response.completed\n\
data: {\"type\":\"response.completed\",\"response\":{\"id\":\"resp_abc123\",\
\"usage\":{\"input_tokens\":3,\"output_tokens\":1}}}\n\n",
            40,
        ),
    ]);
    assert_eq!(m.status, 200);
    assert!(m.error.is_none());
    assert_eq!(m.ttft, Some(25));
    assert_eq!(m.response_text, "ok");
    assert_eq!(m.completion_tokens, 1, "usage wins over delta count");
    assert!(!m.estimated);
    assert_eq!(m.prompt_tokens, 3);
    assert_eq!(m.response_id.as_deref(), Some("resp_abc123"));
}

#[test]
fn streaming_with_reasoning_then_text_counts_reasoning_as_ttft() {
    let m = read(&[
        (
            "event: response.reasoning_summary_text.delta\n\
data: {\"type\":\"response.reasoning_summary_text.delta\",\"delta\":\"thinking\"}\n\n",
            10,
        ),
        (
            "event: response.output_text.delta\n\
data: {\"type\":\"response.output_text.delta\",\"delta\":\"ok\"}\n\n\
event: response.completed\n\
data: {\"type\":\"response.completed\",\"response\":{\"id\":\"resp_x\",\
\"usage\":{\"input_tokens\":2,\"output_tokens\":1}}}\n\n",
            30,
        ),
    ]);
    assert_eq!(m.ttft, Some(10));
    assert_eq!(m.response_text, "ok");
    assert_eq!(m.itl_samples, vec![20]);
}

#[test]
fn stateful_multi_turn_body_uses_previous_response_id() {
    let c = ResponsesClient::new(&base_config());
    let messages = vec![
        OwnedChatMessage::new("user", "first-question"),
        OwnedChatMessage::new("assistant", "first-answer"),
        OwnedChatMessage::new("user", "second-question"),
    ];
    let body = c.build_body_messages(&messages, Some("resp_turn1"));
    assert_eq!(body.previous_response_id, Some("resp_turn1"));
    match body.input {
        ResponsesInput::Items(items) => {
            assert_eq!(items.len(), 1);
            assert_eq!(items[0].role, "user");
            assert!(
                matches!(items[0].content, InputText::InputText { text } if text == "second-question")
            );
        }
        ResponsesInput::Text(t) => panic!("unexpected bare text {t}"),
    }
}

#[test]
fn stateless_multi_turn_body_rebuilds_full_input_items() {
    let c = ResponsesClient::new(&base_config());
    let messages = vec![
        OwnedChatMessage::new("user", "u1"),
        OwnedChatMessage::new("assistant", "a1"),
        OwnedChatMessage::new("user", "u2"),
    ];
    let body = c.build_body_messages(&messages, None);
    assert_eq!(body.previous_response_id, None);
    match body.input {
        ResponsesInput::Items(items) => {
            assert_eq!(items.len(), 3);
            assert!(matches!(items[0].content, InputText::InputText { text } if text == "u1"));
            assert_eq!(items[1].role, "assistant");
            assert!(matches!(items[1].content, InputText::OutputText { text } if text == "a1"));
            assert!(matches!(items[2].content, InputText::InputText { text } if text == "u2"));
        }
        ResponsesInput::Text(t) => panic!("unexpected bare text {t}"),
    }
}

#[test]
fn single_turn_input_is_bare_string() {
    let c = ResponsesClient::new(&base_config());
    let body = c.build_body("what is 2+2?");
    assert!(matches!(body.input, ResponsesInput::Text(t) if t == "what is 2+2?"));
    assert_eq!(body.max_output_tokens, 64);
    assert_eq!(body.model, "responses-test-model");
    assert_eq!(c.bearer_key(), Some("sk-responses-test"));
}

#[test]
fn non_streaming_response_extracts_text_and_usage() {
    let body: serde_json::Value = serde_json::from_str(
        r#"{
        "id": "resp_single",
        "output": [{
            "type": "message",
            "content": [{"type": "output_text", "text": "single answer"}]
        }],
        "usage": {"input_tokens": 5, "output_tokens": 2}
    }"#,
    )
    .unwrap();
    let c = ResponsesClient::new(&base_config());
    let mut m = RequestMetrics::default();
    c.parse_single(&body, 3, &mut m);
    assert_eq!(m.response_text, "single answer");
    assert_eq!(m.completion_tokens, 2);
    assert_eq!(m.prompt_tokens, 5);
    assert!(!m.estimated);
    assert_eq!(m.response_id.as_deref(), Some("resp_single"));
}

#[test]
fn lines_may_be_cut_anywhere() {
    let stream = "event: response.output_text.delta\r\n\
data: {\"delta\":\"h\u{e9}\"}\r\n\r\n\
: keepalive\n\
event: response.output_text.delta\n\
data: {\"delta\":\"llo\"}\n\n";
    for cut in 1..stream.len() {
        let client = ResponsesClient::new(&base_config());
        let arrivals = vec![
            Arrival { bytes: stream.as_bytes()[..cut].to_vec(), at: 7 },
            Arrival { bytes: stream.as_bytes()[cut..].to_vec(), at: 7 },
        ];
        let mut m = RequestMetrics::default();
        client.parse_stream(&arrivals, &None, 8, &mut m);
        assert_eq!(m.response_text, "h\u{e9}llo", "cut at {cut}");
        assert_eq!(m.completion_tokens, 2, "cut at {cut}");
    }
}

#[test]
fn nothing_is_read_behind_an_event_that_is_too_large() {
    let mut p = ResponsesSseParser::new();
    let mut chunk = b"event: a\ndata: 1\n\ndata: ".to_vec();
    chunk.extend(std::iter::repeat(b'x').take(1024 * 1024 + 1));
    chunk.extend_from_slice(b"\n\nevent: b\ndata: 2\n\n");
    let evs = p.feed(&chunk);
    assert_eq!(evs.len(), 1);
    assert_eq!(evs[0].event_type, "a");
    assert!(p.feed(b"event: c\ndata: 3\n\n").is_empty());
}
