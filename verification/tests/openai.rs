use power_test::binary64::Real;
use power_test::client::openai::{OpenaiClient, SseParser};
use power_test::client::{
    format_stream_error, format_transport_error, how_to_read, join_messages, Arrival, HttpFault,
    Reading, Reply, RequestMetrics, StreamTally,
};
use power_test::config::{
    ApiKind, DatasetSpec, LoadPattern, PromptDistribution, PromptSource, RequestStrategy,
    RunConfig,
};
use power_test::dataset::OwnedChatMessage;
use power_test::text::truncate;

fn number(x: f64) -> Real {
    Real { bits: x.to_bits() }
}

fn base_config() -> RunConfig {
    RunConfig {
        run_id: "test".to_string(),
        target: "http://localhost:9999/v1/chat/completions".to_string(),
        api: ApiKind::Openai,
        model: "gpt-test".to_string(),
        prompt: PromptSource::Literal { text: "hi".to_string() },
        dataset: DatasetSpec::Literal { text: "hi".to_string() },
        strategy: RequestStrategy::Random,
        prompt_distribution: PromptDistribution::from_single(1),
        pattern: LoadPattern::Constant { rps: number(1.0) },
        max_tokens: 16,
        stream: true,
        target_rps: number(1.0),
        duration_secs: 1,
        concurrency: 4,
        tag: None,
        api_key: Some("sk-openai-test".to_string()),
        started_at: "2026-01-01T00:00:00Z".to_string(),
        raw_body_file: None,
        raw_content_type: None,
        model_alias: None,
    }
}

fn read(pieces: &[(&str, u128)], fault: Option<&str>, total: u128) -> RequestMetrics {
    let client = OpenaiClient::new(&base_config());
    let arrivals: Vec<Arrival> = pieces
        .iter()
        .map(|(text, at)| Arrival { bytes: text.as_bytes().to_vec(), at: *at })
        .collect();
    let mut m = RequestMetrics::default();
    m.status = 200;
    client.parse_stream(&arrivals, &fault.map(|f| f.to_string()), total, &mut m);
    m
}

#[test]
fn sse_parser_single_event() {
    let mut p = SseParser::new();
    let evs = p.feed(b"data: {\"a\":1}\n\n");
    assert_eq!(evs.len(), 1);
    assert_eq!(evs[0].data, "{\"a\":1}");
}

#[test]
fn sse_parser_multi_event_in_one_chunk() {
    let mut p = SseParser::new();
    let evs = p.feed(b"data: 1\n\ndata: 2\n\n");
    assert_eq!(evs.len(), 2);
    assert_eq!(evs[0].data, "1");
    assert_eq!(evs[1].data, "2");
}

#[test]
fn openai_sse_parser_split_across_chunks() {
    let mut p = SseParser::new();
    let evs1 = p.feed(b"data: {\"a\"");
    assert!(evs1.is_empty());
    let evs2 = p.feed(b":1}\n\n");
    assert_eq!(evs2.len(), 1);
    assert_eq!(evs2[0].data, "{\"a\":1}");
}

#[test]
fn sse_parser_done_marker() {
    let mut p = SseParser::new();
    let evs = p.feed(b"data: [DONE]\n\n");
    assert_eq!(evs.len(), 1);
    assert_eq!(evs[0].data, "[DONE]");
}

#[test]
fn openai_sse_parser_crlf_endings() {
    let mut p = SseParser::new();
    let evs = p.feed(b"data: hi\r\n\r\n");
    assert_eq!(evs.len(), 1);
    assert_eq!(evs[0].data, "hi");
}

#[test]
fn sse_parser_ignores_non_data_lines() {
    let mut p = SseParser::new();
    let evs = p.feed(b"event: message\ndata: x\nid: 1\n\n");
    assert_eq!(evs.len(), 1);
    assert_eq!(evs[0].data, "x");
}

#[test]
fn truncate_respects_char_boundaries() {
    let s = "h\u{e9}llo";
    let t = truncate(s, 2);
    assert!(t.ends_with('\u{2026}') || t == "h\u{e9}llo");
}

#[test]
fn malformed_bytes_become_replacement_characters() {
    let mut p = SseParser::new();
    let evs = p.feed(b"data: a\xffb\n\n");
    assert_eq!(evs.len(), 1);
    assert_eq!(evs[0].data, "a\u{fffd}b");
}

#[test]
fn full_streaming_with_reasoning_content_counts_as_ttft() {
    let m = read(
        &[
            (
                "data: {\"id\":\"1\",\"object\":\"chat.completion.chunk\",\
\"choices\":[{\"index\":0,\"delta\":{\"reasoning_content\":\"Let me think\"},\"finish_reason\":null}]}\n\n",
                30,
            ),
            (
                "data: {\"id\":\"1\",\"object\":\"chat.completion.chunk\",\
\"choices\":[{\"index\":0,\"delta\":{\"content\":\"ok\"},\"finish_reason\":null}]}\n\n",
                50,
            ),
            (
                "data: {\"id\":\"1\",\"object\":\"chat.completion.chunk\",\
\"choices\":[{\"index\":0,\"delta\":{},\"finish_reason\":\"stop\"}],\
\"usage\":{\"prompt_tokens\":3,\"completion_tokens\":5}}\n\ndata: [DONE]\n\n",
                60,
            ),
        ],
        None,
        70,
    );
    assert_eq!(m.status, 200);
    assert!(m.error.is_none());
    assert_eq!(m.ttft, Some(30));
    assert_eq!(m.itl_samples, vec![20]);
    assert_eq!(m.completion_tokens, 5);
    assert!(!m.estimated);
    assert_eq!(m.prompt_tokens, 3);
    assert_eq!(m.response_text, "ok");
    assert_eq!(m.total_duration, 70);
}

#[test]
fn deltas_are_counted_without_a_usage() {
    let m = read(
        &[(
            "data: {\"choices\":[{\"delta\":{\"content\":\"a\"}}]}\n\n\
data: {\"choices\":[{\"delta\":{\"content\":\"b\"}}]}\n\n\
data: not json\n\n\
data: {\"choices\":[{\"delta\":{\"content\":\"c\"}}]}\n\n",
            5,
        )],
        None,
        6,
    );
    assert_eq!(m.completion_tokens, 3);
    assert!(m.estimated);
    assert_eq!(m.response_text, "abc");
    assert_eq!(m.itl_samples, vec![0, 0]);
}

#[test]
fn cached_prompt_tokens_are_read() {
    let m = read(
        &[(
            "data: {\"choices\":[],\"usage\":{\"prompt_tokens\":100,\"completion_tokens\":2,\
\"prompt_tokens_details\":{\"cached_tokens\":64}}}\n\n",
            5,
        )],
        None,
        6,
    );
    assert_eq!(m.cache_hit_input_tokens, 64);
    assert_eq!(m.prompt_tokens, 100);
}

#[test]
fn single_reply_is_read() {
    let c = OpenaiClient::new(&base_config());
    let mut m = RequestMetrics::default();
    let body: serde_json::Value = serde_json::from_str(
        "{\"choices\":[{\"message\":{\"role\":\"assistant\",\"content\":\"four\"}}],\
\"usage\":{\"prompt_tokens\":9,\"completion_tokens\":4}}",
    )
    .unwrap();
    c.parse_single(&body, 12, &mut m);
    assert_eq!(m.response_text, "four");
    assert_eq!(m.completion_tokens, 4);
    assert_eq!(m.prompt_tokens, 9);
    assert_eq!(m.total_duration, 12);
    assert!(!m.estimated);
}

#[test]
fn build_body_messages_includes_all_roles() {
    let cfg = base_config();
    let c = OpenaiClient::new(&cfg);
    let messages = vec![
        OwnedChatMessage::new("system", "you are terse"),
        OwnedChatMessage::new("user", "hi"),
        OwnedChatMessage::new("assistant", "hello"),
    ];
    let body = c.build_body_messages(&messages);
    assert_eq!(body.messages.len(), 3);
    assert_eq!(body.messages[0].role, "system");
    assert_eq!(body.messages[1].role, "user");
    assert_eq!(body.messages[2].role, "assistant");
    assert_eq!(body.messages[0].content, "you are terse");
    assert!(body.stream_options.is_some());
}

#[test]
fn a_streamed_body_asks_for_the_usage() {
    let mut cfg = base_config();
    let c = OpenaiClient::new(&cfg);
    assert!(c.build_body("x").stream_options.unwrap().include_usage);
    cfg.stream = false;
    let c = OpenaiClient::new(&cfg);
    assert!(c.build_body("x").stream_options.is_none());
    assert_eq!(c.bearer_key(), Some("sk-openai-test"));
    cfg.api_key = Some(String::new());
    assert_eq!(OpenaiClient::new(&cfg).bearer_key(), None);
}

fn refused_connection() -> HttpFault {
    HttpFault {
        message: "error sending request".to_string(),
        url: "http://localhost:1/".to_string(),
        causes: vec!["connection refused".to_string()],
        is_decode: false,
        is_body: false,
        is_timeout: false,
        is_connect: true,
        is_request: true,
    }
}

fn conclude(reply: Reply) -> RequestMetrics {
    let client = OpenaiClient::new(&base_config());
    let mut m = RequestMetrics::default();
    client.dispatch(&reply, 99, &mut m);
    m
}

#[test]
fn every_failure_is_recorded() {
    let m = conclude(Reply::Unsent(refused_connection()));
    assert_eq!(m.status, 0);
    assert!(m.error.as_deref().unwrap().contains("transport"));
    assert_eq!(m.error, Some(format!("transport: {}", refused_connection().message)));
    assert_eq!(m.total_duration, 99);
    let m = conclude(Reply::Refusal { status: 429, text: "slow down".to_string() });
    assert_eq!(m.status, 429);
    assert_eq!(m.error.as_deref(), Some("HTTP 429: slow down"));
    let m = conclude(Reply::Whole { status: 200, body: Err("no JSON".to_string()) });
    assert_eq!(m.status, 200);
    assert_eq!(m.error.as_deref(), Some("body parse: no JSON"));
    let m = conclude(Reply::Stream {
        status: 200,
        arrivals: vec![],
        fault: Some("stream read: gone".to_string()),
    });
    assert_eq!(m.error.as_deref(), Some("stream read: gone"));
    assert!(!m.is_ok());
}

#[test]
fn long_refusals_are_cut() {
    let m = conclude(Reply::Refusal { status: 500, text: "x".repeat(500) });
    assert_eq!(m.error, Some(format!("HTTP 500: {}\u{2026}", "x".repeat(200))));
}

#[test]
fn answers_are_taken_whole_or_as_a_stream() {
    let body: serde_json::Value = serde_json::from_str(
        "{\"choices\":[{\"message\":{\"content\":\"four\"}}]}",
    )
    .unwrap();
    let m = conclude(Reply::Whole { status: 200, body: Ok(body) });
    assert!(m.is_ok());
    assert_eq!(m.response_text, "four");
    let event = b"data: {\"choices\":[{\"delta\":{\"content\":\"five\"}}]}\n\n";
    let m = conclude(Reply::Stream {
        status: 201,
        arrivals: vec![Arrival { bytes: event.to_vec(), at: 7 }],
        fault: None,
    });
    assert_eq!(m.status, 201);
    assert_eq!(m.response_text, "five");
    assert_eq!(m.ttft, Some(7));
}

#[test]
fn the_status_tells_how_to_read() {
    assert_eq!(how_to_read(200, true), Reading::Stream);
    assert_eq!(how_to_read(299, false), Reading::Whole);
    assert_eq!(how_to_read(300, true), Reading::Refusal);
    assert_eq!(how_to_read(199, false), Reading::Refusal);
}

#[test]
fn transport_errors_name_their_causes() {
    let fault = refused_connection();
    let text = format_transport_error(&fault);
    assert!(text.contains("transport"), "got {text}");
    assert!(text.contains("connection refused"), "got {text}");
    let text = format_stream_error(&fault, 200, &None, &Some(Some("chunked".to_string())), 512);
    assert!(text.contains("512"), "got {text}");
    assert!(text.contains("chunked"), "got {text}");
}

#[test]
fn messages_are_joined_for_an_estimate() {
    let messages = vec![
        OwnedChatMessage::new("user", "one"),
        OwnedChatMessage::new("assistant", "two"),
    ];
    let joined = join_messages(&messages);
    assert!(joined.contains("one") && joined.contains("two"));
}

#[test]
fn events_may_be_cut_anywhere() {
    let stream = "data: {\"choices\":[{\"delta\":{\"content\":\"h\u{e9}\"}}]}\r\n\r\n\
data: {\"choices\":[{\"delta\":{\"content\":\"llo\"}}]}\n\n\
data: {\"choices\":[],\"usage\":{\"prompt_tokens\":4,\"completion_tokens\":9}}\n\n";
    let client = OpenaiClient::new(&base_config());
    for cut in 1..stream.len() {
        let arrivals = vec![
            Arrival { bytes: stream.as_bytes()[..cut].to_vec(), at: 7 },
            Arrival { bytes: stream.as_bytes()[cut..].to_vec(), at: 70 },
        ];
        let mut m = RequestMetrics::default();
        client.parse_stream(&arrivals, &None, 80, &mut m);
        assert_eq!(m.response_text, "h\u{e9}llo", "cut at {cut}");
        assert_eq!(m.completion_tokens, 9, "cut at {cut}");
        assert_eq!(m.prompt_tokens, 4, "cut at {cut}");
    }
}

#[test]
fn gaps_add_up_to_the_time_between_the_first_and_the_last_token() {
    let mut tally = StreamTally::new();
    for at in [10, 15, 15, 40] {
        tally.bump_token_timing(at);
    }
    assert_eq!(tally.itl_samples, vec![5, 0, 25]);
    assert_eq!(tally.itl_samples.iter().sum::<u128>(), 40 - 10);
    assert_eq!(tally.first_token_at, Some(10));
    assert_eq!(tally.last_token_at, Some(40));
}
