//! The Anthropic Messages client.
//!
//! A stream starts with `message_start`, which carries the prompt and cache
//! token counts; `content_block_delta` events are the token arrivals;
//! `message_delta` carries the final completion count; an `error` event fails
//! the request.

use super::openai::{add_line, data_of_line, latest, line_data, told};
use super::sse::{
    chunking_is_irrelevant, lossy_text, raw_events, take_event, unfinished, utf8_lossy, whole,
};
use super::{
    broken_off, chunks_of, failed, failed_with, header_views, one_more_token, refusal_text,
    same_answer, settled, tokens_at, unsent_error, unsent_text, Arrival, Reply, RequestMetrics, StreamTally, StreamView,
};
use crate::config::{estimate_tokens, estimated_tokens, opt_view, RunConfig};
use crate::dataset::OwnedChatMessage;
use crate::error::Error;
use crate::json::{
    count_at, get, get_array, get_str, get_u64, items_at, json_value, parse_json, text_at, trees,
    value_tree, Json,
};
use crate::text::{
    after_prefix, clipped, decimal, join, joined, lines, same_text, strip_prefix, text_lines, trim, trimmed, views,
    views_push,
};
use vstd::prelude::*;

verus! {

/// The value of the `anthropic-version` header.
pub const ANTHROPIC_VERSION: &'static str = "2023-06-01";

/// What the client needs of the configuration.
#[derive(Debug)]
pub struct AnthropicClient {
    pub target: String,
    pub model: String,
    pub max_tokens: u32,
    pub stream: bool,
    /// Sent as `x-api-key`.
    pub api_key: String,
}

/// A key without surrounding whitespace, where anything is left of it.
pub open spec fn usable_key(key: Option<Seq<char>>) -> Option<Seq<char>> {
    match key {
        Some(k) => if trimmed(k).len() > 0 {
            Some(trimmed(k))
        } else {
            None
        },
        None => None,
    }
}

/// Trims a key and drops an empty one.
pub fn clean_key(key: &Option<String>) -> (r: Option<String>)
    ensures
        opt_view(r) == usable_key(opt_view(*key)),
{
    match key {
        Some(k) => {
            let t = trim(k.as_str());
            if t.as_str().is_empty() {
                None
            } else {
                Some(t)
            }
        },
        None => None,
    }
}

/// The request body of the Messages API.
#[derive(Debug)]
pub struct AnthropicRequest<'a> {
    pub model: &'a str,
    pub max_tokens: u32,
    pub messages: Vec<AnthropicMessage<'a>>,
    pub stream: bool,
}

#[derive(Debug)]
pub struct AnthropicMessage<'a> {
    pub role: &'a str,
    pub content: &'a str,
}

impl AnthropicClient {
    /// Fails where there is no usable key.
    pub fn new(cfg: &RunConfig) -> (r: Result<Self, Error>)
        ensures
            match r {
                Ok(c) => {
                    &&& usable_key(opt_view(cfg.api_key)) == Some(c.api_key@)
                    &&& c.target@ == cfg.target@
                    &&& c.model@ == cfg.model@
                    &&& c.max_tokens == cfg.max_tokens
                    &&& c.stream == cfg.stream
                },
                Err(e) => {
                    &&& usable_key(opt_view(cfg.api_key)) is None
                    &&& e matches Error::InvalidConfig(msg) && msg@
                        == "anthropic API requires --api-key (or OPENAI_API_KEY env)"@
                },
            },
    {
        match clean_key(&cfg.api_key) {
            Some(key) => Ok(
                AnthropicClient {
                    target: cfg.target.clone(),
                    model: cfg.model.clone(),
                    max_tokens: cfg.max_tokens,
                    stream: cfg.stream,
                    api_key: key,
                },
            ),
            None => Err(
                Error::InvalidConfig(
                    "anthropic API requires --api-key (or OPENAI_API_KEY env)".to_owned(),
                ),
            ),
        }
    }

    /// The headers of a request.
    pub fn headers(&self) -> (r: Vec<(String, String)>)
        ensures
            header_views(r@) == seq![
                ("content-type"@, "application/json"@),
                ("anthropic-version"@, ANTHROPIC_VERSION@),
                ("x-api-key"@, self.api_key@),
            ],
    {
        let mut out: Vec<(String, String)> = Vec::new();
        out.push(("content-type".to_owned(), "application/json".to_owned()));
        out.push(("anthropic-version".to_owned(), ANTHROPIC_VERSION.to_owned()));
        out.push(("x-api-key".to_owned(), self.api_key.clone()));
        proof {
            assert(header_views(out@) =~= seq![
                ("content-type"@, "application/json"@),
                ("anthropic-version"@, ANTHROPIC_VERSION@),
                ("x-api-key"@, self.api_key@),
            ]);
        }
        out
    }

    /// The body for a single prompt.
    pub fn build_body<'a>(&'a self, prompt: &'a str) -> (r: AnthropicRequest<'a>)
        ensures
            r.model@ == self.model@,
            r.max_tokens == self.max_tokens,
            r.stream == self.stream,
            r.messages@.len() == 1,
            r.messages@[0].role@ == "user"@,
            r.messages@[0].content@ == prompt@,
    {
        let mut messages: Vec<AnthropicMessage<'a>> = Vec::new();
        messages.push(AnthropicMessage { role: "user", content: prompt });
        AnthropicRequest {
            model: self.model.as_str(),
            max_tokens: self.max_tokens,
            messages,
            stream: self.stream,
        }
    }

    /// The body for a conversation: every message, in order.
    pub fn build_body_messages<'a>(&'a self, messages: &'a Vec<OwnedChatMessage>) -> (r:
        AnthropicRequest<'a>)
        ensures
            r.model@ == self.model@,
            r.max_tokens == self.max_tokens,
            r.stream == self.stream,
            r.messages@.len() == messages@.len(),
            forall|i: int|
                0 <= i < messages@.len() ==> (#[trigger] r.messages@[i]).role@
                    == messages@[i].role@ && r.messages@[i].content@ == messages@[i].content@,
    {
        let mut borrowed: Vec<AnthropicMessage<'a>> = Vec::new();
        let mut i: usize = 0;
        while i < messages.len()
            invariant
                i <= messages@.len(),
                borrowed@.len() == i,
                forall|j: int|
                    0 <= j < i ==> (#[trigger] borrowed@[j]).role@ == messages@[j].role@
                        && borrowed@[j].content@ == messages@[j].content@,
            decreases messages@.len() - i,
        {
            borrowed.push(
                AnthropicMessage {
                    role: messages[i].role.as_str(),
                    content: messages[i].content.as_str(),
                },
            );
            i += 1;
        }
        AnthropicRequest {
            model: self.model.as_str(),
            max_tokens: self.max_tokens,
            messages: borrowed,
            stream: self.stream,
        }
    }

    /// Reads a whole (non-streaming) reply.
    pub fn parse_single(&self, body: &serde_json::Value, total: u128, m: &mut RequestMetrics)
        ensures
            single_reply(value_tree(*body), *old(m), *final(m), total),
    {
        let mut text = String::new();
        let mut estimate: u32 = m.completion_tokens;
        if let Some(content) = get_array(body, "content") {
            let mut i: usize = 0;
            while i < content.len()
                invariant
                    i <= content@.len(),
                    text@ == blocks_text(trees(content@).take(i as int)),
                    estimate == blocks_tokens(trees(content@).take(i as int), m.completion_tokens),
                decreases content@.len() - i,
            {
                proof {
                    assert(trees(content@).take(i + 1).drop_last() =~= trees(content@).take(i as int));
                }
                if let Some(part) = visible_text(&content[i]) {
                    let ghost before = text@;
                    if !text.as_str().is_empty() {
                        text.push('\n');
                        proof {
                            assert(text@ =~= before + seq!['\n']);
                        }
                    } else {
                        proof {
                            assert(text@ + part@ =~= part@);
                        }
                    }
                    text.push_str(part);
                    estimate = estimate.wrapping_add(estimate_tokens(part));
                }
                i += 1;
            }
            proof {
                assert(trees(content@).take(i as int) =~= trees(content@));
            }
        }
        m.response_text = text;
        m.completion_tokens = estimate;
        m.estimated = true;
        if let Some(u) = get(body, "usage") {
            if let Some(ct) = get_u64(u, "output_tokens") {
                m.completion_tokens = ct as u32;
                m.estimated = false;
            }
            if let Some(pt) = get_u64(u, "input_tokens") {
                m.prompt_tokens = pt as u32;
            }
            if let Some(cc) = get_u64(u, "cache_creation_input_tokens") {
                m.cache_creation_input_tokens = cc as u32;
            }
            if let Some(cr) = get_u64(u, "cache_read_input_tokens") {
                m.cache_hit_input_tokens = cr as u32;
            }
        }
        m.ttft = None;
        m.total_duration = total;
    }
}

/// The text of a content block, where it is a text block.
pub open spec fn block_text(block: Json) -> Option<Seq<char>> {
    if text_at(block, "type"@) == Some("text"@) {
        text_at(block, "text"@)
    } else {
        None
    }
}

fn visible_text(block: &serde_json::Value) -> (r: Option<&str>)
    ensures
        match r {
            Some(t) => block_text(value_tree(*block)) == Some(t@),
            None => block_text(value_tree(*block)) is None,
        },
{
    match get_str(block, "type") {
        Some(kind) => if same_text(kind, "text") {
            get_str(block, "text")
        } else {
            None
        },
        None => None,
    }
}

/// The texts of all text blocks, each on a line of its own.
pub open spec fn blocks_text(blocks: Seq<Json>) -> Seq<char>
    decreases blocks.len(),
{
    if blocks.len() == 0 {
        Seq::empty()
    } else {
        let before = blocks_text(blocks.drop_last());
        match block_text(blocks.last()) {
            Some(t) => add_line(before, t),
            None => before,
        }
    }
}

/// `start` and the estimated tokens of all text blocks.
pub open spec fn blocks_tokens(blocks: Seq<Json>, start: u32) -> u32
    decreases blocks.len(),
{
    if blocks.len() == 0 {
        start
    } else {
        let before = blocks_tokens(blocks.drop_last(), start);
        match block_text(blocks.last()) {
            Some(t) => before.wrapping_add(estimated_tokens(t)),
            None => before,
        }
    }
}

/// The number of tokens under `key` in a usage block.
pub open spec fn tokens_in(usage: Option<Json>, key: Seq<char>) -> Option<u32> {
    match usage {
        Some(u) => match count_at(u, key) {
            Some(n) => Some(n as u32),
            None => None,
        },
        None => None,
    }
}

pub open spec fn or_else(n: Option<u32>, fallback: u32) -> u32 {
    match n {
        Some(v) => v,
        None => fallback,
    }
}

/// `after` is `before` with what a whole reply says.
pub open spec fn single_reply(
    body: Json,
    before: RequestMetrics,
    after: RequestMetrics,
    total: u128,
) -> bool {
    let blocks = match items_at(body, "content"@) {
        Some(c) => c,
        None => Seq::empty(),
    };
    let usage = body.field("usage"@);
    let reported = tokens_in(usage, "output_tokens"@);
    &&& after.response_text@ == blocks_text(blocks)
    &&& after.estimated == (reported is None)
    &&& after.completion_tokens == or_else(
        reported,
        blocks_tokens(blocks, before.completion_tokens),
    )
    &&& after.prompt_tokens == or_else(tokens_in(usage, "input_tokens"@), before.prompt_tokens)
    &&& after.cache_creation_input_tokens == or_else(
        tokens_in(usage, "cache_creation_input_tokens"@),
        before.cache_creation_input_tokens,
    )
    &&& after.cache_hit_input_tokens == or_else(
        tokens_in(usage, "cache_read_input_tokens"@),
        before.cache_hit_input_tokens,
    )
    &&& after.timed_whole(total)
    &&& after == (RequestMetrics {
        response_text: after.response_text,
        estimated: after.estimated,
        completion_tokens: after.completion_tokens,
        prompt_tokens: after.prompt_tokens,
        cache_creation_input_tokens: after.cache_creation_input_tokens,
        cache_hit_input_tokens: after.cache_hit_input_tokens,
        ttft: after.ttft,
        total_duration: after.total_duration,
        ..before
    })
}

/// What an event is about.
#[derive(Debug, Clone, Copy, PartialEq, Eq, Structural)]
pub enum EventKind {
    MessageStart,
    ContentBlockDelta,
    MessageDelta,
    Error,
    Other,
}

/// The kind that an event name stands for.
pub open spec fn kind_of(name: Seq<char>) -> EventKind {
    if name == "message_start"@ {
        EventKind::MessageStart
    } else if name == "content_block_delta"@ {
        EventKind::ContentBlockDelta
    } else if name == "message_delta"@ {
        EventKind::MessageDelta
    } else if name == "error"@ {
        EventKind::Error
    } else {
        EventKind::Other
    }
}

fn event_kind(name: &str) -> (r: EventKind)
    ensures
        r == kind_of(name@),
{
    if same_text(name, "message_start") {
        EventKind::MessageStart
    } else if same_text(name, "content_block_delta") {
        EventKind::ContentBlockDelta
    } else if same_text(name, "message_delta") {
        EventKind::MessageDelta
    } else if same_text(name, "error") {
        EventKind::Error
    } else {
        EventKind::Other
    }
}

/// The kind that a line announces, where it is an event line.
pub open spec fn kind_of_line(line: Seq<char>) -> Option<EventKind> {
    match after_prefix(line, "event: "@) {
        Some(name) => Some(kind_of(name)),
        None => match after_prefix(line, "event:"@) {
            Some(name) => Some(kind_of(trimmed(name))),
            None => None,
        },
    }
}

fn line_kind(line: &str) -> (r: Option<EventKind>)
    ensures
        r == kind_of_line(line@),
{
    match strip_prefix(line, "event: ") {
        Some(name) => Some(event_kind(name.as_str())),
        None => match strip_prefix(line, "event:") {
            Some(name) => Some(event_kind(trim(name.as_str()).as_str())),
            None => None,
        },
    }
}

/// The kind that the last event line announces.
pub open spec fn kind_of_rows(rows: Seq<Seq<char>>) -> EventKind
    decreases rows.len(),
{
    if rows.len() == 0 {
        EventKind::Other
    } else {
        match kind_of_line(rows.last()) {
            Some(kind) => kind,
            None => kind_of_rows(rows.drop_last()),
        }
    }
}

/// The payloads of the data lines, in order.
pub open spec fn payloads(rows: Seq<Seq<char>>) -> Seq<Seq<char>>
    decreases rows.len(),
{
    if rows.len() == 0 {
        Seq::empty()
    } else {
        let before = payloads(rows.drop_last());
        match (kind_of_line(rows.last()), data_of_line(rows.last())) {
            (None, Some(data)) => before.push(data),
            _ => before,
        }
    }
}

/// What one block of lines says: a kind and its data, or nothing where it names
/// no kind of interest and has no data.
pub open spec fn event_of(bytes: Seq<u8>) -> Option<(EventKind, Seq<char>)> {
    let rows = text_lines(lossy_text(bytes));
    if payloads(rows).len() == 0 && kind_of_rows(rows) == EventKind::Other {
        None
    } else {
        Some((kind_of_rows(rows), joined(payloads(rows), "\n"@)))
    }
}

/// What a sequence of blocks says.
pub open spec fn events_of(blocks: Seq<Seq<u8>>) -> Seq<(EventKind, Seq<char>)>
    decreases blocks.len(),
{
    if blocks.len() == 0 {
        Seq::empty()
    } else {
        let before = events_of(blocks.drop_last());
        match event_of(blocks.last()) {
            Some(ev) => before.push(ev),
            None => before,
        }
    }
}

/// One event: its kind, and its data lines joined.
#[derive(Debug)]
pub struct AnthropicSseEvent {
    pub event_kind: EventKind,
    pub data: String,
}

pub open spec fn event_views(events: Seq<AnthropicSseEvent>) -> Seq<(EventKind, Seq<char>)> {
    Seq::new(events.len(), |i: int| (events[i].event_kind, events[i].data@))
}

/// Streaming parser of named server-sent events.
#[derive(Debug)]
pub struct AnthropicSseParser {
    pub buffer: Vec<u8>,
}

impl AnthropicSseParser {
    pub fn new() -> (r: Self)
        ensures
            r.buffer@.len() == 0,
    {
        AnthropicSseParser { buffer: Vec::new() }
    }

    /// Takes the next chunk and returns the events that it completes.
    pub fn feed(&mut self, chunk: &[u8]) -> (r: Vec<AnthropicSseEvent>)
        ensures
            event_views(r@) == events_of(raw_events(old(self).buffer@ + chunk@)),
            final(self).buffer@ == unfinished(old(self).buffer@ + chunk@),
    {
        let ghost all = self.buffer@ + chunk@;
        self.buffer.extend_from_slice(chunk);
        let mut events: Vec<AnthropicSseEvent> = Vec::new();
        let ghost mut done: Seq<Seq<u8>> = Seq::empty();
        proof {
            assert(self.buffer@ =~= all);
            assert(done + raw_events(all) =~= raw_events(all));
            assert(event_views(events@) =~= events_of(done));
        }
        loop
            invariant
                done + raw_events(self.buffer@) == raw_events(all),
                unfinished(self.buffer@) == unfinished(all),
                event_views(events@) == events_of(done),
            ensures
                event_views(events@) == events_of(raw_events(all)),
                self.buffer@ == unfinished(all),
            decreases self.buffer@.len(),
        {
            match take_event(&mut self.buffer) {
                Some(bytes) => {
                    proof {
                        let more = done.push(bytes@);
                        assert(more.drop_last() =~= done);
                        assert(more + raw_events(self.buffer@) =~= done + (seq![bytes@]
                            + raw_events(self.buffer@)));
                        done = more;
                    }
                    if let Some(ev) = AnthropicSseParser::parse_event_bytes(bytes.as_slice()) {
                        let ghost before = events@;
                        events.push(ev);
                        proof {
                            assert(event_views(events@) =~= event_views(before).push(
                                (ev.event_kind, ev.data@),
                            ));
                        }
                    }
                },
                None => {
                    proof {
                        assert(done + Seq::<Seq<u8>>::empty() =~= done);
                    }
                    break;
                },
            }
        }
        events
    }

    /// Reads one block of lines.
    pub fn parse_event_bytes(bytes: &[u8]) -> (r: Option<AnthropicSseEvent>)
        ensures
            match r {
                Some(ev) => event_of(bytes@) == Some((ev.event_kind, ev.data@)),
                None => event_of(bytes@) is None,
            },
    {
        let text = utf8_lossy(bytes);
        let rows = lines(text.as_str());
        let mut kind = EventKind::Other;
        let mut data: Vec<String> = Vec::new();
        let mut i: usize = 0;
        proof {
            assert(views(data@) =~= Seq::<Seq<char>>::empty());
        }
        while i < rows.len()
            invariant
                i <= rows@.len(),
                kind == kind_of_rows(views(rows@).take(i as int)),
                views(data@) == payloads(views(rows@).take(i as int)),
            decreases rows@.len() - i,
        {
            proof {
                assert(views(rows@).take(i + 1).drop_last() =~= views(rows@).take(i as int));
            }
            match line_kind(rows[i].as_str()) {
                Some(k) => {
                    kind = k;
                },
                None => {
                    if let Some(rest) = line_data(rows[i].as_str()) {
                        proof {
                            views_push(data@, rest);
                        }
                        data.push(rest);
                    }
                },
            }
            i += 1;
        }
        proof {
            assert(views(rows@).take(i as int) =~= views(rows@));
        }
        if data.is_empty() && kind == EventKind::Other {
            return None;
        }
        Some(AnthropicSseEvent { event_kind: kind, data: join(&data, "\n") })
    }
}

/// What the opening event of a stream adds.
pub open spec fn start_step(v: StreamView, event: Json) -> StreamView {
    let usage = match event.field("message"@) {
        Some(message) => message.field("usage"@),
        None => None,
    };
    StreamView {
        prompt: latest(tokens_in(usage, "input_tokens"@), v.prompt),
        cache_creation: latest(
            tokens_in(usage, "cache_creation_input_tokens"@),
            v.cache_creation,
        ),
        cache_hit: latest(tokens_in(usage, "cache_read_input_tokens"@), v.cache_hit),
        ..v
    }
}

/// What a delta adds: text and thinking both are token arrivals, only text is
/// part of the answer.
pub open spec fn delta_step(v: StreamView, event: Json, now: u128) -> StreamView {
    match event.field("delta"@) {
        Some(delta) => {
            let kind = text_at(delta, "type"@);
            let timed = if kind == Some("text_delta"@) || kind == Some("thinking_delta"@) {
                v.arrived(now)
            } else {
                v
            };
            match text_at(delta, "text"@) {
                Some(t) => if kind == Some("text_delta"@) {
                    timed.with_text(t)
                } else {
                    timed
                },
                None => timed,
            }
        },
        None => v,
    }
}

/// What the closing usage report adds.
pub open spec fn usage_step(v: StreamView, event: Json) -> StreamView {
    StreamView {
        completion: latest(tokens_in(event.field("usage"@), "output_tokens"@), v.completion),
        ..v
    }
}

/// What an event whose data is the JSON value `event` adds.
pub open spec fn json_step(v: StreamView, kind: EventKind, event: Json, now: u128) -> StreamView {
    match kind {
        EventKind::MessageStart => start_step(v, event),
        EventKind::ContentBlockDelta => delta_step(v, event, now),
        EventKind::MessageDelta => usage_step(v, event),
        EventKind::Error => v,
        EventKind::Other => v,
    }
}

/// What an event adds. An error event fails the request whatever it carries;
/// any other event with unreadable data adds nothing.
pub open spec fn event_step(v: StreamView, kind: EventKind, data: Seq<char>, now: u128) -> StreamView {
    if kind == EventKind::Error {
        StreamView { error: Some("anthropic error: "@ + data), ..v }
    } else if kind == EventKind::Other {
        v
    } else {
        match json_value(data) {
            Ok(event) => json_step(v, kind, event, now),
            Err(_) => v,
        }
    }
}

/// Takes an event of the given kind whose data was read as JSON.
pub fn apply_event(tally: &mut StreamTally, kind: EventKind, event: &serde_json::Value, now: u128)
    ensures
        final(tally)@ == json_step(old(tally)@, kind, value_tree(*event), now),
{
    match kind {
        EventKind::MessageStart => {
            let usage = match get(event, "message") {
                Some(message) => get(message, "usage"),
                None => None,
            };
            if let Some(u) = usage {
                if let Some(inp) = get_u64(u, "input_tokens") {
                    tally.usage_prompt = Some(inp as u32);
                }
                if let Some(cc) = get_u64(u, "cache_creation_input_tokens") {
                    tally.cache_creation = Some(cc as u32);
                }
                if let Some(cr) = get_u64(u, "cache_read_input_tokens") {
                    tally.cache_hit = Some(cr as u32);
                }
            }
        },
        EventKind::ContentBlockDelta => {
            if let Some(delta) = get(event, "delta") {
                if let Some(delta_type) = get_str(delta, "type") {
                    let visible = same_text(delta_type, "text_delta");
                    if visible || same_text(delta_type, "thinking_delta") {
                        tally.bump_token_timing(now);
                    }
                    if visible {
                        if let Some(t) = get_str(delta, "text") {
                            tally.push_text(t);
                        }
                    }
                }
            }
        },
        EventKind::MessageDelta => {
            if let Some(u) = get(event, "usage") {
                if let Some(out) = get_u64(u, "output_tokens") {
                    tally.usage_completion = Some(out as u32);
                }
            }
        },
        EventKind::Error => {},
        EventKind::Other => {},
    }
    proof {
        assert(tally@ =~= json_step(old(tally)@, kind, value_tree(*event), now));
    }
}

/// Takes one event of the stream that arrived at `now`.
pub fn on_event(tally: &mut StreamTally, event: &AnthropicSseEvent, now: u128)
    ensures
        final(tally)@ == event_step(old(tally)@, event.event_kind, event.data@, now),
{
    match event.event_kind {
        EventKind::Error => {
            let mut msg = String::new();
            msg.push_str("anthropic error: ");
            msg.push_str(event.data.as_str());
            proof {
                assert(msg@ =~= "anthropic error: "@ + event.data@);
            }
            tally.fail(msg);
        },
        EventKind::Other => {},
        _ => {
            if let Ok(value) = parse_json(event.data.as_str()) {
                apply_event(tally, event.event_kind, &value, now);
            }
        },
    }
}

/// What a sequence of events that arrived together adds.
pub open spec fn events_step(v: StreamView, events: Seq<(EventKind, Seq<char>)>, now: u128) -> StreamView
    decreases events.len(),
{
    if events.len() == 0 {
        v
    } else {
        let before = events_step(v, events.drop_last(), now);
        event_step(before, events.last().0, events.last().1, now)
    }
}

/// What the first `n` arrivals leave behind: bytes without a complete event, and
/// what the events showed.
pub open spec fn stream_after(arrivals: Seq<Arrival>, n: int) -> (Seq<u8>, StreamView)
    decreases n,
{
    if n <= 0 {
        (Seq::empty(), StreamView::empty())
    } else {
        let (buffer, v) = stream_after(arrivals, n - 1);
        let all = buffer + arrivals[n - 1].bytes@;
        (unfinished(all), events_step(v, events_of(raw_events(all)), arrivals[n - 1].at))
    }
}

/// What a whole stream showed.
pub open spec fn stream_view(arrivals: Seq<Arrival>, fault: Option<Seq<char>>) -> StreamView {
    broken_off(stream_after(arrivals, arrivals.len() as int).1, fault)
}

/// The times of a stream have no part in what its events say.
proof fn times_do_not_matter(
    v: StreamView,
    w: StreamView,
    events: Seq<(EventKind, Seq<char>)>,
    now: u128,
    later: u128,
)
    requires
        same_answer(v, w),
    ensures
        same_answer(events_step(v, events, now), events_step(w, events, later)),
    decreases events.len(),
{
    if events.len() > 0 {
        times_do_not_matter(v, w, events.drop_last(), now, later);
        let a = events_step(v, events.drop_last(), now);
        let b = events_step(w, events.drop_last(), later);
        assert(same_answer(a, b));
    }
}

proof fn events_append(a: Seq<Seq<u8>>, b: Seq<Seq<u8>>)
    ensures
        events_of(a + b) == events_of(a) + events_of(b),
    decreases b.len(),
{
    if b.len() == 0 {
        assert(a + b =~= a);
        assert(events_of(a) + events_of(b) =~= events_of(a));
    } else {
        assert((a + b).drop_last() =~= a + b.drop_last());
        events_append(a, b.drop_last());
        assert(events_of(a + b) =~= events_of(a) + events_of(b));
    }
}

proof fn steps_append(v: StreamView, a: Seq<(EventKind, Seq<char>)>, b: Seq<(EventKind, Seq<char>)>, now: u128)
    ensures
        events_step(v, a + b, now) == events_step(events_step(v, a, now), b, now),
    decreases b.len(),
{
    if b.len() == 0 {
        assert(a + b =~= a);
    } else {
        assert((a + b).drop_last() =~= a + b.drop_last());
        steps_append(v, a, b.drop_last(), now);
    }
}

/// Read chunk by chunk, a stream says what all its bytes say at once.
proof fn read_at_once(arrivals: Seq<Arrival>, n: int)
    requires
        0 <= n <= arrivals.len(),
    ensures
        stream_after(arrivals, n).0 == unfinished(whole(chunks_of(arrivals).take(n))),
        same_answer(
            stream_after(arrivals, n).1,
            events_step(
                StreamView::empty(),
                events_of(raw_events(whole(chunks_of(arrivals).take(n)))),
                0,
            ),
        ),
    decreases n,
{
    let chunks = chunks_of(arrivals);
    if n == 0 {
        assert(unfinished(whole(chunks.take(0))) =~= Seq::<u8>::empty());
        assert(raw_events(whole(chunks.take(0))) =~= Seq::<Seq<u8>>::empty());
    } else {
        read_at_once(arrivals, n - 1);
        assert(chunks.take(n).drop_last() =~= chunks.take(n - 1));
        let before = whole(chunks.take(n - 1));
        let next = arrivals[n - 1].bytes@;
        chunking_is_irrelevant(before, next);
        let known = events_of(raw_events(before));
        let new = events_of(raw_events(unfinished(before) + next));
        events_append(raw_events(before), raw_events(unfinished(before) + next));
        steps_append(StreamView::empty(), known, new, 0);
        times_do_not_matter(
            stream_after(arrivals, n - 1).1,
            events_step(StreamView::empty(), known, 0),
            new,
            arrivals[n - 1].at,
            0,
        );
    }
}

/// Where a stream was cut into chunks does not matter: text, token counts and
/// errors depend on its bytes alone.
pub proof fn cuts_do_not_change_the_answer(
    a: Seq<Arrival>,
    b: Seq<Arrival>,
    fault: Option<Seq<char>>,
)
    requires
        whole(chunks_of(a)) == whole(chunks_of(b)),
    ensures
        same_answer(stream_view(a, fault), stream_view(b, fault)),
{
    read_at_once(a, a.len() as int);
    read_at_once(b, b.len() as int);
    assert(chunks_of(a).take(a.len() as int) =~= chunks_of(a));
    assert(chunks_of(b).take(b.len() as int) =~= chunks_of(b));
}

fn take_events(tally: &mut StreamTally, events: &Vec<AnthropicSseEvent>, now: u128)
    ensures
        final(tally)@ == events_step(old(tally)@, event_views(events@), now),
{
    let mut i: usize = 0;
    while i < events.len()
        invariant
            i <= events@.len(),
            tally@ == events_step(old(tally)@, event_views(events@).take(i as int), now),
        decreases events@.len() - i,
    {
        on_event(tally, &events[i], now);
        proof {
            let all = event_views(events@);
            assert(all.take(i + 1).drop_last() =~= all.take(i as int));
            assert(all.take(i + 1).last() == all[i as int]);
        }
        i += 1;
    }
    proof {
        assert(event_views(events@).take(i as int) =~= event_views(events@));
    }
}

impl AnthropicClient {
    /// Reads a streamed response: what arrived when, and the error that broke it
    /// off, where one did.
    pub fn parse_stream(
        &self,
        arrivals: &Vec<Arrival>,
        fault: &Option<String>,
        total: u128,
        m: &mut RequestMetrics,
    )
        ensures
            settled(stream_view(arrivals@, opt_view(*fault)), *old(m), *final(m), total),
    {
        let mut parser = AnthropicSseParser::new();
        let mut tally = StreamTally::new();
        let mut i: usize = 0;
        proof {
            assert(parser.buffer@ =~= Seq::<u8>::empty());
        }
        while i < arrivals.len()
            invariant
                i <= arrivals@.len(),
                (parser.buffer@, tally@) == stream_after(arrivals@, i as int),
            decreases arrivals@.len() - i,
        {
            let events = parser.feed(arrivals[i].bytes.as_slice());
            take_events(&mut tally, &events, arrivals[i].at);
            i += 1;
        }
        tally.end(fault);
        tally.finish(total, m);
    }
}

/// `after` is `before` with what came of the request.
pub open spec fn concluded(
    reply: Reply,
    before: RequestMetrics,
    after: RequestMetrics,
    total: u128,
) -> bool {
    match reply {
        Reply::Unsent(e) => failed_with(before, after, before.status, unsent_text(e), total),
        Reply::Refusal { status, text } => failed_with(
            before,
            after,
            status,
            refusal_text(status, text@),
            total,
        ),
        Reply::Whole { status, body } => match body {
            Ok(v) => single_reply(
                value_tree(v),
                RequestMetrics { status, ..before },
                after,
                total,
            ),
            Err(e) => failed_with(before, after, status, "body parse: "@ + e@, total),
        },
        Reply::Stream { status, arrivals, fault } => settled(
            stream_view(arrivals@, opt_view(fault)),
            RequestMetrics { status, ..before },
            after,
            total,
        ),
    }
}

/// Every failure leaves an error behind.
pub proof fn failures_are_recorded(
    reply: Reply,
    before: RequestMetrics,
    after: RequestMetrics,
    total: u128,
)
    requires
        concluded(reply, before, after, total),
        failed(reply),
    ensures
        after.error is Some,
        after.total_duration == total,
{
}

impl AnthropicClient {
    /// Takes what came of a request that took `total`.
    pub fn dispatch(&self, reply: &Reply, total: u128, m: &mut RequestMetrics)
        ensures
            concluded(*reply, *old(m), *final(m), total),
    {
        match reply {
            Reply::Unsent(e) => {
                m.error = Some(unsent_error(e));
                m.total_duration = total;
            },
            Reply::Refusal { status, text } => {
                m.status = *status;
                m.refuse(text.as_str(), total);
            },
            Reply::Whole { status, body } => {
                m.status = *status;
                match body {
                    Ok(v) => self.parse_single(v, total, m),
                    Err(e) => m.body_unreadable(e.as_str(), total),
                }
            },
            Reply::Stream { status, arrivals, fault } => {
                m.status = *status;
                self.parse_stream(arrivals, fault, total, m);
            },
        }
    }
}

/// A delta of text or of thinking is one token that arrives now; only text is
/// part of the answer. Deltas of any other type are neither.
pub proof fn deltas_of_text_and_thinking_are_tokens(
    v: StreamView,
    event: Json,
    delta: Json,
    now: u128,
)
    requires
        event.field("delta"@) == Some(delta),
    ensures
        ({
            let w = json_step(v, EventKind::ContentBlockDelta, event, now);
            &&& delta.field("type"@) == Some(Json::Str("text_delta"@)) ==> {
                &&& tokens_at(v, w, 1, now)
                &&& w.text == v.text + (match delta.field("text"@) {
                    Some(Json::Str(text)) => text,
                    _ => Seq::empty(),
                })
            }
            &&& delta.field("type"@) == Some(Json::Str("thinking_delta"@)) ==> tokens_at(
                v,
                w,
                1,
                now,
            ) && w.text == v.text
            &&& delta.field("type"@) != Some(Json::Str("text_delta"@)) && delta.field("type"@)
                != Some(Json::Str("thinking_delta"@)) ==> w == v
            &&& w.completion == v.completion && w.prompt == v.prompt && w.cache_hit == v.cache_hit
            &&& w.error == v.error
        }),
{
    reveal_strlit("text_delta");
    reveal_strlit("thinking_delta");
    assert("text_delta"@.len() == 10);
    assert("thinking_delta"@.len() == 14);
    one_more_token(v, v, 0, now, Seq::empty());
    assert(v.text + Seq::<char>::empty() =~= v.text);
}

/// The events that count tokens. A stream opens with the tokens of the prompt
/// and what the cache took and held of it, under `message` and `usage`; the
/// closing report tells the tokens of the answer. A later report replaces an
/// earlier one, and what is not told stays as it was. None of them is a token.
pub proof fn usage_is_taken_from_the_events(v: StreamView, event: Json, now: u128)
    ensures
        ({
            let w = json_step(v, EventKind::MessageStart, event, now);
            let told_of = |key: Seq<char>|
                match event.field("message"@) {
                    Some(message) => match message.field("usage"@) {
                        Some(usage) => told(usage.field(key)),
                        None => None,
                    },
                    None => None,
                };
            &&& w.prompt == (match told_of("input_tokens"@) {
                Some(n) => Some(n),
                None => v.prompt,
            })
            &&& w.cache_creation == (match told_of("cache_creation_input_tokens"@) {
                Some(n) => Some(n),
                None => v.cache_creation,
            })
            &&& w.cache_hit == (match told_of("cache_read_input_tokens"@) {
                Some(n) => Some(n),
                None => v.cache_hit,
            })
            &&& w.completion == v.completion
            &&& tokens_at(v, w, 0, now) && w.text == v.text && w.error == v.error
        }),
        ({
            let w = json_step(v, EventKind::MessageDelta, event, now);
            &&& w.completion == (match event.field("usage"@) {
                Some(usage) => match told(usage.field("output_tokens"@)) {
                    Some(n) => Some(n),
                    None => v.completion,
                },
                None => v.completion,
            })
            &&& w.prompt == v.prompt && w.cache_creation == v.cache_creation && w.cache_hit
                == v.cache_hit
            &&& tokens_at(v, w, 0, now) && w.text == v.text && w.error == v.error
        }),
{
}

/// An error event fails the request, whatever it carries, and changes nothing
/// else; events of no interest and events without JSON change nothing.
pub proof fn an_error_event_fails_the_request(
    v: StreamView,
    kind: EventKind,
    data: Seq<char>,
    now: u128,
)
    ensures
        kind == EventKind::Error ==> event_step(v, kind, data, now) == (StreamView {
            error: Some("anthropic error: "@ + data),
            ..v
        }),
        kind != EventKind::Error ==> event_step(v, kind, data, now).error == v.error,
        kind == EventKind::Other ==> event_step(v, kind, data, now) == v,
        kind != EventKind::Error && json_value(data) is Err ==> event_step(v, kind, data, now) == v,
        kind != EventKind::Error && kind != EventKind::Other ==> (json_value(data) matches Ok(event)
            ==> event_step(v, kind, data, now) == json_step(v, kind, event, now)),
{
}

/// What a line behind `event:` announces: the opening of a message, a delta of a
/// content block, a report on the message, or an error. Other names are of no
/// interest.
pub proof fn event_lines_name_their_kind(name: Seq<char>)
    ensures
        kind_of_line("event: message_start"@) == Some(EventKind::MessageStart),
        kind_of_line("event: content_block_delta"@) == Some(EventKind::ContentBlockDelta),
        kind_of_line("event: message_delta"@) == Some(EventKind::MessageDelta),
        kind_of_line("event: error"@) == Some(EventKind::Error),
        name != "message_start"@ && name != "content_block_delta"@ && name != "message_delta"@
            && name != "error"@ ==> kind_of_line("event: "@ + name) == Some(EventKind::Other),
        kind_of_line("data: "@ + name) is None,
{
    reveal_strlit("event: ");
    reveal_strlit("event:");
    reveal_strlit("data: ");
    reveal_strlit("message_start");
    reveal_strlit("content_block_delta");
    reveal_strlit("message_delta");
    reveal_strlit("error");
    reveal_strlit("event: message_start");
    reveal_strlit("event: content_block_delta");
    reveal_strlit("event: message_delta");
    reveal_strlit("event: error");
    assert("message_start"@[8] == 's');
    assert("message_delta"@[8] == 'd');
    let head = "event: "@;
    assert("event: message_start"@ =~= head + "message_start"@);
    assert("event: content_block_delta"@ =~= head + "content_block_delta"@);
    assert("event: message_delta"@ =~= head + "message_delta"@);
    assert("event: error"@ =~= head + "error"@);
    behind_a_prefix(head, "message_start"@);
    behind_a_prefix(head, "content_block_delta"@);
    behind_a_prefix(head, "message_delta"@);
    behind_a_prefix(head, "error"@);
    behind_a_prefix(head, name);
    let line = "data: "@ + name;
    assert(line[0] == 'd');
    assert(head[0] == 'e' && "event:"@[0] == 'e');
    if kind_of_line(line) is Some {
        assert(line.len() >= 6);
        assert(line.take(6)[0] == 'd');
        if line.len() >= 7 {
            assert(line.take(7)[0] == 'd');
        }
    }
}

/// What follows a prefix is found behind it.
proof fn behind_a_prefix(prefix: Seq<char>, rest: Seq<char>)
    ensures
        after_prefix(prefix + rest, prefix) == Some(rest),
{
    let n = prefix.len() as int;
    assert((prefix + rest).take(n) =~= prefix);
    assert((prefix + rest).skip(n) =~= rest);
}

/// What a whole reply reports. The token counts are those of its usage block;
/// without one, the answer's tokens are estimated and marked so. No time to the
/// first token can be told. Of the content blocks only those of text are part of
/// the answer, each on a line of its own, in order.
pub proof fn a_whole_reply_reports_its_answer(
    body: Json,
    before: RequestMetrics,
    after: RequestMetrics,
    total: u128,
)
    requires
        single_reply(body, before, after, total),
    ensures
        after.ttft is None,
        after.total_duration == total,
        after.status == before.status,
        after.error == before.error,
        body.field("usage"@) matches Some(usage) ==> {
            &&& told(usage.field("output_tokens"@)) matches Some(n) ==> after.completion_tokens == n
                && !after.estimated
            &&& told(usage.field("output_tokens"@)) is None ==> after.estimated
            &&& told(usage.field("input_tokens"@)) matches Some(n) ==> after.prompt_tokens == n
            &&& told(usage.field("cache_creation_input_tokens"@)) matches Some(n)
                ==> after.cache_creation_input_tokens == n
            &&& told(usage.field("cache_read_input_tokens"@)) matches Some(n)
                ==> after.cache_hit_input_tokens == n
        },
        body.field("usage"@) is None ==> {
            &&& after.estimated
            &&& after.prompt_tokens == before.prompt_tokens
            &&& after.cache_hit_input_tokens == before.cache_hit_input_tokens
            &&& after.cache_creation_input_tokens == before.cache_creation_input_tokens
        },
        body.field("content"@) matches Some(Json::Array(blocks)) ==> {
            &&& blocks.len() == 1 && blocks[0].field("type"@) == Some(Json::Str("text"@)) ==> (
            blocks[0].field("text"@) matches Some(Json::Str(text)) ==> {
                &&& after.response_text@ == text
                &&& after.estimated ==> after.completion_tokens == (before.completion_tokens
                    + estimated_tokens(text)) % 0x1_0000_0000
            })
            &&& (forall|i: int|
                0 <= i < blocks.len() ==> (#[trigger] blocks[i]).field("type"@) != Some(
                    Json::Str("text"@),
                )) ==> after.response_text@.len() == 0
            &&& blocks.len() == 2 && blocks[0].field("type"@) == Some(Json::Str("text"@))
                && blocks[1].field("type"@) == Some(Json::Str("text"@)) ==> (blocks[0].field(
                "text"@,
            ) matches Some(Json::Str(a)) ==> (blocks[1].field("text"@) matches Some(Json::Str(b))
                ==> (a.len() > 0 ==> after.response_text@ == a + seq!['\n'] + b)))
        },
{
    if let Some(Json::Array(blocks)) = body.field("content"@) {
        reveal_with_fuel(blocks_text, 3);
        reveal_with_fuel(blocks_tokens, 2);
        if blocks.len() == 1 {
            assert(blocks.drop_last() =~= Seq::empty());
            assert(blocks.last() == blocks[0]);
        }
        if blocks.len() == 2 {
            assert(blocks.drop_last().drop_last() =~= Seq::empty());
            assert(blocks.drop_last().last() == blocks[0]);
            assert(blocks.last() == blocks[1]);
        }
        if forall|i: int|
            0 <= i < blocks.len() ==> (#[trigger] blocks[i]).field("type"@) != Some(
                Json::Str("text"@),
            ) {
            no_text(blocks);
        }
    }
}

/// Blocks that hold no text give none.
proof fn no_text(blocks: Seq<Json>)
    requires
        forall|i: int|
            0 <= i < blocks.len() ==> (#[trigger] blocks[i]).field("type"@) != Some(
                Json::Str("text"@),
            ),
    ensures
        blocks_text(blocks).len() == 0,
    decreases blocks.len(),
{
    if blocks.len() > 0 {
        assert(blocks[blocks.len() - 1].field("type"@) != Some(Json::Str("text"@)));
        no_text(blocks.drop_last());
    }
}

/// Events that arrive together keep the first token that there was, set it to
/// their time where there was none, and only add to the answer.
proof fn events_keep_the_first_token(
    v: StreamView,
    events: Seq<(EventKind, Seq<char>)>,
    now: u128,
)
    ensures
        ({
            let w = events_step(v, events, now);
            &&& v.first is Some ==> w.first == v.first
            &&& v.first is None ==> w.first is None || w.first == Some(now)
            &&& w.last == v.last || w.last == Some(now)
            &&& v.text.is_prefix_of(w.text)
            &&& v.gaps.is_prefix_of(w.gaps)
        }),
    decreases events.len(),
{
    if events.len() > 0 {
        events_keep_the_first_token(v, events.drop_last(), now);
    }
}

/// Tokens carry the time at which the bytes arrived that completed them: the
/// first token of a stream the time of the arrival that showed it, and it never
/// changes afterwards; the last one that of the latest arrival with a token.
/// What arrives later only adds to the answer and to the gaps.
pub proof fn tokens_carry_the_time_of_their_arrival(arrivals: Seq<Arrival>, n: int)
    requires
        0 < n <= arrivals.len(),
    ensures
        ({
            let v = stream_after(arrivals, n - 1).1;
            let w = stream_after(arrivals, n).1;
            &&& v.first is Some ==> w.first == v.first
            &&& v.first is None && w.first is Some ==> w.first == Some(arrivals[n - 1].at)
            &&& w.last == v.last || w.last == Some(arrivals[n - 1].at)
            &&& v.text.is_prefix_of(w.text)
            &&& v.gaps.is_prefix_of(w.gaps)
        }),
        stream_after(arrivals, 0).1.first is None,
{
    let (buffer, v) = stream_after(arrivals, n - 1);
    events_keep_the_first_token(
        v,
        events_of(raw_events(buffer + arrivals[n - 1].bytes@)),
        arrivals[n - 1].at,
    );
}

/// A request ends with the status of its reply and with the time that it took. A
/// reply outside of 2xx is reported by its status and the start of its body, a
/// body that is no JSON by the cause, a stream that broke off by its fault.
pub proof fn a_reply_leaves_its_status(
    reply: Reply,
    before: RequestMetrics,
    after: RequestMetrics,
    total: u128,
)
    requires
        concluded(reply, before, after, total),
    ensures
        after.total_duration == total,
        match reply {
            Reply::Unsent(_) => after.status == before.status && after.error is Some && after.ttft
                == before.ttft,
            Reply::Refusal { status, text } => {
                &&& after.status == status
                &&& after.error is Some && after.error.unwrap()@ == "HTTP "@ + decimal(
                    status as nat,
                ) + ": "@ + clipped(text@, 200)
            },
            Reply::Whole { status, body } => {
                &&& after.status == status
                &&& body is Ok ==> after.error == before.error && after.ttft is None
                &&& body matches Err(cause) ==> after.error is Some && after.error.unwrap()@
                    == "body parse: "@ + cause@
            },
            Reply::Stream { status, arrivals, fault } => {
                &&& after.status == status
                &&& fault matches Some(text) ==> after.error is Some && after.error.unwrap()@
                    == text@ && after.ttft is None
                &&& after.response_text@ == stream_after(
                    arrivals@,
                    arrivals@.len() as int,
                ).1.text
            },
        },
{
}

/// A key is used without the space around it, where anything is left of it.
pub proof fn keys_are_trimmed(key: Seq<char>)
    ensures
        trimmed(key).len() > 0 ==> usable_key(Some(key)) == Some(trimmed(key)),
        trimmed(key).len() == 0 ==> usable_key(Some(key)) is None,
        usable_key(None) is None,
{
}

/// A block of an event line and a data line is an event of that kind with that
/// data. Blocks are read one after the other.
pub proof fn a_block_is_an_event(bytes: Seq<u8>, name: Seq<char>, data: Seq<char>)
    requires
        text_lines(lossy_text(bytes)) == seq!["event: "@ + name, "data: "@ + data],
    ensures
        event_of(bytes) == Some((kind_of(name), data)),
{
    let rows = text_lines(lossy_text(bytes));
    let head = rows.drop_last();
    event_lines_name_their_kind(data);
    super::openai::data_follows_the_colon(rows[1], data);
    reveal_strlit("event: ");
    behind_a_prefix("event: "@, name);
    assert(kind_of_line(rows[0]) == Some(kind_of(name)));
    assert(kind_of_line(rows[1]) is None);
    assert(head =~= seq![rows[0]]);
    assert(head.drop_last() =~= Seq::empty());
    assert(head.last() == rows[0]);
    assert(rows.last() == rows[1]);
    assert(kind_of_rows(head) == kind_of(name));
    assert(kind_of_rows(rows) == kind_of(name));
    assert(payloads(head.drop_last()) =~= Seq::empty());
    assert(payloads(head) =~= Seq::empty());
    assert(payloads(rows) =~= seq![data]);
    assert(joined(seq![data], "\n"@) == data);
}

/// The events of a stream are those of its blocks, in order: those of two parts
/// are those of the first and then those of the second.
pub proof fn events_follow_the_blocks(a: Seq<Seq<u8>>, b: Seq<Seq<u8>>)
    ensures
        events_of(a + b) == events_of(a) + events_of(b),
        b.len() == 1 ==> events_of(b) == (match event_of(b[0]) {
            Some(event) => seq![event],
            None => Seq::empty(),
        }),
    decreases b.len(),
{
    if b.len() == 0 {
        assert(a + b =~= a);
        assert(events_of(a) + events_of(b) =~= events_of(a));
    } else {
        events_follow_the_blocks(a, b.drop_last());
        assert((a + b).drop_last() =~= a + b.drop_last());
        assert(events_of(a + b) =~= events_of(a) + events_of(b));
        if b.len() == 1 {
            assert(b.drop_last() =~= Seq::empty());
            assert(b.last() == b[0]);
            assert(events_of(b.drop_last()) =~= Seq::empty());
        }
    }
}

} // verus!
