//! The OpenAI-compatible `/v1/chat/completions` client.
//!
//! Content deltas and reasoning deltas both count as token arrivals, so the
//! time to the first token is the time to the first delta of either kind.
//! Only the visible content becomes the answer's text.

use super::sse::{
    chunking_is_irrelevant, lossy_text, raw_events, take_event, unfinished, utf8_lossy, whole,
};
use super::{
    broken_off, chunks_of, failed, failed_with, one_more_token, refusal_text, same_answer, settled,
    tokens_at, unsent_error, unsent_text, Arrival, ChatMessage, ChatRequest, Reply, RequestMetrics, StreamOptions,
    StreamTally, StreamView,
};
use crate::config::{estimate_tokens, estimated_tokens, opt_view, RunConfig};
use crate::dataset::OwnedChatMessage;
use crate::json::{
    count_at, get, get_array, get_str, get_u64, items_at, json_value, parse_json, text_at, trees,
    value_tree, Json,
};
use crate::text::{
    after_prefix, clipped, decimal, join, joined, lines, same_text, strip_prefix, text_lines, views, views_push,
};
use vstd::prelude::*;

verus! {

/// What the client needs of the configuration.
#[derive(Debug)]
pub struct OpenaiClient {
    pub target: String,
    pub model: String,
    pub max_tokens: u32,
    pub stream: bool,
    pub api_key: Option<String>,
}

/// The usage block is asked for exactly where the answer is streamed.
pub open spec fn stream_options_for(stream: bool) -> Option<StreamOptions> {
    if stream {
        Some(StreamOptions { include_usage: true })
    } else {
        None
    }
}

impl OpenaiClient {
    pub fn new(cfg: &RunConfig) -> (r: Self)
        ensures
            r.target@ == cfg.target@,
            r.model@ == cfg.model@,
            r.max_tokens == cfg.max_tokens,
            r.stream == cfg.stream,
            opt_view(r.api_key) == opt_view(cfg.api_key),
    {
        OpenaiClient {
            target: cfg.target.clone(),
            model: cfg.model.clone(),
            max_tokens: cfg.max_tokens,
            stream: cfg.stream,
            api_key: cfg.api_key.clone(),
        }
    }

    /// The bearer token to send, where a key is set and not empty.
    pub fn bearer_key(&self) -> (r: Option<&str>)
        ensures
            match r {
                Some(k) => opt_view(self.api_key) == Some(k@) && k@.len() > 0,
                None => self.api_key is None || opt_view(self.api_key).unwrap().len() == 0,
            },
    {
        match &self.api_key {
            Some(key) => if key.as_str().is_empty() {
                None
            } else {
                Some(key.as_str())
            },
            None => None,
        }
    }

    /// The body for a single prompt.
    pub fn build_body<'a>(&'a self, prompt: &'a str) -> (r: ChatRequest<'a>)
        ensures
            r.model@ == self.model@,
            r.max_tokens == self.max_tokens,
            r.stream == self.stream,
            r.stream_options == stream_options_for(self.stream),
            r.messages@.len() == 1,
            r.messages@[0].role@ == "user"@,
            r.messages@[0].content@ == prompt@,
    {
        let mut messages: Vec<ChatMessage<'a>> = Vec::new();
        messages.push(ChatMessage { role: "user", content: prompt });
        ChatRequest {
            model: self.model.as_str(),
            messages,
            max_tokens: self.max_tokens,
            stream: self.stream,
            stream_options: if self.stream {
                Some(StreamOptions { include_usage: true })
            } else {
                None
            },
        }
    }

    /// The body for a conversation: every message, in order.
    pub fn build_body_messages<'a>(&'a self, messages: &'a Vec<OwnedChatMessage>) -> (r:
        ChatRequest<'a>)
        ensures
            r.model@ == self.model@,
            r.max_tokens == self.max_tokens,
            r.stream == self.stream,
            r.stream_options == stream_options_for(self.stream),
            r.messages@.len() == messages@.len(),
            forall|i: int|
                0 <= i < messages@.len() ==> (#[trigger] r.messages@[i]).role@
                    == messages@[i].role@ && r.messages@[i].content@ == messages@[i].content@,
    {
        let mut borrowed: Vec<ChatMessage<'a>> = Vec::new();
        let mut i: usize = 0;
        while i < messages.len()
            invariant
                i <= messages@.len(),
                borrowed@.len() == i,
                forall|j: int|
                    0 <= j < i ==> (#[trigger] borrowed@[j]).role@ == messages@[j].role@
                        && borrowed@[j].content@ == messages@[j].content@,
            decreases messages@.len() - i,
        {
            borrowed.push(
                ChatMessage {
                    role: messages[i].role.as_str(),
                    content: messages[i].content.as_str(),
                },
            );
            i += 1;
        }
        ChatRequest {
            model: self.model.as_str(),
            messages: borrowed,
            max_tokens: self.max_tokens,
            stream: self.stream,
            stream_options: if self.stream {
                Some(StreamOptions { include_usage: true })
            } else {
                None
            },
        }
    }

    /// Reads a whole (non-streaming) reply.
    pub fn parse_single(&self, body: &serde_json::Value, total: u128, m: &mut RequestMetrics)
        ensures
            single_reply(value_tree(*body), *old(m), *final(m), total),
    {
        let mut text = String::new();
        let mut estimate: u32 = m.completion_tokens;
        if let Some(choices) = get_array(body, "choices") {
            let mut i: usize = 0;
            while i < choices.len()
                invariant
                    i <= choices@.len(),
                    text@ == choices_text(trees(choices@).take(i as int)),
                    estimate == choices_tokens(trees(choices@).take(i as int), m.completion_tokens),
                decreases choices@.len() - i,
            {
                proof {
                    assert(trees(choices@).take(i + 1).drop_last() =~= trees(choices@).take(i as int));
                }
                let content = match get(&choices[i], "message") {
                    Some(message) => get_str(message, "content"),
                    None => None,
                };
                if let Some(content) = content {
                    let ghost before = text@;
                    if !text.as_str().is_empty() {
                        text.push('\n');
                        proof {
                            assert(text@ =~= before + seq!['\n']);
                        }
                    } else {
                        proof {
                            assert(text@ + content@ =~= content@);
                        }
                    }
                    text.push_str(content);
                    estimate = estimate.wrapping_add(estimate_tokens(content));
                }
                i += 1;
            }
            proof {
                assert(trees(choices@).take(i as int) =~= trees(choices@));
            }
        }
        m.response_text = text;
        m.completion_tokens = estimate;
        m.estimated = true;
        if let Some(u) = get(body, "usage") {
            if let Some(ct) = get_u64(u, "completion_tokens") {
                m.completion_tokens = ct as u32;
                m.estimated = false;
            }
            if let Some(pt) = get_u64(u, "prompt_tokens") {
                m.prompt_tokens = pt as u32;
            }
            if let Some(details) = get(u, "prompt_tokens_details") {
                if let Some(cached) = get_u64(details, "cached_tokens") {
                    m.cache_hit_input_tokens = cached as u32;
                }
            }
        }
        m.ttft = None;
        m.total_duration = total;
    }
}

/// The answer's text in one choice of a whole reply.
pub open spec fn choice_text(choice: Json) -> Option<Seq<char>> {
    match choice.field("message"@) {
        Some(message) => text_at(message, "content"@),
        None => None,
    }
}

/// Adds a text on a line of its own.
pub open spec fn add_line(before: Seq<char>, line: Seq<char>) -> Seq<char> {
    if before.len() > 0 {
        before + seq!['\n'] + line
    } else {
        line
    }
}

/// The texts of all choices, each on a line of its own.
pub open spec fn choices_text(choices: Seq<Json>) -> Seq<char>
    decreases choices.len(),
{
    if choices.len() == 0 {
        Seq::empty()
    } else {
        let before = choices_text(choices.drop_last());
        match choice_text(choices.last()) {
            Some(content) => add_line(before, content),
            None => before,
        }
    }
}

/// `start` and the estimated tokens of all choices.
pub open spec fn choices_tokens(choices: Seq<Json>, start: u32) -> u32
    decreases choices.len(),
{
    if choices.len() == 0 {
        start
    } else {
        let before = choices_tokens(choices.drop_last(), start);
        match choice_text(choices.last()) {
            Some(content) => before.wrapping_add(estimated_tokens(content)),
            None => before,
        }
    }
}

/// The number of tokens under `key` in the usage block of a reply.
pub open spec fn usage_count(body: Json, key: Seq<char>) -> Option<u32> {
    match body.field("usage"@) {
        Some(u) => match count_at(u, key) {
            Some(n) => Some(n as u32),
            None => None,
        },
        None => None,
    }
}

/// The number of prompt tokens that came from the cache, as the usage block of
/// a reply tells it.
pub open spec fn usage_cached(body: Json, details: Seq<char>) -> Option<u32> {
    match body.field("usage"@) {
        Some(u) => match u.field(details) {
            Some(d) => match count_at(d, "cached_tokens"@) {
                Some(n) => Some(n as u32),
                None => None,
            },
            None => None,
        },
        None => None,
    }
}

/// `after` is `before` with what a whole reply says.
pub open spec fn single_reply(
    body: Json,
    before: RequestMetrics,
    after: RequestMetrics,
    total: u128,
) -> bool {
    let choices = match items_at(body, "choices"@) {
        Some(c) => c,
        None => Seq::empty(),
    };
    let reported = usage_count(body, "completion_tokens"@);
    &&& after.response_text@ == choices_text(choices)
    &&& after.estimated == (reported is None)
    &&& after.completion_tokens == (match reported {
        Some(n) => n,
        None => choices_tokens(choices, before.completion_tokens),
    })
    &&& after.prompt_tokens == (match usage_count(body, "prompt_tokens"@) {
        Some(n) => n,
        None => before.prompt_tokens,
    })
    &&& after.cache_hit_input_tokens == (match usage_cached(body, "prompt_tokens_details"@) {
        Some(n) => n,
        None => before.cache_hit_input_tokens,
    })
    &&& after.timed_whole(total)
    &&& after == (RequestMetrics {
        response_text: after.response_text,
        estimated: after.estimated,
        completion_tokens: after.completion_tokens,
        prompt_tokens: after.prompt_tokens,
        cache_hit_input_tokens: after.cache_hit_input_tokens,
        ttft: after.ttft,
        total_duration: after.total_duration,
        ..before
    })
}

/// One server-sent event.
#[derive(Debug)]
pub struct SseEvent {
    pub data: String,
}

/// The payload of a line, where it is a data line.
pub open spec fn data_of_line(line: Seq<char>) -> Option<Seq<char>> {
    match after_prefix(line, "data: "@) {
        Some(rest) => Some(rest),
        None => after_prefix(line, "data:"@),
    }
}

/// The payloads of the data lines, in order.
pub open spec fn data_lines(rows: Seq<Seq<char>>) -> Seq<Seq<char>>
    decreases rows.len(),
{
    if rows.len() == 0 {
        Seq::empty()
    } else {
        let before = data_lines(rows.drop_last());
        match data_of_line(rows.last()) {
            Some(data) => before.push(data),
            None => before,
        }
    }
}

/// What an event carries: its data lines joined, or nothing where it has none.
pub open spec fn event_data(bytes: Seq<u8>) -> Option<Seq<char>> {
    let data = data_lines(text_lines(lossy_text(bytes)));
    if data.len() == 0 {
        None
    } else {
        Some(joined(data, "\n"@))
    }
}

/// What a sequence of events carries.
pub open spec fn events_data(events: Seq<Seq<u8>>) -> Seq<Seq<char>>
    decreases events.len(),
{
    if events.len() == 0 {
        Seq::empty()
    } else {
        let before = events_data(events.drop_last());
        match event_data(events.last()) {
            Some(data) => before.push(data),
            None => before,
        }
    }
}

pub open spec fn event_views(events: Seq<SseEvent>) -> Seq<Seq<char>> {
    Seq::new(events.len(), |i: int| events[i].data@)
}

/// Reads the payload of a line, where it is a data line.
pub fn line_data(line: &str) -> (r: Option<String>)
    ensures
        opt_view(r) == data_of_line(line@),
{
    match strip_prefix(line, "data: ") {
        Some(rest) => Some(rest),
        None => strip_prefix(line, "data:"),
    }
}

/// Streaming parser of server-sent events. Buffers bytes and emits one event
/// per blank line.
#[derive(Debug)]
pub struct SseParser {
    pub buffer: Vec<u8>,
}

impl SseParser {
    pub fn new() -> (r: Self)
        ensures
            r.buffer@.len() == 0,
    {
        SseParser { buffer: Vec::new() }
    }

    /// Takes the next chunk and returns the events that it completes.
    pub fn feed(&mut self, chunk: &[u8]) -> (r: Vec<SseEvent>)
        ensures
            event_views(r@) == events_data(raw_events(old(self).buffer@ + chunk@)),
            final(self).buffer@ == unfinished(old(self).buffer@ + chunk@),
    {
        let ghost all = self.buffer@ + chunk@;
        self.buffer.extend_from_slice(chunk);
        let mut events: Vec<SseEvent> = Vec::new();
        let ghost mut done: Seq<Seq<u8>> = Seq::empty();
        proof {
            assert(self.buffer@ =~= all);
            assert(done + raw_events(all) =~= raw_events(all));
            assert(event_views(events@) =~= events_data(done));
        }
        loop
            invariant
                done + raw_events(self.buffer@) == raw_events(all),
                unfinished(self.buffer@) == unfinished(all),
                event_views(events@) == events_data(done),
            ensures
                event_views(events@) == events_data(raw_events(all)),
                self.buffer@ == unfinished(all),
            decreases self.buffer@.len(),
        {
            let ghost buf = self.buffer@;
            match take_event(&mut self.buffer) {
                Some(bytes) => {
                    proof {
                        let more = done.push(bytes@);
                        assert(more.drop_last() =~= done);
                        assert(more + raw_events(self.buffer@) =~= done + (seq![bytes@]
                            + raw_events(self.buffer@)));
                        done = more;
                    }
                    if let Some(ev) = SseParser::parse_event_bytes(bytes.as_slice()) {
                        let ghost before = events@;
                        events.push(ev);
                        proof {
                            assert(event_views(events@) =~= event_views(before).push(ev.data@));
                        }
                    }
                },
                None => {
                    proof {
                        assert(done + Seq::<Seq<u8>>::empty() =~= done);
                    }
                    break;
                },
            }
        }
        events
    }

    /// Reads one event.
    pub fn parse_event_bytes(bytes: &[u8]) -> (r: Option<SseEvent>)
        ensures
            match r {
                Some(ev) => event_data(bytes@) == Some(ev.data@),
                None => event_data(bytes@) is None,
            },
    {
        let text = utf8_lossy(bytes);
        let rows = lines(text.as_str());
        let mut data: Vec<String> = Vec::new();
        let mut i: usize = 0;
        proof {
            assert(views(data@) =~= Seq::<Seq<char>>::empty());
        }
        while i < rows.len()
            invariant
                i <= rows@.len(),
                views(data@) == data_lines(views(rows@).take(i as int)),
            decreases rows@.len() - i,
        {
            proof {
                assert(views(rows@).take(i + 1).drop_last() =~= views(rows@).take(i as int));
            }
            if let Some(rest) = line_data(rows[i].as_str()) {
                proof {
                    views_push(data@, rest);
                }
                data.push(rest);
            }
            i += 1;
        }
        proof {
            assert(views(rows@).take(i as int) =~= views(rows@));
        }
        if data.is_empty() {
            return None;
        }
        Some(SseEvent { data: join(&data, "\n") })
    }
}

/// The visible text in one streamed choice.
pub open spec fn delta_text(choice: Json, key: Seq<char>) -> Option<Seq<char>> {
    match choice.field("delta"@) {
        Some(delta) => text_at(delta, key),
        None => None,
    }
}

pub open spec fn nonempty(s: Option<Seq<char>>) -> bool {
    s is Some && s.unwrap().len() > 0
}

/// What one streamed choice adds.
pub open spec fn choice_step(v: StreamView, choice: Json, now: u128) -> StreamView {
    let content = delta_text(choice, "content"@);
    let reasoning = delta_text(choice, "reasoning_content"@);
    let with_text = if nonempty(content) {
        v.with_text(content.unwrap())
    } else {
        v
    };
    if nonempty(content) || nonempty(reasoning) {
        with_text.arrived(now)
    } else {
        with_text
    }
}

/// What a sequence of streamed choices adds.
pub open spec fn choices_step(v: StreamView, choices: Seq<Json>, now: u128) -> StreamView
    decreases choices.len(),
{
    if choices.len() == 0 {
        v
    } else {
        choice_step(choices_step(v, choices.drop_last(), now), choices.last(), now)
    }
}

/// The later of two reports, where there is one.
pub open spec fn latest(new: Option<u32>, old_value: Option<u32>) -> Option<u32> {
    if new is Some {
        new
    } else {
        old_value
    }
}

/// What the usage block of a chunk adds.
pub open spec fn usage_step(v: StreamView, chunk: Json) -> StreamView {
    StreamView {
        completion: latest(usage_count(chunk, "completion_tokens"@), v.completion),
        prompt: latest(usage_count(chunk, "prompt_tokens"@), v.prompt),
        cache_hit: latest(usage_cached(chunk, "prompt_tokens_details"@), v.cache_hit),
        ..v
    }
}

/// What one chunk adds.
pub open spec fn chunk_step(v: StreamView, chunk: Json, now: u128) -> StreamView {
    let choices = match items_at(chunk, "choices"@) {
        Some(c) => c,
        None => Seq::empty(),
    };
    choices_step(usage_step(v, chunk), choices, now)
}

/// What one event adds: nothing where it ends the stream or holds no JSON.
pub open spec fn event_step(v: StreamView, data: Seq<char>, now: u128) -> StreamView {
    if data == "[DONE]"@ {
        v
    } else {
        match json_value(data) {
            Ok(chunk) => chunk_step(v, chunk, now),
            Err(_) => v,
        }
    }
}

/// Takes the chunk that arrived at `now`.
pub fn apply_chunk(tally: &mut StreamTally, chunk: &serde_json::Value, now: u128)
    ensures
        final(tally)@ == chunk_step(old(tally)@, value_tree(*chunk), now),
{
    if let Some(u) = get(chunk, "usage") {
        if let Some(ct) = get_u64(u, "completion_tokens") {
            tally.usage_completion = Some(ct as u32);
        }
        if let Some(pt) = get_u64(u, "prompt_tokens") {
            tally.usage_prompt = Some(pt as u32);
        }
        if let Some(details) = get(u, "prompt_tokens_details") {
            if let Some(cached) = get_u64(details, "cached_tokens") {
                tally.cache_hit = Some(cached as u32);
            }
        }
    }
    let ghost base = tally@;
    proof {
        assert(base =~= usage_step(old(tally)@, value_tree(*chunk)));
    }
    if let Some(choices) = get_array(chunk, "choices") {
        let mut i: usize = 0;
        while i < choices.len()
            invariant
                i <= choices@.len(),
                tally@ == choices_step(base, trees(choices@).take(i as int), now),
            decreases choices@.len() - i,
        {
            proof {
                assert(trees(choices@).take(i + 1).drop_last() =~= trees(choices@).take(i as int));
            }
            let delta = get(&choices[i], "delta");
            let content = match delta {
                Some(d) => get_str(d, "content"),
                None => None,
            };
            let reasoning = match delta {
                Some(d) => get_str(d, "reasoning_content"),
                None => None,
            };
            let mut any = false;
            if let Some(c) = content {
                if !c.is_empty() {
                    tally.push_text(c);
                    any = true;
                }
            }
            if let Some(r) = reasoning {
                if !r.is_empty() {
                    any = true;
                }
            }
            if any {
                tally.bump_token_timing(now);
            }
            i += 1;
        }
        proof {
            assert(trees(choices@).take(i as int) =~= trees(choices@));
        }
    }
}

/// Takes one event of the stream that arrived at `now`.
pub fn on_event(tally: &mut StreamTally, event: &SseEvent, now: u128)
    ensures
        final(tally)@ == event_step(old(tally)@, event.data@, now),
{
    if same_text(event.data.as_str(), "[DONE]") {
        return;
    }
    if let Ok(chunk) = parse_json(event.data.as_str()) {
        apply_chunk(tally, &chunk, now);
    }
}

/// What a sequence of events that arrived together adds.
pub open spec fn events_step(v: StreamView, events: Seq<Seq<char>>, now: u128) -> StreamView
    decreases events.len(),
{
    if events.len() == 0 {
        v
    } else {
        let before = events_step(v, events.drop_last(), now);
        event_step(before, events.last(), now)
    }
}

/// What the first `n` arrivals leave behind: bytes without a complete event, and
/// what the events showed.
pub open spec fn stream_after(arrivals: Seq<Arrival>, n: int) -> (Seq<u8>, StreamView)
    decreases n,
{
    if n <= 0 {
        (Seq::empty(), StreamView::empty())
    } else {
        let (buffer, v) = stream_after(arrivals, n - 1);
        let all = buffer + arrivals[n - 1].bytes@;
        (unfinished(all), events_step(v, events_data(raw_events(all)), arrivals[n - 1].at))
    }
}

/// What a whole stream showed.
pub open spec fn stream_view(arrivals: Seq<Arrival>, fault: Option<Seq<char>>) -> StreamView {
    broken_off(stream_after(arrivals, arrivals.len() as int).1, fault)
}

/// The times of a stream have no part in what its choices say.
proof fn choices_ignore_times(
    v: StreamView,
    w: StreamView,
    choices: Seq<Json>,
    now: u128,
    later: u128,
)
    requires
        same_answer(v, w),
    ensures
        same_answer(choices_step(v, choices, now), choices_step(w, choices, later)),
    decreases choices.len(),
{
    if choices.len() > 0 {
        choices_ignore_times(v, w, choices.drop_last(), now, later);
    }
}

/// The times of a stream have no part in what its events say.
proof fn times_do_not_matter(
    v: StreamView,
    w: StreamView,
    events: Seq<Seq<char>>,
    now: u128,
    later: u128,
)
    requires
        same_answer(v, w),
    ensures
        same_answer(events_step(v, events, now), events_step(w, events, later)),
    decreases events.len(),
{
    if events.len() > 0 {
        times_do_not_matter(v, w, events.drop_last(), now, later);
        let a = events_step(v, events.drop_last(), now);
        let b = events_step(w, events.drop_last(), later);
        match json_value(events.last()) {
            Ok(chunk) => {
                let choices = match items_at(chunk, "choices"@) {
                    Some(c) => c,
                    None => Seq::empty(),
                };
                choices_ignore_times(usage_step(a, chunk), usage_step(b, chunk), choices, now, later);
            },
            Err(_) => {},
        }
    }
}

proof fn events_append(a: Seq<Seq<u8>>, b: Seq<Seq<u8>>)
    ensures
        events_data(a + b) == events_data(a) + events_data(b),
    decreases b.len(),
{
    if b.len() == 0 {
        assert(a + b =~= a);
        assert(events_data(a) + events_data(b) =~= events_data(a));
    } else {
        assert((a + b).drop_last() =~= a + b.drop_last());
        events_append(a, b.drop_last());
        assert(events_data(a + b) =~= events_data(a) + events_data(b));
    }
}

proof fn steps_append(v: StreamView, a: Seq<Seq<char>>, b: Seq<Seq<char>>, now: u128)
    ensures
        events_step(v, a + b, now) == events_step(events_step(v, a, now), b, now),
    decreases b.len(),
{
    if b.len() == 0 {
        assert(a + b =~= a);
    } else {
        assert((a + b).drop_last() =~= a + b.drop_last());
        steps_append(v, a, b.drop_last(), now);
    }
}

/// Read chunk by chunk, a stream says what all its bytes say at once.
proof fn read_at_once(arrivals: Seq<Arrival>, n: int)
    requires
        0 <= n <= arrivals.len(),
    ensures
        stream_after(arrivals, n).0 == unfinished(whole(chunks_of(arrivals).take(n))),
        same_answer(
            stream_after(arrivals, n).1,
            events_step(
                StreamView::empty(),
                events_data(raw_events(whole(chunks_of(arrivals).take(n)))),
                0,
            ),
        ),
    decreases n,
{
    let chunks = chunks_of(arrivals);
    if n == 0 {
        assert(unfinished(whole(chunks.take(0))) =~= Seq::<u8>::empty());
        assert(raw_events(whole(chunks.take(0))) =~= Seq::<Seq<u8>>::empty());
    } else {
        read_at_once(arrivals, n - 1);
        assert(chunks.take(n).drop_last() =~= chunks.take(n - 1));
        let before = whole(chunks.take(n - 1));
        let next = arrivals[n - 1].bytes@;
        chunking_is_irrelevant(before, next);
        let known = events_data(raw_events(before));
        let new = events_data(raw_events(unfinished(before) + next));
        events_append(raw_events(before), raw_events(unfinished(before) + next));
        steps_append(StreamView::empty(), known, new, 0);
        times_do_not_matter(
            stream_after(arrivals, n - 1).1,
            events_step(StreamView::empty(), known, 0),
            new,
            arrivals[n - 1].at,
            0,
        );
    }
}

/// Where a stream was cut into chunks does not matter: text, token counts and
/// errors depend on its bytes alone.
pub proof fn cuts_do_not_change_the_answer(
    a: Seq<Arrival>,
    b: Seq<Arrival>,
    fault: Option<Seq<char>>,
)
    requires
        whole(chunks_of(a)) == whole(chunks_of(b)),
    ensures
        same_answer(stream_view(a, fault), stream_view(b, fault)),
{
    read_at_once(a, a.len() as int);
    read_at_once(b, b.len() as int);
    assert(chunks_of(a).take(a.len() as int) =~= chunks_of(a));
    assert(chunks_of(b).take(b.len() as int) =~= chunks_of(b));
}

fn take_events(tally: &mut StreamTally, events: &Vec<SseEvent>, now: u128)
    ensures
        final(tally)@ == events_step(old(tally)@, event_views(events@), now),
{
    let mut i: usize = 0;
    while i < events.len()
        invariant
            i <= events@.len(),
            tally@ == events_step(old(tally)@, event_views(events@).take(i as int), now),
        decreases events@.len() - i,
    {
        on_event(tally, &events[i], now);
        proof {
            let all = event_views(events@);
            assert(all.take(i + 1).drop_last() =~= all.take(i as int));
            assert(all.take(i + 1).last() == all[i as int]);
        }
        i += 1;
    }
    proof {
        assert(event_views(events@).take(i as int) =~= event_views(events@));
    }
}

impl OpenaiClient {
    /// Reads a streamed response: what arrived when, and the error that broke it
    /// off, where one did.
    pub fn parse_stream(
        &self,
        arrivals: &Vec<Arrival>,
        fault: &Option<String>,
        total: u128,
        m: &mut RequestMetrics,
    )
        ensures
            settled(stream_view(arrivals@, opt_view(*fault)), *old(m), *final(m), total),
    {
        let mut parser = SseParser::new();
        let mut tally = StreamTally::new();
        let mut i: usize = 0;
        proof {
            assert(parser.buffer@ =~= Seq::<u8>::empty());
        }
        while i < arrivals.len()
            invariant
                i <= arrivals@.len(),
                (parser.buffer@, tally@) == stream_after(arrivals@, i as int),
            decreases arrivals@.len() - i,
        {
            let events = parser.feed(arrivals[i].bytes.as_slice());
            take_events(&mut tally, &events, arrivals[i].at);
            i += 1;
        }
        tally.end(fault);
        tally.finish(total, m);
    }
}

/// `after` is `before` with what came of the request.
pub open spec fn concluded(
    reply: Reply,
    before: RequestMetrics,
    after: RequestMetrics,
    total: u128,
) -> bool {
    match reply {
        Reply::Unsent(e) => failed_with(before, after, before.status, unsent_text(e), total),
        Reply::Refusal { status, text } => failed_with(
            before,
            after,
            status,
            refusal_text(status, text@),
            total,
        ),
        Reply::Whole { status, body } => match body {
            Ok(v) => single_reply(
                value_tree(v),
                RequestMetrics { status, ..before },
                after,
                total,
            ),
            Err(e) => failed_with(before, after, status, "body parse: "@ + e@, total),
        },
        Reply::Stream { status, arrivals, fault } => settled(
            stream_view(arrivals@, opt_view(fault)),
            RequestMetrics { status, ..before },
            after,
            total,
        ),
    }
}

/// Every failure leaves an error behind.
pub proof fn failures_are_recorded(
    reply: Reply,
    before: RequestMetrics,
    after: RequestMetrics,
    total: u128,
)
    requires
        concluded(reply, before, after, total),
        failed(reply),
    ensures
        after.error is Some,
        after.total_duration == total,
{
}

impl OpenaiClient {
    /// Takes what came of a request that took `total`.
    pub fn dispatch(&self, reply: &Reply, total: u128, m: &mut RequestMetrics)
        ensures
            concluded(*reply, *old(m), *final(m), total),
    {
        match reply {
            Reply::Unsent(e) => {
                m.error = Some(unsent_error(e));
                m.total_duration = total;
            },
            Reply::Refusal { status, text } => {
                m.status = *status;
                m.refuse(text.as_str(), total);
            },
            Reply::Whole { status, body } => {
                m.status = *status;
                match body {
                    Ok(v) => self.parse_single(v, total, m),
                    Err(e) => m.body_unreadable(e.as_str(), total),
                }
            },
            Reply::Stream { status, arrivals, fault } => {
                m.status = *status;
                self.parse_stream(arrivals, fault, total, m);
            },
        }
    }
}

/// The text that a streamed choice carries under `key` of its delta; empty where
/// it carries none.
pub open spec fn spoken(choice: Json, key: Seq<char>) -> Seq<char> {
    match choice.field("delta"@) {
        Some(delta) => match delta.field(key) {
            Some(Json::Str(text)) => text,
            _ => Seq::empty(),
        },
        None => Seq::empty(),
    }
}

/// Whether a streamed choice carries a token: a content or a reasoning text that
/// is not empty.
pub open spec fn speaks(choice: Json) -> bool {
    spoken(choice, "content"@).len() > 0 || spoken(choice, "reasoning_content"@).len() > 0
}

/// The choices that a chunk lists; none where it has no such list.
pub open spec fn listed(chunk: Json) -> Seq<Json> {
    match chunk.field("choices"@) {
        Some(Json::Array(choices)) => choices,
        _ => Seq::empty(),
    }
}

/// Choices add their content texts in order and one token each, where they
/// carry one.
proof fn choices_add_tokens(v: StreamView, choices: Seq<Json>, now: u128)
    ensures
        ({
            let w = choices_step(v, choices, now);
            &&& tokens_at(v, w, choices.filter(|c: Json| speaks(c)).len() as int, now)
            &&& w.text == v.text + choices.map_values(
                |c: Json| spoken(c, "content"@),
            ).flatten_alt()
            &&& w.completion == v.completion
            &&& w.prompt == v.prompt
            &&& w.cache_hit == v.cache_hit
            &&& w.cache_creation == v.cache_creation
            &&& w.response_id == v.response_id
            &&& w.error == v.error
        }),
    decreases choices.len(),
{
    reveal(Seq::filter);
    let said = |c: Json| spoken(c, "content"@);
    let all = choices.map_values(said);
    if choices.len() == 0 {
        assert(v.text + all.flatten_alt() =~= v.text);
    } else {
        let rest = choices.drop_last();
        let last = choices.last();
        choices_add_tokens(v, rest, now);
        let w = choices_step(v, rest, now);
        let n = rest.filter(|c: Json| speaks(c)).len() as int;
        one_more_token(v, w, n, now, spoken(last, "content"@));
        assert(all.drop_last() =~= rest.map_values(said));
        assert(all.last() == spoken(last, "content"@));
        assert(v.text + all.flatten_alt() =~= (v.text + rest.map_values(said).flatten_alt())
            + spoken(last, "content"@));
        if spoken(last, "content"@).len() == 0 {
            assert(w.text + spoken(last, "content"@) =~= w.text);
        }
    }
}

/// What a chunk adds. Each choice with a content or a reasoning text that is not
/// empty is one token that arrives now; the content texts are added to the
/// answer in their order, the reasoning is not part of it.
pub proof fn a_chunk_adds_its_tokens(v: StreamView, chunk: Json, now: u128)
    ensures
        tokens_at(
            v,
            chunk_step(v, chunk, now),
            listed(chunk).filter(|c: Json| speaks(c)).len() as int,
            now,
        ),
        chunk_step(v, chunk, now).text == v.text + listed(chunk).map_values(
            |c: Json| spoken(c, "content"@),
        ).flatten_alt(),
{
    choices_add_tokens(usage_step(v, chunk), listed(chunk), now);
}

/// A chunk whose choices carry only empty or absent content and reasoning texts
/// is no token: it leaves the time of the first token, the time of the last
/// one, the gaps, the count of deltas and the answer as they were. Streams open
/// with such a chunk, which names the role alone.
pub proof fn silent_chunks_are_no_tokens(v: StreamView, chunk: Json, now: u128)
    requires
        match chunk.field("choices"@) {
            Some(Json::Array(choices)) => forall|i: int|
                0 <= i < choices.len() ==> match (#[trigger] choices[i]).field("delta"@) {
                    Some(delta) => {
                        &&& delta.field("content"@) matches Some(Json::Str(text)) ==> text.len()
                            == 0
                        &&& delta.field("reasoning_content"@) matches Some(Json::Str(text))
                            ==> text.len() == 0
                    },
                    None => true,
                },
            _ => true,
        },
    ensures
        chunk_step(v, chunk, now).first == v.first,
        chunk_step(v, chunk, now).last == v.last,
        chunk_step(v, chunk, now).gaps == v.gaps,
        chunk_step(v, chunk, now).deltas == v.deltas,
        chunk_step(v, chunk, now).text == v.text,
{
    a_chunk_adds_its_tokens(v, chunk, now);
    let choices = listed(chunk);
    assert forall|i: int| 0 <= i < choices.len() implies spoken(
        #[trigger] choices[i],
        "content"@,
    ).len() == 0 && spoken(choices[i], "reasoning_content"@).len() == 0 by {}
    nothing_is_said(choices);
}

/// Choices without a token add no text and no token.
proof fn nothing_is_said(choices: Seq<Json>)
    requires
        forall|i: int|
            0 <= i < choices.len() ==> spoken(#[trigger] choices[i], "content"@).len() == 0
                && spoken(choices[i], "reasoning_content"@).len() == 0,
    ensures
        choices.filter(|c: Json| speaks(c)).len() == 0,
        choices.map_values(|c: Json| spoken(c, "content"@)).flatten_alt().len() == 0,
    decreases choices.len(),
{
    reveal(Seq::filter);
    if choices.len() > 0 {
        let said = |c: Json| spoken(c, "content"@);
        nothing_is_said(choices.drop_last());
        assert(spoken(choices[choices.len() - 1], "content"@).len() == 0);
        assert(choices.map_values(said).drop_last() =~= choices.drop_last().map_values(said));
    }
}

/// A chunk in which some choice carries a content or a reasoning text that is
/// not empty is a token that arrives now: it sets the time of the last token,
/// and that of the first one where there was none before.
pub proof fn spoken_chunks_are_tokens(v: StreamView, chunk: Json, now: u128, i: int)
    requires
        chunk.field("choices"@) matches Some(Json::Array(choices)) && 0 <= i < choices.len() && ({
            ||| spoken(choices[i], "content"@).len() > 0
            ||| spoken(choices[i], "reasoning_content"@).len() > 0
        }),
    ensures
        chunk_step(v, chunk, now).last == Some(now),
        chunk_step(v, chunk, now).first == (match v.first {
            Some(first) => Some(first),
            None => Some(now),
        }),
{
    a_chunk_adds_its_tokens(v, chunk, now);
    let choices = listed(chunk);
    choices.lemma_filter_contains(|c: Json| speaks(c), i);
    assert(choices.filter(|c: Json| speaks(c)).contains(choices[i]));
}

/// What a stream has shown after chunks, each with the time of its arrival.
pub open spec fn after_chunks(chunks: Seq<(Json, u128)>) -> StreamView
    decreases chunks.len(),
{
    if chunks.len() == 0 {
        StreamView::empty()
    } else {
        chunk_step(after_chunks(chunks.drop_last()), chunks.last().0, chunks.last().1)
    }
}

/// The time to the first token is the arrival time of the first chunk that
/// carries a content or a reasoning text that is not empty; without such a chunk
/// there is none.
pub proof fn the_first_spoken_chunk_starts_the_clock(chunks: Seq<(Json, u128)>, k: int)
    requires
        0 <= k <= chunks.len(),
        forall|i: int, j: int|
            0 <= i < k && 0 <= j < listed((#[trigger] chunks[i]).0).len() ==> !speaks(
                #[trigger] listed(chunks[i].0)[j],
            ),
        k < chunks.len() ==> exists|j: int|
            0 <= j < listed(chunks[k].0).len() && speaks(#[trigger] listed(chunks[k].0)[j]),
    ensures
        k == chunks.len() ==> after_chunks(chunks).first is None,
        k < chunks.len() ==> after_chunks(chunks).first == Some(chunks[k].1),
    decreases chunks.len(),
{
    if chunks.len() > 0 {
        let n = chunks.len() as int;
        let before = chunks.drop_last();
        let v = after_chunks(before);
        a_chunk_adds_its_tokens(v, chunks[n - 1].0, chunks[n - 1].1);
        assert forall|i: int, j: int|
            0 <= i < k && i < n - 1 && 0 <= j < listed((#[trigger] before[i]).0).len() implies !speaks(
            #[trigger] listed(before[i].0)[j],
        ) by {
            assert(before[i] == chunks[i]);
        }
        if k < n - 1 {
            assert(before[k] == chunks[k]);
            the_first_spoken_chunk_starts_the_clock(before, k);
        } else {
            the_first_spoken_chunk_starts_the_clock(before, n - 1);
            let last = listed(chunks[n - 1].0);
            if k == n {
                assert forall|i: int| 0 <= i < last.len() implies spoken(
                    #[trigger] last[i],
                    "content"@,
                ).len() == 0 && spoken(last[i], "reasoning_content"@).len() == 0 by {
                    assert(!speaks(listed(chunks[n - 1].0)[i]));
                }
                nothing_is_said(last);
            } else {
                let j = choose|j: int| 0 <= j < last.len() && speaks(#[trigger] last[j]);
                spoken_chunks_are_tokens(v, chunks[n - 1].0, chunks[n - 1].1, j);
            }
        }
    }
}

/// The number of tokens that a JSON value tells, where it is a count.
pub open spec fn told(value: Option<Json>) -> Option<u32> {
    match value {
        Some(Json::Count(n)) => Some(n as u32),
        _ => None,
    }
}

/// The usage block of a chunk replaces what was known of the tokens: it counts
/// the answer under `completion_tokens`, the prompt under `prompt_tokens` and
/// what the cache held of it under `cached_tokens` of `prompt_tokens_details`.
/// What the block does not tell stays as it was.
pub proof fn usage_is_taken_from_the_chunk(v: StreamView, chunk: Json, usage: Json, now: u128)
    requires
        chunk.field("usage"@) == Some(usage),
    ensures
        told(usage.field("completion_tokens"@)) matches Some(n) ==> chunk_step(
            v,
            chunk,
            now,
        ).completion == Some(n),
        told(usage.field("completion_tokens"@)) is None ==> chunk_step(v, chunk, now).completion
            == v.completion,
        told(usage.field("prompt_tokens"@)) matches Some(n) ==> chunk_step(v, chunk, now).prompt
            == Some(n),
        told(usage.field("prompt_tokens"@)) is None ==> chunk_step(v, chunk, now).prompt
            == v.prompt,
        usage.field("prompt_tokens_details"@) matches Some(details) ==> (told(
            details.field("cached_tokens"@),
        ) matches Some(n) ==> chunk_step(v, chunk, now).cache_hit == Some(n)),
        usage.field("prompt_tokens_details"@) is None ==> chunk_step(v, chunk, now).cache_hit
            == v.cache_hit,
{
    choices_add_tokens(usage_step(v, chunk), listed(chunk), now);
}

/// A chunk without a usage block leaves all token counts of the server as they
/// were, and no chunk names a response or an error.
pub proof fn without_usage_nothing_is_counted(v: StreamView, chunk: Json, now: u128)
    ensures
        chunk.field("usage"@) is None ==> {
            &&& chunk_step(v, chunk, now).completion == v.completion
            &&& chunk_step(v, chunk, now).prompt == v.prompt
            &&& chunk_step(v, chunk, now).cache_hit == v.cache_hit
        },
        chunk_step(v, chunk, now).cache_creation == v.cache_creation,
        chunk_step(v, chunk, now).response_id == v.response_id,
        chunk_step(v, chunk, now).error == v.error,
{
    choices_add_tokens(usage_step(v, chunk), listed(chunk), now);
}

/// An event adds what its JSON chunk adds. The event that ends the stream and
/// one that holds no JSON add nothing.
pub proof fn an_event_adds_its_chunk(v: StreamView, data: Seq<char>, now: u128)
    ensures
        data == "[DONE]"@ || json_value(data) is Err ==> event_step(v, data, now) == v,
        data != "[DONE]"@ ==> (json_value(data) matches Ok(chunk) ==> event_step(v, data, now)
            == chunk_step(v, chunk, now)),
{
}

/// Events that arrive together keep the first token that there was, set it to
/// their time where there was none, and only add to the answer.
proof fn events_keep_the_first_token(v: StreamView, events: Seq<Seq<char>>, now: u128)
    ensures
        ({
            let w = events_step(v, events, now);
            &&& v.first is Some ==> w.first == v.first
            &&& v.first is None ==> w.first is None || w.first == Some(now)
            &&& w.last == v.last || w.last == Some(now)
            &&& v.text.is_prefix_of(w.text)
            &&& v.gaps.is_prefix_of(w.gaps)
        }),
    decreases events.len(),
{
    if events.len() > 0 {
        events_keep_the_first_token(v, events.drop_last(), now);
        let w = events_step(v, events.drop_last(), now);
        if let Ok(chunk) = json_value(events.last()) {
            a_chunk_adds_its_tokens(w, chunk, now);
        }
    }
}

/// Tokens carry the time at which the bytes arrived that completed them: the
/// first token of a stream the time of the arrival that showed it, and it never
/// changes afterwards; the last one that of the latest arrival with a token.
/// What arrives later only adds to the answer and to the gaps.
pub proof fn tokens_carry_the_time_of_their_arrival(arrivals: Seq<Arrival>, n: int)
    requires
        0 < n <= arrivals.len(),
    ensures
        ({
            let v = stream_after(arrivals, n - 1).1;
            let w = stream_after(arrivals, n).1;
            &&& v.first is Some ==> w.first == v.first
            &&& v.first is None && w.first is Some ==> w.first == Some(arrivals[n - 1].at)
            &&& w.last == v.last || w.last == Some(arrivals[n - 1].at)
            &&& v.text.is_prefix_of(w.text)
            &&& v.gaps.is_prefix_of(w.gaps)
        }),
        stream_after(arrivals, 0).1.first is None,
{
    let (buffer, v) = stream_after(arrivals, n - 1);
    events_keep_the_first_token(
        v,
        events_data(raw_events(buffer + arrivals[n - 1].bytes@)),
        arrivals[n - 1].at,
    );
}

/// The answer that a whole reply carries in a choice, where it does.
pub open spec fn answer(choice: Json) -> Option<Seq<char>> {
    match choice.field("message"@) {
        Some(message) => match message.field("content"@) {
            Some(Json::Str(text)) => Some(text),
            _ => None,
        },
        None => None,
    }
}

/// What a whole reply reports. The token counts are those of its usage block;
/// without one, the answer's tokens are estimated and marked so. No time to the
/// first token can be told. The answer of a reply with one choice is that
/// choice's text; answers of several choices stand on lines of their own, in
/// order.
pub proof fn a_whole_reply_reports_its_answer(
    body: Json,
    before: RequestMetrics,
    after: RequestMetrics,
    total: u128,
)
    requires
        single_reply(body, before, after, total),
    ensures
        after.ttft is None,
        after.total_duration == total,
        after.status == before.status,
        after.error == before.error,
        body.field("usage"@) matches Some(usage) ==> {
            &&& told(usage.field("completion_tokens"@)) matches Some(n)
                ==> after.completion_tokens == n && !after.estimated
            &&& told(usage.field("completion_tokens"@)) is None ==> after.estimated
            &&& told(usage.field("prompt_tokens"@)) matches Some(n) ==> after.prompt_tokens == n
            &&& usage.field("prompt_tokens_details"@) matches Some(details) ==> (told(
                details.field("cached_tokens"@),
            ) matches Some(n) ==> after.cache_hit_input_tokens == n)
        },
        body.field("usage"@) is None ==> {
            &&& after.estimated
            &&& after.prompt_tokens == before.prompt_tokens
            &&& after.cache_hit_input_tokens == before.cache_hit_input_tokens
        },
        listed(body).len() == 0 ==> after.response_text@.len() == 0,
        listed(body).len() == 1 ==> (answer(listed(body)[0]) matches Some(text) ==> {
            &&& after.response_text@ == text
            &&& after.estimated ==> after.completion_tokens == (before.completion_tokens
                + estimated_tokens(text)) % 0x1_0000_0000
        }),
        listed(body).len() == 2 ==> (answer(listed(body)[0]) matches Some(a) ==> (answer(
            listed(body)[1],
        ) matches Some(b) ==> (a.len() > 0 ==> after.response_text@ == a + seq!['\n'] + b))),
{
    reveal_with_fuel(choices_text, 3);
    reveal_with_fuel(choices_tokens, 2);
    let choices = listed(body);
    if choices.len() == 1 {
        assert(choices.drop_last() =~= Seq::empty());
        assert(choices.last() == choices[0]);
    }
    if choices.len() == 2 {
        assert(choices.drop_last().drop_last() =~= Seq::empty());
        assert(choices.drop_last().last() == choices[0]);
        assert(choices.last() == choices[1]);
    }
}

/// A line that starts with `data:` carries what follows, without the one space
/// after the colon; other lines carry nothing.
pub proof fn data_follows_the_colon(line: Seq<char>, data: Seq<char>)
    ensures
        line == "data: "@ + data ==> data_of_line(line) == Some(data),
        line == "data:"@ + data && (data.len() == 0 || data[0] != ' ') ==> data_of_line(line)
            == Some(data),
        (forall|rest: Seq<char>| line != #[trigger] ("data:"@ + rest)) ==> data_of_line(line)
            is None,
{
    reveal_strlit("data: ");
    reveal_strlit("data:");
    let long = "data: "@;
    let short = "data:"@;
    assert(long =~= short + seq![' ']);
    if line == long + data {
        assert(line.subrange(0, 6) =~= long);
        assert(line.subrange(6, line.len() as int) =~= data);
    }
    if line == short + data {
        assert(line.subrange(0, 5) =~= short);
        assert(line.subrange(5, line.len() as int) =~= data);
        if line.len() >= 6 {
            assert(line[5] == data[0]);
            if line.subrange(0, 6) == long {
                assert(line.subrange(0, 6)[5] == ' ');
            }
        }
    }
    if data_of_line(line) is Some {
        if line.len() >= 6 && line.subrange(0, 6) == long {
            let rest = line.subrange(5, line.len() as int);
            assert(long[5] == ' ');
            assert forall|i: int| 0 <= i < 5 implies line[i] == short[i] by {
                assert(line.subrange(0, 6)[i] == long[i]);
            }
            assert(line =~= short + rest);
        } else {
            let rest = line.subrange(5, line.len() as int);
            assert forall|i: int| 0 <= i < 5 implies line[i] == short[i] by {
                assert(line.subrange(0, 5)[i] == short[i]);
            }
            assert(line =~= short + rest);
        }
    }
}

/// An event whose text is a single data line carries the data of that line; one
/// without a data line carries nothing.
pub proof fn an_event_carries_its_data(bytes: Seq<u8>, data: Seq<char>)
    ensures
        text_lines(lossy_text(bytes)) == seq!["data: "@ + data] ==> event_data(bytes) == Some(data),
        (forall|i: int|
            0 <= i < text_lines(lossy_text(bytes)).len() ==> data_of_line(
                #[trigger] text_lines(lossy_text(bytes))[i],
            ) is None) ==> event_data(bytes) is None,
{
    let rows = text_lines(lossy_text(bytes));
    data_follows_the_colon("data: "@ + data, data);
    if rows == seq!["data: "@ + data] {
        reveal_with_fuel(data_lines, 2);
        assert(rows.drop_last() =~= Seq::empty());
        assert(data_lines(rows) =~= seq![data]);
        reveal_with_fuel(joined, 2);
        assert(joined(seq![data], "\n"@) =~= data);
    }
    if forall|i: int| 0 <= i < rows.len() ==> data_of_line(#[trigger] rows[i]) is None {
        no_data(rows);
    }
}

/// Lines without data give no data.
proof fn no_data(rows: Seq<Seq<char>>)
    requires
        forall|i: int| 0 <= i < rows.len() ==> data_of_line(#[trigger] rows[i]) is None,
    ensures
        data_lines(rows).len() == 0,
    decreases rows.len(),
{
    if rows.len() > 0 {
        assert(data_of_line(rows[rows.len() - 1]) is None);
        no_data(rows.drop_last());
    }
}

/// A request ends with the status of its reply and with the time that it took. A
/// reply outside of 2xx is reported by its status and the start of its body, a
/// body that is no JSON by the cause, a stream that broke off by its fault.
pub proof fn a_reply_leaves_its_status(
    reply: Reply,
    before: RequestMetrics,
    after: RequestMetrics,
    total: u128,
)
    requires
        concluded(reply, before, after, total),
    ensures
        after.total_duration == total,
        match reply {
            Reply::Unsent(_) => after.status == before.status && after.error is Some && after.ttft
                == before.ttft,
            Reply::Refusal { status, text } => {
                &&& after.status == status
                &&& after.error is Some && after.error.unwrap()@ == "HTTP "@ + decimal(
                    status as nat,
                ) + ": "@ + clipped(text@, 200)
            },
            Reply::Whole { status, body } => {
                &&& after.status == status
                &&& body is Ok ==> after.error == before.error && after.ttft is None
                &&& body matches Err(cause) ==> after.error is Some && after.error.unwrap()@
                    == "body parse: "@ + cause@
            },
            Reply::Stream { status, arrivals, fault } => {
                &&& after.status == status
                &&& fault matches Some(text) ==> after.error is Some && after.error.unwrap()@
                    == text@ && after.ttft is None
                &&& after.response_text@ == stream_after(
                    arrivals@,
                    arrivals@.len() as int,
                ).1.text
            },
        },
{
}

/// The usage block is asked for where the answer is streamed, and nowhere else.
pub proof fn usage_is_asked_for_in_streams()
    ensures
        stream_options_for(true) == Some(StreamOptions { include_usage: true }),
        stream_options_for(false) is None,
{
}

/// The data of a stream are those of its events, in order: those of two parts
/// are those of the first and then those of the second.
pub proof fn data_follow_the_events(a: Seq<Seq<u8>>, b: Seq<Seq<u8>>)
    ensures
        events_data(a + b) == events_data(a) + events_data(b),
        b.len() == 1 ==> events_data(b) == (match event_data(b[0]) {
            Some(data) => seq![data],
            None => Seq::empty(),
        }),
    decreases b.len(),
{
    if b.len() == 0 {
        assert(a + b =~= a);
        assert(events_data(a) + events_data(b) =~= events_data(a));
    } else {
        data_follow_the_events(a, b.drop_last());
        assert((a + b).drop_last() =~= a + b.drop_last());
        assert(events_data(a + b) =~= events_data(a) + events_data(b));
        if b.len() == 1 {
            assert(b.drop_last() =~= Seq::empty());
            assert(b.last() == b[0]);
            assert(events_data(b.drop_last()) =~= Seq::empty());
        }
    }
}

/// The data lines of an event are joined by line breaks, in order; other lines
/// are passed over.
pub proof fn data_lines_are_joined(
    bytes: Seq<u8>,
    first: Seq<char>,
    other: Seq<char>,
    second: Seq<char>,
)
    requires
        data_of_line(other) is None,
    ensures
        text_lines(lossy_text(bytes)) == seq!["data: "@ + first, "data: "@ + second] ==> event_data(
            bytes,
        ) == Some(first + "\n"@ + second),
        text_lines(lossy_text(bytes)) == seq![other, "data: "@ + second] ==> event_data(bytes)
            == Some(second),
        text_lines(lossy_text(bytes)) == seq!["data: "@ + first, other] ==> event_data(bytes)
            == Some(first),
{
    let rows = text_lines(lossy_text(bytes));
    data_follows_the_colon("data: "@ + first, first);
    data_follows_the_colon("data: "@ + second, second);
    if rows.len() == 2 {
        reveal_with_fuel(data_lines, 3);
        assert(rows.drop_last().drop_last() =~= Seq::empty());
        assert(rows.drop_last().last() == rows[0]);
        assert(rows.last() == rows[1]);
        reveal_with_fuel(joined, 3);
        if rows == seq!["data: "@ + first, "data: "@ + second] {
            assert(data_lines(rows) =~= seq![first, second]);
            assert(seq![first, second].drop_last() =~= seq![first]);
            assert(joined(seq![first, second], "\n"@) =~= first + "\n"@ + second);
        }
        if rows == seq![other, "data: "@ + second] {
            assert(data_lines(rows) =~= seq![second]);
        }
        if rows == seq!["data: "@ + first, other] {
            assert(data_lines(rows) =~= seq![first]);
        }
    }
}

} // verus!
