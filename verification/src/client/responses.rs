//! The OpenAI `/v1/responses` client.
//!
//! The stream has typed events: the `event:` line is the routing key, the JSON
//! is on the `data:` line. A conversation can be continued on the server under
//! the id of the last response; then only the newest message is sent.

use super::anthropic::{or_else, tokens_in};
use super::openai::{add_line, latest, nonempty, told};
use super::sse::{lossy_text, raw_lines, take_line, unfinished_line, utf8_lossy, whole};
use super::{
    broken_off, chunks_of, failed, failed_with, format_transport_error, one_more_token,
    refusal_text, same_answer, settled, tokens_at, transport_text, Arrival, Reply, RequestMetrics, StreamTally, StreamView,
};
use crate::config::{estimate_tokens, estimated_tokens, opt_view, RunConfig};
use crate::dataset::OwnedChatMessage;
use crate::json::{
    count_at, get, get_array, get_str, get_u64, items_at, json_value, parse_json, text_at, trees,
    value_tree, Json,
};
use crate::text::{after_prefix, clipped, decimal, same_text, strip_prefix, trim, trimmed};
use vstd::prelude::*;
use vstd::utf8::*;

verus! {

/// The largest data payload of one event, in bytes. A larger one is a fault of
/// the server: nothing behind it is read.
pub const MAX_EVENT_BYTES: usize = 1024 * 1024;

/// What the client needs of the configuration.
#[derive(Debug)]
pub struct ResponsesClient {
    pub target: String,
    pub model: String,
    pub max_tokens: u32,
    pub stream: bool,
    pub api_key: Option<String>,
}

/// The request body.
#[derive(Debug)]
pub struct ResponsesRequest<'a> {
    pub model: &'a str,
    pub input: ResponsesInput<'a>,
    pub max_output_tokens: u32,
    pub stream: bool,
    pub previous_response_id: Option<&'a str>,
}

#[derive(Debug)]
pub enum ResponsesInput<'a> {
    /// A bare string, for a single prompt.
    Text(&'a str),
    /// A list of typed items.
    Items(Vec<InputItem<'a>>),
}

/// A message of the conversation. It has exactly one part.
#[derive(Debug)]
pub struct InputItem<'a> {
    pub role: &'a str,
    pub content: InputText<'a>,
}

#[derive(Debug)]
pub enum InputText<'a> {
    /// Text that the model received.
    InputText { text: &'a str },
    /// Text that the model produced.
    OutputText { text: &'a str },
}

/// An item as plain text: the role, the text, and whether the model produced
/// it.
#[verifier::ext_equal]
pub struct ItemView {
    pub role: Seq<char>,
    pub text: Seq<char>,
    pub produced: bool,
}

pub open spec fn item_view(item: InputItem<'_>) -> ItemView {
    match item.content {
        InputText::InputText { text } => ItemView { role: item.role@, text: text@, produced: false },
        InputText::OutputText { text } => ItemView { role: item.role@, text: text@, produced: true },
    }
}

pub open spec fn item_views(items: Seq<InputItem<'_>>) -> Seq<ItemView> {
    Seq::new(items.len(), |i: int| item_view(items[i]))
}

/// The items of a whole conversation: every message that is not empty, with
/// the assistant's marked as produced.
pub open spec fn history_items(messages: Seq<OwnedChatMessage>) -> Seq<ItemView>
    decreases messages.len(),
{
    if messages.len() == 0 {
        Seq::empty()
    } else {
        let before = history_items(messages.drop_last());
        let m = messages.last();
        if m.content@.len() == 0 {
            before
        } else {
            before.push(
                ItemView { role: m.role@, text: m.content@, produced: m.role@ == "assistant"@ },
            )
        }
    }
}

/// The one item that continues a conversation: the newest message, or an empty
/// one of the user.
pub open spec fn newest_item(messages: Seq<OwnedChatMessage>) -> ItemView {
    if messages.len() == 0 {
        ItemView { role: "user"@, text: ""@, produced: false }
    } else {
        ItemView { role: messages.last().role@, text: messages.last().content@, produced: false }
    }
}

impl ResponsesClient {
    pub fn new(cfg: &RunConfig) -> (r: Self)
        ensures
            r.target@ == cfg.target@,
            r.model@ == cfg.model@,
            r.max_tokens == cfg.max_tokens,
            r.stream == cfg.stream,
            opt_view(r.api_key) == opt_view(cfg.api_key),
    {
        ResponsesClient {
            target: cfg.target.clone(),
            model: cfg.model.clone(),
            max_tokens: cfg.max_tokens,
            stream: cfg.stream,
            api_key: cfg.api_key.clone(),
        }
    }

    /// The bearer token to send, where a key is set and not empty.
    pub fn bearer_key(&self) -> (r: Option<&str>)
        ensures
            match r {
                Some(k) => opt_view(self.api_key) == Some(k@) && k@.len() > 0,
                None => self.api_key is None || opt_view(self.api_key).unwrap().len() == 0,
            },
    {
        match &self.api_key {
            Some(key) => if key.as_str().is_empty() {
                None
            } else {
                Some(key.as_str())
            },
            None => None,
        }
    }

    /// The body for a single prompt.
    pub fn build_body<'a>(&'a self, prompt: &'a str) -> (r: ResponsesRequest<'a>)
        ensures
            r.model@ == self.model@,
            r.input matches ResponsesInput::Text(t) && t@ == prompt@,
            r.max_output_tokens == self.max_tokens,
            r.stream == self.stream,
            r.previous_response_id is None,
    {
        ResponsesRequest {
            model: self.model.as_str(),
            input: ResponsesInput::Text(prompt),
            max_output_tokens: self.max_tokens,
            stream: self.stream,
            previous_response_id: None,
        }
    }

    /// The body for a conversation. With the id of a previous response the
    /// server has the history, and only the newest message is sent; without
    /// one the whole history is rebuilt.
    pub fn build_body_messages<'a>(
        &'a self,
        messages: &'a Vec<OwnedChatMessage>,
        previous_response_id: Option<&'a str>,
    ) -> (r: ResponsesRequest<'a>)
        ensures
            r.model@ == self.model@,
            r.max_output_tokens == self.max_tokens,
            r.stream == self.stream,
            r.previous_response_id == previous_response_id,
            r.input matches ResponsesInput::Items(items) && item_views(items@) == (
            if previous_response_id is Some {
                seq![newest_item(messages@)]
            } else {
                history_items(messages@)
            }),
    {
        let mut items: Vec<InputItem<'a>> = Vec::new();
        if previous_response_id.is_some() {
            let n = messages.len();
            let last = if n == 0 {
                InputItem { role: "user", content: InputText::InputText { text: "" } }
            } else {
                InputItem {
                    role: messages[n - 1].role.as_str(),
                    content: InputText::InputText { text: messages[n - 1].content.as_str() },
                }
            };
            items.push(last);
            proof {
                assert(item_views(items@) =~= seq![newest_item(messages@)]);
            }
        } else {
            let mut i: usize = 0;
            proof {
                assert(item_views(items@) =~= Seq::<ItemView>::empty());
            }
            while i < messages.len()
                invariant
                    i <= messages@.len(),
                    item_views(items@) == history_items(messages@.take(i as int)),
                decreases messages@.len() - i,
            {
                proof {
                    assert(messages@.take(i + 1).drop_last() =~= messages@.take(i as int));
                }
                let m = &messages[i];
                if !m.content.as_str().is_empty() {
                    let role = m.role.as_str();
                    let text = m.content.as_str();
                    let content = if same_text(role, "assistant") {
                        InputText::OutputText { text }
                    } else {
                        InputText::InputText { text }
                    };
                    let item = InputItem { role, content };
                    let ghost before = items@;
                    items.push(item);
                    proof {
                        assert(item_views(items@) =~= item_views(before).push(item_view(item)));
                    }
                }
                i += 1;
            }
            proof {
                assert(messages@.take(i as int) =~= messages@);
            }
        }
        ResponsesRequest {
            model: self.model.as_str(),
            input: ResponsesInput::Items(items),
            max_output_tokens: self.max_tokens,
            stream: self.stream,
            previous_response_id,
        }
    }

    /// Reads a whole (non-streaming) reply.
    pub fn parse_single(&self, body: &serde_json::Value, total: u128, m: &mut RequestMetrics)
        ensures
            single_reply(value_tree(*body), *old(m), *final(m), total),
    {
        if let Some(id) = get_str(body, "id") {
            m.response_id = Some(id.to_owned());
        }
        let mut text = String::new();
        let mut estimate: u32 = m.completion_tokens;
        if let Some(output) = get_array(body, "output") {
            let mut i: usize = 0;
            while i < output.len()
                invariant
                    i <= output@.len(),
                    (text@, estimate) == output_reading(
                        trees(output@).take(i as int),
                        m.completion_tokens,
                    ),
                decreases output@.len() - i,
            {
                proof {
                    assert(trees(output@).take(i + 1).drop_last() =~= trees(output@).take(i as int));
                }
                if has_type(&output[i], "message") {
                    if let Some(parts) = get_array(&output[i], "content") {
                        let ghost start = (text@, estimate);
                        let mut k: usize = 0;
                        while k < parts.len()
                            invariant
                                k <= parts@.len(),
                                (text@, estimate) == parts_reading(start, trees(parts@).take(k as int)),
                            decreases parts@.len() - k,
                        {
                            proof {
                                assert(trees(parts@).take(k + 1).drop_last() =~= trees(parts@).take(k as int));
                            }
                            if has_type(&parts[k], "output_text") {
                                if let Some(part) = get_str(&parts[k], "text") {
                                    let ghost before = text@;
                                    if !text.as_str().is_empty() {
                                        text.push('\n');
                                        proof {
                                            assert(text@ =~= before + seq!['\n']);
                                        }
                                    } else {
                                        proof {
                                            assert(text@ + part@ =~= part@);
                                        }
                                    }
                                    text.push_str(part);
                                    estimate = estimate.wrapping_add(estimate_tokens(part));
                                }
                            }
                            k += 1;
                        }
                        proof {
                            assert(trees(parts@).take(k as int) =~= trees(parts@));
                        }
                    }
                }
                i += 1;
            }
            proof {
                assert(trees(output@).take(i as int) =~= trees(output@));
            }
        }
        m.response_text = text;
        m.completion_tokens = estimate;
        m.estimated = true;
        if let Some(u) = get(body, "usage") {
            if let Some(ct) = get_u64(u, "output_tokens") {
                m.completion_tokens = ct as u32;
                m.estimated = false;
            }
            if let Some(pt) = get_u64(u, "input_tokens") {
                m.prompt_tokens = pt as u32;
            }
            if let Some(details) = get(u, "input_tokens_details") {
                if let Some(cached) = get_u64(details, "cached_tokens") {
                    m.cache_hit_input_tokens = cached as u32;
                }
            }
        }
        m.ttft = None;
        m.total_duration = total;
    }
}

fn has_type(v: &serde_json::Value, name: &str) -> (r: bool)
    ensures
        r == (text_at(value_tree(*v), "type"@) == Some(name@)),
{
    match get_str(v, "type") {
        Some(t) => same_text(t, name),
        None => false,
    }
}

/// The text of a content part, where it is output text.
pub open spec fn part_text(part: Json) -> Option<Seq<char>> {
    if text_at(part, "type"@) == Some("output_text"@) {
        text_at(part, "text"@)
    } else {
        None
    }
}

/// Text and token estimate after a sequence of content parts: each text comes
/// on a line of its own.
pub open spec fn parts_reading(start: (Seq<char>, u32), parts: Seq<Json>) -> (Seq<char>, u32)
    decreases parts.len(),
{
    if parts.len() == 0 {
        start
    } else {
        let before = parts_reading(start, parts.drop_last());
        match part_text(parts.last()) {
            Some(t) => (add_line(before.0, t), before.1.wrapping_add(estimated_tokens(t))),
            None => before,
        }
    }
}

/// Text and token estimate of a list of output items: those of its messages.
pub open spec fn output_reading(output: Seq<Json>, start: u32) -> (Seq<char>, u32)
    decreases output.len(),
{
    if output.len() == 0 {
        (Seq::empty(), start)
    } else {
        let before = output_reading(output.drop_last(), start);
        if text_at(output.last(), "type"@) == Some("message"@) {
            match items_at(output.last(), "content"@) {
                Some(parts) => parts_reading(before, parts),
                None => before,
            }
        } else {
            before
        }
    }
}

/// The cached prompt tokens that a usage block tells.
pub open spec fn cached_in(usage: Option<Json>) -> Option<u32> {
    match usage {
        Some(u) => match u.field("input_tokens_details"@) {
            Some(d) => match count_at(d, "cached_tokens"@) {
                Some(n) => Some(n as u32),
                None => None,
            },
            None => None,
        },
        None => None,
    }
}

/// `after` is `before` with what a whole reply says.
pub open spec fn single_reply(
    body: Json,
    before: RequestMetrics,
    after: RequestMetrics,
    total: u128,
) -> bool {
    let output = match items_at(body, "output"@) {
        Some(o) => o,
        None => Seq::empty(),
    };
    let usage = body.field("usage"@);
    let reported = tokens_in(usage, "output_tokens"@);
    &&& opt_view(after.response_id) == (match text_at(body, "id"@) {
        Some(id) => Some(id),
        None => opt_view(before.response_id),
    })
    &&& after.response_text@ == output_reading(output, before.completion_tokens).0
    &&& after.estimated == (reported is None)
    &&& after.completion_tokens == or_else(
        reported,
        output_reading(output, before.completion_tokens).1,
    )
    &&& after.prompt_tokens == or_else(tokens_in(usage, "input_tokens"@), before.prompt_tokens)
    &&& after.cache_hit_input_tokens == or_else(cached_in(usage), before.cache_hit_input_tokens)
    &&& after.timed_whole(total)
    &&& after == (RequestMetrics {
        response_id: after.response_id,
        response_text: after.response_text,
        estimated: after.estimated,
        completion_tokens: after.completion_tokens,
        prompt_tokens: after.prompt_tokens,
        cache_hit_input_tokens: after.cache_hit_input_tokens,
        ttft: after.ttft,
        total_duration: after.total_duration,
        ..before
    })
}

/// One event: its type, empty where there was no `event:` line, and its data.
#[derive(Debug)]
pub struct ResponsesSseEvent {
    pub event_type: String,
    pub data: String,
}

pub open spec fn event_views(events: Seq<ResponsesSseEvent>) -> Seq<(Seq<char>, Seq<char>)> {
    Seq::new(events.len(), |i: int| (events[i].event_type@, events[i].data@))
}

/// What was read of the event that is under way, and whether reading stopped at
/// one that was too large.
#[verifier::ext_equal]
pub struct PendingEvent {
    pub event: Option<Seq<char>>,
    pub data: Seq<char>,
    pub stopped: bool,
}

/// No event is under way.
pub open spec fn nothing_pending() -> PendingEvent {
    PendingEvent { event: None, data: Seq::empty(), stopped: false }
}

/// The pending event, and the events that are complete.
pub type Progress = (PendingEvent, Seq<(Seq<char>, Seq<char>)>);

/// The type that a line names, where it is an `event:` line.
pub open spec fn type_of_line(line: Seq<char>) -> Option<Seq<char>> {
    match after_prefix(line, "event: "@) {
        Some(rest) => Some(rest),
        None => after_prefix(line, "event:"@),
    }
}

/// What one line does: an empty line completes the pending event, where there is
/// one; `event:` names the type; `data:` adds a line of data; anything else is
/// ignored. A pending event that is too large is dropped, and no line after it
/// does anything.
pub open spec fn line_step(p: Progress, line: Seq<char>) -> Progress {
    let (pending, done) = p;
    if pending.stopped {
        p
    } else if line.len() == 0 {
        if pending.data.len() == 0 && pending.event is None {
            p
        } else if encode_utf8(pending.data).len() > MAX_EVENT_BYTES {
            (PendingEvent { stopped: true, ..nothing_pending() }, done)
        } else {
            let name = match pending.event {
                Some(e) => e,
                None => Seq::empty(),
            };
            (nothing_pending(), done.push((name, pending.data)))
        }
    } else {
        match (type_of_line(line), super::openai::data_of_line(line)) {
            (Some(name), _) => (PendingEvent { event: Some(name), ..pending }, done),
            (None, Some(data)) => (
                PendingEvent { data: add_line(pending.data, data), ..pending },
                done,
            ),
            (None, None) => p,
        }
    }
}

/// What a sequence of lines does.
pub open spec fn lines_step(p: Progress, rows: Seq<Seq<u8>>) -> Progress
    decreases rows.len(),
{
    if rows.len() == 0 {
        p
    } else {
        line_step(lines_step(p, rows.drop_last()), lossy_text(rows.last()))
    }
}

/// Two sequences of lines one after the other do what they do together.
pub proof fn lines_step_append(p: Progress, a: Seq<Seq<u8>>, b: Seq<Seq<u8>>)
    ensures
        lines_step(p, a + b) == lines_step(lines_step(p, a), b),
    decreases b.len(),
{
    if b.len() == 0 {
        assert(a + b =~= a);
    } else {
        assert((a + b).drop_last() =~= a + b.drop_last());
        lines_step_append(p, a, b.drop_last());
    }
}

/// Where the chunks of a stream were cut does not matter: the lines of `a + b`
/// leave the same pending event and the same complete events as those of `a`
/// followed by those that `b` completes.
pub proof fn chunking_is_irrelevant(p: Progress, a: Seq<u8>, b: Seq<u8>)
    ensures
        lines_step(p, raw_lines(a + b)) == lines_step(
            lines_step(p, raw_lines(a)),
            raw_lines(unfinished_line(a) + b),
        ),
        unfinished_line(a + b) == unfinished_line(unfinished_line(a) + b),
{
    super::sse::line_chunking_is_irrelevant(a, b);
    lines_step_append(p, raw_lines(a), raw_lines(unfinished_line(a) + b));
}

/// Streaming parser of typed server-sent events.
#[derive(Debug)]
pub struct ResponsesSseParser {
    pub buffer: Vec<u8>,
    pub current_event: Option<String>,
    pub current_data: String,
    /// Whether an event was too large.
    pub stopped: bool,
}

impl ResponsesSseParser {
    pub open spec fn pending(self) -> PendingEvent {
        PendingEvent {
            event: opt_view(self.current_event),
            data: self.current_data@,
            stopped: self.stopped,
        }
    }

    pub fn new() -> (r: Self)
        ensures
            r.buffer@.len() == 0,
            r.pending() == nothing_pending(),
    {
        ResponsesSseParser {
            buffer: Vec::new(),
            current_event: None,
            current_data: String::new(),
            stopped: false,
        }
    }

    /// Takes the next chunk and returns the events that it completes.
    pub fn feed(&mut self, chunk: &[u8]) -> (r: Vec<ResponsesSseEvent>)
        ensures
            (final(self).pending(), event_views(r@)) == lines_step(
                (old(self).pending(), Seq::empty()),
                raw_lines(old(self).buffer@ + chunk@),
            ),
            final(self).buffer@ == unfinished_line(old(self).buffer@ + chunk@),
    {
        let ghost all = self.buffer@ + chunk@;
        let ghost start: Progress = (self.pending(), Seq::empty());
        self.buffer.extend_from_slice(chunk);
        let mut events: Vec<ResponsesSseEvent> = Vec::new();
        let ghost mut done: Seq<Seq<u8>> = Seq::empty();
        proof {
            assert(self.buffer@ =~= all);
            assert(done + raw_lines(all) =~= raw_lines(all));
            assert(event_views(events@) =~= Seq::empty());
        }
        loop
            invariant
                done + raw_lines(self.buffer@) == raw_lines(all),
                unfinished_line(self.buffer@) == unfinished_line(all),
                (self.pending(), event_views(events@)) == lines_step(start, done),
            ensures
                (self.pending(), event_views(events@)) == lines_step(start, raw_lines(all)),
                self.buffer@ == unfinished_line(all),
            decreases self.buffer@.len(),
        {
            match take_line(&mut self.buffer) {
                Some(bytes) => {
                    proof {
                        let more = done.push(bytes@);
                        assert(more.drop_last() =~= done);
                        assert(more + raw_lines(self.buffer@) =~= done + (seq![bytes@]
                            + raw_lines(self.buffer@)));
                        done = more;
                    }
                    let line = utf8_lossy(bytes.as_slice());
                    self.process_line(line.as_str(), &mut events);
                },
                None => {
                    proof {
                        assert(done + Seq::<Seq<u8>>::empty() =~= done);
                    }
                    break;
                },
            }
        }
        events
    }

    /// Takes one line; a completed event is added to `out`.
    pub fn process_line(&mut self, line: &str, out: &mut Vec<ResponsesSseEvent>)
        ensures
            (final(self).pending(), event_views(final(out)@)) == line_step(
                (old(self).pending(), event_views(old(out)@)),
                line@,
            ),
            final(self).buffer == old(self).buffer,
    {
        if self.stopped {
            return;
        }
        if line.is_empty() {
            if !self.current_data.as_str().is_empty() || self.current_event.is_some() {
                if self.current_data.as_str().as_bytes().len() > MAX_EVENT_BYTES {
                    self.current_data = String::new();
                    self.current_event = None;
                    self.stopped = true;
                    return;
                }
                let event_type = match self.current_event.take() {
                    Some(name) => name,
                    None => String::new(),
                };
                let mut data = String::new();
                std::mem::swap(&mut data, &mut self.current_data);
                let ev = ResponsesSseEvent { event_type, data };
                let ghost before = out@;
                out.push(ev);
                proof {
                    assert(event_views(out@) =~= event_views(before).push(
                        (ev.event_type@, ev.data@),
                    ));
                }
            }
            return;
        }
        let named = match strip_prefix(line, "event: ") {
            Some(rest) => Some(rest),
            None => strip_prefix(line, "event:"),
        };
        if let Some(name) = named {
            self.current_event = Some(name);
            return;
        }
        if let Some(rest) = super::openai::line_data(line) {
            let ghost before = self.current_data@;
            if !self.current_data.as_str().is_empty() {
                self.current_data.push('\n');
                proof {
                    assert(self.current_data@ =~= before + seq!['\n']);
                }
            } else {
                proof {
                    assert(before + rest@ =~= rest@);
                }
            }
            self.current_data.push_str(rest.as_str());
        }
    }
}

/// The visible or reasoning text in a delta event.
pub open spec fn delta_of(event: Json) -> Option<Seq<char>> {
    text_at(event, "delta"@)
}

/// What the final event of a stream adds.
pub open spec fn completed_step(v: StreamView, event: Json) -> StreamView {
    match event.field("response"@) {
        Some(resp) => {
            let usage = resp.field("usage"@);
            StreamView {
                response_id: first_id(v.response_id, text_at(resp, "id"@)),
                completion: latest(tokens_in(usage, "output_tokens"@), v.completion),
                prompt: latest(tokens_in(usage, "input_tokens"@), v.prompt),
                cache_hit: latest(cached_in(usage), v.cache_hit),
                ..v
            }
        },
        None => v,
    }
}

/// The id that came first stays.
pub open spec fn first_id(known: Option<Seq<char>>, new: Option<Seq<char>>) -> Option<Seq<char>> {
    if known is Some {
        known
    } else {
        new
    }
}

/// What an event of the given type adds whose data is the JSON value `event`.
pub open spec fn json_step(
    v: StreamView,
    event_type: Seq<char>,
    event: Json,
    now: u128,
) -> StreamView {
    if event_type == "response.created"@ {
        StreamView {
            response_id: first_id(
                v.response_id,
                match event.field("response"@) {
                    Some(resp) => text_at(resp, "id"@),
                    None => None,
                },
            ),
            ..v
        }
    } else if event_type == "response.completed"@ {
        completed_step(v, event)
    } else if event_type == "response.output_text.delta"@ {
        if nonempty(delta_of(event)) {
            v.with_text(delta_of(event).unwrap()).arrived(now)
        } else {
            v
        }
    } else if event_type == "response.reasoning_summary_text.delta"@ {
        if nonempty(delta_of(event)) {
            v.arrived(now)
        } else {
            v
        }
    } else {
        v
    }
}

/// What an event adds: nothing where its data is no JSON.
pub open spec fn event_step(
    v: StreamView,
    event_type: Seq<char>,
    data: Seq<char>,
    now: u128,
) -> StreamView {
    if event_type.len() == 0 && trimmed(data).len() == 0 {
        v
    } else {
        match json_value(data) {
            Ok(event) => json_step(v, event_type, event, now),
            Err(_) => v,
        }
    }
}

/// Takes an event of the given type whose data was read as JSON.
pub fn apply_event(tally: &mut StreamTally, event_type: &str, event: &serde_json::Value, now: u128)
    ensures
        final(tally)@ == json_step(old(tally)@, event_type@, value_tree(*event), now),
{
    if same_text(event_type, "response.created") {
        if tally.response_id.is_none() {
            if let Some(resp) = get(event, "response") {
                if let Some(id) = get_str(resp, "id") {
                    tally.response_id = Some(id.to_owned());
                }
            }
        }
    } else if same_text(event_type, "response.completed") {
        if let Some(resp) = get(event, "response") {
            if tally.response_id.is_none() {
                if let Some(id) = get_str(resp, "id") {
                    tally.response_id = Some(id.to_owned());
                }
            }
            if let Some(u) = get(resp, "usage") {
                if let Some(ct) = get_u64(u, "output_tokens") {
                    tally.usage_completion = Some(ct as u32);
                }
                if let Some(pt) = get_u64(u, "input_tokens") {
                    tally.usage_prompt = Some(pt as u32);
                }
                if let Some(details) = get(u, "input_tokens_details") {
                    if let Some(cached) = get_u64(details, "cached_tokens") {
                        tally.cache_hit = Some(cached as u32);
                    }
                }
            }
        }
    } else if same_text(event_type, "response.output_text.delta") {
        if let Some(d) = get_str(event, "delta") {
            if !d.is_empty() {
                tally.push_text(d);
                tally.bump_token_timing(now);
            }
        }
    } else if same_text(event_type, "response.reasoning_summary_text.delta") {
        if let Some(d) = get_str(event, "delta") {
            if !d.is_empty() {
                tally.bump_token_timing(now);
            }
        }
    }
    proof {
        assert(tally@ =~= json_step(old(tally)@, event_type@, value_tree(*event), now));
    }
}

/// Takes one event of the stream that arrived at `now`.
pub fn on_event(tally: &mut StreamTally, event: &ResponsesSseEvent, now: u128)
    ensures
        final(tally)@ == event_step(old(tally)@, event.event_type@, event.data@, now),
{
    if event.event_type.as_str().is_empty() && trim(event.data.as_str()).as_str().is_empty() {
        return;
    }
    if let Ok(value) = parse_json(event.data.as_str()) {
        apply_event(tally, event.event_type.as_str(), &value, now);
    }
}

/// What a sequence of events that arrived together adds.
pub open spec fn events_step(
    v: StreamView,
    events: Seq<(Seq<char>, Seq<char>)>,
    now: u128,
) -> StreamView
    decreases events.len(),
{
    if events.len() == 0 {
        v
    } else {
        let before = events_step(v, events.drop_last(), now);
        event_step(before, events.last().0, events.last().1, now)
    }
}

/// What the first `n` arrivals leave behind: bytes without a complete line, the
/// event that is under way, and what the events showed.
pub open spec fn stream_after(arrivals: Seq<Arrival>, n: int) -> (
    Seq<u8>,
    PendingEvent,
    StreamView,
)
    decreases n,
{
    if n <= 0 {
        (
            Seq::empty(),
            nothing_pending(),
            StreamView::empty(),
        )
    } else {
        let (buffer, pending, v) = stream_after(arrivals, n - 1);
        let all = buffer + arrivals[n - 1].bytes@;
        let (next, events) = lines_step((pending, Seq::empty()), raw_lines(all));
        (unfinished_line(all), next, events_step(v, events, arrivals[n - 1].at))
    }
}

/// What a whole stream showed.
pub open spec fn stream_view(arrivals: Seq<Arrival>, fault: Option<Seq<char>>) -> StreamView {
    broken_off(stream_after(arrivals, arrivals.len() as int).2, fault)
}

/// The times of a stream have no part in what its events say.
proof fn times_do_not_matter(
    v: StreamView,
    w: StreamView,
    events: Seq<(Seq<char>, Seq<char>)>,
    now: u128,
    later: u128,
)
    requires
        same_answer(v, w),
    ensures
        same_answer(events_step(v, events, now), events_step(w, events, later)),
    decreases events.len(),
{
    if events.len() > 0 {
        times_do_not_matter(v, w, events.drop_last(), now, later);
    }
}

proof fn steps_append(
    v: StreamView,
    a: Seq<(Seq<char>, Seq<char>)>,
    b: Seq<(Seq<char>, Seq<char>)>,
    now: u128,
)
    ensures
        events_step(v, a + b, now) == events_step(events_step(v, a, now), b, now),
    decreases b.len(),
{
    if b.len() == 0 {
        assert(a + b =~= a);
    } else {
        assert((a + b).drop_last() =~= a + b.drop_last());
        steps_append(v, a, b.drop_last(), now);
    }
}

/// Events that are complete have no part in what further lines do.
proof fn done_events_stay(
    pending: PendingEvent,
    done: Seq<(Seq<char>, Seq<char>)>,
    rows: Seq<Seq<u8>>,
)
    ensures
        lines_step((pending, done), rows) == ({
            let (next, more) = lines_step((pending, Seq::empty()), rows);
            (next, done + more)
        }),
    decreases rows.len(),
{
    if rows.len() == 0 {
        assert(done + Seq::<(Seq<char>, Seq<char>)>::empty() =~= done);
    } else {
        done_events_stay(pending, done, rows.drop_last());
        let (next, more) = lines_step((pending, Seq::empty()), rows.drop_last());
        let line = lossy_text(rows.last());
        let alone = line_step((next, more), line);
        let all = line_step((next, done + more), line);
        assert(all.1 =~= done + alone.1);
    }
}

/// Read chunk by chunk, a stream says what all its bytes say at once.
proof fn read_at_once(arrivals: Seq<Arrival>, n: int)
    requires
        0 <= n <= arrivals.len(),
    ensures
        ({
            let bytes = whole(chunks_of(arrivals).take(n));
            let (pending, events) = lines_step(
                (nothing_pending(), Seq::empty()),
                raw_lines(bytes),
            );
            &&& stream_after(arrivals, n).0 == unfinished_line(bytes)
            &&& stream_after(arrivals, n).1 == pending
            &&& same_answer(
                stream_after(arrivals, n).2,
                events_step(StreamView::empty(), events, 0),
            )
        }),
    decreases n,
{
    let chunks = chunks_of(arrivals);
    let start: Progress = (nothing_pending(), Seq::empty());
    if n == 0 {
        assert(unfinished_line(whole(chunks.take(0))) =~= Seq::<u8>::empty());
        assert(raw_lines(whole(chunks.take(0))) =~= Seq::<Seq<u8>>::empty());
    } else {
        read_at_once(arrivals, n - 1);
        assert(chunks.take(n).drop_last() =~= chunks.take(n - 1));
        let before = whole(chunks.take(n - 1));
        let next = arrivals[n - 1].bytes@;
        chunking_is_irrelevant(start, before, next);
        let (pending, known) = lines_step(start, raw_lines(before));
        let rows = raw_lines(unfinished_line(before) + next);
        done_events_stay(pending, known, rows);
        let new = lines_step((pending, Seq::empty()), rows).1;
        steps_append(StreamView::empty(), known, new, 0);
        times_do_not_matter(
            stream_after(arrivals, n - 1).2,
            events_step(StreamView::empty(), known, 0),
            new,
            arrivals[n - 1].at,
            0,
        );
    }
}

/// Where a stream was cut into chunks does not matter: text, token counts, the
/// response id and errors depend on its bytes alone.
pub proof fn cuts_do_not_change_the_answer(
    a: Seq<Arrival>,
    b: Seq<Arrival>,
    fault: Option<Seq<char>>,
)
    requires
        whole(chunks_of(a)) == whole(chunks_of(b)),
    ensures
        same_answer(stream_view(a, fault), stream_view(b, fault)),
{
    read_at_once(a, a.len() as int);
    read_at_once(b, b.len() as int);
    assert(chunks_of(a).take(a.len() as int) =~= chunks_of(a));
    assert(chunks_of(b).take(b.len() as int) =~= chunks_of(b));
}

fn take_events(tally: &mut StreamTally, events: &Vec<ResponsesSseEvent>, now: u128)
    ensures
        final(tally)@ == events_step(old(tally)@, event_views(events@), now),
{
    let mut i: usize = 0;
    while i < events.len()
        invariant
            i <= events@.len(),
            tally@ == events_step(old(tally)@, event_views(events@).take(i as int), now),
        decreases events@.len() - i,
    {
        on_event(tally, &events[i], now);
        proof {
            let all = event_views(events@);
            assert(all.take(i + 1).drop_last() =~= all.take(i as int));
            assert(all.take(i + 1).last() == all[i as int]);
        }
        i += 1;
    }
    proof {
        assert(event_views(events@).take(i as int) =~= event_views(events@));
    }
}

impl ResponsesClient {
    /// Reads a streamed response: what arrived when, and the error that broke it
    /// off, where one did.
    pub fn parse_stream(
        &self,
        arrivals: &Vec<Arrival>,
        fault: &Option<String>,
        total: u128,
        m: &mut RequestMetrics,
    )
        ensures
            settled(stream_view(arrivals@, opt_view(*fault)), *old(m), *final(m), total),
    {
        let mut parser = ResponsesSseParser::new();
        let mut tally = StreamTally::new();
        let mut i: usize = 0;
        proof {
            assert(parser.buffer@ =~= Seq::<u8>::empty());
        }
        while i < arrivals.len()
            invariant
                i <= arrivals@.len(),
                (parser.buffer@, parser.pending(), tally@) == stream_after(arrivals@, i as int),
            decreases arrivals@.len() - i,
        {
            let events = parser.feed(arrivals[i].bytes.as_slice());
            take_events(&mut tally, &events, arrivals[i].at);
            i += 1;
        }
        tally.end(fault);
        tally.finish(total, m);
    }
}

/// `after` is `before` with what came of the request.
pub open spec fn concluded(
    reply: Reply,
    before: RequestMetrics,
    after: RequestMetrics,
    total: u128,
) -> bool {
    match reply {
        Reply::Unsent(e) => failed_with(before, after, before.status, transport_text(e), total),
        Reply::Refusal { status, text } => failed_with(
            before,
            after,
            status,
            refusal_text(status, text@),
            total,
        ),
        Reply::Whole { status, body } => match body {
            Ok(v) => single_reply(
                value_tree(v),
                RequestMetrics { status, ..before },
                after,
                total,
            ),
            Err(e) => failed_with(before, after, status, "body parse: "@ + e@, total),
        },
        Reply::Stream { status, arrivals, fault } => settled(
            stream_view(arrivals@, opt_view(fault)),
            RequestMetrics { status, ..before },
            after,
            total,
        ),
    }
}

/// Every failure leaves an error behind.
pub proof fn failures_are_recorded(
    reply: Reply,
    before: RequestMetrics,
    after: RequestMetrics,
    total: u128,
)
    requires
        concluded(reply, before, after, total),
        failed(reply),
    ensures
        after.error is Some,
        after.total_duration == total,
{
}

impl ResponsesClient {
    /// Takes what came of a request that took `total`.
    pub fn dispatch(&self, reply: &Reply, total: u128, m: &mut RequestMetrics)
        ensures
            concluded(*reply, *old(m), *final(m), total),
    {
        match reply {
            Reply::Unsent(e) => {
                m.error = Some(format_transport_error(e));
                m.total_duration = total;
            },
            Reply::Refusal { status, text } => {
                m.status = *status;
                m.refuse(text.as_str(), total);
            },
            Reply::Whole { status, body } => {
                m.status = *status;
                match body {
                    Ok(v) => self.parse_single(v, total, m),
                    Err(e) => m.body_unreadable(e.as_str(), total),
                }
            },
            Reply::Stream { status, arrivals, fault } => {
                m.status = *status;
                self.parse_stream(arrivals, fault, total, m);
            },
        }
    }
}

/// A delta of the output text or of the reasoning summary is one token that
/// arrives now, where it is not empty; only output text is part of the answer.
/// Empty deltas and events of other types are no tokens.
pub proof fn deltas_with_text_are_tokens(
    v: StreamView,
    event_type: Seq<char>,
    event: Json,
    now: u128,
)
    ensures
        ({
            let w = json_step(v, event_type, event, now);
            let text = match event.field("delta"@) {
                Some(Json::Str(text)) => text,
                _ => Seq::empty(),
            };
            let output = event_type == "response.output_text.delta"@;
            let reasoning = event_type == "response.reasoning_summary_text.delta"@;
            &&& (output || reasoning) && text.len() > 0 ==> tokens_at(v, w, 1, now)
            &&& !(output || reasoning) || text.len() == 0 ==> tokens_at(v, w, 0, now)
            &&& output ==> w.text == v.text + text
            &&& !output ==> w.text == v.text
            &&& output || reasoning ==> w.completion == v.completion && w.prompt == v.prompt
                && w.cache_hit == v.cache_hit && w.response_id == v.response_id
            &&& w.error == v.error
        }),
{
    types_differ();
    let text = match event.field("delta"@) {
        Some(Json::Str(text)) => text,
        _ => Seq::empty(),
    };
    one_more_token(v, v, 0, now, text);
    if text.len() == 0 {
        assert(v.text + text =~= v.text);
    }
}

/// The names of the event types are different texts.
proof fn types_differ()
    ensures
        "response.created"@ != "response.completed"@,
        "response.created"@ != "response.output_text.delta"@,
        "response.created"@ != "response.reasoning_summary_text.delta"@,
        "response.completed"@ != "response.output_text.delta"@,
        "response.completed"@ != "response.reasoning_summary_text.delta"@,
        "response.output_text.delta"@ != "response.reasoning_summary_text.delta"@,
{
    reveal_strlit("response.created");
    reveal_strlit("response.completed");
    reveal_strlit("response.output_text.delta");
    reveal_strlit("response.reasoning_summary_text.delta");
    assert("response.created"@.len() == 16);
    assert("response.completed"@.len() == 18);
    assert("response.output_text.delta"@.len() == 26);
    assert("response.reasoning_summary_text.delta"@.len() == 37);
}

/// The id of a response is the first one that the stream names, when the
/// response is created or when it is completed. The completed response tells the
/// token counts under `usage`; what it does not tell stays as it was.
pub proof fn a_completed_response_tells_its_usage(v: StreamView, event: Json, now: u128)
    ensures
        ({
            let created = json_step(v, "response.created"@, event, now);
            let completed = json_step(v, "response.completed"@, event, now);
            let named = match event.field("response"@) {
                Some(response) => match response.field("id"@) {
                    Some(Json::Str(id)) => Some(id),
                    _ => None,
                },
                None => None,
            };
            let usage = match event.field("response"@) {
                Some(response) => response.field("usage"@),
                None => None,
            };
            &&& v.response_id is Some ==> created.response_id == v.response_id
                && completed.response_id == v.response_id
            &&& v.response_id is None ==> created.response_id == named && completed.response_id
                == named
            &&& created == (StreamView { response_id: created.response_id, ..v })
            &&& usage is None ==> completed.completion == v.completion && completed.prompt
                == v.prompt && completed.cache_hit == v.cache_hit
            &&& usage matches Some(u) ==> {
                &&& completed.completion == (match told(u.field("output_tokens"@)) {
                    Some(n) => Some(n),
                    None => v.completion,
                })
                &&& completed.prompt == (match told(u.field("input_tokens"@)) {
                    Some(n) => Some(n),
                    None => v.prompt,
                })
                &&& u.field("input_tokens_details"@) matches Some(details) ==> (told(
                    details.field("cached_tokens"@),
                ) matches Some(n) ==> completed.cache_hit == Some(n))
                &&& u.field("input_tokens_details"@) is None ==> completed.cache_hit == v.cache_hit
            }
            &&& completed.text == v.text && completed.error == v.error
        }),
{
    types_differ();
}

/// What a whole reply reports. The token counts are those of its usage block;
/// without one, the answer's tokens are estimated and marked so. No time to the
/// first token can be told. The answer of a reply with one message of one output
/// text is that text; items that are no messages are not part of it.
pub proof fn a_whole_reply_reports_its_answer(
    body: Json,
    before: RequestMetrics,
    after: RequestMetrics,
    total: u128,
)
    requires
        single_reply(body, before, after, total),
    ensures
        after.ttft is None,
        after.total_duration == total,
        after.status == before.status,
        after.error == before.error,
        body.field("id"@) matches Some(Json::Str(id)) ==> after.response_id is Some
            && after.response_id.unwrap()@ == id,
        body.field("usage"@) matches Some(usage) ==> {
            &&& told(usage.field("output_tokens"@)) matches Some(n) ==> after.completion_tokens == n
                && !after.estimated
            &&& told(usage.field("output_tokens"@)) is None ==> after.estimated
            &&& told(usage.field("input_tokens"@)) matches Some(n) ==> after.prompt_tokens == n
            &&& usage.field("input_tokens_details"@) matches Some(details) ==> (told(
                details.field("cached_tokens"@),
            ) matches Some(n) ==> after.cache_hit_input_tokens == n)
        },
        body.field("usage"@) is None ==> {
            &&& after.estimated
            &&& after.prompt_tokens == before.prompt_tokens
            &&& after.cache_hit_input_tokens == before.cache_hit_input_tokens
        },
        body.field("output"@) matches Some(Json::Array(output)) ==> {
            &&& (forall|i: int|
                0 <= i < output.len() ==> (#[trigger] output[i]).field("type"@) != Some(
                    Json::Str("message"@),
                )) ==> after.response_text@.len() == 0
            &&& output.len() == 1 && output[0].field("type"@) == Some(Json::Str("message"@)) ==> (
            output[0].field("content"@) matches Some(Json::Array(parts)) ==> (parts.len() == 1
                && parts[0].field("type"@) == Some(Json::Str("output_text"@)) ==> (parts[0].field(
                "text"@,
            ) matches Some(Json::Str(text)) ==> {
                &&& after.response_text@ == text
                &&& after.estimated ==> after.completion_tokens == (before.completion_tokens
                    + estimated_tokens(text)) % 0x1_0000_0000
            })))
        },
{
    if let Some(Json::Array(output)) = body.field("output"@) {
        if forall|i: int|
            0 <= i < output.len() ==> (#[trigger] output[i]).field("type"@) != Some(
                Json::Str("message"@),
            ) {
            no_messages(output, before.completion_tokens);
        }
        reveal_with_fuel(output_reading, 2);
        if output.len() == 1 {
            assert(output.drop_last() =~= Seq::empty());
            assert(output.last() == output[0]);
            if let Some(Json::Array(parts)) = output[0].field("content"@) {
                reveal_with_fuel(parts_reading, 2);
                if parts.len() == 1 {
                    assert(parts.drop_last() =~= Seq::empty());
                    assert(parts.last() == parts[0]);
                }
            }
        }
    }
}

/// Items that are no messages give no text.
proof fn no_messages(output: Seq<Json>, start: u32)
    requires
        forall|i: int|
            0 <= i < output.len() ==> (#[trigger] output[i]).field("type"@) != Some(
                Json::Str("message"@),
            ),
    ensures
        output_reading(output, start).0.len() == 0,
    decreases output.len(),
{
    if output.len() > 0 {
        assert(output[output.len() - 1].field("type"@) != Some(Json::Str("message"@)));
        no_messages(output.drop_last(), start);
    }
}

/// Events that arrive together keep the first token that there was, set it to
/// their time where there was none, and only add to the answer.
proof fn events_keep_the_first_token(
    v: StreamView,
    events: Seq<(Seq<char>, Seq<char>)>,
    now: u128,
)
    ensures
        ({
            let w = events_step(v, events, now);
            &&& v.first is Some ==> w.first == v.first
            &&& v.first is None ==> w.first is None || w.first == Some(now)
            &&& w.last == v.last || w.last == Some(now)
            &&& v.text.is_prefix_of(w.text)
            &&& v.gaps.is_prefix_of(w.gaps)
        }),
    decreases events.len(),
{
    if events.len() > 0 {
        events_keep_the_first_token(v, events.drop_last(), now);
    }
}

/// Tokens carry the time at which the bytes arrived that completed them: the
/// first token of a stream the time of the arrival that showed it, and it never
/// changes afterwards; the last one that of the latest arrival with a token.
/// What arrives later only adds to the answer and to the gaps.
pub proof fn tokens_carry_the_time_of_their_arrival(arrivals: Seq<Arrival>, n: int)
    requires
        0 < n <= arrivals.len(),
    ensures
        ({
            let v = stream_after(arrivals, n - 1).2;
            let w = stream_after(arrivals, n).2;
            &&& v.first is Some ==> w.first == v.first
            &&& v.first is None && w.first is Some ==> w.first == Some(arrivals[n - 1].at)
            &&& w.last == v.last || w.last == Some(arrivals[n - 1].at)
            &&& v.text.is_prefix_of(w.text)
            &&& v.gaps.is_prefix_of(w.gaps)
        }),
        stream_after(arrivals, 0).2.first is None,
{
    let (buffer, pending, v) = stream_after(arrivals, n - 1);
    let all = buffer + arrivals[n - 1].bytes@;
    events_keep_the_first_token(
        v,
        lines_step((pending, Seq::empty()), raw_lines(all)).1,
        arrivals[n - 1].at,
    );
}

/// A request ends with the status of its reply and with the time that it took. A
/// reply outside of 2xx is reported by its status and the start of its body, a
/// body that is no JSON by the cause, a stream that broke off by its fault.
pub proof fn a_reply_leaves_its_status(
    reply: Reply,
    before: RequestMetrics,
    after: RequestMetrics,
    total: u128,
)
    requires
        concluded(reply, before, after, total),
    ensures
        after.total_duration == total,
        match reply {
            Reply::Unsent(_) => after.status == before.status && after.error is Some && after.ttft
                == before.ttft,
            Reply::Refusal { status, text } => {
                &&& after.status == status
                &&& after.error is Some && after.error.unwrap()@ == "HTTP "@ + decimal(
                    status as nat,
                ) + ": "@ + clipped(text@, 200)
            },
            Reply::Whole { status, body } => {
                &&& after.status == status
                &&& body is Ok ==> after.error == before.error && after.ttft is None
                &&& body matches Err(cause) ==> after.error is Some && after.error.unwrap()@
                    == "body parse: "@ + cause@
            },
            Reply::Stream { status, arrivals, fault } => {
                &&& after.status == status
                &&& fault matches Some(text) ==> after.error is Some && after.error.unwrap()@
                    == text@ && after.ttft is None
                &&& after.response_text@ == stream_after(
                    arrivals@,
                    arrivals@.len() as int,
                ).2.text
            },
        },
{
}

/// A conversation is sent by its messages that are not empty, in order; those of
/// the assistant are marked as produced by the model, and no others. To continue
/// one on the server, its newest message alone is sent.
pub proof fn messages_are_sent_in_order(messages: Seq<OwnedChatMessage>)
    ensures
        history_items(messages) == messages.filter(
            |m: OwnedChatMessage| m.content@.len() > 0,
        ).map_values(
            |m: OwnedChatMessage|
                ItemView { role: m.role@, text: m.content@, produced: m.role@ == "assistant"@ },
        ),
        messages.len() > 0 ==> {
            &&& newest_item(messages).role == messages[messages.len() - 1].role@
            &&& newest_item(messages).text == messages[messages.len() - 1].content@
            &&& !newest_item(messages).produced
        },
    decreases messages.len(),
{
    reveal(Seq::filter);
    let kept = |m: OwnedChatMessage| m.content@.len() > 0;
    let shown = |m: OwnedChatMessage|
        ItemView { role: m.role@, text: m.content@, produced: m.role@ == "assistant"@ };
    if messages.len() > 0 {
        messages_are_sent_in_order(messages.drop_last());
        if kept(messages.last()) {
            assert(messages.filter(kept).map_values(shown) =~= messages.drop_last().filter(
                kept,
            ).map_values(shown).push(shown(messages.last())));
        }
    } else {
        assert(messages.filter(kept).map_values(shown) =~= Seq::empty());
    }
}

/// A line that names a type, a line of data and an empty line are an event of
/// that type with that data, unless the data are too large.
pub proof fn three_lines_are_an_event(rows: Seq<Seq<u8>>, name: Seq<char>, data: Seq<char>)
    requires
        rows.len() == 3,
        lossy_text(rows[0]) == "event: "@ + name,
        lossy_text(rows[1]) == "data: "@ + data,
        lossy_text(rows[2]).len() == 0,
        encode_utf8(data).len() <= 1024 * 1024,
    ensures
        lines_step((nothing_pending(), Seq::empty()), rows) == (
            nothing_pending(),
            seq![(name, data)],
        ),
{
    reveal_with_fuel(lines_step, 4);
    reveal_strlit("event: ");
    reveal_strlit("event:");
    reveal_strlit("data: ");
    assert(rows.drop_last().drop_last().drop_last() =~= Seq::empty());
    assert(rows.drop_last().drop_last().last() == rows[0]);
    assert(rows.drop_last().last() == rows[1]);
    let first = lossy_text(rows[0]);
    let second = lossy_text(rows[1]);
    assert(first.take(7) =~= "event: "@);
    assert(first.skip(7) =~= name);
    super::openai::data_follows_the_colon(second, data);
    assert(second[0] == 'd');
    assert("event: "@[0] == 'e' && "event:"@[0] == 'e');
    if type_of_line(second) is Some {
        assert(second.take(6)[0] == 'd');
        if second.len() >= 7 {
            assert(second.take(7)[0] == 'd');
        }
    }
    let begun = PendingEvent { event: Some(name), ..nothing_pending() };
    assert(add_line(begun.data, data) == data);
    assert(lines_step((nothing_pending(), Seq::empty()), rows).1 =~= seq![(name, data)]);
}

/// An event whose data are larger than a megabyte is dropped, and nothing behind
/// it is read.
pub proof fn too_large_an_event_ends_the_reading(
    pending: PendingEvent,
    done: Seq<(Seq<char>, Seq<char>)>,
    later: Seq<char>,
)
    requires
        !pending.stopped,
        encode_utf8(pending.data).len() > 1024 * 1024,
        pending.data.len() > 0,
    ensures
        line_step((pending, done), Seq::empty()).1 == done,
        line_step((pending, done), Seq::empty()).0.stopped,
        line_step(line_step((pending, done), Seq::empty()), later) == line_step(
            (pending, done),
            Seq::empty(),
        ),
{
}

/// Lines of data are joined by line breaks; lines that are neither a type nor
/// data are passed over, and an empty line without anything before it is no
/// event.
pub proof fn lines_of_data_are_joined(p: Progress, line: Seq<char>, more: Seq<char>)
    requires
        !p.0.stopped,
        line == "data: "@ + more,
    ensures
        p.0.data.len() == 0 ==> line_step(p, line).0.data == more,
        p.0.data.len() > 0 ==> line_step(p, line).0.data == p.0.data + seq!['\n'] + more,
        line_step(p, line).0.event == p.0.event,
        line_step(p, line).1 == p.1,
        p.0.data.len() == 0 && p.0.event is None ==> line_step(p, Seq::empty()) == p,
{
    super::openai::data_follows_the_colon(line, more);
    reveal_strlit("data: ");
    reveal_strlit("event: ");
    reveal_strlit("event:");
    assert(line[0] == 'd');
    assert("event: "@[0] == 'e' && "event:"@[0] == 'e');
    if type_of_line(line) is Some {
        assert(line.take(6)[0] == 'd');
        if line.len() >= 7 {
            assert(line.take(7)[0] == 'd');
        }
    }
}

/// The texts of several parts and of several messages stand on lines of their
/// own, in order.
pub proof fn texts_of_a_reply_stand_on_lines(
    start: (Seq<char>, u32),
    parts: Seq<Json>,
    a: Seq<char>,
    b: Seq<char>,
)
    requires
        parts.len() == 2,
        parts[0].field("type"@) == Some(Json::Str("output_text"@)),
        parts[0].field("text"@) == Some(Json::Str(a)),
        parts[1].field("type"@) == Some(Json::Str("output_text"@)),
        parts[1].field("text"@) == Some(Json::Str(b)),
        a.len() > 0,
    ensures
        start.0.len() == 0 ==> parts_reading(start, parts).0 == a + seq!['\n'] + b,
        start.0.len() > 0 ==> parts_reading(start, parts).0 == start.0 + seq!['\n'] + a
            + seq!['\n'] + b,
{
    reveal_with_fuel(parts_reading, 3);
    assert(parts.drop_last().drop_last() =~= Seq::empty());
    assert(parts.drop_last().last() == parts[0]);
    assert(parts.last() == parts[1]);
}

} // verus!
