//! Clients of LLM endpoints: request bodies, and what a reply says about
//! tokens, timing and errors.

pub mod anthropic;
pub mod openai;
pub mod raw;
pub mod responses;
pub mod sse;

use crate::config::opt_view;
use crate::dataset::OwnedChatMessage;
use crate::shown::{group_shown, shown_within, shows};
use crate::text::{decimal, decimal_text, joined, truncate, views, views_push};
use vstd::prelude::*;

verus! {

/// What was measured of one request. Durations are nanoseconds, times are
/// RFC 3339 texts.
#[derive(Debug)]
pub struct RequestMetrics {
    /// HTTP status code. `0` if there never was a response.
    pub status: u16,
    /// The error, on transport, parse and status failures.
    pub error: Option<String>,
    /// Time from the start of the request to the first token. `None` for
    /// non-streaming requests and for those with an error.
    pub ttft: Option<u128>,
    /// Times between consecutive tokens.
    pub itl_samples: Vec<u128>,
    /// Completion tokens as reported, or estimated from the chunks.
    pub completion_tokens: u32,
    /// Prompt tokens as reported, or 0 if unknown.
    pub prompt_tokens: u32,
    /// End-to-end duration.
    pub total_duration: u128,
    /// Whether `completion_tokens` is an estimate.
    pub estimated: bool,
    /// The visible text of the answer.
    pub response_text: String,
    /// Prompt tokens that the model wrote to its prefix cache.
    pub cache_creation_input_tokens: u32,
    /// Prompt tokens that were served from the prefix cache.
    pub cache_hit_input_tokens: u32,
    /// Tokens decoded, including rejected speculative ones.
    pub spec_decoded_tok: u32,
    /// Tokens accepted from the speculative draft.
    pub spec_accepted_tok: u32,
    /// Decode iterations.
    pub spec_iterations: u32,
    pub started_at: String,
    pub finished_at: String,
    /// The id under which the server keeps the conversation.
    pub response_id: Option<String>,
}

impl Default for RequestMetrics {
    fn default() -> (r: Self)
        ensures
            r.status == 0,
            r.error is None,
            r.ttft is None,
            r.itl_samples@.len() == 0,
            r.completion_tokens == 0,
            r.prompt_tokens == 0,
            r.total_duration == 0,
            !r.estimated,
            r.response_text@.len() == 0,
            r.cache_creation_input_tokens == 0,
            r.cache_hit_input_tokens == 0,
            r.spec_decoded_tok == 0,
            r.spec_accepted_tok == 0,
            r.spec_iterations == 0,
            r.started_at@ == "1970-01-01T00:00:00Z"@,
            r.finished_at@ == "1970-01-01T00:00:00Z"@,
            r.response_id is None,
    {
        RequestMetrics {
            status: 0,
            error: None,
            ttft: None,
            itl_samples: Vec::new(),
            completion_tokens: 0,
            prompt_tokens: 0,
            total_duration: 0,
            estimated: false,
            response_text: String::new(),
            cache_creation_input_tokens: 0,
            cache_hit_input_tokens: 0,
            spec_decoded_tok: 0,
            spec_accepted_tok: 0,
            spec_iterations: 0,
            started_at: "1970-01-01T00:00:00Z".to_owned(),
            finished_at: "1970-01-01T00:00:00Z".to_owned(),
            response_id: None,
        }
    }
}

/// The error of a reply with a status outside of 2xx.
pub open spec fn refusal_text(status: u16, body: Seq<char>) -> Seq<char> {
    "HTTP "@ + decimal(status as nat) + ": "@ + crate::text::clipped(body, 200)
}

impl RequestMetrics {
    /// Whether the request produced a usable response.
    pub fn is_ok(&self) -> (r: bool)
        ensures
            r == (200 <= self.status < 300 && self.error is None),
    {
        self.status >= 200 && self.status < 300 && self.error.is_none()
    }

    /// Everything but `error` and `total_duration` is as in `before`.
    pub open spec fn failed_from(self, before: RequestMetrics) -> bool {
        self == (RequestMetrics {
            error: self.error,
            total_duration: self.total_duration,
            ..before
        })
    }

    /// The error of a reply with a status outside of 2xx: the status and the
    /// start of the body.
    pub fn refuse(&mut self, body: &str, total: u128)
        ensures
            final(self).failed_from(*old(self)),
            final(self).total_duration == total,
            opt_view(final(self).error) == Some(refusal_text(old(self).status, body@)),
    {
        let mut msg = String::new();
        msg.push_str("HTTP ");
        msg.push_str(decimal_text(self.status as u128).as_str());
        msg.push_str(": ");
        msg.push_str(truncate(body, 200).as_str());
        proof {
            assert(msg@ =~= refusal_text(self.status, body@));
        }
        self.error = Some(msg);
        self.total_duration = total;
    }

    /// The error of a body that could not be read as JSON.
    pub fn body_unreadable(&mut self, cause: &str, total: u128)
        ensures
            final(self).failed_from(*old(self)),
            final(self).total_duration == total,
            opt_view(final(self).error) == Some("body parse: "@ + cause@),
    {
        let mut msg = String::new();
        msg.push_str("body parse: ");
        msg.push_str(cause);
        proof {
            assert(msg@ =~= "body parse: "@ + cause@);
        }
        self.error = Some(msg);
        self.total_duration = total;
    }

    /// The times of a whole (non-streaming) reply: no first token can be told
    /// apart in it.
    pub open spec fn timed_whole(self, total: u128) -> bool {
        self.ttft is None && self.total_duration == total
    }
}

/// What a stream has shown so far.
#[verifier::ext_equal]
pub struct StreamView {
    pub first: Option<u128>,
    pub last: Option<u128>,
    pub deltas: u32,
    pub gaps: Seq<u128>,
    pub completion: Option<u32>,
    pub prompt: Option<u32>,
    pub cache_creation: Option<u32>,
    pub cache_hit: Option<u32>,
    pub text: Seq<char>,
    pub response_id: Option<Seq<char>>,
    pub error: Option<Seq<char>>,
}

impl StreamView {
    /// Nothing has arrived yet.
    pub open spec fn empty() -> StreamView {
        StreamView {
            first: None,
            last: None,
            deltas: 0,
            gaps: Seq::empty(),
            completion: None,
            prompt: None,
            cache_creation: None,
            cache_hit: None,
            text: Seq::empty(),
            response_id: None,
            error: None,
        }
    }

    /// A token arrives at `now`: the first one sets the time to the first
    /// token, each later one adds the gap since the one before.
    pub open spec fn arrived(self, now: u128) -> StreamView {
        StreamView {
            first: if self.first is None {
                Some(now)
            } else {
                self.first
            },
            last: Some(now),
            deltas: self.deltas.wrapping_add(1),
            gaps: if self.first is Some && self.last is Some {
                self.gaps.push(
                    if now >= self.last.unwrap() {
                        (now - self.last.unwrap()) as u128
                    } else {
                        0
                    },
                )
            } else {
                self.gaps
            },
            ..self
        }
    }

    pub open spec fn with_text(self, more: Seq<char>) -> StreamView {
        StreamView { text: self.text + more, ..self }
    }
}

/// What a stream has shown after tokens arrived at these times.
pub open spec fn after_tokens(times: Seq<u128>) -> StreamView
    decreases times.len(),
{
    if times.len() == 0 {
        StreamView::empty()
    } else {
        after_tokens(times.drop_last()).arrived(times.last())
    }
}

/// The sum of some times.
pub open spec fn time_sum(times: Seq<u128>) -> int
    decreases times.len(),
{
    if times.len() == 0 {
        0
    } else {
        time_sum(times.drop_last()) + times.last()
    }
}

/// Tokens leave one gap less than there are tokens, and the gaps add up to the
/// time from the first token to the last one.
pub proof fn gaps_span_the_stream(times: Seq<u128>)
    requires
        times.len() > 0,
        forall|i: int, j: int| 0 <= i <= j < times.len() ==> times[i] <= times[j],
    ensures
        after_tokens(times).first == Some(times[0]),
        after_tokens(times).last == Some(times.last()),
        after_tokens(times).gaps.len() == times.len() - 1,
        time_sum(after_tokens(times).gaps) == times.last() - times[0],
    decreases times.len(),
{
    let before = after_tokens(times.drop_last());
    if times.len() == 1 {
        assert(times.drop_last() =~= Seq::empty());
        assert(before == StreamView::empty());
    } else {
        gaps_span_the_stream(times.drop_last());
        let gap = (times.last() - times[times.len() - 2]) as u128;
        assert(after_tokens(times).gaps == before.gaps.push(gap));
        assert(before.gaps.push(gap).drop_last() =~= before.gaps);
    }
}

/// Each gap is the time from one token to the next.
pub proof fn gaps_lie_between_tokens(times: Seq<u128>, i: int)
    requires
        0 <= i < times.len() - 1,
        times[i] <= times[i + 1],
    ensures
        after_tokens(times).gaps.len() == times.len() - 1,
        after_tokens(times).gaps[i] == times[i + 1] - times[i],
        after_tokens(times).deltas == times.len() % 0x1_0000_0000,
    decreases times.len(),
{
    tokens_leave_gaps(times);
    tokens_leave_gaps(times.drop_last());
    let before = after_tokens(times.drop_last());
    if i < times.len() - 2 {
        gaps_lie_between_tokens(times.drop_last(), i);
        assert(after_tokens(times).gaps[i] == before.gaps[i]);
    }
}

/// The last token sets the time of the last token, and each but the first leaves
/// a gap.
proof fn tokens_leave_gaps(times: Seq<u128>)
    ensures
        times.len() > 0 ==> {
            &&& after_tokens(times).first is Some
            &&& after_tokens(times).last == Some(times.last())
            &&& after_tokens(times).gaps.len() == times.len() - 1
        },
        times.len() == 0 ==> after_tokens(times) == StreamView::empty(),
        after_tokens(times).deltas == times.len() % 0x1_0000_0000,
    decreases times.len(),
{
    if times.len() > 0 {
        tokens_leave_gaps(times.drop_last());
    }
}

/// What `n` tokens that arrive together at `now` change of the times and the
/// count of tokens of `v`: nothing where there are none. Otherwise the first
/// token stays the first, the last one arrived now, and each but the very first
/// token of a stream leaves a gap: since the token before, or none within the
/// same moment.
pub open spec fn tokens_at(v: StreamView, w: StreamView, n: int, now: u128) -> bool {
    &&& n == 0 ==> w.first == v.first && w.last == v.last && w.gaps == v.gaps
    &&& n > 0 ==> w.last == Some(now) && w.first == (match v.first {
        Some(first) => Some(first),
        None => Some(now),
    })
    &&& w.deltas == (v.deltas + n) % 0x1_0000_0000
    &&& v.gaps.is_prefix_of(w.gaps)
    &&& n > 0 && v.first is None ==> w.gaps.len() == v.gaps.len() + n - 1
    &&& v.first is Some && v.last is Some ==> w.gaps.len() == v.gaps.len() + n
    &&& n > 0 && v.first is Some && v.last is Some ==> w.gaps[v.gaps.len() as int] == (if now
        >= v.last.unwrap() {
        now - v.last.unwrap()
    } else {
        0
    })
}

/// One more token arrives in the same moment.
pub proof fn one_more_token(v: StreamView, w: StreamView, n: int, now: u128, more: Seq<char>)
    requires
        n >= 0,
        tokens_at(v, w, n, now),
    ensures
        tokens_at(v, w.arrived(now), n + 1, now),
        tokens_at(v, w.with_text(more).arrived(now), n + 1, now),
        tokens_at(v, w.arrived(now).with_text(more), n + 1, now),
{
    let x = w.arrived(now);
    assert(v.gaps.is_prefix_of(x.gaps));
    let k = v.gaps.len() as int;
    if n == 0 {
        assert(w.gaps == v.gaps);
        if v.first is Some && v.last is Some {
            assert(x.gaps == v.gaps.push(x.gaps[k]));
        }
    } else {
        assert(w.first is Some && w.last is Some);
        if v.first is Some && v.last is Some {
            assert(x.gaps[k] == w.gaps[k]);
        }
    }
    assert(x.gaps == w.with_text(more).arrived(now).gaps);
}

/// What a finished stream reports. The time to the first token is that of the
/// first token, unless the request failed; the token counts are those that the
/// server told, and where it told none, every delta counts as one token and the
/// count is marked as an estimate; the answer is the text of the stream.
pub proof fn a_finished_stream_reports_what_it_showed(
    v: StreamView,
    before: RequestMetrics,
    after: RequestMetrics,
    total: u128,
)
    requires
        settled(v, before, after, total),
        before.error is None,
    ensures
        v.error is None ==> after.error is None && after.ttft == v.first,
        v.error matches Some(text) ==> after.ttft is None && after.error is Some
            && after.error.unwrap()@ == text,
        v.completion matches Some(n) ==> after.completion_tokens == n && !after.estimated,
        v.completion is None ==> after.completion_tokens == v.deltas && after.estimated,
        v.prompt matches Some(n) ==> after.prompt_tokens == n,
        v.prompt is None ==> after.prompt_tokens == 0,
        v.cache_hit matches Some(n) ==> after.cache_hit_input_tokens == n,
        v.cache_hit is None ==> after.cache_hit_input_tokens == before.cache_hit_input_tokens,
        v.cache_creation matches Some(n) ==> after.cache_creation_input_tokens == n,
        v.cache_creation is None ==> after.cache_creation_input_tokens
            == before.cache_creation_input_tokens,
        before.itl_samples@.len() == 0 ==> after.itl_samples@ == v.gaps,
        after.response_text@ == v.text,
        after.total_duration == total,
        after.status == before.status,
        before.response_id is None && v.response_id is Some ==> after.response_id is Some
            && after.response_id.unwrap()@ == v.response_id.unwrap(),
{
    assert(before.itl_samples@.len() == 0 ==> before.itl_samples@ + v.gaps =~= v.gaps);
}

/// Running totals of a stream.
#[derive(Debug)]
pub struct StreamTally {
    pub first_token_at: Option<u128>,
    pub last_token_at: Option<u128>,
    pub delta_count: u32,
    pub itl_samples: Vec<u128>,
    pub usage_completion: Option<u32>,
    pub usage_prompt: Option<u32>,
    pub cache_creation: Option<u32>,
    pub cache_hit: Option<u32>,
    pub response_text: String,
    pub response_id: Option<String>,
    pub error: Option<String>,
}

impl View for StreamTally {
    type V = StreamView;

    open spec fn view(&self) -> StreamView {
        StreamView {
            first: self.first_token_at,
            last: self.last_token_at,
            deltas: self.delta_count,
            gaps: self.itl_samples@,
            completion: self.usage_completion,
            prompt: self.usage_prompt,
            cache_creation: self.cache_creation,
            cache_hit: self.cache_hit,
            text: self.response_text@,
            response_id: opt_view(self.response_id),
            error: opt_view(self.error),
        }
    }
}

/// `after` is `before` with what the stream showed, finished after `total`.
pub open spec fn settled(
    v: StreamView,
    before: RequestMetrics,
    after: RequestMetrics,
    total: u128,
) -> bool {
    &&& after.status == before.status
    &&& opt_view(after.error) == (if v.error is Some {
        v.error
    } else {
        opt_view(before.error)
    })
    &&& after.ttft == (if after.error is Some {
        None
    } else {
        v.first
    })
    &&& after.itl_samples@ == before.itl_samples@ + v.gaps
    &&& after.completion_tokens == (if v.completion is Some {
        v.completion.unwrap()
    } else {
        v.deltas
    })
    &&& after.estimated == (v.completion is None)
    &&& after.prompt_tokens == (if v.prompt is Some {
        v.prompt.unwrap()
    } else {
        0
    })
    &&& after.total_duration == total
    &&& after.response_text@ == v.text
    &&& after.cache_creation_input_tokens == (if v.cache_creation is Some {
        v.cache_creation.unwrap()
    } else {
        before.cache_creation_input_tokens
    })
    &&& after.cache_hit_input_tokens == (if v.cache_hit is Some {
        v.cache_hit.unwrap()
    } else {
        before.cache_hit_input_tokens
    })
    &&& after.spec_decoded_tok == before.spec_decoded_tok
    &&& after.spec_accepted_tok == before.spec_accepted_tok
    &&& after.spec_iterations == before.spec_iterations
    &&& after.started_at == before.started_at
    &&& after.finished_at == before.finished_at
    &&& opt_view(after.response_id) == (if before.response_id is Some {
        opt_view(before.response_id)
    } else {
        v.response_id
    })
}

impl StreamTally {
    pub fn new() -> (r: Self)
        ensures
            r@ == StreamView::empty(),
    {
        let r = StreamTally {
            first_token_at: None,
            last_token_at: None,
            delta_count: 0,
            itl_samples: Vec::new(),
            usage_completion: None,
            usage_prompt: None,
            cache_creation: None,
            cache_hit: None,
            response_text: String::new(),
            response_id: None,
            error: None,
        };
        proof {
            assert(r@ =~= StreamView::empty());
        }
        r
    }

    /// Notes that a token arrived at `now`.
    pub fn bump_token_timing(&mut self, now: u128)
        ensures
            final(self)@ == old(self)@.arrived(now),
    {
        self.delta_count = self.delta_count.wrapping_add(1);
        if self.first_token_at.is_none() {
            self.first_token_at = Some(now);
        } else if let Some(last) = self.last_token_at {
            let gap: u128 = if now >= last {
                now - last
            } else {
                0
            };
            self.itl_samples.push(gap);
        }
        self.last_token_at = Some(now);
        proof {
            assert(self@ =~= old(self)@.arrived(now));
        }
    }

    /// Notes that the stream broke.
    pub fn fail(&mut self, error: String)
        ensures
            final(self)@ == (StreamView { error: Some(error@), ..old(self)@ }),
    {
        self.error = Some(error);
    }

    /// Notes the error that a stream broke off with, where it did.
    pub fn end(&mut self, fault: &Option<String>)
        ensures
            final(self)@ == broken_off(old(self)@, opt_view(*fault)),
    {
        if let Some(error) = fault {
            self.fail(error.clone());
        }
    }

    pub fn push_text(&mut self, more: &str)
        ensures
            final(self)@ == old(self)@.with_text(more@),
    {
        self.response_text.push_str(more);
        proof {
            assert(self@ =~= old(self)@.with_text(more@));
        }
    }

    /// Writes what the stream showed into the metrics of the request.
    pub fn finish(self, total: u128, m: &mut RequestMetrics)
        ensures
            settled(self@, *old(m), *final(m), total),
    {
        let mut samples = self.itl_samples;
        m.itl_samples.append(&mut samples);
        m.completion_tokens = match self.usage_completion {
            Some(n) => n,
            None => self.delta_count,
        };
        m.estimated = self.usage_completion.is_none();
        m.prompt_tokens = match self.usage_prompt {
            Some(n) => n,
            None => 0,
        };
        m.response_text = self.response_text;
        if let Some(n) = self.cache_creation {
            m.cache_creation_input_tokens = n;
        }
        if let Some(n) = self.cache_hit {
            m.cache_hit_input_tokens = n;
        }
        if m.response_id.is_none() {
            m.response_id = self.response_id;
        }
        if self.error.is_some() {
            m.error = self.error;
        }
        m.ttft = if m.error.is_some() {
            None
        } else {
            self.first_token_at
        };
        m.total_duration = total;
    }
}

/// Bytes of a response, and when they arrived: nanoseconds since the request was
/// sent.
#[derive(Debug)]
pub struct Arrival {
    pub bytes: Vec<u8>,
    pub at: u128,
}

/// The chunks that arrived, without their times.
pub open spec fn chunks_of(arrivals: Seq<Arrival>) -> Seq<Seq<u8>> {
    Seq::new(arrivals.len(), |i: int| arrivals[i].bytes@)
}

/// Both streams showed the same but for the times.
pub open spec fn same_answer(a: StreamView, b: StreamView) -> bool {
    a == (StreamView { first: a.first, last: a.last, gaps: a.gaps, ..b })
}

/// Names and values of headers.
pub open spec fn header_views(headers: Seq<(String, String)>) -> Seq<(Seq<char>, Seq<char>)> {
    headers.map_values(|h: (String, String)| (h.0@, h.1@))
}

/// What a stream showed that broke off with an error, where it did.
pub open spec fn broken_off(v: StreamView, fault: Option<Seq<char>>) -> StreamView {
    if fault is Some {
        StreamView { error: fault, ..v }
    } else {
        v
    }
}

/// What an HTTP error tells about itself.
#[derive(Debug)]
pub struct HttpFault {
    pub message: String,
    pub url: String,
    /// The chain of causes, outermost first.
    pub causes: Vec<String>,
    pub is_decode: bool,
    pub is_body: bool,
    pub is_timeout: bool,
    pub is_connect: bool,
    pub is_request: bool,
}

pub open spec fn bool_label(b: bool) -> Seq<char> {
    if b {
        "true"@
    } else {
        "false"@
    }
}

pub fn bool_text(b: bool) -> (r: &'static str)
    ensures
        r@ == bool_label(b),
{
    if b {
        "true"
    } else {
        "false"
    }
}

/// One numbered line per cause.
pub open spec fn cause_lines(causes: Seq<Seq<char>>) -> Seq<char>
    decreases causes.len(),
{
    if causes.len() == 0 {
        Seq::empty()
    } else {
        cause_lines(causes.drop_last()) + "\n  cause["@ + decimal(causes.len()) + "]: "@
            + causes.last()
    }
}

fn push_causes(out: &mut String, causes: &Vec<String>)
    ensures
        final(out)@ == old(out)@ + cause_lines(views(causes@)),
{
    let ghost start = out@;
    let mut i: usize = 0;
    proof {
        assert(start + Seq::<char>::empty() =~= start);
        assert(views(causes@).take(0) =~= Seq::<Seq<char>>::empty());
    }
    while i < causes.len()
        invariant
            i <= causes@.len(),
            out@ == start + cause_lines(views(causes@).take(i as int)),
        decreases causes@.len() - i,
    {
        let ghost before = out@;
        let ghost next = views(causes@).take(i + 1);
        out.push_str("\n  cause[");
        out.push_str(decimal_text(i as u128 + 1).as_str());
        out.push_str("]: ");
        out.push_str(causes[i].as_str());
        proof {
            assert(next.drop_last() =~= views(causes@).take(i as int));
            assert(out@ =~= start + cause_lines(next));
        }
        i += 1;
    }
    proof {
        assert(views(causes@).take(i as int) =~= views(causes@));
    }
}

/// How a response header is shown: absent, unreadable, or its text.
pub open spec fn header_label(header: Option<Option<Seq<char>>>) -> Seq<char> {
    match header {
        None => "(none)"@,
        Some(None) => "<binary>"@,
        Some(Some(text)) => text,
    }
}

pub open spec fn header_view(header: Option<Option<String>>) -> Option<Option<Seq<char>>> {
    match header {
        None => None,
        Some(h) => Some(opt_view(h)),
    }
}

fn push_header(out: &mut String, header: &Option<Option<String>>)
    ensures
        final(out)@ == old(out)@ + header_label(header_view(*header)),
{
    match header {
        None => out.push_str("(none)"),
        Some(None) => out.push_str("<binary>"),
        Some(Some(text)) => out.push_str(text.as_str()),
    }
}

/// Describes a broken stream: the error with its causes, the response that it
/// broke in, and how far it got.
pub fn format_stream_error(
    e: &HttpFault,
    status: u16,
    content_encoding: &Option<Option<String>>,
    transfer_encoding: &Option<Option<String>>,
    bytes_received: u64,
) -> (r: String)
    ensures
        r@ == "stream read: "@ + e.message@ + cause_lines(views(e.causes@)) + "\n  status: "@
            + decimal(status as nat) + "\n  content-encoding: "@ + header_label(
            header_view(*content_encoding),
        ) + "\n  transfer-encoding: "@ + header_label(header_view(*transfer_encoding))
            + "\n  bytes-received-before-error: "@ + decimal(bytes_received as nat)
            + "\n  is_decode: "@ + bool_label(e.is_decode) + "\n  is_body: "@ + bool_label(
            e.is_body,
        ) + "\n  is_timeout: "@ + bool_label(e.is_timeout) + "\n  is_connect: "@ + bool_label(
            e.is_connect,
        ),
{
    let mut out = String::new();
    out.push_str("stream read: ");
    proof {
        assert(out@ =~= "stream read: "@);
    }
    out.push_str(e.message.as_str());
    push_causes(&mut out, &e.causes);
    out.push_str("\n  status: ");
    out.push_str(decimal_text(status as u128).as_str());
    out.push_str("\n  content-encoding: ");
    push_header(&mut out, content_encoding);
    out.push_str("\n  transfer-encoding: ");
    push_header(&mut out, transfer_encoding);
    out.push_str("\n  bytes-received-before-error: ");
    out.push_str(decimal_text(bytes_received as u128).as_str());
    out.push_str("\n  is_decode: ");
    out.push_str(bool_text(e.is_decode));
    out.push_str("\n  is_body: ");
    out.push_str(bool_text(e.is_body));
    out.push_str("\n  is_timeout: ");
    out.push_str(bool_text(e.is_timeout));
    out.push_str("\n  is_connect: ");
    out.push_str(bool_text(e.is_connect));
    out
}

/// The description of a request that never got a response.
pub open spec fn transport_text(e: HttpFault) -> Seq<char> {
    "transport: "@ + e.message@ + (if e.url@.len() > 0 {
        "\n  url: "@ + e.url@
    } else {
        Seq::empty()
    }) + cause_lines(views(e.causes@)) + "\n  is_timeout: "@ + bool_label(e.is_timeout)
        + "\n  is_connect: "@ + bool_label(e.is_connect) + "\n  is_request: "@ + bool_label(
        e.is_request,
    ) + "\n  is_body: "@ + bool_label(e.is_body)
}

/// A request that never got a response, in short: the error alone.
pub open spec fn unsent_text(e: HttpFault) -> Seq<char> {
    "transport: "@ + e.message@
}

/// Describes a request that never got a response, in short.
pub fn unsent_error(e: &HttpFault) -> (r: String)
    ensures
        r@ == unsent_text(*e),
{
    let mut out = "transport: ".to_owned();
    out.push_str(e.message.as_str());
    out
}

/// Describes a request that never got a response.
pub fn format_transport_error(e: &HttpFault) -> (r: String)
    ensures
        r@ == transport_text(*e),
{
    let mut out = String::new();
    out.push_str("transport: ");
    proof {
        assert(out@ =~= "transport: "@);
    }
    out.push_str(e.message.as_str());
    let ghost head = out@;
    if !e.url.as_str().is_empty() {
        out.push_str("\n  url: ");
        out.push_str(e.url.as_str());
        proof {
            assert(out@ =~= head + ("\n  url: "@ + e.url@));
        }
    } else {
        proof {
            assert(out@ =~= head + Seq::<char>::empty());
        }
    }
    push_causes(&mut out, &e.causes);
    out.push_str("\n  is_timeout: ");
    out.push_str(bool_text(e.is_timeout));
    out.push_str("\n  is_connect: ");
    out.push_str(bool_text(e.is_connect));
    out.push_str("\n  is_request: ");
    out.push_str(bool_text(e.is_request));
    out.push_str("\n  is_body: ");
    out.push_str(bool_text(e.is_body));
    out
}

/// How the body of a reply is to be read.
#[derive(Debug, Clone, Copy, PartialEq, Eq, Structural)]
pub enum Reading {
    /// As the text of a refusal.
    Refusal,
    /// As one JSON value.
    Whole,
    /// As a stream of events.
    Stream,
}

/// Tells how to read the body of a reply with the given status.
pub fn how_to_read(status: u16, stream: bool) -> (r: Reading)
    ensures
        r == (if status < 200 || status >= 300 {
            Reading::Refusal
        } else if stream {
            Reading::Stream
        } else {
            Reading::Whole
        }),
{
    if status < 200 || status >= 300 {
        Reading::Refusal
    } else if stream {
        Reading::Stream
    } else {
        Reading::Whole
    }
}

/// What came of a request.
#[derive(Debug)]
pub enum Reply {
    /// There was no response.
    Unsent(HttpFault),
    /// A response with a status outside of 2xx.
    Refusal { status: u16, text: String },
    /// A whole body, or why it is no JSON.
    Whole { status: u16, body: Result<serde_json::Value, String> },
    /// What arrived of a stream, and the error that broke it off, where one did.
    Stream { status: u16, arrivals: Vec<Arrival>, fault: Option<String> },
}

/// `after` is `before` with a status and an error.
pub open spec fn failed_with(
    before: RequestMetrics,
    after: RequestMetrics,
    status: u16,
    error: Seq<char>,
    total: u128,
) -> bool {
    &&& after == (RequestMetrics {
        status,
        error: after.error,
        total_duration: total,
        ..before
    })
    &&& opt_view(after.error) == Some(error)
}

/// Whether a request failed before anything of an answer could be read.
pub open spec fn failed(reply: Reply) -> bool {
    match reply {
        Reply::Unsent(_) => true,
        Reply::Refusal { .. } => true,
        Reply::Whole { body, .. } => body is Err,
        Reply::Stream { fault, .. } => fault is Some,
    }
}

/// One message as a line of plain text.
pub open spec fn message_line(m: OwnedChatMessage) -> Seq<char> {
    "["@ + m.role@ + "] "@ + m.content@
}

/// A conversation as plain text: one line per message.
pub open spec fn conversation_text(messages: Seq<OwnedChatMessage>) -> Seq<char> {
    joined(Seq::new(messages.len(), |i: int| message_line(messages[i])), "\n"@)
}

/// Collapses a conversation into one prompt, for clients that take no list of
/// messages.
pub fn join_messages(messages: &Vec<OwnedChatMessage>) -> (r: String)
    ensures
        r@ == conversation_text(messages@),
{
    let mut rows: Vec<String> = Vec::new();
    let mut i: usize = 0;
    while i < messages.len()
        invariant
            i <= messages@.len(),
            views(rows@) == Seq::new(i as nat, |j: int| message_line(messages@[j])),
        decreases messages@.len() - i,
    {
        let mut row = String::new();
        row.push_str("[");
        row.push_str(messages[i].role.as_str());
        row.push_str("] ");
        row.push_str(messages[i].content.as_str());
        proof {
            assert(row@ =~= message_line(messages@[i as int]));
            views_push(rows@, row);
            assert(views(rows@.push(row)) =~= Seq::new(
                (i + 1) as nat,
                |j: int| message_line(messages@[j]),
            ));
        }
        rows.push(row);
        i += 1;
    }
    crate::text::join(&rows, "\n")
}

/// The chat-completions request body.
#[derive(Debug)]
pub struct ChatRequest<'a> {
    pub model: &'a str,
    pub messages: Vec<ChatMessage<'a>>,
    pub max_tokens: u32,
    pub stream: bool,
    pub stream_options: Option<StreamOptions>,
}

#[derive(Debug, Clone, Copy, PartialEq, Eq, Structural)]
pub struct StreamOptions {
    /// Ask for a final chunk with `usage`.
    pub include_usage: bool,
}

#[derive(Debug)]
pub struct ChatMessage<'a> {
    pub role: &'a str,
    pub content: &'a str,
}

/// A transport error names its message, the address, each cause with its number,
/// and what kind of error it was.
pub proof fn a_transport_error_names_its_causes(e: HttpFault, i: int)
    ensures
        shows(transport_text(e), "transport: "@ + e.message@),
        e.url@.len() > 0 ==> shows(transport_text(e), "\n  url: "@ + e.url@),
        0 <= i < e.causes@.len() ==> shows(
            transport_text(e),
            "\n  cause["@ + decimal((i + 1) as nat) + "]: "@ + e.causes@[i]@,
        ),
        shows(
            transport_text(e),
            "\n  is_timeout: "@ + bool_label(e.is_timeout) + "\n  is_connect: "@ + bool_label(
                e.is_connect,
            ) + "\n  is_request: "@ + bool_label(e.is_request) + "\n  is_body: "@ + bool_label(
                e.is_body,
            ),
        ),
        bool_label(true) == "true"@,
        bool_label(false) == "false"@,
{
    broadcast use group_shown;

    let text = transport_text(e);
    if e.url@.len() > 0 {
        assert(shows(text, "\n  url: "@ + e.url@));
    }
    if 0 <= i < e.causes@.len() {
        let causes = views(e.causes@);
        a_cause_is_named(causes, i);
        assert(shows(text, cause_lines(causes)));
        shown_within(
            text,
            cause_lines(causes),
            "\n  cause["@ + decimal((i + 1) as nat) + "]: "@ + causes[i],
        );
    }
}

proof fn a_cause_is_named(causes: Seq<Seq<char>>, i: int)
    requires
        0 <= i < causes.len(),
    ensures
        shows(
            cause_lines(causes),
            "\n  cause["@ + decimal((i + 1) as nat) + "]: "@ + causes[i],
        ),
    decreases causes.len(),
{
    broadcast use group_shown;

    if i < causes.len() - 1 {
        a_cause_is_named(causes.drop_last(), i);
    } else {
        assert(causes.last() == causes[i]);
    }
}

/// A conversation is written with a line for each message, its role before its
/// text, in order.
pub proof fn a_conversation_is_written_line_by_line(
    messages: Seq<OwnedChatMessage>,
    last: OwnedChatMessage,
)
    ensures
        conversation_text(seq![last]) == "["@ + last.role@ + "] "@ + last.content@,
        messages.len() > 0 ==> conversation_text(messages.push(last)) == conversation_text(messages)
            + "\n"@ + ("["@ + last.role@ + "] "@ + last.content@),
{
    let line = |m: Seq<OwnedChatMessage>| Seq::new(m.len(), |i: int| message_line(m[i]));
    assert(line(seq![last]) =~= seq![message_line(last)]);
    assert(line(messages.push(last)) =~= line(messages).push(message_line(last)));
    assert(line(messages).push(message_line(last)).drop_last() =~= line(messages));
}

/// A header is shown by its text; one that is missing and one that is no text are
/// told apart.
pub proof fn headers_are_shown_by_their_text(text: Seq<char>)
    ensures
        header_label(Some(Some(text))) == text,
        header_label(Some(None)) == "<binary>"@,
        header_label(None) == "(none)"@,
{
}

} // verus!
