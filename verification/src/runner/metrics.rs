//! Per-request records and the aggregator that turns them into statistics of a
//! run.
//!
//! Every statistic of a request is a function of the records alone; the
//! aggregator keeps them up to date as records come in.

use crate::binary64::Real;
use crate::client::RequestMetrics;
use crate::config::opt_view;
use crate::histogram::{
    covered, is_empty, limit, mean_bits, mean_of, near_sample, new_with_bounds, percent_rank,
    percentile_of, record, samples, tops_percentiles, value_at_percentile, LatencyHistogram,
};
use crate::tables::count_views;
use crate::text::{clipped, decimal, decimal_text, same_text, truncate};
use std::collections::HashMap;
use vstd::multiset::Multiset;
use vstd::prelude::*;

verus! {

broadcast use vstd::std_specs::hash::group_hash_axioms;

/// Which turn of which session a request was.
#[derive(Debug)]
pub struct CompletionContext {
    /// `None` for single-turn requests.
    pub session_id: Option<String>,
    /// Counted from 1. `None` for single-turn requests.
    pub session_turn: Option<u32>,
    /// Whether an answer of the same session came before.
    pub session_continuation: bool,
}

impl CompletionContext {
    pub fn none() -> (r: Self)
        ensures
            r.session_id is None,
            r.session_turn is None,
            !r.session_continuation,
    {
        CompletionContext { session_id: None, session_turn: None, session_continuation: false }
    }

    pub fn turn(session_id: String, turn: u32, continuation: bool) -> (r: Self)
        ensures
            r.session_id == Some(session_id),
            r.session_turn == Some(turn),
            r.session_continuation == continuation,
    {
        CompletionContext {
            session_id: Some(session_id),
            session_turn: Some(turn),
            session_continuation: continuation,
        }
    }
}

/// A quotient of two counts. Where the denominator is zero there is nothing to
/// divide, and the value counts as zero.
#[derive(Debug, Clone, Copy, PartialEq, Eq, Structural)]
pub struct Ratio {
    pub num: u64,
    pub den: u64,
}

/// Tokens over a time in microseconds.
#[derive(Debug, Clone, Copy, PartialEq, Eq, Structural)]
pub struct TokenRate {
    pub tokens: u128,
    pub micros: u128,
}

/// A time in seconds, held exactly as microseconds.
#[derive(Debug, Clone, Copy, PartialEq, Eq, Structural)]
pub struct Seconds {
    pub micros: u128,
}

/// One request as it is kept. Durations are microseconds.
#[derive(Debug)]
pub struct RequestRecord {
    pub started_at: String,
    pub finished_at: String,
    pub status: u16,
    pub error: Option<String>,
    pub total_duration_us: u64,
    /// `None` for non-streaming requests, or if no token arrived.
    pub ttft_us: Option<u64>,
    pub itl_samples_us: Vec<u64>,
    pub completion_tokens: u32,
    pub prompt_tokens: u32,
    /// Whether `completion_tokens` is an estimate.
    pub estimated: bool,
    pub session_id: Option<String>,
    pub session_turn: Option<u32>,
    pub session_continuation: bool,
    pub cache_creation_input_tokens: u32,
    pub cache_hit_input_tokens: u32,
    pub spec_decoded_tok: u32,
    pub spec_accepted_tok: u32,
    pub spec_iterations: u32,
}

impl RequestRecord {
    /// Both hold the same.
    pub open spec fn same(self, other: RequestRecord) -> bool {
        &&& self.itl_samples_us@ == other.itl_samples_us@
        &&& self == (RequestRecord { itl_samples_us: self.itl_samples_us, ..other })
    }
}

impl Clone for RequestRecord {
    fn clone(&self) -> (r: Self)
        ensures
            r.same(*self),
    {
        RequestRecord {
            started_at: self.started_at.clone(),
            finished_at: self.finished_at.clone(),
            status: self.status,
            error: self.error.clone(),
            total_duration_us: self.total_duration_us,
            ttft_us: self.ttft_us,
            itl_samples_us: self.itl_samples_us.clone(),
            completion_tokens: self.completion_tokens,
            prompt_tokens: self.prompt_tokens,
            estimated: self.estimated,
            session_id: self.session_id.clone(),
            session_turn: self.session_turn,
            session_continuation: self.session_continuation,
            cache_creation_input_tokens: self.cache_creation_input_tokens,
            cache_hit_input_tokens: self.cache_hit_input_tokens,
            spec_decoded_tok: self.spec_decoded_tok,
            spec_accepted_tok: self.spec_accepted_tok,
            spec_iterations: self.spec_iterations,
        }
    }
}

/// Nanoseconds in whole microseconds, cut to 64 bits.
pub open spec fn micros(nanos: u128) -> u64 {
    (nanos / 1000) as u64
}

/// What is kept of a measured request.
pub open spec fn record_of(r: RequestRecord, m: RequestMetrics, ctx: CompletionContext) -> bool {
    &&& r.started_at == m.started_at
    &&& r.finished_at == m.finished_at
    &&& r.status == m.status
    &&& r.error == m.error
    &&& r.total_duration_us == micros(m.total_duration)
    &&& r.ttft_us == (match m.ttft {
        Some(n) => Some(micros(n)),
        None => None,
    })
    &&& r.itl_samples_us@ == Seq::new(m.itl_samples@.len(), |i: int| micros(m.itl_samples@[i]))
    &&& r.completion_tokens == m.completion_tokens
    &&& r.prompt_tokens == m.prompt_tokens
    &&& r.estimated == m.estimated
    &&& r.session_id == ctx.session_id
    &&& r.session_turn == ctx.session_turn
    &&& r.session_continuation == ctx.session_continuation
    &&& r.cache_creation_input_tokens == m.cache_creation_input_tokens
    &&& r.cache_hit_input_tokens == m.cache_hit_input_tokens
    &&& r.spec_decoded_tok == m.spec_decoded_tok
    &&& r.spec_accepted_tok == m.spec_accepted_tok
    &&& r.spec_iterations == m.spec_iterations
}

impl RequestRecord {
    pub fn from_metrics(m: &RequestMetrics, ctx: &CompletionContext) -> (r: Self)
        ensures
            record_of(r, *m, *ctx),
    {
        let mut itl: Vec<u64> = Vec::new();
        let mut i: usize = 0;
        while i < m.itl_samples.len()
            invariant
                i <= m.itl_samples@.len(),
                itl@ == Seq::new(i as nat, |j: int| micros(m.itl_samples@[j])),
            decreases m.itl_samples@.len() - i,
        {
            itl.push((m.itl_samples[i] / 1000) as u64);
            i += 1;
            proof {
                assert(itl@ =~= Seq::new(i as nat, |j: int| micros(m.itl_samples@[j])));
            }
        }
        RequestRecord {
            started_at: m.started_at.clone(),
            finished_at: m.finished_at.clone(),
            status: m.status,
            error: m.error.clone(),
            total_duration_us: (m.total_duration / 1000) as u64,
            ttft_us: match m.ttft {
                Some(n) => Some((n / 1000) as u64),
                None => None,
            },
            itl_samples_us: itl,
            completion_tokens: m.completion_tokens,
            prompt_tokens: m.prompt_tokens,
            estimated: m.estimated,
            session_id: ctx.session_id.clone(),
            session_turn: ctx.session_turn,
            session_continuation: ctx.session_continuation,
            cache_creation_input_tokens: m.cache_creation_input_tokens,
            cache_hit_input_tokens: m.cache_hit_input_tokens,
            spec_decoded_tok: m.spec_decoded_tok,
            spec_accepted_tok: m.spec_accepted_tok,
            spec_iterations: m.spec_iterations,
        }
    }

    /// The request's token rate, where it took time and produced tokens.
    pub open spec fn rate(self) -> Option<TokenRate> {
        if self.total_duration_us > 0 && self.completion_tokens > 0 {
            Some(
                TokenRate {
                    tokens: self.completion_tokens as u128,
                    micros: self.total_duration_us as u128,
                },
            )
        } else {
            None
        }
    }

    /// Tokens per second of this request, as a rate; `None` counts as zero.
    pub fn tps(&self) -> (r: Option<TokenRate>)
        ensures
            r == self.rate(),
    {
        if self.total_duration_us > 0 && self.completion_tokens > 0 {
            Some(
                TokenRate {
                    tokens: self.completion_tokens as u128,
                    micros: self.total_duration_us as u128,
                },
            )
        } else {
            None
        }
    }

    /// A request fails by an error, by getting no response, or by a status from
    /// 400 on.
    pub open spec fn failed(self) -> bool {
        self.error is Some || self.status == 0 || self.status >= 400
    }

    /// The line under which a failed request is counted: the start of its error,
    /// or its status.
    pub open spec fn failure(self) -> Option<Seq<char>> {
        match self.error {
            Some(e) => Some(clipped(e@, 200)),
            None => if self.status >= 400 {
                Some("HTTP "@ + decimal(self.status as nat))
            } else {
                None
            },
        }
    }

    /// Whether the request counts as a first turn. Requests outside of sessions
    /// do.
    pub open spec fn first_turn(self) -> bool {
        match self.session_turn {
            Some(t) => t <= 1,
            None => true,
        }
    }

    fn is_first_turn(&self) -> (r: bool)
        ensures
            r == self.first_turn(),
    {
        match self.session_turn {
            Some(t) => t <= 1,
            None => true,
        }
    }

    fn is_failed(&self) -> (r: bool)
        ensures
            r == self.failed(),
    {
        self.error.is_some() || self.status == 0 || self.status >= 400
    }

    fn failure_text(&self) -> (r: Option<String>)
        ensures
            opt_view(r) == self.failure(),
    {
        match &self.error {
            Some(e) => Some(truncate(e.as_str(), 200)),
            None => if self.status >= 400 {
                let mut msg = String::new();
                msg.push_str("HTTP ");
                msg.push_str(decimal_text(self.status as u128).as_str());
                proof {
                    assert(msg@ =~= "HTTP "@ + decimal(self.status as nat));
                }
                Some(msg)
            } else {
                None
            },
        }
    }
}

/// The largest latency, in microseconds, that the histograms can record. It
/// exceeds a minute.
pub const LATENCY_LIMIT: u64 = 67_108_863;

/// The number of failed requests.
pub open spec fn n_failed(rs: Seq<RequestRecord>) -> nat
    decreases rs.len(),
{
    if rs.len() == 0 {
        0
    } else {
        n_failed(rs.drop_last()) + (if rs.last().failed() {
            1nat
        } else {
            0nat
        })
    }
}

/// The number of requests that did not fail.
pub open spec fn n_ok(rs: Seq<RequestRecord>) -> nat
    decreases rs.len(),
{
    if rs.len() == 0 {
        0
    } else {
        n_ok(rs.drop_last()) + (if rs.last().failed() {
            0nat
        } else {
            1nat
        })
    }
}

/// The number of requests with a status.
pub open spec fn n_status(rs: Seq<RequestRecord>, code: u16) -> nat
    decreases rs.len(),
{
    if rs.len() == 0 {
        0
    } else {
        n_status(rs.drop_last(), code) + (if rs.last().status == code {
            1nat
        } else {
            0nat
        })
    }
}

/// A value joins the recorded ones where the histograms can record it.
pub open spec fn kept(recorded: Multiset<u64>, value: u64) -> Multiset<u64> {
    if value <= LATENCY_LIMIT {
        recorded.insert(value)
    } else {
        recorded
    }
}

pub open spec fn kept_all(recorded: Multiset<u64>, values: Seq<u64>) -> Multiset<u64>
    decreases values.len(),
{
    if values.len() == 0 {
        recorded
    } else {
        kept(kept_all(recorded, values.drop_last()), values.last())
    }
}

/// What the three histograms record of the requests.
pub open spec fn recorded(rs: Seq<RequestRecord>, which: HistKind) -> Multiset<u64>
    decreases rs.len(),
{
    if rs.len() == 0 {
        Multiset::empty()
    } else {
        let before = recorded(rs.drop_last(), which);
        match which {
            HistKind::Latency => kept(before, rs.last().total_duration_us),
            HistKind::Ttft => match rs.last().ttft_us {
                Some(us) => kept(before, us),
                None => before,
            },
            HistKind::Itl => kept_all(before, rs.last().itl_samples_us@),
        }
    }
}

/// Counts one more under `key`. A new key comes last.
pub open spec fn counted(table: Seq<(Seq<char>, nat)>, key: Seq<char>) -> Seq<(Seq<char>, nat)>
    decreases table.len(),
{
    if table.len() == 0 {
        seq![(key, 1nat)]
    } else if table[0].0 == key {
        seq![(key, table[0].1 + 1)] + table.skip(1)
    } else {
        seq![table[0]] + counted(table.skip(1), key)
    }
}

/// How often each failure came, in the order in which they came first.
pub open spec fn failures(rs: Seq<RequestRecord>) -> Seq<(Seq<char>, nat)>
    decreases rs.len(),
{
    if rs.len() == 0 {
        Seq::empty()
    } else {
        let before = failures(rs.drop_last());
        match rs.last().failure() {
            Some(text) => if rs.last().failed() {
                counted(before, text)
            } else {
                before
            },
            None => before,
        }
    }
}

/// What is summed up over the requests.
#[derive(Clone, Copy)]
pub enum Quantity {
    Completion,
    Prompt,
    CacheCreation,
    CacheHit,
    /// Parts of the three above, of requests with prompt tokens: of first turns,
    /// and of later turns.
    PromptFirst,
    PromptLater,
    CacheCreationFirst,
    CacheCreationLater,
    CacheHitFirst,
    CacheHitLater,
    /// The time of requests with a status of 2xx.
    StreamingMicros,
    /// The time after the first token, of requests with more than one token.
    GenerationMicros,
    /// The tokens after the first one, of the same requests.
    GenerationTokens,
    SpecDecoded,
    SpecAccepted,
    SpecIterations,
    /// The number of gaps between tokens.
    Gaps,
}

impl RequestRecord {
    /// Whether the time between tokens can be told: there is more than one
    /// token, and the first one did not come after the end.
    pub open spec fn generates(self) -> bool {
        self.completion_tokens >= 2 && self.total_duration_us >= self.first_token_us()
    }

    pub open spec fn first_token_us(self) -> u64 {
        match self.ttft_us {
            Some(us) => us,
            None => 0,
        }
    }

    /// What the request adds to a sum.
    pub open spec fn amount(self, q: Quantity) -> nat {
        let first = self.prompt_tokens > 0 && self.first_turn();
        let later = self.prompt_tokens > 0 && !self.first_turn();
        match q {
            Quantity::Completion => self.completion_tokens as nat,
            Quantity::Prompt => self.prompt_tokens as nat,
            Quantity::CacheCreation => self.cache_creation_input_tokens as nat,
            Quantity::CacheHit => self.cache_hit_input_tokens as nat,
            Quantity::PromptFirst => if first {
                self.prompt_tokens as nat
            } else {
                0
            },
            Quantity::PromptLater => if later {
                self.prompt_tokens as nat
            } else {
                0
            },
            Quantity::CacheCreationFirst => if first {
                self.cache_creation_input_tokens as nat
            } else {
                0
            },
            Quantity::CacheCreationLater => if later {
                self.cache_creation_input_tokens as nat
            } else {
                0
            },
            Quantity::CacheHitFirst => if first {
                self.cache_hit_input_tokens as nat
            } else {
                0
            },
            Quantity::CacheHitLater => if later {
                self.cache_hit_input_tokens as nat
            } else {
                0
            },
            Quantity::StreamingMicros => if 200 <= self.status < 300 {
                self.total_duration_us as nat
            } else {
                0
            },
            Quantity::GenerationMicros => if self.generates() {
                (self.total_duration_us - self.first_token_us()) as nat
            } else {
                0
            },
            Quantity::GenerationTokens => if self.generates() {
                (self.completion_tokens - 1) as nat
            } else {
                0
            },
            Quantity::SpecDecoded => self.spec_decoded_tok as nat,
            Quantity::SpecAccepted => self.spec_accepted_tok as nat,
            Quantity::SpecIterations => self.spec_iterations as nat,
            Quantity::Gaps => self.itl_samples_us@.len(),
        }
    }
}

/// The sum of a quantity over the requests.
pub open spec fn total(rs: Seq<RequestRecord>, q: Quantity) -> nat
    decreases rs.len(),
{
    if rs.len() == 0 {
        0
    } else {
        total(rs.drop_last(), q) + rs.last().amount(q)
    }
}

/// The counts that are kept fit into 64 bits.
pub open spec fn countable(rs: Seq<RequestRecord>) -> bool {
    &&& rs.len() <= usize::MAX
    &&& total(rs, Quantity::Completion) <= u64::MAX
    &&& total(rs, Quantity::Prompt) <= u64::MAX
    &&& total(rs, Quantity::CacheCreation) <= u64::MAX
    &&& total(rs, Quantity::CacheHit) <= u64::MAX
    &&& total(rs, Quantity::Gaps) <= u64::MAX
}

/// First turns and later turns make up all prompt tokens, and no more than all
/// cache tokens.
pub proof fn turns_partition(rs: Seq<RequestRecord>)
    ensures
        total(rs, Quantity::PromptFirst) + total(rs, Quantity::PromptLater) == total(
            rs,
            Quantity::Prompt,
        ),
        total(rs, Quantity::CacheCreationFirst) + total(rs, Quantity::CacheCreationLater) <= total(
            rs,
            Quantity::CacheCreation,
        ),
        total(rs, Quantity::CacheHitFirst) + total(rs, Quantity::CacheHitLater) <= total(
            rs,
            Quantity::CacheHit,
        ),
    decreases rs.len(),
{
    if rs.len() > 0 {
        turns_partition(rs.drop_last());
    }
}

/// Every request either fails or does not, and has one status.
pub proof fn outcomes_partition(rs: Seq<RequestRecord>)
    ensures
        n_ok(rs) + n_failed(rs) == rs.len(),
        forall|code: u16| #[trigger] n_status(rs, code) <= rs.len(),
    decreases rs.len(),
{
    if rs.len() > 0 {
        outcomes_partition(rs.drop_last());
        assert forall|code: u16| #[trigger] n_status(rs, code) <= rs.len() by {
            assert(n_status(rs.drop_last(), code) <= rs.len() - 1);
        }
    }
}

/// Nothing is recorded twice, and no more than there is.
proof fn recorded_len(rs: Seq<RequestRecord>)
    ensures
        recorded(rs, HistKind::Latency).len() <= rs.len(),
        recorded(rs, HistKind::Ttft).len() <= rs.len(),
        recorded(rs, HistKind::Itl).len() <= total(rs, Quantity::Gaps),
    decreases rs.len(),
{
    broadcast use vstd::multiset::group_multiset_axioms;

    if rs.len() > 0 {
        recorded_len(rs.drop_last());
        kept_all_len(recorded(rs.drop_last(), HistKind::Itl), rs.last().itl_samples_us@);
    }
}

proof fn kept_all_len(before: Multiset<u64>, values: Seq<u64>)
    ensures
        kept_all(before, values).len() <= before.len() + values.len(),
    decreases values.len(),
{
    broadcast use vstd::multiset::group_multiset_axioms;

    if values.len() > 0 {
        kept_all_len(before, values.drop_last());
    }
}

/// Keys stay distinct, and counting one more raises no count above the number
/// of calls.
proof fn counted_properties(table: Seq<(Seq<char>, nat)>, key: Seq<char>, bound: nat)
    requires
        forall|i: int| 0 <= i < table.len() ==> (#[trigger] table[i]).1 <= bound,
    ensures
        counted(table, key).len() <= table.len() + 1,
        forall|i: int|
            0 <= i < counted(table, key).len() ==> (#[trigger] counted(table, key)[i]).1 <= bound
                + 1,
    decreases table.len(),
{
    if table.len() > 0 && table[0].0 != key {
        let rest = table.skip(1);
        assert forall|i: int| 0 <= i < rest.len() implies (#[trigger] rest[i]).1 <= bound by {
            assert(rest[i] == table[i + 1]);
        }
        counted_properties(rest, key, bound);
        assert forall|i: int| 0 <= i < counted(table, key).len() implies (#[trigger] counted(
            table,
            key,
        )[i]).1 <= bound + 1 by {
            if i > 0 {
                assert(counted(table, key)[i] == counted(rest, key)[i - 1]);
            }
        }
    } else if table.len() > 0 {
        assert forall|i: int| 0 <= i < counted(table, key).len() implies (#[trigger] counted(
            table,
            key,
        )[i]).1 <= bound + 1 by {
            if i > 0 {
                assert(counted(table, key)[i] == table[i]);
            }
        }
    }
}

proof fn failures_bounded(rs: Seq<RequestRecord>)
    ensures
        forall|i: int| 0 <= i < failures(rs).len() ==> (#[trigger] failures(rs)[i]).1 <= rs.len(),
    decreases rs.len(),
{
    if rs.len() > 0 {
        failures_bounded(rs.drop_last());
        let before = failures(rs.drop_last());
        if rs.last().failure() is Some {
            counted_properties(before, rs.last().failure().unwrap(), (rs.len() - 1) as nat);
        }
    }
}

/// Where the first entry under `key` stands at `at`, counting changes that
/// entry alone.
proof fn counted_at(table: Seq<(Seq<char>, nat)>, key: Seq<char>, at: int)
    requires
        0 <= at <= table.len(),
        forall|j: int| 0 <= j < at ==> (#[trigger] table[j]).0 != key,
        at < table.len() ==> table[at].0 == key,
    ensures
        counted(table, key) == (if at < table.len() {
            table.update(at, (key, table[at].1 + 1))
        } else {
            table.push((key, 1nat))
        }),
    decreases table.len(),
{
    if table.len() == 0 {
        assert(counted(table, key) =~= table.push((key, 1nat)));
    } else if at == 0 {
        assert(counted(table, key) =~= table.update(0, (key, table[0].1 + 1)));
    } else {
        let rest = table.skip(1);
        assert forall|j: int| 0 <= j < at - 1 implies (#[trigger] rest[j]).0 != key by {
            assert(rest[j] == table[j + 1]);
        }
        counted_at(rest, key, at - 1);
        assert(table[0].0 != key);
        if at < table.len() {
            assert(counted(table, key) =~= table.update(at, (key, table[at].1 + 1)));
        } else {
            assert(counted(table, key) =~= table.push((key, 1nat)));
        }
    }
}

/// Counts one more under `key`.
fn count_text(table: &mut Vec<(String, u64)>, key: String)
    requires
        forall|i: int| 0 <= i < old(table)@.len() ==> (#[trigger] old(table)@[i]).1 < u64::MAX,
    ensures
        count_views(final(table)@) == counted(count_views(old(table)@), key@),
{
    let ghost before = count_views(table@);
    let mut i: usize = 0;
    while i < table.len()
        invariant
            i <= table@.len(),
            table@ == old(table)@,
            before == count_views(table@),
            forall|j: int| 0 <= j < i ==> (#[trigger] before[j]).0 != key@,
            forall|j: int| 0 <= j < old(table)@.len() ==> (#[trigger] old(table)@[j]).1 < u64::MAX,
        decreases table@.len() - i,
    {
        if same_text(table[i].0.as_str(), key.as_str()) {
            let n = table[i].1;
            proof {
                assert(table@[i as int].1 < u64::MAX);
                counted_at(before, key@, i as int);
            }
            table.set(i, (key, n + 1));
            proof {
                assert(count_views(table@) =~= before.update(
                    i as int,
                    (key@, before[i as int].1 + 1),
                ));
            }
            return;
        }
        i += 1;
    }
    proof {
        counted_at(before, key@, i as int);
    }
    table.push((key, 1));
    proof {
        assert(count_views(table@) =~= before.push((key@, 1nat)));
    }
}

/// The count under a key, zero where there is none.
pub open spec fn count_in<K>(m: Map<K, u64>, key: K) -> int {
    if m.contains_key(key) {
        m[key] as int
    } else {
        0
    }
}

fn count_status(m: &mut HashMap<u16, u64>, key: u16)
    requires
        count_in(old(m)@, key) < u64::MAX,
    ensures
        final(m)@ == old(m)@.insert(key, (count_in(old(m)@, key) + 1) as u64),
{
    let n: u64 = match m.get(&key) {
        Some(n) => *n,
        None => 0,
    };
    m.insert(key, n + 1);
}

fn count_second(m: &mut HashMap<u64, u64>, key: u64)
    requires
        count_in(old(m)@, key) < u64::MAX,
    ensures
        final(m)@ == old(m)@.insert(key, (count_in(old(m)@, key) + 1) as u64),
{
    let n: u64 = match m.get(&key) {
        Some(n) => *n,
        None => 0,
    };
    m.insert(key, n + 1);
}

/// Which of the histograms.
#[derive(Debug, Clone, Copy, PartialEq, Eq, Structural)]
pub enum HistKind {
    Latency,
    Ttft,
    Itl,
}

/// Which percentile.
#[derive(Debug, Clone, Copy, PartialEq, Eq, Structural)]
pub enum Percentile {
    P50,
    P90,
    P99,
    P999,
}

impl Percentile {
    pub open spec fn percent(self) -> Seq<char> {
        match self {
            Percentile::P50 => "50"@,
            Percentile::P90 => "90"@,
            Percentile::P99 => "99"@,
            Percentile::P999 => "99.9"@,
        }
    }

    /// The percentage in decimal notation.
    pub fn as_str(self) -> (r: &'static str)
        ensures
            r@ == self.percent(),
    {
        match self {
            Percentile::P50 => "50",
            Percentile::P90 => "90",
            Percentile::P99 => "99",
            Percentile::P999 => "99.9",
        }
    }
}

/// Prompt-cache totals. A rate is hits over prompt tokens.
#[derive(Debug, Clone, Copy, PartialEq, Eq, Structural)]
pub struct CacheStats {
    pub cache_creation_total: u64,
    pub cache_hit_total: u64,
    pub rate_overall: Ratio,
    pub rate_turn1: Ratio,
    pub rate_turn2plus: Ratio,
    pub cache_creation_turn1: u64,
    pub cache_creation_turn2plus: u64,
    pub prompt_turn1: u64,
    pub prompt_turn2plus: u64,
    pub cache_hit_turn1: u64,
    pub cache_hit_turn2plus: u64,
}

/// What an aggregator has taken in.
#[verifier::ext_equal]
pub struct RunView {
    pub records: Seq<RequestRecord>,
    pub started: Map<u64, u64>,
    pub completed: Map<u64, u64>,
    pub scheduled: u64,
    pub skipped: u64,
    pub sessions: u64,
    pub dropped: u64,
    pub run_started_at: Seq<char>,
}

/// Records all values.
fn record_all(h: &mut LatencyHistogram, values: &Vec<u64>)
    requires
        limit(*old(h)) == LATENCY_LIMIT,
    ensures
        limit(*final(h)) == LATENCY_LIMIT,
        samples(*final(h)) == kept_all(samples(*old(h)), values@),
{
    let mut i: usize = 0;
    while i < values.len()
        invariant
            i <= values@.len(),
            limit(*h) == LATENCY_LIMIT,
            samples(*h) == kept_all(samples(*old(h)), values@.take(i as int)),
        decreases values@.len() - i,
    {
        proof {
            assert(values@.take(i + 1).drop_last() =~= values@.take(i as int));
        }
        record(h, values[i]);
        i += 1;
    }
    proof {
        assert(values@.take(i as int) =~= values@);
    }
}

/// The statistics of a run.
pub struct MetricsAggregator {
    latency: LatencyHistogram,
    ttft: LatencyHistogram,
    itl: LatencyHistogram,
    success_count: u64,
    error_count: u64,
    status_codes: HashMap<u16, u64>,
    /// Requests started in each second of the run.
    per_second_started: HashMap<u64, u64>,
    /// Requests completed in each second of the run.
    per_second_completed: HashMap<u64, u64>,
    /// Failures with counts, in the order in which they came first.
    error_messages: Vec<(String, u64)>,
    /// The records, in order of completion.
    per_request: Vec<RequestRecord>,
    run_started_at: String,
    scheduled: u64,
    skipped: u64,
    session_count: u64,
    session_turn_total: u64,
    session_dropped: u64,
    cache_creation_total: u64,
    cache_hit_total: u64,
    prompt_for_cache_rate: u64,
    cache_hit_turn1: u64,
    prompt_turn1: u64,
    cache_hit_turn2plus: u64,
    prompt_turn2plus: u64,
    cache_creation_turn1: u64,
    cache_creation_turn2plus: u64,
}

impl View for MetricsAggregator {
    type V = RunView;

    closed spec fn view(&self) -> RunView {
        RunView {
            records: self.per_request@,
            started: self.per_second_started@,
            completed: self.per_second_completed@,
            scheduled: self.scheduled,
            skipped: self.skipped,
            sessions: self.session_count,
            dropped: self.session_dropped,
            run_started_at: self.run_started_at@,
        }
    }
}

impl MetricsAggregator {
    /// Every statistic agrees with the records.
    pub closed spec fn wf(self) -> bool {
        let rs = self.per_request@;
        &&& countable(rs)
        &&& limit(self.latency) == LATENCY_LIMIT
        &&& limit(self.ttft) == LATENCY_LIMIT
        &&& limit(self.itl) == LATENCY_LIMIT
        &&& samples(self.latency) == recorded(rs, HistKind::Latency)
        &&& samples(self.ttft) == recorded(rs, HistKind::Ttft)
        &&& samples(self.itl) == recorded(rs, HistKind::Itl)
        &&& self.success_count == n_ok(rs)
        &&& self.error_count == n_failed(rs)
        &&& self.session_turn_total == rs.len()
        &&& forall|code: u16| #[trigger]
            count_in(self.status_codes@, code) == n_status(rs, code)
        &&& forall|code: u16| #[trigger]
            self.status_codes@.contains_key(code) ==> n_status(rs, code) > 0
        &&& count_views(self.error_messages@) == failures(rs)
        &&& self.cache_creation_total == total(rs, Quantity::CacheCreation)
        &&& self.cache_hit_total == total(rs, Quantity::CacheHit)
        &&& self.prompt_for_cache_rate == total(rs, Quantity::Prompt)
        &&& self.cache_hit_turn1 == total(rs, Quantity::CacheHitFirst)
        &&& self.cache_hit_turn2plus == total(rs, Quantity::CacheHitLater)
        &&& self.prompt_turn1 == total(rs, Quantity::PromptFirst)
        &&& self.prompt_turn2plus == total(rs, Quantity::PromptLater)
        &&& self.cache_creation_turn1 == total(rs, Quantity::CacheCreationFirst)
        &&& self.cache_creation_turn2plus == total(rs, Quantity::CacheCreationLater)
    }

    /// An aggregator of a run that starts at `run_started_at`.
    pub fn new(run_started_at: String) -> (r: Self)
        ensures
            r.wf(),
            r@ == (RunView {
                records: Seq::empty(),
                started: Map::empty(),
                completed: Map::empty(),
                scheduled: 0,
                skipped: 0,
                sessions: 0,
                dropped: 0,
                run_started_at: run_started_at@,
            }),
    {
        proof {
            reveal_with_fuel(covered, 17);
        }
        let r = MetricsAggregator {
            latency: new_with_bounds(1, 60_000_000, 3).unwrap(),
            ttft: new_with_bounds(1, 60_000_000, 3).unwrap(),
            itl: new_with_bounds(1, 60_000_000, 3).unwrap(),
            success_count: 0,
            error_count: 0,
            status_codes: HashMap::new(),
            per_second_started: HashMap::new(),
            per_second_completed: HashMap::new(),
            error_messages: Vec::new(),
            per_request: Vec::new(),
            run_started_at,
            scheduled: 0,
            skipped: 0,
            session_count: 0,
            session_turn_total: 0,
            session_dropped: 0,
            cache_creation_total: 0,
            cache_hit_total: 0,
            prompt_for_cache_rate: 0,
            cache_hit_turn1: 0,
            prompt_turn1: 0,
            cache_hit_turn2plus: 0,
            prompt_turn2plus: 0,
            cache_creation_turn1: 0,
            cache_creation_turn2plus: 0,
        };
        proof {
            assert(count_views(r.error_messages@) =~= failures(r.per_request@));
            assert(r@.records =~= Seq::empty());
        }
        r
    }

    /// Takes in a record.
    fn absorb(&mut self, rec: RequestRecord)
        requires
            old(self).wf(),
            countable(old(self)@.records.push(rec)),
        ensures
            final(self).wf(),
            final(self)@ == (RunView { records: old(self)@.records.push(rec), ..old(self)@ }),
    {
        let ghost rs = self.per_request@;
        let ghost all = rs.push(rec);
        proof {
            assert(all.drop_last() =~= rs);
            outcomes_partition(rs);
            failures_bounded(rs);
            turns_partition(all);
            turns_partition(rs);
        }
        record(&mut self.latency, rec.total_duration_us);
        if let Some(ttft) = rec.ttft_us {
            record(&mut self.ttft, ttft);
        }
        record_all(&mut self.itl, &rec.itl_samples_us);
        if rec.is_failed() {
            self.error_count += 1;
            if let Some(text) = rec.failure_text() {
                proof {
                    assert forall|i: int| 0 <= i < self.error_messages@.len() implies (
                    #[trigger] self.error_messages@[i]).1 < u64::MAX by {
                        assert(count_views(self.error_messages@)[i].1 <= rs.len());
                    }
                }
                count_text(&mut self.error_messages, text);
            }
        } else {
            self.success_count += 1;
        }
        proof {
            assert(count_in(self.status_codes@, rec.status) == n_status(rs, rec.status));
        }
        let ghost codes = self.status_codes@;
        count_status(&mut self.status_codes, rec.status);
        self.session_turn_total += 1;
        self.accumulate_cache(&rec);
        self.per_request.push(rec);
        proof {
            assert(self.per_request@ =~= all);
            assert forall|code: u16| #[trigger]
                count_in(self.status_codes@, code) == n_status(all, code) by {
                assert(count_in(codes, code) == n_status(rs, code));
            }
            assert forall|code: u16| #[trigger]
                self.status_codes@.contains_key(code) implies n_status(all, code) > 0 by {
                if code != rec.status {
                    assert(codes.contains_key(code));
                }
            }
            assert(self@ =~= (RunView { records: all, ..old(self)@ }));
        }
    }

    /// Adds the cache and prompt tokens of a record to the totals. Prompt tokens
    /// go by turn only where there are any.
    fn accumulate_cache(&mut self, rec: &RequestRecord)
        requires
            old(self).cache_creation_total + rec.amount(Quantity::CacheCreation) <= u64::MAX,
            old(self).cache_hit_total + rec.amount(Quantity::CacheHit) <= u64::MAX,
            old(self).prompt_for_cache_rate + rec.amount(Quantity::Prompt) <= u64::MAX,
            old(self).prompt_turn1 + rec.amount(Quantity::PromptFirst) <= u64::MAX,
            old(self).prompt_turn2plus + rec.amount(Quantity::PromptLater) <= u64::MAX,
            old(self).cache_creation_turn1 + rec.amount(Quantity::CacheCreationFirst) <= u64::MAX,
            old(self).cache_creation_turn2plus + rec.amount(Quantity::CacheCreationLater)
                <= u64::MAX,
            old(self).cache_hit_turn1 + rec.amount(Quantity::CacheHitFirst) <= u64::MAX,
            old(self).cache_hit_turn2plus + rec.amount(Quantity::CacheHitLater) <= u64::MAX,
        ensures
            *final(self) == (MetricsAggregator {
                cache_creation_total: (old(self).cache_creation_total + rec.amount(
                    Quantity::CacheCreation,
                )) as u64,
                cache_hit_total: (old(self).cache_hit_total + rec.amount(
                    Quantity::CacheHit,
                )) as u64,
                prompt_for_cache_rate: (old(self).prompt_for_cache_rate + rec.amount(
                    Quantity::Prompt,
                )) as u64,
                prompt_turn1: (old(self).prompt_turn1 + rec.amount(Quantity::PromptFirst)) as u64,
                prompt_turn2plus: (old(self).prompt_turn2plus + rec.amount(
                    Quantity::PromptLater,
                )) as u64,
                cache_creation_turn1: (old(self).cache_creation_turn1 + rec.amount(
                    Quantity::CacheCreationFirst,
                )) as u64,
                cache_creation_turn2plus: (old(self).cache_creation_turn2plus + rec.amount(
                    Quantity::CacheCreationLater,
                )) as u64,
                cache_hit_turn1: (old(self).cache_hit_turn1 + rec.amount(
                    Quantity::CacheHitFirst,
                )) as u64,
                cache_hit_turn2plus: (old(self).cache_hit_turn2plus + rec.amount(
                    Quantity::CacheHitLater,
                )) as u64,
                ..*old(self)
            }),
    {
        self.cache_creation_total += rec.cache_creation_input_tokens as u64;
        self.cache_hit_total += rec.cache_hit_input_tokens as u64;
        if rec.prompt_tokens > 0 {
            self.prompt_for_cache_rate += rec.prompt_tokens as u64;
            if rec.is_first_turn() {
                self.cache_hit_turn1 += rec.cache_hit_input_tokens as u64;
                self.prompt_turn1 += rec.prompt_tokens as u64;
                self.cache_creation_turn1 += rec.cache_creation_input_tokens as u64;
            } else {
                self.cache_hit_turn2plus += rec.cache_hit_input_tokens as u64;
                self.prompt_turn2plus += rec.prompt_tokens as u64;
                self.cache_creation_turn2plus += rec.cache_creation_input_tokens as u64;
            }
        }
    }
}

/// Both lists hold the same records.
pub open spec fn alike(a: Seq<RequestRecord>, b: Seq<RequestRecord>) -> bool {
    &&& a.len() == b.len()
    &&& forall|i: int| 0 <= i < a.len() ==> (#[trigger] a[i]).same(b[i])
}

/// Every statistic is a function of what the records hold: a run that is rebuilt
/// from its records has the statistics of the run itself.
pub proof fn replay_rebuilds_the_statistics(a: Seq<RequestRecord>, b: Seq<RequestRecord>)
    requires
        alike(a, b),
    ensures
        n_ok(a) == n_ok(b),
        n_failed(a) == n_failed(b),
        failures(a) == failures(b),
        forall|code: u16| #[trigger] n_status(a, code) == n_status(b, code),
        forall|which: HistKind| #[trigger] recorded(a, which) == recorded(b, which),
        forall|q: Quantity| #[trigger] total(a, q) == total(b, q),
        rates(a) == rates(b),
    decreases a.len(),
{
    if a.len() > 0 {
        let x = a.drop_last();
        let y = b.drop_last();
        assert(alike(x, y)) by {
            assert forall|i: int| 0 <= i < x.len() implies (#[trigger] x[i]).same(y[i]) by {
                assert(a[i].same(b[i]));
            }
        }
        replay_rebuilds_the_statistics(x, y);
        assert(a[a.len() - 1].same(b[a.len() - 1]));
        assert(a.last().same(b.last()));
        assert forall|code: u16| #[trigger] n_status(a, code) == n_status(b, code) by {
            assert(n_status(x, code) == n_status(y, code));
        }
        assert forall|which: HistKind| #[trigger] recorded(a, which) == recorded(b, which) by {
            assert(recorded(x, which) == recorded(y, which));
        }
        assert forall|q: Quantity| #[trigger] total(a, q) == total(b, q) by {
            assert(total(x, q) == total(y, q));
            assert(a.last().amount(q) == b.last().amount(q));
        }
    }
}

/// The records of a well-formed aggregator can be counted again.
pub proof fn wf_is_countable(agg: MetricsAggregator)
    requires
        agg.wf(),
    ensures
        countable(agg@.records),
{
}

/// The counts of a part of the records fit where those of all of them do.
proof fn part_is_countable(rs: Seq<RequestRecord>, n: int)
    requires
        0 <= n <= rs.len(),
        countable(rs),
    ensures
        countable(rs.take(n)),
    decreases rs.len() - n,
{
    if n < rs.len() {
        part_is_countable(rs, n + 1);
        assert(rs.take(n + 1).drop_last() =~= rs.take(n));
    } else {
        assert(rs.take(n) =~= rs);
    }
}

proof fn alike_is_countable(a: Seq<RequestRecord>, b: Seq<RequestRecord>)
    requires
        alike(a, b),
        countable(b),
    ensures
        countable(a),
{
    replay_rebuilds_the_statistics(a, b);
}

proof fn alike_push(a: Seq<RequestRecord>, b: Seq<RequestRecord>, x: RequestRecord, y: RequestRecord)
    requires
        alike(a, b),
        x.same(y),
    ensures
        alike(a.push(x), b.push(y)),
{
    assert forall|i: int| 0 <= i < a.len() + 1 implies (#[trigger] a.push(x)[i]).same(
        b.push(y)[i],
    ) by {
        if i < a.len() {
            assert(a[i].same(b[i]));
        }
    }
}

/// The value, or the largest 64-bit number where it is larger.
pub open spec fn saturated(n: nat) -> u64 {
    if n > u64::MAX {
        u64::MAX
    } else {
        n as u64
    }
}

impl MetricsAggregator {
    /// Takes in a copy of a record.
    pub fn push_record_clone(&mut self, rec: &RequestRecord)
        requires
            old(self).wf(),
            countable(old(self)@.records.push(*rec)),
        ensures
            final(self).wf(),
            alike(final(self)@.records, old(self)@.records.push(*rec)),
            final(self)@ == (RunView { records: final(self)@.records, ..old(self)@ }),
    {
        let copy = rec.clone();
        let ghost rs = self@.records;
        proof {
            assert(alike(rs, rs));
            alike_push(rs, rs, copy, *rec);
            alike_is_countable(rs.push(copy), rs.push(*rec));
        }
        self.absorb(copy);
    }

    /// Rebuilds an aggregator from records.
    pub fn from_records(records: &Vec<RequestRecord>, run_started_at: String) -> (r: Self)
        requires
            countable(records@),
        ensures
            r.wf(),
            alike(r@.records, records@),
            r@ == (RunView {
                records: r@.records,
                started: Map::empty(),
                completed: Map::empty(),
                scheduled: 0,
                skipped: 0,
                sessions: 0,
                dropped: 0,
                run_started_at: run_started_at@,
            }),
    {
        let mut agg = MetricsAggregator::new(run_started_at);
        let ghost start = agg@;
        let mut i: usize = 0;
        while i < records.len()
            invariant
                i <= records@.len(),
                countable(records@),
                agg.wf(),
                alike(agg@.records, records@.take(i as int)),
                agg@ == (RunView { records: agg@.records, ..start }),
            decreases records@.len() - i,
        {
            let ghost before = agg@.records;
            proof {
                part_is_countable(records@, i + 1);
                assert(records@.take(i + 1) =~= records@.take(i as int).push(records@[i as int]));
                let rec = records@[i as int];
                assert(rec.same(rec));
                alike_push(before, records@.take(i as int), rec, rec);
                alike_is_countable(before.push(rec), records@.take(i + 1));
            }
            agg.push_record_clone(&records[i]);
            proof {
                let pushed = before.push(records@[i as int]);
                assert forall|j: int| 0 <= j < agg@.records.len() implies (
                #[trigger] agg@.records[j]).same(records@.take(i + 1)[j]) by {
                    assert(agg@.records[j].same(pushed[j]));
                    assert(pushed[j].same(records@.take(i + 1)[j]));
                }
            }
            i += 1;
        }
        proof {
            assert(records@.take(i as int) =~= records@);
        }
        agg
    }

    /// A record of what was measured can be taken in.
    pub open spec fn accepts(self, m: RequestMetrics, second: u64) -> bool {
        let rs = self@.records;
        &&& rs.len() < usize::MAX
        &&& total(rs, Quantity::Completion) + m.completion_tokens <= u64::MAX
        &&& total(rs, Quantity::Prompt) + m.prompt_tokens <= u64::MAX
        &&& total(rs, Quantity::CacheCreation) + m.cache_creation_input_tokens <= u64::MAX
        &&& total(rs, Quantity::CacheHit) + m.cache_hit_input_tokens <= u64::MAX
        &&& total(rs, Quantity::Gaps) + m.itl_samples@.len() <= u64::MAX
        &&& count_in(self@.completed, second) < u64::MAX
    }

    /// Takes in a request that completed in the given second of the run.
    pub fn record_completed(
        &mut self,
        metrics: &RequestMetrics,
        second_offset: u64,
        ctx: &CompletionContext,
    )
        requires
            old(self).wf(),
            old(self).accepts(*metrics, second_offset),
        ensures
            final(self).wf(),
            final(self)@.records.len() == old(self)@.records.len() + 1,
            final(self)@.records.drop_last() == old(self)@.records,
            record_of(final(self)@.records.last(), *metrics, *ctx),
            final(self)@ == (RunView {
                records: final(self)@.records,
                completed: old(self)@.completed.insert(
                    second_offset,
                    (count_in(old(self)@.completed, second_offset) + 1) as u64,
                ),
                ..old(self)@
            }),
    {
        let rec = RequestRecord::from_metrics(metrics, ctx);
        proof {
            assert(self@.records.push(rec).drop_last() =~= self@.records);
        }
        self.absorb(rec);
        let ghost middle = *self;
        count_second(&mut self.per_second_completed, second_offset);
        proof {
            assert(self@.records.drop_last() =~= old(self)@.records);
        }
    }

    pub fn run_started_at(&self) -> (r: &str)
        ensures
            r@ == self@.run_started_at,
    {
        self.run_started_at.as_str()
    }

    pub fn set_run_started_at(&mut self, dt: String)
        requires
            old(self).wf(),
        ensures
            final(self).wf(),
            final(self)@ == (RunView { run_started_at: dt@, ..old(self)@ }),
    {
        self.run_started_at = dt;
    }

    /// A session came to its end, by its last turn or by a failure.
    pub fn record_session_finished(&mut self, dropped: bool)
        requires
            old(self).wf(),
            old(self)@.sessions < u64::MAX,
            old(self)@.dropped < u64::MAX,
        ensures
            final(self).wf(),
            final(self)@ == (RunView {
                sessions: (old(self)@.sessions + 1) as u64,
                dropped: (old(self)@.dropped + (if dropped {
                    1int
                } else {
                    0int
                })) as u64,
                ..old(self)@
            }),
    {
        self.session_count += 1;
        if dropped {
            self.session_dropped += 1;
        }
    }

    pub fn record_scheduled(&mut self)
        requires
            old(self).wf(),
            old(self)@.scheduled < u64::MAX,
        ensures
            final(self).wf(),
            final(self)@ == (RunView {
                scheduled: (old(self)@.scheduled + 1) as u64,
                ..old(self)@
            }),
    {
        self.scheduled += 1;
    }

    pub fn record_skipped(&mut self)
        requires
            old(self).wf(),
            old(self)@.skipped < u64::MAX,
        ensures
            final(self).wf(),
            final(self)@ == (RunView { skipped: (old(self)@.skipped + 1) as u64, ..old(self)@ }),
    {
        self.skipped += 1;
    }

    /// A request was started in the given second of the run.
    pub fn record_started_at(&mut self, second_offset: u64)
        requires
            old(self).wf(),
            count_in(old(self)@.started, second_offset) < u64::MAX,
        ensures
            final(self).wf(),
            final(self)@ == (RunView {
                started: old(self)@.started.insert(
                    second_offset,
                    (count_in(old(self)@.started, second_offset) + 1) as u64,
                ),
                ..old(self)@
            }),
    {
        count_second(&mut self.per_second_started, second_offset);
    }

    /// Adds the counters of `other` that its records do not tell: scheduled and
    /// skipped ticks, and sessions finished and dropped. Nothing else changes.
    pub fn merge_counters_from(&mut self, other: &Self)
        requires
            old(self).wf(),
            old(self)@.scheduled + other@.scheduled <= u64::MAX,
            old(self)@.skipped + other@.skipped <= u64::MAX,
            old(self)@.sessions + other@.sessions <= u64::MAX,
            old(self)@.dropped + other@.dropped <= u64::MAX,
        ensures
            final(self).wf(),
            final(self)@ == (RunView {
                scheduled: (old(self)@.scheduled + other@.scheduled) as u64,
                skipped: (old(self)@.skipped + other@.skipped) as u64,
                sessions: (old(self)@.sessions + other@.sessions) as u64,
                dropped: (old(self)@.dropped + other@.dropped) as u64,
                ..old(self)@
            }),
    {
        self.scheduled += other.scheduled;
        self.skipped += other.skipped;
        self.session_count += other.session_count;
        self.session_dropped += other.session_dropped;
    }

    pub fn per_request(&self) -> (r: &Vec<RequestRecord>)
        ensures
            r@ == self@.records,
    {
        &self.per_request
    }

    fn histogram(&self, which: HistKind) -> (r: &LatencyHistogram)
        requires
            self.wf(),
        ensures
            samples(*r) == recorded(self@.records, which),
            samples(*r).len() <= u64::MAX,
    {
        proof {
            recorded_len(self.per_request@);
        }
        match which {
            HistKind::Latency => &self.latency,
            HistKind::Ttft => &self.ttft,
            HistKind::Itl => &self.itl,
        }
    }

    /// A percentile of what was recorded, in microseconds; `None` where nothing
    /// was. It lies at most one part in a thousand above a recorded value, and
    /// no lower percentile exceeds it.
    pub fn percentile(&self, which: HistKind, p: Percentile) -> (r: Option<u64>)
        requires
            self.wf(),
        ensures
            r == (if recorded(self@.records, which).len() == 0 {
                None
            } else {
                Some(percentile_of(recorded(self@.records, which), p.percent()))
            }),
            r matches Some(v) ==> near_sample(v, recorded(self@.records, which)),
            r matches Some(v) ==> tops_percentiles(
                v,
                recorded(self@.records, which),
                p.percent(),
            ),
    {
        let h = self.histogram(which);
        if is_empty(h) {
            None
        } else {
            proof {
                percent_labels_differ();
            }
            Some(value_at_percentile(h, p.as_str()))
        }
    }

    /// The mean of what was recorded, in microseconds; `None` where nothing was.
    pub fn mean(&self, which: HistKind) -> (r: Option<Real>)
        requires
            self.wf(),
        ensures
            r == (if recorded(self@.records, which).len() == 0 {
                None
            } else {
                Some(Real { bits: mean_of(recorded(self@.records, which)) })
            }),
    {
        let h = self.histogram(which);
        if is_empty(h) {
            None
        } else {
            Some(Real { bits: mean_bits(h) })
        }
    }

    /// The token rates of the requests that have one, in order.
    pub fn tps_values(&self) -> (r: Vec<TokenRate>)
        ensures
            r@ == rates(self@.records),
    {
        let mut out: Vec<TokenRate> = Vec::new();
        let mut i: usize = 0;
        while i < self.per_request.len()
            invariant
                i <= self.per_request@.len(),
                out@ == rates(self.per_request@.take(i as int)),
            decreases self.per_request@.len() - i,
        {
            proof {
                assert(self.per_request@.take(i + 1).drop_last() =~= self.per_request@.take(
                    i as int,
                ));
            }
            if let Some(rate) = self.per_request[i].tps() {
                out.push(rate);
            }
            i += 1;
        }
        proof {
            assert(self.per_request@.take(i as int) =~= self.per_request@);
        }
        out
    }

    pub fn success_count(&self) -> (r: u64)
        requires
            self.wf(),
        ensures
            r == n_ok(self@.records),
    {
        self.success_count
    }

    pub fn error_count(&self) -> (r: u64)
        requires
            self.wf(),
        ensures
            r == n_failed(self@.records),
    {
        self.error_count
    }

    /// All requests, which either succeeded or failed.
    pub fn total_requests(&self) -> (r: u64)
        requires
            self.wf(),
        ensures
            r == self@.records.len(),
            r == n_ok(self@.records) + n_failed(self@.records),
    {
        proof {
            outcomes_partition(self.per_request@);
        }
        self.success_count + self.error_count
    }

    pub fn scheduled(&self) -> (r: u64)
        ensures
            r == self@.scheduled,
    {
        self.scheduled
    }

    pub fn skipped(&self) -> (r: u64)
        ensures
            r == self@.skipped,
    {
        self.skipped
    }

    /// The statuses that occurred, with counts.
    pub fn status_codes(&self) -> (r: &HashMap<u16, u64>)
        requires
            self.wf(),
        ensures
            forall|code: u16| #[trigger] count_in(r@, code) == n_status(self@.records, code),
            forall|code: u16| #[trigger]
                r@.contains_key(code) <==> n_status(self@.records, code) > 0,
    {
        proof {
            assert forall|code: u16| #[trigger]
                self.status_codes@.contains_key(code) <==> n_status(self@.records, code) > 0 by {
                assert(count_in(self.status_codes@, code) == n_status(self@.records, code));
            }
        }
        &self.status_codes
    }

    /// The failures, with counts, in the order in which they came first.
    pub fn error_messages(&self) -> (r: &Vec<(String, u64)>)
        requires
            self.wf(),
        ensures
            count_views(r@) == failures(self@.records),
    {
        &self.error_messages
    }

    pub fn per_second_completed(&self) -> (r: &HashMap<u64, u64>)
        ensures
            r@ == self@.completed,
    {
        &self.per_second_completed
    }

    pub fn per_second_started(&self) -> (r: &HashMap<u64, u64>)
        ensures
            r@ == self@.started,
    {
        &self.per_second_started
    }

    /// Sessions finished, turns completed (each request is one), and sessions
    /// dropped.
    pub fn session_stats(&self) -> (r: (u64, u64, u64))
        requires
            self.wf(),
        ensures
            r.0 == self@.sessions,
            r.1 == self@.records.len(),
            r.2 == self@.dropped,
    {
        (self.session_count, self.session_turn_total, self.session_dropped)
    }

    /// The prompt-cache totals.
    pub fn cache_stats(&self) -> (r: CacheStats)
        requires
            self.wf(),
        ensures
            cache_stats_of(r, self@.records),
            r == cache_totals(self@.records),
    {
        CacheStats {
            cache_creation_total: self.cache_creation_total,
            cache_hit_total: self.cache_hit_total,
            rate_overall: Ratio { num: self.cache_hit_total, den: self.prompt_for_cache_rate },
            rate_turn1: Ratio { num: self.cache_hit_turn1, den: self.prompt_turn1 },
            rate_turn2plus: Ratio { num: self.cache_hit_turn2plus, den: self.prompt_turn2plus },
            cache_creation_turn1: self.cache_creation_turn1,
            cache_creation_turn2plus: self.cache_creation_turn2plus,
            prompt_turn1: self.prompt_turn1,
            prompt_turn2plus: self.prompt_turn2plus,
            cache_hit_turn1: self.cache_hit_turn1,
            cache_hit_turn2plus: self.cache_hit_turn2plus,
        }
    }

    pub fn total_completion_tokens(&self) -> (r: u64)
        requires
            self.wf(),
        ensures
            r == total(self@.records, Quantity::Completion),
    {
        let mut sum: u64 = 0;
        let mut i: usize = 0;
        while i < self.per_request.len()
            invariant
                i <= self.per_request@.len(),
                countable(self.per_request@),
                sum == total(self.per_request@.take(i as int), Quantity::Completion),
            decreases self.per_request@.len() - i,
        {
            proof {
                part_is_countable(self.per_request@, i + 1);
                assert(self.per_request@.take(i + 1).drop_last() =~= self.per_request@.take(
                    i as int,
                ));
            }
            sum += self.per_request[i].completion_tokens as u64;
            i += 1;
        }
        proof {
            assert(self.per_request@.take(i as int) =~= self.per_request@);
        }
        sum
    }

    pub fn total_prompt_tokens(&self) -> (r: u64)
        requires
            self.wf(),
        ensures
            r == total(self@.records, Quantity::Prompt),
    {
        self.prompt_for_cache_rate
    }

    /// The time of all requests with a status of 2xx.
    pub fn total_streaming_time_secs(&self) -> (r: Seconds)
        ensures
            r.micros == total(self@.records, Quantity::StreamingMicros),
    {
        let mut sum: u128 = 0;
        let mut i: usize = 0;
        while i < self.per_request.len()
            invariant
                i <= self.per_request@.len(),
                sum == total(self.per_request@.take(i as int), Quantity::StreamingMicros),
                sum <= i * 0xffff_ffff_ffff_ffff,
            decreases self.per_request@.len() - i,
        {
            proof {
                assert(self.per_request@.take(i + 1).drop_last() =~= self.per_request@.take(
                    i as int,
                ));
            }
            let rec = &self.per_request[i];
            if rec.status >= 200 && rec.status < 300 {
                sum += rec.total_duration_us as u128;
            }
            i += 1;
        }
        proof {
            assert(self.per_request@.take(i as int) =~= self.per_request@);
        }
        Seconds { micros: sum }
    }

    /// The time per output token: microseconds after the first token over tokens
    /// after the first one, of all requests with more than one token.
    pub fn tpot_ms(&self) -> (r: Ratio)
        ensures
            r.num == saturated(total(self@.records, Quantity::GenerationMicros)),
            r.den == saturated(total(self@.records, Quantity::GenerationTokens)),
    {
        let mut gen_us: u64 = 0;
        let mut step_tokens: u64 = 0;
        let mut i: usize = 0;
        while i < self.per_request.len()
            invariant
                i <= self.per_request@.len(),
                gen_us == saturated(
                    total(self.per_request@.take(i as int), Quantity::GenerationMicros),
                ),
                step_tokens == saturated(
                    total(self.per_request@.take(i as int), Quantity::GenerationTokens),
                ),
            decreases self.per_request@.len() - i,
        {
            proof {
                assert(self.per_request@.take(i + 1).drop_last() =~= self.per_request@.take(
                    i as int,
                ));
            }
            let rec = &self.per_request[i];
            let ttft: u64 = match rec.ttft_us {
                Some(us) => us,
                None => 0,
            };
            if rec.completion_tokens >= 2 && rec.total_duration_us >= ttft {
                gen_us = gen_us.saturating_add(rec.total_duration_us - ttft);
                step_tokens = step_tokens.saturating_add((rec.completion_tokens - 1) as u64);
            }
            i += 1;
        }
        proof {
            assert(self.per_request@.take(i as int) =~= self.per_request@);
        }
        Ratio { num: gen_us, den: step_tokens }
    }

    /// Completion tokens over the time of all successful requests.
    pub fn output_throughput_tps(&self) -> (r: TokenRate)
        requires
            self.wf(),
        ensures
            r.tokens == total(self@.records, Quantity::Completion),
            r.micros == total(self@.records, Quantity::StreamingMicros),
    {
        TokenRate {
            tokens: self.total_completion_tokens() as u128,
            micros: self.total_streaming_time_secs().micros,
        }
    }

    /// Prompt and completion tokens over the time of all successful requests.
    pub fn total_throughput_tps(&self) -> (r: TokenRate)
        requires
            self.wf(),
        ensures
            r.tokens == total(self@.records, Quantity::Completion) + total(
                self@.records,
                Quantity::Prompt,
            ),
            r.micros == total(self@.records, Quantity::StreamingMicros),
    {
        TokenRate {
            tokens: self.total_completion_tokens() as u128 + self.total_prompt_tokens() as u128,
            micros: self.total_streaming_time_secs().micros,
        }
    }

    /// Turns over requests.
    pub fn avg_turns_per_request(&self) -> (r: Ratio)
        requires
            self.wf(),
        ensures
            r.num == self@.records.len(),
            r.den == self@.records.len(),
    {
        let total = self.total_requests();
        Ratio { num: self.session_turn_total, den: total }
    }

    /// Speculative decoding: decoded tokens over iterations, and accepted over
    /// decoded tokens.
    pub fn speculative_stats(&self) -> (r: (Ratio, Ratio))
        ensures
            r.0.num == saturated(total(self@.records, Quantity::SpecDecoded)),
            r.0.den == saturated(total(self@.records, Quantity::SpecIterations)),
            r.1.num == saturated(total(self@.records, Quantity::SpecAccepted)),
            r.1.den == saturated(total(self@.records, Quantity::SpecDecoded)),
    {
        let mut decoded: u64 = 0;
        let mut iterations: u64 = 0;
        let mut accepted: u64 = 0;
        let mut i: usize = 0;
        while i < self.per_request.len()
            invariant
                i <= self.per_request@.len(),
                decoded == saturated(
                    total(self.per_request@.take(i as int), Quantity::SpecDecoded),
                ),
                iterations == saturated(
                    total(self.per_request@.take(i as int), Quantity::SpecIterations),
                ),
                accepted == saturated(
                    total(self.per_request@.take(i as int), Quantity::SpecAccepted),
                ),
            decreases self.per_request@.len() - i,
        {
            proof {
                assert(self.per_request@.take(i + 1).drop_last() =~= self.per_request@.take(
                    i as int,
                ));
            }
            let rec = &self.per_request[i];
            decoded = decoded.saturating_add(rec.spec_decoded_tok as u64);
            iterations = iterations.saturating_add(rec.spec_iterations as u64);
            accepted = accepted.saturating_add(rec.spec_accepted_tok as u64);
            i += 1;
        }
        proof {
            assert(self.per_request@.take(i as int) =~= self.per_request@);
        }
        (Ratio { num: decoded, den: iterations }, Ratio { num: accepted, den: decoded })
    }
}

/// The token rates of the requests that have one, in order.
pub open spec fn rates(rs: Seq<RequestRecord>) -> Seq<TokenRate>
    decreases rs.len(),
{
    if rs.len() == 0 {
        Seq::empty()
    } else {
        let before = rates(rs.drop_last());
        match rs.last().rate() {
            Some(rate) => before.push(rate),
            None => before,
        }
    }
}

/// The cache totals of the records.
pub open spec fn cache_stats_of(c: CacheStats, rs: Seq<RequestRecord>) -> bool {
    &&& c.cache_creation_total == total(rs, Quantity::CacheCreation)
    &&& c.cache_hit_total == total(rs, Quantity::CacheHit)
    &&& c.cache_creation_turn1 == total(rs, Quantity::CacheCreationFirst)
    &&& c.cache_creation_turn2plus == total(rs, Quantity::CacheCreationLater)
    &&& c.prompt_turn1 == total(rs, Quantity::PromptFirst)
    &&& c.prompt_turn2plus == total(rs, Quantity::PromptLater)
    &&& c.cache_hit_turn1 == total(rs, Quantity::CacheHitFirst)
    &&& c.cache_hit_turn2plus == total(rs, Quantity::CacheHitLater)
    &&& c.rate_overall.num == total(rs, Quantity::CacheHit)
    &&& c.rate_overall.den == total(rs, Quantity::Prompt)
    &&& c.rate_turn1 == (Ratio { num: c.cache_hit_turn1, den: c.prompt_turn1 })
    &&& c.rate_turn2plus == (Ratio { num: c.cache_hit_turn2plus, den: c.prompt_turn2plus })
}

/// The cache totals of the records, as one value.
pub open spec fn cache_totals(rs: Seq<RequestRecord>) -> CacheStats {
    let hit_first = total(rs, Quantity::CacheHitFirst) as u64;
    let hit_later = total(rs, Quantity::CacheHitLater) as u64;
    let prompt_first = total(rs, Quantity::PromptFirst) as u64;
    let prompt_later = total(rs, Quantity::PromptLater) as u64;
    CacheStats {
        cache_creation_total: total(rs, Quantity::CacheCreation) as u64,
        cache_hit_total: total(rs, Quantity::CacheHit) as u64,
        rate_overall: Ratio {
            num: total(rs, Quantity::CacheHit) as u64,
            den: total(rs, Quantity::Prompt) as u64,
        },
        rate_turn1: Ratio { num: hit_first, den: prompt_first },
        rate_turn2plus: Ratio { num: hit_later, den: prompt_later },
        cache_creation_turn1: total(rs, Quantity::CacheCreationFirst) as u64,
        cache_creation_turn2plus: total(rs, Quantity::CacheCreationLater) as u64,
        prompt_turn1: prompt_first,
        prompt_turn2plus: prompt_later,
        cache_hit_turn1: hit_first,
        cache_hit_turn2plus: hit_later,
    }
}

/// The reported percentages are different texts.
proof fn percent_labels_differ()
    ensures
        percent_rank("50"@) == 1,
        percent_rank("90"@) == 2,
        percent_rank("99"@) == 3,
        percent_rank("99.9"@) == 4,
{
    reveal_strlit("50");
    reveal_strlit("90");
    reveal_strlit("99");
    reveal_strlit("99.9");
    assert("99.9"@.len() == 4 && "99"@.len() == 2 && "90"@.len() == 2 && "50"@.len() == 2);
    assert("50"@[0] != "90"@[0]);
    assert("50"@[0] != "99"@[0]);
    assert("90"@[1] != "99"@[1]);
}

} // verus!
