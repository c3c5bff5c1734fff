//! The metrics of a run as a JSON document: what `metrics.json` holds.

use super::metrics::{
    cache_totals, count_in, failures, n_failed, n_ok, n_status, total, CacheStats,
    MetricsAggregator, Quantity, RequestRecord, RunView,
};
use crate::json::{
    alike, array_value, copy_value, count_at, count_value, folded, items_at, json_value,
    max_levels, new_object, no_members, number_counts_json, number_counts_value,
    object_value, pretty_text, put_member, reads_back, storable, text_counts_json,
    text_counts_value, text_value, trees, value_tree, write_pretty, Json,
};
use crate::tables::keys_of;
use std::collections::HashMap;
use vstd::prelude::*;

verus! {

broadcast use vstd::std_specs::hash::group_hash_axioms;

/// The fractions of the document, as JSON numbers.
#[derive(Debug)]
pub struct MetricNumbers {
    pub avg_latency_ms: serde_json::Value,
    pub tpot_ms: serde_json::Value,
    pub output_throughput_tps: serde_json::Value,
    pub total_throughput_tps: serde_json::Value,
    pub avg_turns_per_request: serde_json::Value,
    pub spec_decoded_per_iter: serde_json::Value,
    pub spec_accept_rate: serde_json::Value,
    pub rate_overall_pct: serde_json::Value,
    pub rate_turn1_pct: serde_json::Value,
    pub rate_turn2plus_pct: serde_json::Value,
}

/// How often each status came up.
pub open spec fn status_counts(rs: Seq<RequestRecord>) -> Map<u64, u64> {
    Map::new(
        |code: u64| code < 0x10000 && n_status(rs, code as u16) > 0,
        |code: u64| n_status(rs, code as u16) as u64,
    )
}

/// The prompt cache in the document.
pub open spec fn cache_json(c: CacheStats, n: MetricNumbers) -> Json {
    Json::Object(
        no_members()
            .insert("creation_total"@, Json::Count(c.cache_creation_total))
            .insert("hit_total"@, Json::Count(c.cache_hit_total))
            .insert("rate_overall_pct"@, value_tree(n.rate_overall_pct))
            .insert("rate_turn1_pct"@, value_tree(n.rate_turn1_pct))
            .insert("rate_turn2plus_pct"@, value_tree(n.rate_turn2plus_pct))
            .insert("creation_turn1"@, Json::Count(c.cache_creation_turn1))
            .insert("creation_turn2plus"@, Json::Count(c.cache_creation_turn2plus)),
    )
}

/// The document of a run: its counts, its fractions, and one value for each
/// request.
#[verifier::opaque]
pub open spec fn metrics_json(v: RunView, n: MetricNumbers, per_request: Seq<Json>) -> Json {
    Json::Object(
        no_members()
            .insert("run_started_at"@, Json::Str(v.run_started_at))
            .insert("scheduled"@, Json::Count(v.scheduled))
            .insert("skipped"@, Json::Count(v.skipped))
            .insert("total_requests"@, Json::Count(v.records.len() as u64))
            .insert("success_count"@, Json::Count(n_ok(v.records) as u64))
            .insert("error_count"@, Json::Count(n_failed(v.records) as u64))
            .insert("total_completion_tokens"@, Json::Count(total(v.records, Quantity::Completion) as u64))
            .insert("total_prompt_tokens"@, Json::Count(total(v.records, Quantity::Prompt) as u64))
            .insert("status_codes"@, number_counts_json(status_counts(v.records)))
            .insert("error_messages"@, text_counts_json(failures(v.records)))
            .insert("per_second_completed"@, number_counts_json(v.completed))
            .insert("per_second_started"@, number_counts_json(v.started))
            .insert("session_count"@, Json::Count(v.sessions))
            .insert("session_turn_total"@, Json::Count(v.records.len() as u64))
            .insert("session_dropped"@, Json::Count(v.dropped))
            .insert("avg_latency_ms"@, value_tree(n.avg_latency_ms))
            .insert("tpot_ms"@, value_tree(n.tpot_ms))
            .insert("output_throughput_tps"@, value_tree(n.output_throughput_tps))
            .insert("total_throughput_tps"@, value_tree(n.total_throughput_tps))
            .insert("avg_turns_per_request"@, value_tree(n.avg_turns_per_request))
            .insert("spec_decoded_per_iter"@, value_tree(n.spec_decoded_per_iter))
            .insert("spec_accept_rate"@, value_tree(n.spec_accept_rate))
            .insert("cache"@, cache_json(cache_totals(v.records), n))
            .insert("per_request"@, Json::Array(per_request)),
    )
}

fn cache_value(cache: &CacheStats, numbers: &MetricNumbers) -> (r: serde_json::Value)
    ensures
        value_tree(r) == cache_json(*cache, *numbers),
{
    let mut object = new_object();
    put_member(&mut object, "creation_total", count_value(cache.cache_creation_total));
    put_member(&mut object, "hit_total", count_value(cache.cache_hit_total));
    put_member(&mut object, "rate_overall_pct", copy_value(&numbers.rate_overall_pct));
    put_member(&mut object, "rate_turn1_pct", copy_value(&numbers.rate_turn1_pct));
    put_member(&mut object, "rate_turn2plus_pct", copy_value(&numbers.rate_turn2plus_pct));
    put_member(&mut object, "creation_turn1", count_value(cache.cache_creation_turn1));
    put_member(&mut object, "creation_turn2plus", count_value(cache.cache_creation_turn2plus));
    object_value(object)
}

fn status_counts_value(agg: &MetricsAggregator) -> (r: serde_json::Value)
    requires
        agg.wf(),
    ensures
        value_tree(r) == number_counts_json(status_counts(agg@.records)),
{
    let map = agg.status_codes();
    let codes = keys_of(map);
    let ghost rs = agg@.records;
    let mut numbers: Vec<u64> = Vec::new();
    let mut counts: Vec<u64> = Vec::new();
    let mut i: usize = 0;
    while i < codes.len()
        invariant
            i <= codes@.len(),
            codes@.to_set() == map@.dom(),
            forall|code: u16| #[trigger] count_in(map@, code) == n_status(rs, code),
            numbers@.len() == i,
            counts@.len() == i,
            forall|j: int| 0 <= j < i ==> #[trigger] numbers@[j] == codes@[j] as u64,
            forall|j: int| 0 <= j < i ==> #[trigger] counts@[j] == n_status(rs, codes@[j]),
        decreases codes@.len() - i,
    {
        proof {
            assert(codes@.to_set().contains(codes@[i as int]));
            assert(count_in(map@, codes@[i as int]) == n_status(rs, codes@[i as int]));
        }
        let count: u64 = match map.get(&codes[i]) {
            Some(n) => *n,
            None => 0,
        };
        numbers.push(codes[i] as u64);
        counts.push(count);
        i += 1;
    }
    proof {
        let want = status_counts(rs);
        assert forall|code: u64| numbers@.to_set().contains(code) <==> want.dom().contains(code) by {
            if numbers@.to_set().contains(code) {
                let j = choose|j: int| 0 <= j < numbers@.len() && numbers@[j] == code;
                assert(codes@.to_set().contains(codes@[j]));
                assert(map@.contains_key(codes@[j]));
            }
            if want.dom().contains(code) {
                assert(map@.contains_key(code as u16));
                assert(codes@.to_set().contains(code as u16));
                let j = choose|j: int| 0 <= j < codes@.len() && codes@[j] == code as u16;
                assert(numbers@[j] == code);
            }
        }
        assert(numbers@.to_set() =~= want.dom());
        assert forall|j: int| 0 <= j < numbers@.len() implies want[#[trigger] numbers@[j]]
            == counts@[j] by {
            assert(numbers@.to_set().contains(numbers@[j]));
            assert(want.dom().contains(numbers@[j]));
        }
    }
    number_counts_value(&numbers, &counts, Ghost(status_counts(rs)))
}

fn second_counts_value(map: &HashMap<u64, u64>) -> (r: serde_json::Value)
    ensures
        value_tree(r) == number_counts_json(map@),
{
    let seconds = keys_of(map);
    let mut counts: Vec<u64> = Vec::new();
    let mut i: usize = 0;
    while i < seconds.len()
        invariant
            i <= seconds@.len(),
            seconds@.to_set() == map@.dom(),
            counts@.len() == i,
            forall|j: int| 0 <= j < i ==> #[trigger] counts@[j] == map@[seconds@[j]],
        decreases seconds@.len() - i,
    {
        proof {
            assert(seconds@.to_set().contains(seconds@[i as int]));
        }
        let count: u64 = match map.get(&seconds[i]) {
            Some(n) => *n,
            None => 0,
        };
        counts.push(count);
        i += 1;
    }
    number_counts_value(&seconds, &counts, Ghost(map@))
}

/// The metrics of a run as a JSON value. The fractions and the requests are
/// written by the caller.
pub fn aggregator_to_json(
    agg: &MetricsAggregator,
    numbers: &MetricNumbers,
    per_request: Vec<serde_json::Value>,
) -> (r: serde_json::Value)
    requires
        agg.wf(),
    ensures
        value_tree(r) == metrics_json(agg@, *numbers, trees(per_request@)),
{
    proof {
        reveal(metrics_json);
    }
    let sessions = agg.session_stats();
    let mut object = new_object();
    put_member(&mut object, "run_started_at", text_value(agg.run_started_at()));
    put_member(&mut object, "scheduled", count_value(agg.scheduled()));
    put_member(&mut object, "skipped", count_value(agg.skipped()));
    put_member(&mut object, "total_requests", count_value(agg.total_requests()));
    put_member(&mut object, "success_count", count_value(agg.success_count()));
    put_member(&mut object, "error_count", count_value(agg.error_count()));
    put_member(&mut object, "total_completion_tokens", count_value(agg.total_completion_tokens()));
    put_member(&mut object, "total_prompt_tokens", count_value(agg.total_prompt_tokens()));
    put_member(&mut object, "status_codes", status_counts_value(agg));
    put_member(&mut object, "error_messages", text_counts_value(agg.error_messages()));
    put_member(&mut object, "per_second_completed", second_counts_value(agg.per_second_completed()));
    put_member(&mut object, "per_second_started", second_counts_value(agg.per_second_started()));
    put_member(&mut object, "session_count", count_value(sessions.0));
    put_member(&mut object, "session_turn_total", count_value(sessions.1));
    put_member(&mut object, "session_dropped", count_value(sessions.2));
    put_member(&mut object, "avg_latency_ms", copy_value(&numbers.avg_latency_ms));
    put_member(&mut object, "tpot_ms", copy_value(&numbers.tpot_ms));
    put_member(&mut object, "output_throughput_tps", copy_value(&numbers.output_throughput_tps));
    put_member(&mut object, "total_throughput_tps", copy_value(&numbers.total_throughput_tps));
    put_member(&mut object, "avg_turns_per_request", copy_value(&numbers.avg_turns_per_request));
    put_member(&mut object, "spec_decoded_per_iter", copy_value(&numbers.spec_decoded_per_iter));
    put_member(&mut object, "spec_accept_rate", copy_value(&numbers.spec_accept_rate));
    put_member(&mut object, "cache", cache_value(&agg.cache_stats(), numbers));
    put_member(&mut object, "per_request", array_value(per_request));
    object_value(object)
}

/// The contents of `metrics.json`.
pub fn metrics_text(
    agg: &MetricsAggregator,
    numbers: &MetricNumbers,
    per_request: Vec<serde_json::Value>,
) -> (r: String)
    requires
        agg.wf(),
    ensures
        r@ == pretty_text(metrics_json(agg@, *numbers, trees(per_request@))),
        reads_back(r@, metrics_json(agg@, *numbers, trees(per_request@))),
{
    let value = aggregator_to_json(agg, numbers, per_request);
    write_pretty(&value).unwrap()
}

impl MetricNumbers {
    /// All fractions can be read back.
    pub open spec fn storable(self) -> bool {
        forall|n: nat|
            #![trigger storable(value_tree(self.tpot_ms), n)]
            {
                &&& storable(value_tree(self.avg_latency_ms), n)
                &&& storable(value_tree(self.tpot_ms), n)
                &&& storable(value_tree(self.output_throughput_tps), n)
                &&& storable(value_tree(self.total_throughput_tps), n)
                &&& storable(value_tree(self.avg_turns_per_request), n)
                &&& storable(value_tree(self.spec_decoded_per_iter), n)
                &&& storable(value_tree(self.spec_accept_rate), n)
                &&& storable(value_tree(self.rate_overall_pct), n)
                &&& storable(value_tree(self.rate_turn1_pct), n)
                &&& storable(value_tree(self.rate_turn2plus_pct), n)
            }
    }
}

proof fn counts_are_storable(rows: Seq<(Seq<char>, Json)>, k: int)
    requires
        0 <= k <= rows.len(),
        forall|i: int| 0 <= i < rows.len() ==> (#[trigger] rows[i]).1 is Count,
    ensures
        forall|key: Seq<char>| #[trigger]
            folded(rows, k).contains_key(key) ==> folded(rows, k)[key] is Count,
    decreases k,
{
    if k > 0 {
        counts_are_storable(rows, k - 1);
        assert(rows[k - 1].1 is Count);
    }
}

proof fn metrics_are_storable(v: RunView, n: MetricNumbers, per_request: Seq<Json>)
    requires
        n.storable(),
        forall|i: int| 0 <= i < per_request.len() ==> storable(#[trigger] per_request[i], 98),
    ensures
        storable(metrics_json(v, n, per_request), max_levels()),
{
    reveal(metrics_json);
    reveal_with_fuel(storable, 2);
    let tree = metrics_json(v, n, per_request);
    assert(storable(value_tree(n.tpot_ms), 99));
    assert(storable(value_tree(n.tpot_ms), 98));
    let rows = failures(v.records).map_values(
        |row: (Seq<char>, nat)| (row.0, Json::Count(row.1 as u64)),
    );
    counts_are_storable(rows, rows.len() as int);
    assert(storable(text_counts_json(failures(v.records)), 99));
    assert(storable(number_counts_json(status_counts(v.records)), 99));
    assert(storable(number_counts_json(v.completed), 99));
    assert(storable(number_counts_json(v.started), 99));
    assert(storable(cache_json(cache_totals(v.records), n), 99));
    assert(storable(Json::Array(per_request), 99));
}

/// What was saved of a run is what is read: the counts of the document, and a
/// value for each request that agrees with the one that was written.
pub proof fn saved_metrics_are_read_back(
    v: RunView,
    n: MetricNumbers,
    per_request: Seq<Json>,
    text: Seq<char>,
)
    requires
        reads_back(text, metrics_json(v, n, per_request)),
        n.storable(),
        forall|i: int| 0 <= i < per_request.len() ==> storable(#[trigger] per_request[i], 98),
    ensures
        json_value(text) is Ok,
        count_at(json_value(text)->Ok_0, "scheduled"@) == Some(v.scheduled),
        count_at(json_value(text)->Ok_0, "skipped"@) == Some(v.skipped),
        count_at(json_value(text)->Ok_0, "total_requests"@) == Some(v.records.len() as u64),
        items_at(json_value(text)->Ok_0, "per_request"@) matches Some(items) && {
            &&& items.len() == per_request.len()
            &&& forall|i: int|
                0 <= i < items.len() ==> alike(#[trigger] items[i], per_request[i], 98)
        },
{
    metrics_are_storable(v, n, per_request);
    let back = json_value(text)->Ok_0;
    let tree = metrics_json(v, n, per_request);
    assert(alike(back, tree, 100));
    reveal(metrics_json);
    reveal_with_fuel(alike, 3);
    reveal_strlit("run_started_at");
    assert("run_started_at"@.len() == 14);
    reveal_strlit("scheduled");
    assert("scheduled"@.len() == 9);
    reveal_strlit("skipped");
    assert("skipped"@.len() == 7);
    reveal_strlit("total_requests");
    assert("total_requests"@.len() == 14);
    reveal_strlit("success_count");
    assert("success_count"@.len() == 13);
    reveal_strlit("error_count");
    assert("error_count"@.len() == 11);
    reveal_strlit("total_completion_tokens");
    assert("total_completion_tokens"@.len() == 23);
    reveal_strlit("total_prompt_tokens");
    assert("total_prompt_tokens"@.len() == 19);
    reveal_strlit("status_codes");
    assert("status_codes"@.len() == 12);
    reveal_strlit("error_messages");
    assert("error_messages"@.len() == 14);
    reveal_strlit("per_second_completed");
    assert("per_second_completed"@.len() == 20);
    reveal_strlit("per_second_started");
    assert("per_second_started"@.len() == 18);
    reveal_strlit("session_count");
    assert("session_count"@.len() == 13);
    reveal_strlit("session_turn_total");
    assert("session_turn_total"@.len() == 18);
    reveal_strlit("session_dropped");
    assert("session_dropped"@.len() == 15);
    reveal_strlit("avg_latency_ms");
    assert("avg_latency_ms"@.len() == 14);
    reveal_strlit("tpot_ms");
    assert("tpot_ms"@.len() == 7);
    reveal_strlit("output_throughput_tps");
    assert("output_throughput_tps"@.len() == 21);
    reveal_strlit("total_throughput_tps");
    assert("total_throughput_tps"@.len() == 20);
    reveal_strlit("avg_turns_per_request");
    assert("avg_turns_per_request"@.len() == 21);
    reveal_strlit("spec_decoded_per_iter");
    assert("spec_decoded_per_iter"@.len() == 21);
    reveal_strlit("spec_accept_rate");
    assert("spec_accept_rate"@.len() == 16);
    reveal_strlit("cache");
    assert("cache"@.len() == 5);
    reveal_strlit("per_request");
    assert("per_request"@.len() == 11);
    assert("error_messages"@[0] == 'e' && "avg_latency_ms"@[0] == 'a' && "total_requests"@[0]
        == 't' && "skipped"@[0] == 's' && "tpot_ms"@[0] == 't');
    let kept = tree->Object_0;
    assert(kept["scheduled"@] == Json::Count(v.scheduled));
    assert(kept["skipped"@] == Json::Count(v.skipped));
    assert(kept["total_requests"@] == Json::Count(v.records.len() as u64));
    assert(kept["per_request"@] == Json::Array(per_request));
    let read = back->Object_0;
    assert(read.contains_key("scheduled"@) && read.contains_key("skipped"@) && read.contains_key(
        "total_requests"@,
    ) && read.contains_key("per_request"@));
}

} // verus!
