//! The data that the scripts of the HTML pages read, as JSON.

use super::charts::{latency_percentiles, rps_timeline, status_breakdown, status_list};
use super::model_dashboard::{CacheStatsView, DashboardRow, RunSummary};
use crate::compare::CompareInputs;
use crate::config::{opt_view, RunConfig, RunStatus};
use crate::json::{
    array_value, bool_value, compact_text, copy_value, count_value, counts_json, counts_value,
    new_object, no_members, object_value, opt_text_value, put_member, reads_back,
    text_counts_json, text_counts_value, text_or_null, text_value, texts_json, texts_value, trees,
    value_tree, write_compact, Json,
};
use crate::runner::metrics::{
    alike, count_in, failures, n_failed, n_ok, n_status, replay_rebuilds_the_statistics, total,
    MetricsAggregator, Quantity, RunView,
};
use crate::tables::{ascending, ascending_is_unique};
use crate::text::decimal;
use vstd::prelude::*;

verus! {

/// What a report's data holds besides counts and texts, as JSON values.
#[derive(Debug)]
pub struct ReportNumbers {
    pub target_rps: serde_json::Value,
    pub pattern: serde_json::Value,
    pub dataset: serde_json::Value,
    pub prompt_distribution: serde_json::Value,
    /// The percentiles of the latency, in milliseconds.
    pub values_ms: serde_json::Value,
}

/// The fractions of a run in the dashboard's data, as JSON values.
#[derive(Debug)]
pub struct RowNumbers {
    pub target_rps: serde_json::Value,
    pub success_rate: serde_json::Value,
    pub achieved_rps: serde_json::Value,
    pub latency_ms: serde_json::Value,
    pub ttft_ms: serde_json::Value,
    pub itl_ms: serde_json::Value,
    pub tps: serde_json::Value,
    pub rate_overall: serde_json::Value,
    pub rate_turn1: serde_json::Value,
    pub rate_turn2plus: serde_json::Value,
}

/// The fractions of one run in the data of a comparison, as JSON values.
#[derive(Debug)]
pub struct SideNumbers {
    pub target_rps: serde_json::Value,
    pub success_rate: serde_json::Value,
    pub achieved_rps: serde_json::Value,
    pub latency_ms: serde_json::Value,
}

/// The fractions in the data of a comparison, as JSON values.
#[derive(Debug)]
pub struct CompareNumbers {
    pub a: SideNumbers,
    pub b: SideNumbers,
    pub diff: serde_json::Value,
}

/// What a report sums up.
#[verifier::opaque]
pub open spec fn summary_json(
    cfg: RunConfig,
    v: RunView,
    interrupted: bool,
    n: ReportNumbers,
) -> Json {
    Json::Object(
        no_members()
            .insert("run_id"@, Json::Str(cfg.run_id@))
            .insert("target"@, Json::Str(cfg.target@))
            .insert("model"@, Json::Str(cfg.model@))
            .insert("duration_secs"@, Json::Count(cfg.duration_secs))
            .insert("target_rps"@, value_tree(n.target_rps))
            .insert("concurrency"@, Json::Count(cfg.concurrency as u64))
            .insert("stream"@, Json::Bool(cfg.stream))
            .insert("interrupted"@, Json::Bool(interrupted))
            .insert("tag"@, text_or_null(opt_view(cfg.tag)))
            .insert("scheduled"@, Json::Count(v.scheduled))
            .insert("skipped"@, Json::Count(v.skipped))
            .insert("total_requests"@, Json::Count(v.records.len() as u64))
            .insert("success_count"@, Json::Count(n_ok(v.records) as u64))
            .insert("error_count"@, Json::Count(n_failed(v.records) as u64))
            .insert("total_completion_tokens"@, Json::Count(total(v.records, Quantity::Completion) as u64))
            .insert("total_prompt_tokens"@, Json::Count(total(v.records, Quantity::Prompt) as u64))
            .insert("pattern_name"@, Json::Str(cfg.pattern.label()))
            .insert("pattern"@, value_tree(n.pattern))
            .insert("dataset_name"@, Json::Str(cfg.dataset.label()))
            .insert("dataset"@, value_tree(n.dataset))
            .insert("strategy"@, Json::Str(cfg.strategy.label()))
            .insert("prompt_distribution"@, value_tree(n.prompt_distribution)),
    )
}

fn summary_value(
    cfg: &RunConfig,
    agg: &MetricsAggregator,
    interrupted: bool,
    n: &ReportNumbers,
) -> (r: serde_json::Value)
    requires
        agg.wf(),
    ensures
        value_tree(r) == summary_json(*cfg, agg@, interrupted, *n),
{
    proof {
        reveal(summary_json);
    }
    let mut object = new_object();
    put_member(&mut object, "run_id", text_value(cfg.run_id.as_str()));
    put_member(&mut object, "target", text_value(cfg.target.as_str()));
    put_member(&mut object, "model", text_value(cfg.model.as_str()));
    put_member(&mut object, "duration_secs", count_value(cfg.duration_secs));
    put_member(&mut object, "target_rps", copy_value(&n.target_rps));
    put_member(&mut object, "concurrency", count_value(cfg.concurrency as u64));
    put_member(&mut object, "stream", bool_value(cfg.stream));
    put_member(&mut object, "interrupted", bool_value(interrupted));
    put_member(&mut object, "tag", opt_text_value(&cfg.tag));
    put_member(&mut object, "scheduled", count_value(agg.scheduled()));
    put_member(&mut object, "skipped", count_value(agg.skipped()));
    put_member(&mut object, "total_requests", count_value(agg.total_requests()));
    put_member(&mut object, "success_count", count_value(agg.success_count()));
    put_member(&mut object, "error_count", count_value(agg.error_count()));
    put_member(&mut object, "total_completion_tokens", count_value(agg.total_completion_tokens()));
    put_member(&mut object, "total_prompt_tokens", count_value(agg.total_prompt_tokens()));
    put_member(&mut object, "pattern_name", text_value(cfg.pattern.name()));
    put_member(&mut object, "pattern", copy_value(&n.pattern));
    put_member(&mut object, "dataset_name", text_value(cfg.dataset.name()));
    put_member(&mut object, "dataset", copy_value(&n.dataset));
    put_member(&mut object, "strategy", text_value(cfg.strategy.as_str()));
    put_member(&mut object, "prompt_distribution", copy_value(&n.prompt_distribution));
    object_value(object)
}

/// The percentiles of the latency.
pub open spec fn latency_json(n: ReportNumbers) -> Json {
    Json::Object(
        no_members()
            .insert("labels"@, texts_json(seq!["p50"@, "p90"@, "p99"@, "p99.9"@]))
            .insert("values_ms"@, value_tree(n.values_ms)),
    )
}

fn latency_value(agg: &MetricsAggregator, n: &ReportNumbers) -> (r: serde_json::Value)
    requires
        agg.wf(),
    ensures
        value_tree(r) == latency_json(*n),
{
    let latency = latency_percentiles(agg);
    let mut object = new_object();
    put_member(&mut object, "labels", texts_value(&latency.labels));
    put_member(&mut object, "values_ms", copy_value(&n.values_ms));
    object_value(object)
}

/// The statuses that came up, in ascending order.
pub open spec fn status_labels_json(v: RunView) -> Json {
    texts_json(
        status_list(v.records, 0).map_values(|row: (u16, nat)| decimal(row.0 as nat)),
    )
}

/// How often they did, in the same order.
pub open spec fn status_counts_json(v: RunView) -> Json {
    counts_json(status_list(v.records, 0).map_values(|row: (u16, nat)| row.1 as u64))
}

/// How often each status came up.
pub open spec fn status_json(v: RunView) -> Json {
    Json::Object(
        no_members()
            .insert("labels"@, status_labels_json(v))
            .insert("counts"@, status_counts_json(v)),
    )
}

fn status_value(agg: &MetricsAggregator) -> (r: serde_json::Value)
    requires
        agg.wf(),
    ensures
        value_tree(r) == status_json(agg@),
{
    let status = status_breakdown(agg);
    proof {
        assert(status.counts@ =~= status_list(agg@.records, 0).map_values(
            |row: (u16, nat)| row.1 as u64,
        ));
    }
    let mut object = new_object();
    put_member(&mut object, "labels", texts_value(&status.labels));
    put_member(&mut object, "counts", counts_value(&status.counts));
    object_value(object)
}

/// Some numbers in ascending order.
pub open spec fn in_order(numbers: Set<u64>) -> Seq<u64> {
    choose|s: Seq<u64>| ascending(s) && #[trigger] s.to_set() == numbers
}

/// The requests that were started and completed in each second.
pub open spec fn timeline_json(v: RunView) -> Json {
    let seconds = in_order(v.started.dom().union(v.completed.dom()));
    Json::Object(
        no_members()
            .insert("seconds"@, counts_json(seconds))
            .insert("started"@, counts_json(seconds.map_values(|s: u64| count_in(v.started, s) as u64)))
            .insert("completed"@, counts_json(seconds.map_values(|s: u64| count_in(v.completed, s) as u64))),
    )
}

fn timeline_value(agg: &MetricsAggregator) -> (r: serde_json::Value)
    ensures
        value_tree(r) == timeline_json(agg@),
{
    let timeline = rps_timeline(agg);
    proof {
        let v = agg@;
        let all = v.started.dom().union(v.completed.dom());
        let seconds = timeline.seconds@;
        assert(ascending(seconds) && seconds.to_set() == all);
        ascending_is_unique(seconds, in_order(all));
        assert forall|i: int| 0 <= i < seconds.len() implies {
            &&& #[trigger] timeline.started@[i] == count_in(v.started, seconds[i])
            &&& timeline.completed@[i] == count_in(v.completed, seconds[i])
        } by {
            let done = timeline.completed@[i];
        }
        assert forall|i: int| 0 <= i < seconds.len() implies #[trigger] timeline.completed@[i]
            == count_in(v.completed, seconds[i]) by {
            let begun = timeline.started@[i];
        }
        assert(timeline.started@ =~= seconds.map_values(|s: u64| count_in(v.started, s) as u64));
        assert(timeline.completed@ =~= seconds.map_values(|s: u64| count_in(v.completed, s) as u64));
    }
    let mut object = new_object();
    put_member(&mut object, "seconds", counts_value(&timeline.seconds));
    put_member(&mut object, "started", counts_value(&timeline.started));
    put_member(&mut object, "completed", counts_value(&timeline.completed));
    object_value(object)
}

/// The data of a report.
pub open spec fn report_json(
    cfg: RunConfig,
    v: RunView,
    interrupted: bool,
    n: ReportNumbers,
) -> Json {
    Json::Object(
        no_members()
            .insert("summary"@, summary_json(cfg, v, interrupted, n))
            .insert("latencyPercentiles"@, latency_json(n))
            .insert("statusBreakdown"@, status_json(v))
            .insert("rpsTimeline"@, timeline_json(v))
            .insert("errors"@, text_counts_json(failures(v.records))),
    )
}

proof fn same_statuses(a: RunView, b: RunView, code: int)
    requires
        forall|c: u16| #[trigger] n_status(a.records, c) == n_status(b.records, c),
    ensures
        status_list(a.records, code) == status_list(b.records, code),
    decreases 0x10000 - code,
{
    if code < 0x10000 {
        same_statuses(a, b, code + 1);
        assert(n_status(a.records, code as u16) == n_status(b.records, code as u16));
    }
}

/// Runs with the same records and counts have the same data.
pub proof fn equal_records_give_equal_data(
    cfg: RunConfig,
    a: RunView,
    b: RunView,
    interrupted: bool,
    n: ReportNumbers,
)
    requires
        alike(a.records, b.records),
        b == (RunView { records: b.records, ..a }),
    ensures
        report_json(cfg, a, interrupted, n) == report_json(cfg, b, interrupted, n),
{
    replay_rebuilds_the_statistics(a.records, b.records);
    reveal(summary_json);
    assert(total(a.records, Quantity::Completion) == total(b.records, Quantity::Completion));
    assert(total(a.records, Quantity::Prompt) == total(b.records, Quantity::Prompt));
    assert(summary_json(cfg, a, interrupted, n) == summary_json(cfg, b, interrupted, n));
    same_statuses(a, b, 0);
}

/// Writes the data of a report.
pub fn report_data(
    cfg: &RunConfig,
    agg: &MetricsAggregator,
    interrupted: bool,
    n: &ReportNumbers,
) -> (r: String)
    requires
        agg.wf(),
    ensures
        r@ == compact_text(report_json(*cfg, agg@, interrupted, *n)),
        reads_back(r@, report_json(*cfg, agg@, interrupted, *n)),
{
    let mut object = new_object();
    put_member(&mut object, "summary", summary_value(cfg, agg, interrupted, n));
    put_member(&mut object, "latencyPercentiles", latency_value(agg, n));
    put_member(&mut object, "statusBreakdown", status_value(agg));
    put_member(&mut object, "rpsTimeline", timeline_value(agg));
    put_member(&mut object, "errors", text_counts_value(agg.error_messages()));
    write_compact(&object_value(object))
}

/// The prompt cache of a run in the dashboard's data.
pub open spec fn row_cache_json(c: CacheStatsView, n: RowNumbers) -> Json {
    Json::Object(
        no_members()
            .insert("rate_overall"@, value_tree(n.rate_overall))
            .insert("rate_turn1"@, value_tree(n.rate_turn1))
            .insert("rate_turn2plus"@, value_tree(n.rate_turn2plus))
            .insert("creation_total"@, Json::Count(c.creation_total))
            .insert("hit_total"@, Json::Count(c.hit_total))
            .insert("has_continuations"@, Json::Bool(c.has_continuations))
            .insert("denominator_total"@, Json::Count(c.denominator_total as u64)),
    )
}

fn row_cache_value(c: &CacheStatsView, n: &RowNumbers) -> (r: serde_json::Value)
    ensures
        value_tree(r) == row_cache_json(*c, *n),
{
    let mut object = new_object();
    put_member(&mut object, "rate_overall", copy_value(&n.rate_overall));
    put_member(&mut object, "rate_turn1", copy_value(&n.rate_turn1));
    put_member(&mut object, "rate_turn2plus", copy_value(&n.rate_turn2plus));
    put_member(&mut object, "creation_total", count_value(c.creation_total));
    put_member(&mut object, "hit_total", count_value(c.hit_total));
    put_member(&mut object, "has_continuations", bool_value(c.has_continuations));
    put_member(&mut object, "denominator_total", count_value(c.denominator_total as u64));
    object_value(object)
}

/// A run in the dashboard's data.
#[verifier::opaque]
pub open spec fn run_json(run: RunSummary, n: RowNumbers) -> Json {
    Json::Object(
        no_members()
            .insert("run_id"@, Json::Str(run.run_id@))
            .insert("started_at"@, Json::Str(run.started_at@))
            .insert("target"@, Json::Str(run.target@))
            .insert("model"@, Json::Str(run.model@))
            .insert("model_alias"@, text_or_null(opt_view(run.model_alias)))
            .insert("target_rps"@, value_tree(n.target_rps))
            .insert("duration_secs"@, Json::Count(run.metrics.duration_secs))
            .insert("total_requests"@, Json::Count(run.metrics.total_requests))
            .insert("success_rate"@, value_tree(n.success_rate))
            .insert("achieved_rps"@, value_tree(n.achieved_rps))
            .insert("status"@, Json::Str(run.status@))
            .insert("tag"@, text_or_null(opt_view(run.tag)))
            .insert("latency_ms"@, value_tree(n.latency_ms))
            .insert("ttft_ms"@, value_tree(n.ttft_ms))
            .insert("itl_ms"@, value_tree(n.itl_ms))
            .insert("tps"@, value_tree(n.tps))
            .insert("total_completion_tokens"@, Json::Count(run.metrics.total_completion_tokens))
            .insert("cache"@, row_cache_json(run.cache, n))
            .insert("report_filename"@, Json::Str(run.report_filename@)),
    )
}

fn run_value(run: &RunSummary, n: &RowNumbers) -> (r: serde_json::Value)
    ensures
        value_tree(r) == run_json(*run, *n),
{
    proof {
        reveal(run_json);
    }
    let mut object = new_object();
    put_member(&mut object, "run_id", text_value(run.run_id.as_str()));
    put_member(&mut object, "started_at", text_value(run.started_at.as_str()));
    put_member(&mut object, "target", text_value(run.target.as_str()));
    put_member(&mut object, "model", text_value(run.model.as_str()));
    put_member(&mut object, "model_alias", opt_text_value(&run.model_alias));
    put_member(&mut object, "target_rps", copy_value(&n.target_rps));
    put_member(&mut object, "duration_secs", count_value(run.metrics.duration_secs));
    put_member(&mut object, "total_requests", count_value(run.metrics.total_requests));
    put_member(&mut object, "success_rate", copy_value(&n.success_rate));
    put_member(&mut object, "achieved_rps", copy_value(&n.achieved_rps));
    put_member(&mut object, "status", text_value(run.status.as_str()));
    put_member(&mut object, "tag", opt_text_value(&run.tag));
    put_member(&mut object, "latency_ms", copy_value(&n.latency_ms));
    put_member(&mut object, "ttft_ms", copy_value(&n.ttft_ms));
    put_member(&mut object, "itl_ms", copy_value(&n.itl_ms));
    put_member(&mut object, "tps", copy_value(&n.tps));
    put_member(&mut object, "total_completion_tokens", count_value(run.metrics.total_completion_tokens));
    put_member(&mut object, "cache", row_cache_value(&run.cache, n));
    put_member(&mut object, "report_filename", text_value(run.report_filename.as_str()));
    object_value(object)
}

/// The data of a dashboard: one object for each run.
pub open spec fn dashboard_json(rows: Seq<DashboardRow>) -> Json {
    Json::Array(rows.map_values(|row: DashboardRow| run_json(row.run, row.data)))
}

/// Writes the data of a dashboard.
pub fn dashboard_data(rows: &Vec<DashboardRow>) -> (r: String)
    ensures
        r@ == compact_text(dashboard_json(rows@)),
        reads_back(r@, dashboard_json(rows@)),
{
    let mut out: Vec<serde_json::Value> = Vec::new();
    let mut i: usize = 0;
    while i < rows.len()
        invariant
            i <= rows@.len(),
            out@.len() == i,
            forall|j: int|
                0 <= j < i ==> value_tree(#[trigger] out@[j]) == run_json(
                    rows@[j].run,
                    rows@[j].data,
                ),
        decreases rows@.len() - i,
    {
        out.push(run_value(&rows[i].run, &rows[i].data));
        i += 1;
    }
    proof {
        assert(trees(out@) =~= rows@.map_values(
            |row: DashboardRow| run_json(row.run, row.data),
        ));
    }
    write_compact(&array_value(out))
}

/// One run in the data of a comparison.
pub open spec fn side_json(
    cfg: RunConfig,
    requests: nat,
    status: RunStatus,
    n: SideNumbers,
) -> Json {
    Json::Object(
        no_members()
            .insert("run_id"@, Json::Str(cfg.run_id@))
            .insert("target"@, Json::Str(cfg.target@))
            .insert("model"@, Json::Str(cfg.model@))
            .insert("target_rps"@, value_tree(n.target_rps))
            .insert("duration_secs"@, Json::Count(cfg.duration_secs))
            .insert("total_requests"@, Json::Count(requests as u64))
            .insert("success_rate"@, value_tree(n.success_rate))
            .insert("achieved_rps"@, value_tree(n.achieved_rps))
            .insert("status"@, Json::Str(status.label()))
            .insert("latency_ms"@, value_tree(n.latency_ms)),
    )
}

fn side_value(
    cfg: &RunConfig,
    requests: usize,
    status: RunStatus,
    n: &SideNumbers,
) -> (r: serde_json::Value)
    ensures
        value_tree(r) == side_json(*cfg, requests as nat, status, *n),
{
    let mut object = new_object();
    put_member(&mut object, "run_id", text_value(cfg.run_id.as_str()));
    put_member(&mut object, "target", text_value(cfg.target.as_str()));
    put_member(&mut object, "model", text_value(cfg.model.as_str()));
    put_member(&mut object, "target_rps", copy_value(&n.target_rps));
    put_member(&mut object, "duration_secs", count_value(cfg.duration_secs));
    put_member(&mut object, "total_requests", count_value(requests as u64));
    put_member(&mut object, "success_rate", copy_value(&n.success_rate));
    put_member(&mut object, "achieved_rps", copy_value(&n.achieved_rps));
    put_member(&mut object, "status", text_value(status.as_str()));
    put_member(&mut object, "latency_ms", copy_value(&n.latency_ms));
    object_value(object)
}

/// The data of a comparison.
pub open spec fn comparison_json(inputs: CompareInputs, n: CompareNumbers) -> Json {
    Json::Object(
        no_members()
            .insert("a"@, side_json(inputs.cfg_a, inputs.records_a@.len(), inputs.status_a, n.a))
            .insert("b"@, side_json(inputs.cfg_b, inputs.records_b@.len(), inputs.status_b, n.b))
            .insert("diff"@, value_tree(n.diff)),
    )
}

/// Writes the data of a comparison.
pub fn compare_data(inputs: &CompareInputs, n: &CompareNumbers) -> (r: String)
    ensures
        r@ == compact_text(comparison_json(*inputs, *n)),
        reads_back(r@, comparison_json(*inputs, *n)),
{
    let mut object = new_object();
    put_member(&mut object, "a", side_value(&inputs.cfg_a, inputs.records_a.len(), inputs.status_a, &n.a));
    put_member(&mut object, "b", side_value(&inputs.cfg_b, inputs.records_b.len(), inputs.status_b, &n.b));
    put_member(&mut object, "diff", copy_value(&n.diff));
    write_compact(&object_value(object))
}

} // verus!
