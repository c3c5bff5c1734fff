//! What the data of the pages hold of a run.

use super::charts::{latency_at, status_list};
use super::data::{
    comparison_json, dashboard_json, in_order, latency_json, report_json, row_cache_json, run_json,
    side_json, status_counts_json, status_json, status_labels_json, summary_json, timeline_json,
    CompareNumbers, ReportNumbers, RowNumbers, SideNumbers,
};
use super::model_dashboard::{CacheStatsView, DashboardRow, RunSummary};
use crate::compare::CompareInputs;
use crate::config::{opt_view, RunConfig, RunStatus};
use crate::histogram::percentile_of;
use crate::json::{
    counts_json, number_counts_json, text_counts_json, text_or_null, texts_json, value_tree, Json,
};
use crate::runner::metrics::{
    cache_totals, count_in, failures, n_failed, n_ok, n_status, recorded, total, CacheStats,
    HistKind, Percentile, Quantity, RequestRecord, RunView,
};
use crate::runner::metrics_json::{cache_json, metrics_json, status_counts, MetricNumbers};
use vstd::prelude::*;

verus! {

/// The summary in the data of a report holds the settings and the counts of the run,
/// each under its own name.
#[verifier::rlimit(40)]
pub proof fn a_summary_holds_the_counts_of_its_run(
    cfg: RunConfig,
    v: RunView,
    interrupted: bool,
    n: ReportNumbers,
)
    ensures
        summary_json(cfg, v, interrupted, n).field("run_id"@) == Some(Json::Str(cfg.run_id@)),
        summary_json(cfg, v, interrupted, n).field("target"@) == Some(Json::Str(cfg.target@)),
        summary_json(cfg, v, interrupted, n).field("model"@) == Some(Json::Str(cfg.model@)),
        summary_json(cfg, v, interrupted, n).field("duration_secs"@) == Some(Json::Count(cfg.duration_secs)),
        summary_json(cfg, v, interrupted, n).field("target_rps"@) == Some(value_tree(n.target_rps)),
        summary_json(cfg, v, interrupted, n).field("concurrency"@) == Some(Json::Count(cfg.concurrency as u64)),
        summary_json(cfg, v, interrupted, n).field("stream"@) == Some(Json::Bool(cfg.stream)),
        summary_json(cfg, v, interrupted, n).field("interrupted"@) == Some(Json::Bool(interrupted)),
        summary_json(cfg, v, interrupted, n).field("tag"@) == Some(text_or_null(opt_view(cfg.tag))),
        summary_json(cfg, v, interrupted, n).field("scheduled"@) == Some(Json::Count(v.scheduled)),
        summary_json(cfg, v, interrupted, n).field("skipped"@) == Some(Json::Count(v.skipped)),
        summary_json(cfg, v, interrupted, n).field("total_requests"@) == Some(Json::Count(v.records.len() as u64)),
        summary_json(cfg, v, interrupted, n).field("success_count"@) == Some(Json::Count(n_ok(v.records) as u64)),
        summary_json(cfg, v, interrupted, n).field("error_count"@) == Some(Json::Count(n_failed(v.records) as u64)),
        summary_json(cfg, v, interrupted, n).field("total_completion_tokens"@) == Some(Json::Count(total(v.records, Quantity::Completion) as u64)),
        summary_json(cfg, v, interrupted, n).field("total_prompt_tokens"@) == Some(Json::Count(total(v.records, Quantity::Prompt) as u64)),
        summary_json(cfg, v, interrupted, n).field("pattern_name"@) == Some(Json::Str(cfg.pattern.label())),
        summary_json(cfg, v, interrupted, n).field("pattern"@) == Some(value_tree(n.pattern)),
        summary_json(cfg, v, interrupted, n).field("dataset_name"@) == Some(Json::Str(cfg.dataset.label())),
        summary_json(cfg, v, interrupted, n).field("dataset"@) == Some(value_tree(n.dataset)),
        summary_json(cfg, v, interrupted, n).field("strategy"@) == Some(Json::Str(cfg.strategy.label())),
        summary_json(cfg, v, interrupted, n).field("prompt_distribution"@) == Some(value_tree(n.prompt_distribution)),
{
    reveal(summary_json);
    reveal_strlit("run_id");
    reveal_strlit("target");
    reveal_strlit("model");
    reveal_strlit("duration_secs");
    reveal_strlit("target_rps");
    reveal_strlit("concurrency");
    reveal_strlit("stream");
    reveal_strlit("interrupted");
    reveal_strlit("tag");
    reveal_strlit("scheduled");
    reveal_strlit("skipped");
    reveal_strlit("total_requests");
    reveal_strlit("success_count");
    reveal_strlit("error_count");
    reveal_strlit("total_completion_tokens");
    reveal_strlit("total_prompt_tokens");
    reveal_strlit("pattern_name");
    reveal_strlit("pattern");
    reveal_strlit("dataset_name");
    reveal_strlit("dataset");
    reveal_strlit("strategy");
    reveal_strlit("prompt_distribution");
    assert("run_id"@.len() == 6 && "run_id"@[0] == 'r');
    assert("target"@.len() == 6 && "target"@[0] == 't');
    assert("model"@.len() == 5);
    assert("duration_secs"@.len() == 13 && "duration_secs"@[0] == 'd');
    assert("target_rps"@.len() == 10);
    assert("concurrency"@.len() == 11 && "concurrency"@[0] == 'c');
    assert("stream"@.len() == 6 && "stream"@[0] == 's');
    assert("interrupted"@.len() == 11 && "interrupted"@[0] == 'i');
    assert("tag"@.len() == 3);
    assert("scheduled"@.len() == 9);
    assert("skipped"@.len() == 7 && "skipped"@[0] == 's');
    assert("total_requests"@.len() == 14);
    assert("success_count"@.len() == 13 && "success_count"@[0] == 's');
    assert("error_count"@.len() == 11 && "error_count"@[0] == 'e');
    assert("total_completion_tokens"@.len() == 23);
    assert("total_prompt_tokens"@.len() == 19 && "total_prompt_tokens"@[0] == 't');
    assert("pattern_name"@.len() == 12 && "pattern_name"@[0] == 'p');
    assert("pattern"@.len() == 7 && "pattern"@[0] == 'p');
    assert("dataset_name"@.len() == 12 && "dataset_name"@[0] == 'd');
    assert("dataset"@.len() == 7 && "dataset"@[0] == 'd');
    assert("strategy"@.len() == 8);
    assert("prompt_distribution"@.len() == 19 && "prompt_distribution"@[0] == 'p');
}

/// The data of a report hold its parts under their names.
pub proof fn a_report_holds_its_parts(
    cfg: RunConfig,
    v: RunView,
    interrupted: bool,
    n: ReportNumbers,
)
    ensures
        report_json(cfg, v, interrupted, n).field("summary"@) == Some(summary_json(cfg, v, interrupted, n)),
        report_json(cfg, v, interrupted, n).field("latencyPercentiles"@) == Some(latency_json(n)),
        report_json(cfg, v, interrupted, n).field("statusBreakdown"@) == Some(status_json(v)),
        report_json(cfg, v, interrupted, n).field("rpsTimeline"@) == Some(timeline_json(v)),
        report_json(cfg, v, interrupted, n).field("errors"@) == Some(text_counts_json(failures(v.records))),
{
    reveal_strlit("summary");
    reveal_strlit("latencyPercentiles");
    reveal_strlit("statusBreakdown");
    reveal_strlit("rpsTimeline");
    reveal_strlit("errors");
    assert("summary"@.len() == 7);
    assert("latencyPercentiles"@.len() == 18);
    assert("statusBreakdown"@.len() == 15);
    assert("rpsTimeline"@.len() == 11);
    assert("errors"@.len() == 6);
}

/// The percentiles of the latency are named in the order of their values.
pub proof fn latencies_are_labelled(n: ReportNumbers)
    ensures
        latency_json(n).field("labels"@) == Some(texts_json(seq!["p50"@, "p90"@, "p99"@, "p99.9"@])),
        latency_json(n).field("values_ms"@) == Some(value_tree(n.values_ms)),
{
    reveal_strlit("labels");
    reveal_strlit("values_ms");
    assert("labels"@.len() == 6);
    assert("values_ms"@.len() == 9);
}

/// The statuses stand beside their counts.
pub proof fn statuses_are_labelled(v: RunView)
    ensures
        status_json(v).field("labels"@) == Some(status_labels_json(v)),
        status_json(v).field("counts"@) == Some(status_counts_json(v)),
{
    reveal_strlit("labels");
    reveal_strlit("counts");
    assert("labels"@.len() == 6 && "labels"@[0] == 'l');
    assert("counts"@.len() == 6 && "counts"@[0] == 'c');
}

/// A run in the data of a dashboard holds its settings and its figures, each under its
/// own name.
#[verifier::rlimit(40)]
pub proof fn a_run_holds_its_figures(run: RunSummary, n: RowNumbers)
    ensures
        run_json(run, n).field("run_id"@) == Some(Json::Str(run.run_id@)),
        run_json(run, n).field("started_at"@) == Some(Json::Str(run.started_at@)),
        run_json(run, n).field("target"@) == Some(Json::Str(run.target@)),
        run_json(run, n).field("model"@) == Some(Json::Str(run.model@)),
        run_json(run, n).field("model_alias"@) == Some(text_or_null(opt_view(run.model_alias))),
        run_json(run, n).field("target_rps"@) == Some(value_tree(n.target_rps)),
        run_json(run, n).field("duration_secs"@) == Some(Json::Count(run.metrics.duration_secs)),
        run_json(run, n).field("total_requests"@) == Some(Json::Count(run.metrics.total_requests)),
        run_json(run, n).field("success_rate"@) == Some(value_tree(n.success_rate)),
        run_json(run, n).field("achieved_rps"@) == Some(value_tree(n.achieved_rps)),
        run_json(run, n).field("status"@) == Some(Json::Str(run.status@)),
        run_json(run, n).field("tag"@) == Some(text_or_null(opt_view(run.tag))),
        run_json(run, n).field("latency_ms"@) == Some(value_tree(n.latency_ms)),
        run_json(run, n).field("ttft_ms"@) == Some(value_tree(n.ttft_ms)),
        run_json(run, n).field("itl_ms"@) == Some(value_tree(n.itl_ms)),
        run_json(run, n).field("tps"@) == Some(value_tree(n.tps)),
        run_json(run, n).field("total_completion_tokens"@) == Some(Json::Count(run.metrics.total_completion_tokens)),
        run_json(run, n).field("cache"@) == Some(row_cache_json(run.cache, n)),
        run_json(run, n).field("report_filename"@) == Some(Json::Str(run.report_filename@)),
{
    reveal(run_json);
    reveal_strlit("run_id");
    reveal_strlit("started_at");
    reveal_strlit("target");
    reveal_strlit("model");
    reveal_strlit("model_alias");
    reveal_strlit("target_rps");
    reveal_strlit("duration_secs");
    reveal_strlit("total_requests");
    reveal_strlit("success_rate");
    reveal_strlit("achieved_rps");
    reveal_strlit("status");
    reveal_strlit("tag");
    reveal_strlit("latency_ms");
    reveal_strlit("ttft_ms");
    reveal_strlit("itl_ms");
    reveal_strlit("tps");
    reveal_strlit("total_completion_tokens");
    reveal_strlit("cache");
    reveal_strlit("report_filename");
    assert("run_id"@.len() == 6 && "run_id"@[0] == 'r');
    assert("started_at"@.len() == 10 && "started_at"@[0] == 's');
    assert("target"@.len() == 6 && "target"@[0] == 't');
    assert("model"@.len() == 5 && "model"@[0] == 'm');
    assert("model_alias"@.len() == 11);
    assert("target_rps"@.len() == 10 && "target_rps"@[0] == 't');
    assert("duration_secs"@.len() == 13);
    assert("total_requests"@.len() == 14);
    assert("success_rate"@.len() == 12 && "success_rate"@[0] == 's');
    assert("achieved_rps"@.len() == 12 && "achieved_rps"@[0] == 'a');
    assert("status"@.len() == 6 && "status"@[0] == 's');
    assert("tag"@.len() == 3 && "tag"@[1] == 'a');
    assert("latency_ms"@.len() == 10 && "latency_ms"@[0] == 'l');
    assert("ttft_ms"@.len() == 7);
    assert("itl_ms"@.len() == 6 && "itl_ms"@[0] == 'i');
    assert("tps"@.len() == 3 && "tps"@[1] == 'p');
    assert("total_completion_tokens"@.len() == 23);
    assert("cache"@.len() == 5 && "cache"@[0] == 'c');
    assert("report_filename"@.len() == 15);
}

/// The prompt cache of a run in the data of a dashboard.
pub proof fn a_run_holds_its_cache(c: CacheStatsView, n: RowNumbers)
    ensures
        row_cache_json(c, n).field("rate_overall"@) == Some(value_tree(n.rate_overall)),
        row_cache_json(c, n).field("rate_turn1"@) == Some(value_tree(n.rate_turn1)),
        row_cache_json(c, n).field("rate_turn2plus"@) == Some(value_tree(n.rate_turn2plus)),
        row_cache_json(c, n).field("creation_total"@) == Some(Json::Count(c.creation_total)),
        row_cache_json(c, n).field("hit_total"@) == Some(Json::Count(c.hit_total)),
        row_cache_json(c, n).field("has_continuations"@) == Some(Json::Bool(c.has_continuations)),
        row_cache_json(c, n).field("denominator_total"@) == Some(Json::Count(c.denominator_total as u64)),
{
    reveal_strlit("rate_overall");
    reveal_strlit("rate_turn1");
    reveal_strlit("rate_turn2plus");
    reveal_strlit("creation_total");
    reveal_strlit("hit_total");
    reveal_strlit("has_continuations");
    reveal_strlit("denominator_total");
    assert("rate_overall"@.len() == 12);
    assert("rate_turn1"@.len() == 10);
    assert("rate_turn2plus"@.len() == 14 && "rate_turn2plus"@[0] == 'r');
    assert("creation_total"@.len() == 14 && "creation_total"@[0] == 'c');
    assert("hit_total"@.len() == 9);
    assert("has_continuations"@.len() == 17 && "has_continuations"@[0] == 'h');
    assert("denominator_total"@.len() == 17 && "denominator_total"@[0] == 'd');
}

/// A side of a comparison holds the settings and the figures of its run.
pub proof fn a_side_holds_its_run(
    cfg: RunConfig,
    requests: nat,
    status: RunStatus,
    n: SideNumbers,
)
    ensures
        side_json(cfg, requests, status, n).field("run_id"@) == Some(Json::Str(cfg.run_id@)),
        side_json(cfg, requests, status, n).field("target"@) == Some(Json::Str(cfg.target@)),
        side_json(cfg, requests, status, n).field("model"@) == Some(Json::Str(cfg.model@)),
        side_json(cfg, requests, status, n).field("target_rps"@) == Some(value_tree(n.target_rps)),
        side_json(cfg, requests, status, n).field("duration_secs"@) == Some(Json::Count(cfg.duration_secs)),
        side_json(cfg, requests, status, n).field("total_requests"@) == Some(Json::Count(requests as u64)),
        side_json(cfg, requests, status, n).field("success_rate"@) == Some(value_tree(n.success_rate)),
        side_json(cfg, requests, status, n).field("achieved_rps"@) == Some(value_tree(n.achieved_rps)),
        side_json(cfg, requests, status, n).field("status"@) == Some(Json::Str(status.label())),
        side_json(cfg, requests, status, n).field("latency_ms"@) == Some(value_tree(n.latency_ms)),
{
    reveal_strlit("run_id");
    reveal_strlit("target");
    reveal_strlit("model");
    reveal_strlit("target_rps");
    reveal_strlit("duration_secs");
    reveal_strlit("total_requests");
    reveal_strlit("success_rate");
    reveal_strlit("achieved_rps");
    reveal_strlit("status");
    reveal_strlit("latency_ms");
    assert("run_id"@.len() == 6 && "run_id"@[0] == 'r');
    assert("target"@.len() == 6 && "target"@[0] == 't');
    assert("model"@.len() == 5);
    assert("target_rps"@.len() == 10 && "target_rps"@[0] == 't');
    assert("duration_secs"@.len() == 13);
    assert("total_requests"@.len() == 14);
    assert("success_rate"@.len() == 12 && "success_rate"@[0] == 's');
    assert("achieved_rps"@.len() == 12 && "achieved_rps"@[0] == 'a');
    assert("status"@.len() == 6 && "status"@[0] == 's');
    assert("latency_ms"@.len() == 10 && "latency_ms"@[0] == 'l');
}

/// The first run of a comparison is its side `a`, the second one its side `b`.
pub proof fn a_comparison_holds_its_sides(inputs: CompareInputs, n: CompareNumbers)
    ensures
        comparison_json(inputs, n).field("a"@) == Some(side_json(inputs.cfg_a, inputs.records_a@.len(), inputs.status_a, n.a)),
        comparison_json(inputs, n).field("b"@) == Some(side_json(inputs.cfg_b, inputs.records_b@.len(), inputs.status_b, n.b)),
        comparison_json(inputs, n).field("diff"@) == Some(value_tree(n.diff)),
{
    reveal_strlit("a");
    reveal_strlit("b");
    reveal_strlit("diff");
    assert("a"@.len() == 1 && "a"@[0] == 'a');
    assert("b"@.len() == 1 && "b"@[0] == 'b');
    assert("diff"@.len() == 4);
}

/// The saved metrics of a run hold its counts and its figures, each under its own
/// name.
#[verifier::rlimit(40)]
pub proof fn saved_metrics_hold_the_counts(v: RunView, n: MetricNumbers, per_request: Seq<Json>)
    ensures
        metrics_json(v, n, per_request).field("run_started_at"@) == Some(Json::Str(v.run_started_at)),
        metrics_json(v, n, per_request).field("scheduled"@) == Some(Json::Count(v.scheduled)),
        metrics_json(v, n, per_request).field("skipped"@) == Some(Json::Count(v.skipped)),
        metrics_json(v, n, per_request).field("total_requests"@) == Some(Json::Count(v.records.len() as u64)),
        metrics_json(v, n, per_request).field("success_count"@) == Some(Json::Count(n_ok(v.records) as u64)),
        metrics_json(v, n, per_request).field("error_count"@) == Some(Json::Count(n_failed(v.records) as u64)),
        metrics_json(v, n, per_request).field("total_completion_tokens"@) == Some(Json::Count(total(v.records, Quantity::Completion) as u64)),
        metrics_json(v, n, per_request).field("total_prompt_tokens"@) == Some(Json::Count(total(v.records, Quantity::Prompt) as u64)),
        metrics_json(v, n, per_request).field("status_codes"@) == Some(number_counts_json(status_counts(v.records))),
        metrics_json(v, n, per_request).field("error_messages"@) == Some(text_counts_json(failures(v.records))),
        metrics_json(v, n, per_request).field("per_second_completed"@) == Some(number_counts_json(v.completed)),
        metrics_json(v, n, per_request).field("per_second_started"@) == Some(number_counts_json(v.started)),
        metrics_json(v, n, per_request).field("session_count"@) == Some(Json::Count(v.sessions)),
        metrics_json(v, n, per_request).field("session_turn_total"@) == Some(Json::Count(v.records.len() as u64)),
        metrics_json(v, n, per_request).field("session_dropped"@) == Some(Json::Count(v.dropped)),
        metrics_json(v, n, per_request).field("avg_latency_ms"@) == Some(value_tree(n.avg_latency_ms)),
        metrics_json(v, n, per_request).field("tpot_ms"@) == Some(value_tree(n.tpot_ms)),
        metrics_json(v, n, per_request).field("output_throughput_tps"@) == Some(value_tree(n.output_throughput_tps)),
        metrics_json(v, n, per_request).field("total_throughput_tps"@) == Some(value_tree(n.total_throughput_tps)),
        metrics_json(v, n, per_request).field("avg_turns_per_request"@) == Some(value_tree(n.avg_turns_per_request)),
        metrics_json(v, n, per_request).field("spec_decoded_per_iter"@) == Some(value_tree(n.spec_decoded_per_iter)),
        metrics_json(v, n, per_request).field("spec_accept_rate"@) == Some(value_tree(n.spec_accept_rate)),
        metrics_json(v, n, per_request).field("cache"@) == Some(cache_json(cache_totals(v.records), n)),
        metrics_json(v, n, per_request).field("per_request"@) == Some(Json::Array(per_request)),
{
    reveal(metrics_json);
    reveal_strlit("run_started_at");
    reveal_strlit("scheduled");
    reveal_strlit("skipped");
    reveal_strlit("total_requests");
    reveal_strlit("success_count");
    reveal_strlit("error_count");
    reveal_strlit("total_completion_tokens");
    reveal_strlit("total_prompt_tokens");
    reveal_strlit("status_codes");
    reveal_strlit("error_messages");
    reveal_strlit("per_second_completed");
    reveal_strlit("per_second_started");
    reveal_strlit("session_count");
    reveal_strlit("session_turn_total");
    reveal_strlit("session_dropped");
    reveal_strlit("avg_latency_ms");
    reveal_strlit("tpot_ms");
    reveal_strlit("output_throughput_tps");
    reveal_strlit("total_throughput_tps");
    reveal_strlit("avg_turns_per_request");
    reveal_strlit("spec_decoded_per_iter");
    reveal_strlit("spec_accept_rate");
    reveal_strlit("cache");
    reveal_strlit("per_request");
    assert("run_started_at"@.len() == 14 && "run_started_at"@[0] == 'r');
    assert("scheduled"@.len() == 9);
    assert("skipped"@.len() == 7 && "skipped"@[0] == 's');
    assert("total_requests"@.len() == 14 && "total_requests"@[0] == 't');
    assert("success_count"@.len() == 13 && "success_count"@[1] == 'u');
    assert("error_count"@.len() == 11 && "error_count"@[0] == 'e');
    assert("total_completion_tokens"@.len() == 23);
    assert("total_prompt_tokens"@.len() == 19);
    assert("status_codes"@.len() == 12);
    assert("error_messages"@.len() == 14 && "error_messages"@[0] == 'e');
    assert("per_second_completed"@.len() == 20 && "per_second_completed"@[0] == 'p');
    assert("per_second_started"@.len() == 18 && "per_second_started"@[0] == 'p');
    assert("session_count"@.len() == 13 && "session_count"@[1] == 'e');
    assert("session_turn_total"@.len() == 18 && "session_turn_total"@[0] == 's');
    assert("session_dropped"@.len() == 15);
    assert("avg_latency_ms"@.len() == 14 && "avg_latency_ms"@[0] == 'a');
    assert("tpot_ms"@.len() == 7 && "tpot_ms"@[0] == 't');
    assert("output_throughput_tps"@.len() == 21 && "output_throughput_tps"@[0] == 'o');
    assert("total_throughput_tps"@.len() == 20 && "total_throughput_tps"@[0] == 't');
    assert("avg_turns_per_request"@.len() == 21 && "avg_turns_per_request"@[0] == 'a');
    assert("spec_decoded_per_iter"@.len() == 21 && "spec_decoded_per_iter"@[0] == 's');
    assert("spec_accept_rate"@.len() == 16);
    assert("cache"@.len() == 5);
    assert("per_request"@.len() == 11 && "per_request"@[0] == 'p');
}

/// The prompt cache in the saved metrics.
pub proof fn saved_metrics_hold_the_cache(c: CacheStats, n: MetricNumbers)
    ensures
        cache_json(c, n).field("creation_total"@) == Some(Json::Count(c.cache_creation_total)),
        cache_json(c, n).field("hit_total"@) == Some(Json::Count(c.cache_hit_total)),
        cache_json(c, n).field("rate_overall_pct"@) == Some(value_tree(n.rate_overall_pct)),
        cache_json(c, n).field("rate_turn1_pct"@) == Some(value_tree(n.rate_turn1_pct)),
        cache_json(c, n).field("rate_turn2plus_pct"@) == Some(value_tree(n.rate_turn2plus_pct)),
        cache_json(c, n).field("creation_turn1"@) == Some(Json::Count(c.cache_creation_turn1)),
        cache_json(c, n).field("creation_turn2plus"@) == Some(Json::Count(c.cache_creation_turn2plus)),
{
    reveal_strlit("creation_total");
    reveal_strlit("hit_total");
    reveal_strlit("rate_overall_pct");
    reveal_strlit("rate_turn1_pct");
    reveal_strlit("rate_turn2plus_pct");
    reveal_strlit("creation_turn1");
    reveal_strlit("creation_turn2plus");
    assert("creation_total"@.len() == 14 && "creation_total"@[0] == 'c' && "creation_total"@[10] == 'o');
    assert("hit_total"@.len() == 9);
    assert("rate_overall_pct"@.len() == 16);
    assert("rate_turn1_pct"@.len() == 14 && "rate_turn1_pct"@[0] == 'r');
    assert("rate_turn2plus_pct"@.len() == 18 && "rate_turn2plus_pct"@[0] == 'r');
    assert("creation_turn1"@.len() == 14 && "creation_turn1"@[0] == 'c' && "creation_turn1"@[10] == 'u');
    assert("creation_turn2plus"@.len() == 18 && "creation_turn2plus"@[0] == 'c');
}

/// The timeline counts, for each second in which something was started or
/// completed, what was started and what was completed in it; the seconds rise.
pub proof fn the_timeline_counts_each_second(v: RunView, seconds: Seq<u64>)
    requires
        forall|i: int, j: int| 0 <= i < j < seconds.len() ==> seconds[i] < seconds[j],
        forall|s: u64|
            seconds.contains(s) <==> v.started.contains_key(s) || v.completed.contains_key(s),
    ensures
        timeline_json(v).field("seconds"@) == Some(counts_json(seconds)),
        timeline_json(v).field("started"@) == Some(
            counts_json(
                seconds.map_values(
                    |s: u64|
                        if v.started.contains_key(s) {
                            v.started[s]
                        } else {
                            0
                        },
                ),
            ),
        ),
        timeline_json(v).field("completed"@) == Some(
            counts_json(
                seconds.map_values(
                    |s: u64|
                        if v.completed.contains_key(s) {
                            v.completed[s]
                        } else {
                            0
                        },
                ),
            ),
        ),
{
    reveal_strlit("seconds");
    reveal_strlit("started");
    reveal_strlit("completed");
    assert("seconds"@.len() == 7 && "seconds"@[1] == 'e');
    assert("started"@.len() == 7 && "started"@[1] == 't');
    assert("completed"@.len() == 9);
    let all = v.started.dom().union(v.completed.dom());
    assert(seconds.to_set() =~= all) by {
        assert forall|s: u64| seconds.to_set().contains(s) <==> all.contains(s) by {
            assert(seconds.to_set().contains(s) <==> seconds.contains(s));
        }
    }
    assert(crate::tables::ascending(seconds) && seconds.to_set() == all);
    crate::tables::ascending_is_unique(in_order(all), seconds);
    assert(seconds.map_values(|s: u64| count_in(v.started, s) as u64) =~= seconds.map_values(
        |s: u64|
            if v.started.contains_key(s) {
                v.started[s]
            } else {
                0
            },
    ));
    assert(seconds.map_values(|s: u64| count_in(v.completed, s) as u64) =~= seconds.map_values(
        |s: u64|
            if v.completed.contains_key(s) {
                v.completed[s]
            } else {
                0
            },
    ));
}

/// The statuses of a run are listed in rising order, each with the number of
/// requests that had it; every status that occurred is there, and no other.
pub proof fn statuses_are_listed_in_order(rs: Seq<RequestRecord>)
    ensures
        forall|i: int, j: int|
            0 <= i < j < status_list(rs, 0).len() ==> (#[trigger] status_list(rs, 0)[i]).0 < (
            #[trigger] status_list(rs, 0)[j]).0,
        forall|i: int|
            0 <= i < status_list(rs, 0).len() ==> {
                &&& (#[trigger] status_list(rs, 0)[i]).1 == n_status(rs, status_list(rs, 0)[i].0)
                &&& status_list(rs, 0)[i].1 > 0
            },
        forall|code: u16| #[trigger]
            n_status(rs, code) > 0 ==> status_list(rs, 0).contains((code, n_status(rs, code))),
{
    statuses_from(rs, 0);
}

proof fn statuses_from(rs: Seq<RequestRecord>, from: int)
    requires
        0 <= from <= 0x10000,
    ensures
        forall|i: int, j: int|
            0 <= i < j < status_list(rs, from).len() ==> (#[trigger] status_list(rs, from)[i]).0 < (
            #[trigger] status_list(rs, from)[j]).0,
        forall|i: int|
            0 <= i < status_list(rs, from).len() ==> {
                &&& (#[trigger] status_list(rs, from)[i]).1 == n_status(
                    rs,
                    status_list(rs, from)[i].0,
                )
                &&& status_list(rs, from)[i].1 > 0
                &&& status_list(rs, from)[i].0 >= from
            },
        forall|code: u16| #[trigger]
            n_status(rs, code) > 0 && code >= from ==> status_list(rs, from).contains(
                (code, n_status(rs, code)),
            ),
    decreases 0x10000 - from,
{
    if from < 0x10000 {
        statuses_from(rs, from + 1);
        let rest = status_list(rs, from + 1);
        let all = status_list(rs, from);
        if n_status(rs, from as u16) > 0 {
            assert(all.len() == rest.len() + 1);
            assert forall|i: int| 0 <= i < rest.len() implies #[trigger] all[i + 1] == rest[i] by {}
            assert forall|i: int, j: int| 0 <= i < j < all.len() implies (#[trigger] all[i]).0 < (
            #[trigger] all[j]).0 by {
                assert(all[j] == rest[j - 1]);
                if i > 0 {
                    assert(all[i] == rest[i - 1]);
                }
            }
            assert forall|i: int| 0 <= i < all.len() implies {
                &&& (#[trigger] all[i]).1 == n_status(rs, all[i].0)
                &&& all[i].1 > 0
                &&& all[i].0 >= from
            } by {
                if i > 0 {
                    assert(all[i] == rest[i - 1]);
                }
            }
            assert forall|code: u16| #[trigger]
                n_status(rs, code) > 0 && code >= from implies all.contains(
                (code, n_status(rs, code)),
            ) by {
                if code == from {
                    assert(all[0] == (code, n_status(rs, code)));
                } else {
                    let k = rest.index_of((code, n_status(rs, code)));
                    assert(rest.contains((code, n_status(rs, code))));
                    assert(all[k + 1] == (code, n_status(rs, code)));
                }
            }
        } else {
            assert(all == rest);
        }
    }
}

/// A dashboard holds its runs in order.
pub proof fn a_dashboard_holds_its_runs(rows: Seq<DashboardRow>)
    ensures
        dashboard_json(rows) matches Json::Array(items) && items.len() == rows.len() && forall|
            i: int,
        |
            0 <= i < rows.len() ==> #[trigger] items[i] == run_json(rows[i].run, rows[i].data),
{
}

/// The latency chart shows a percentile of the recorded durations, and zero where
/// there are none.
pub proof fn the_latency_chart_shows_percentiles(rs: Seq<RequestRecord>)
    ensures
        recorded(rs, HistKind::Latency).len() > 0 ==> {
            &&& latency_at(rs, Percentile::P50) == percentile_of(
                recorded(rs, HistKind::Latency),
                "50"@,
            )
            &&& latency_at(rs, Percentile::P90) == percentile_of(
                recorded(rs, HistKind::Latency),
                "90"@,
            )
            &&& latency_at(rs, Percentile::P99) == percentile_of(
                recorded(rs, HistKind::Latency),
                "99"@,
            )
            &&& latency_at(rs, Percentile::P999) == percentile_of(
                recorded(rs, HistKind::Latency),
                "99.9"@,
            )
        },
        recorded(rs, HistKind::Latency).len() == 0 ==> latency_at(rs, Percentile::P50) == 0,
{
}

} // verus!
