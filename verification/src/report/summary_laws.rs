//! What the summary of a run says.

use super::charts::status_list;
use super::data_laws::statuses_are_listed_in_order;
use super::figures::PatternFigures;
use super::html::preview;
use super::summary::{
    cache_rate_line, cache_text, dataset_detail, error_lines, errors_text, figure_line,
    latency_text, results_text, right_aligned, setup_text, status_lines, statuses_text,
    summary_text, token_text, SummaryFigures,
};
use crate::client::bool_label;
use crate::config::{DatasetSpec, RunConfig};
use crate::runner::metrics::{
    cache_totals, failures, n_failed, n_ok, n_status, recorded, total, CacheStats, HistKind,
    Quantity, RequestRecord, RunView,
};
use crate::shown::{group_shown, shown_within, shows};
use crate::tables::ranked;
use crate::text::decimal;
use vstd::prelude::*;

verus! {

/// A summary shows the set-up of the run, its results, its latencies, the times
/// of its tokens, its statuses, its failures and its cache, all of the requests
/// of that run.
pub proof fn a_summary_shows_its_run(
    cfg: RunConfig,
    run: RunView,
    interrupted: bool,
    figures: SummaryFigures,
)
    ensures
        shows(summary_text(cfg, run, interrupted, figures), setup_text(cfg, figures)),
        shows(
            summary_text(cfg, run, interrupted, figures),
            results_text(run, figures, interrupted),
        ),
        shows(
            summary_text(cfg, run, interrupted, figures),
            latency_text(run.records, figures),
        ),
        shows(summary_text(cfg, run, interrupted, figures), token_text(run.records, figures)),
        shows(summary_text(cfg, run, interrupted, figures), statuses_text(run.records)),
        shows(summary_text(cfg, run, interrupted, figures), errors_text(failures(run.records))),
        shows(
            summary_text(cfg, run, interrupted, figures),
            cache_text(cache_totals(run.records), figures),
        ),
{
    broadcast use group_shown;

}

/// Each line of the set-up shows the setting that it names.
pub proof fn each_setting_is_named(cfg: RunConfig, figures: SummaryFigures)
    ensures
        shows(setup_text(cfg, figures), "power_test summary — run "@ + cfg.run_id@),
        shows(setup_text(cfg, figures), "started: "@ + cfg.started_at@ + "\ntarget:  "@
            + cfg.target@ + "\nmodel:   "@ + cfg.model@ + "\n"@),
        shows(
            setup_text(cfg, figures),
            "api:     "@ + cfg.api.label() + "\nload:    rps="@ + figures.rps@ + " duration="@
                + decimal(cfg.duration_secs as nat) + "s concurrency="@ + decimal(
                cfg.concurrency as nat,
            ) + " stream="@ + bool_label(cfg.stream) + "\npattern: "@ + cfg.pattern.label()
                + " ("@ + figures.pattern.detail() + ")\ndataset: "@ + cfg.dataset.label() + " ("@
                + dataset_detail(cfg.dataset) + ") · strategy="@ + cfg.strategy.label(),
        ),
        shows(
            setup_text(cfg, figures),
            decimal(cfg.prompt_distribution.count as nat) + " prompts (min "@ + decimal(
                cfg.prompt_distribution.min as nat,
            ) + " / mean "@ + figures.prompt_mean@ + " / max "@ + decimal(
                cfg.prompt_distribution.max as nat,
            ),
        ),
        cfg.tag matches Some(tag) ==> shows(setup_text(cfg, figures), "tag:     "@ + tag@ + "\n"@),
        cfg.model_alias matches Some(alias) ==> shows(
            setup_text(cfg, figures),
            "alias:   "@ + alias@ + "\n"@,
        ),
{
    broadcast use group_shown;

    let text = setup_text(cfg, figures);
    if let Some(tag) = cfg.tag {
        assert(shows(text, super::summary::optional_line("tag:     "@, Some(tag@))));
    }
    if let Some(alias) = cfg.model_alias {
        assert(shows(text, super::summary::optional_line("alias:   "@, Some(alias@))));
    }
}

/// The results count what was scheduled, what was completed, what of it
/// succeeded and what failed, the ticks that were skipped and the tokens; a run
/// that was broken off is called so, and no other.
pub proof fn each_result_is_counted(run: RunView, figures: SummaryFigures, interrupted: bool)
    ensures
        shows(
            results_text(run, figures, interrupted),
            "results\n-------\nscheduled:        "@ + decimal(run.scheduled as nat)
                + "\ncompleted:        "@ + decimal(run.records.len()) + "\n  success:       "@
                + decimal(n_ok(run.records)) + "\n  error:         "@ + decimal(
                n_failed(run.records),
            ) + "\nskipped ticks:    "@ + decimal(run.skipped as nat) + "\nachieved rps:     "@
                + figures.achieved_rps@ + " (target "@ + figures.target_rps@
                + ")\ntotal tokens:     "@ + decimal(total(run.records, Quantity::Completion)),
        ),
        interrupted ==> shows(
            results_text(run, figures, interrupted),
            "interrupted:      yes\n"@,
        ),
        !interrupted ==> results_text(run, figures, interrupted).len() + "interrupted:      yes\n"@.len()
            == results_text(run, figures, true).len(),
{
    broadcast use group_shown;

    reveal_strlit("");
    assert(""@.len() == 0);
}

/// A line shows its figure behind its name, or that there is no data where
/// nothing was recorded.
pub proof fn a_line_shows_its_figure(head: Seq<char>, gap: Seq<char>, text: Seq<char>)
    ensures
        shows(figure_line(head, gap, true, text), head + gap + right_aligned(text, 10) + "\n"@),
        figure_line(head, gap, false, text) == head + gap + "  (no data)\n"@,
        shows(right_aligned(text, 10), text),
{
    broadcast use group_shown;

}

/// Each latency and each time of a token stands behind the percentile, or the
/// mean, that it is, under the heading of its quantity.
pub proof fn each_figure_stands_behind_its_name(rs: Seq<RequestRecord>, figures: SummaryFigures)
    ensures
        ({
            let any = recorded(rs, HistKind::Latency).len() > 0;
            shows(
                latency_text(rs, figures),
                "latency (ms)\n-----------\n"@ + figure_line(
                    "  p  50:"@,
                    " "@,
                    any,
                    figures.latency.p50@,
                ) + figure_line("  p  90:"@, " "@, any, figures.latency.p90@) + figure_line(
                    "  p  99:"@,
                    " "@,
                    any,
                    figures.latency.p99@,
                ) + figure_line("  p99.9:"@, " "@, any, figures.latency.p999@),
            )
        }),
        ({
            let any = recorded(rs, HistKind::Ttft).len() > 0;
            shows(
                token_text(rs, figures),
                "ttft (ms)\n---------\n"@ + figure_line("  p50:"@, "  "@, any, figures.ttft_p50@)
                    + figure_line("  p99:"@, "  "@, any, figures.ttft_p99@),
            )
        }),
        ({
            let any = recorded(rs, HistKind::Itl).len() > 0;
            shows(
                token_text(rs, figures),
                "\nitl (ms)\n--------\n"@ + figure_line("  mean:"@, " "@, any, figures.itl_mean@)
                    + figure_line("  p99:"@, "  "@, any, figures.itl_p99@),
            )
        }),
        shows(
            token_text(rs, figures),
            "\ntps (tokens/sec)\n----------------\n  mean: "@ + right_aligned(figures.tps_mean@, 10)
                + "\n  p99:  "@ + right_aligned(figures.tps_p99@, 10),
        ),
{
    broadcast use group_shown;

}

/// Each status is listed with its count, and each failure with its own.
pub proof fn each_status_and_failure_has_a_line(
    rows: Seq<(u16, nat)>,
    errors: Seq<(Seq<char>, nat)>,
    i: int,
)
    ensures
        0 <= i < rows.len() ==> shows(
            status_lines(rows),
            "  "@ + decimal(rows[i].0 as nat) + ": "@ + decimal(rows[i].1) + "\n"@,
        ),
        0 <= i < errors.len() ==> shows(
            error_lines(errors),
            "  ["@ + decimal(errors[i].1) + "] "@ + errors[i].0 + "\n"@,
        ),
        errors.len() > 0 ==> shows(errors_text(errors), error_lines(ranked(errors))),
        errors.len() == 0 ==> errors_text(errors).len() == 0,
    decreases rows.len() + errors.len(),
{
    broadcast use group_shown;

    if 0 <= i < rows.len() {
        if i < rows.len() - 1 {
            each_status_and_failure_has_a_line(rows.drop_last(), Seq::empty(), i);
        } else {
            assert(rows.last() == rows[i]);
        }
    }
    if 0 <= i < errors.len() {
        if i < errors.len() - 1 {
            each_status_and_failure_has_a_line(Seq::empty(), errors.drop_last(), i);
        } else {
            assert(errors.last() == errors[i]);
        }
    }
}

/// The cache is summed up where it took or held something: its rates, each with
/// the hits and the prompt tokens that it comes from, overall, of first turns
/// and of later ones, and the tokens that it took.
pub proof fn each_cache_rate_stands_beside_its_counts(c: CacheStats, figures: SummaryFigures)
    ensures
        c.cache_creation_total == 0 && c.cache_hit_total == 0 ==> cache_text(c, figures).len() == 0,
        c.cache_creation_total > 0 || c.cache_hit_total > 0 ==> {
            &&& shows(
                cache_text(c, figures),
                "prompt cache\n------------\n"@ + cache_rate_line(
                    "  hit rate:        "@,
                    figures.cache_overall@,
                    c.cache_hit_total as nat,
                    (c.prompt_turn1 + c.prompt_turn2plus) as nat,
                ) + cache_rate_line(
                    "    turn 1:        "@,
                    figures.cache_turn1@,
                    c.cache_hit_turn1 as nat,
                    c.prompt_turn1 as nat,
                ) + cache_rate_line(
                    "    turn 2+:       "@,
                    figures.cache_turn2plus@,
                    c.cache_hit_turn2plus as nat,
                    c.prompt_turn2plus as nat,
                ),
            )
            &&& shows(
                cache_text(c, figures),
                "  cache creation:  "@ + decimal(c.cache_creation_total as nat)
                    + " tokens (turn 1: "@ + decimal(c.cache_creation_turn1 as nat)
                    + " · turn 2+: "@ + decimal(c.cache_creation_turn2plus as nat),
            )
        },
{
    broadcast use group_shown;

}

/// A rate of the cache stands before the hits and the prompt tokens.
pub proof fn hits_stand_before_prompts(head: Seq<char>, rate: Seq<char>, hits: nat, prompts: nat)
    ensures
        shows(
            cache_rate_line(head, rate, hits, prompts),
            head + right_aligned(rate, 6) + "%   ("@ + decimal(hits) + " / "@ + decimal(prompts)
                + " prompt tokens)\n"@,
        ),
{
    broadcast use group_shown;

}

/// How a load and a dataset are described: a ramp from its start to its end, a
/// burst by its time, its rate and its length.
pub proof fn details_name_their_numbers(pattern: PatternFigures, dataset: DatasetSpec)
    ensures
        match pattern {
            PatternFigures::Constant { rps } => pattern.detail() == rps@ + " rps"@,
            PatternFigures::Ramp { start, end, duration_secs } => pattern.detail() == start@
                + " → "@ + end@ + " rps over "@ + duration_secs@ + "s"@,
            PatternFigures::Spike { baseline, spikes } => {
                &&& shows(pattern.detail(), "baseline "@ + baseline@ + " rps, spikes:"@)
                &&& forall|i: int|
                    0 <= i < spikes@.len() ==> shows(
                        pattern.detail(),
                        " t="@ + (#[trigger] spikes@[i]).at_secs@ + "s@"@ + spikes@[i].rps@
                            + "rps/"@ + spikes@[i].duration_secs@ + "s"@,
                    )
            },
            PatternFigures::Soak { rps, checkpoint_secs } => pattern.detail() == rps@
                + " rps · checkpoint every "@ + decimal(checkpoint_secs as nat) + "s"@,
        },
        match dataset {
            DatasetSpec::Literal { text } => dataset_detail(dataset) == "\""@ + preview(text@, 40)
                + "\""@,
            DatasetSpec::TokenBudget { target_tokens } => dataset_detail(dataset) == "~"@ + decimal(
                target_tokens as nat,
            ) + " tokens"@,
            DatasetSpec::Builtin => true,
            DatasetSpec::ShareGpt { path } => dataset_detail(dataset) == path@,
            DatasetSpec::Custom { path } => dataset_detail(dataset) == path@,
        },
{
    broadcast use group_shown;

    if let PatternFigures::Spike { baseline, spikes } = pattern {
        assert forall|i: int| 0 <= i < spikes@.len() implies shows(
            pattern.detail(),
            " t="@ + (#[trigger] spikes@[i]).at_secs@ + "s@"@ + spikes@[i].rps@ + "rps/"@
                + spikes@[i].duration_secs@ + "s"@,
        ) by {
            a_burst_is_described(spikes@, i);
            assert(shows(pattern.detail(), super::figures::spikes_text(spikes@)));
            shown_within(
                pattern.detail(),
                super::figures::spikes_text(spikes@),
                " t="@ + spikes@[i].at_secs@ + "s@"@ + spikes@[i].rps@ + "rps/"@
                    + spikes@[i].duration_secs@ + "s"@,
            );
        }
    }
}

proof fn a_burst_is_described(spikes: Seq<super::figures::SpikeFigures>, i: int)
    requires
        0 <= i < spikes.len(),
    ensures
        shows(
            super::figures::spikes_text(spikes),
            " t="@ + spikes[i].at_secs@ + "s@"@ + spikes[i].rps@ + "rps/"@
                + spikes[i].duration_secs@ + "s"@,
        ),
    decreases spikes.len(),
{
    broadcast use group_shown;

    if i < spikes.len() - 1 {
        a_burst_is_described(spikes.drop_last(), i);
    } else {
        assert(spikes.last() == spikes[i]);
    }
}

/// Every status that occurred has a line with the number of requests that had
/// it; without a request there is no block of statuses.
pub proof fn every_status_has_a_line(rs: Seq<RequestRecord>, code: u16)
    ensures
        n_status(rs, code) > 0 ==> shows(
            statuses_text(rs),
            "  "@ + decimal(code as nat) + ": "@ + decimal(n_status(rs, code)) + "\n"@,
        ),
        (forall|c: u16| #[trigger] n_status(rs, c) == 0) ==> statuses_text(rs).len() == 0,
{
    broadcast use group_shown;

    let rows = status_list(rs, 0);
    statuses_are_listed_in_order(rs);
    if n_status(rs, code) > 0 {
        let row = (code, n_status(rs, code));
        assert(rows.contains(row));
        let i = rows.index_of(row);
        each_status_and_failure_has_a_line(rows, Seq::empty(), i);
        assert(shows(statuses_text(rs), status_lines(rows)));
        shown_within(
            statuses_text(rs),
            status_lines(rows),
            "  "@ + decimal(code as nat) + ": "@ + decimal(n_status(rs, code)) + "\n"@,
        );
    }
    if forall|c: u16| #[trigger] n_status(rs, c) == 0 {
        if rows.len() > 0 {
            assert(rows[0].1 == n_status(rs, rows[0].0));
        }
    }
}

} // verus!
