//! What the pages show of a run.

use super::data::{dashboard_json, report_json};
use super::figures::{CacheFigures, ReportFigures};
use super::html::{
    advanced_html, alias_html, cache_headline, cache_html, cache_subline, cards_html, cell,
    compare_panel_html, configuration_html, dataset_source, decoding_html, error_rows, errors_html,
    interrupted_html, labelled, later_turns_html, link_options, lower_html, no_later_turns_html,
    preview, report_html, run_line_html, scripts_html, speculative_html, statistics_html,
    success_class, tag_html, turn2plus_html, PageParts,
};
use super::i18n::{translated, Locale};
use super::model_dashboard::{
    dashboard_html, row_html, rows_html, runs_table_html, subtitle_text, table_head_html,
    DashboardRow,
};
use crate::client::bool_label;
use crate::config::{opt_view, DatasetSpec, RunConfig};
use crate::json::compact_text;
use crate::runner::metrics::{
    cache_totals, failures, n_ok, rates, recorded, total, CacheStats, HistKind, Quantity,
    RequestRecord, RunView,
};
use crate::shown::{group_shown, shown_within, shows};
use crate::tables::ranked;
use crate::text::{decimal, escaped, replaced, script_safe};
use vstd::prelude::*;

verus! {

/// The report of a run shows the run, the pages it can be compared on, the cards,
/// the configuration, the statistics, the cache and the failures, all of the
/// requests of that run, and holds its data.
pub proof fn a_report_shows_its_run(
    cfg: RunConfig,
    v: RunView,
    interrupted: bool,
    links: Seq<(String, String)>,
    figures: ReportFigures,
    parts: PageParts,
)
    ensures
        shows(
            report_html(cfg, v, interrupted, links, figures, parts),
            run_line_html(cfg, interrupted),
        ),
        shows(
            report_html(cfg, v, interrupted, links, figures, parts),
            compare_panel_html(links),
        ),
        shows(
            report_html(cfg, v, interrupted, links, figures, parts),
            cards_html(cfg, v.records, figures),
        ),
        shows(
            report_html(cfg, v, interrupted, links, figures, parts),
            configuration_html(cfg, figures),
        ),
        shows(
            report_html(cfg, v, interrupted, links, figures, parts),
            statistics_html(v.records, figures),
        ),
        shows(
            report_html(cfg, v, interrupted, links, figures, parts),
            advanced_html(v.records, figures),
        ),
        shows(
            report_html(cfg, v, interrupted, links, figures, parts),
            cache_html(cache_totals(v.records), figures.cache),
        ),
        shows(
            report_html(cfg, v, interrupted, links, figures, parts),
            lower_html(v.records, parts.version@),
        ),
        shows(
            report_html(cfg, v, interrupted, links, figures, parts),
            scripts_html(compact_text(report_json(cfg, v, interrupted, figures.data))),
        ),
{
    broadcast use group_shown;

}

/// The line under the title names the run and the time at which it started.
pub proof fn the_title_names_the_run(cfg: RunConfig, interrupted: bool)
    ensures
        shows(
            run_line_html(cfg, interrupted),
            labelled("page.run_label"@)
                + "</span> <code>"@
                + escaped(cfg.run_id@),
        ),
        shows(
            run_line_html(cfg, interrupted),
            labelled("page.started_label"@)
                + "</span> <code>"@
                + cfg.started_at@
                + "</code>"@
                + interrupted_html(interrupted),
        ),
{
    broadcast use group_shown;

}

/// Each card shows the value that its label names.
pub proof fn each_card_shows_its_value(cfg: RunConfig, rs: Seq<RequestRecord>, figures: ReportFigures)
    ensures
        shows(
            cards_html(cfg, rs, figures),
            labelled("card.target"@)
                + r#"</div><div class="value" style="font-size:14px;word-break:break-all;">"#@
                + escaped(cfg.target@),
        ),
        shows(
            cards_html(cfg, rs, figures),
            labelled("card.model"@)
                + r#"</div><div class="value" style="font-size:18px;">"#@
                + escaped(cfg.model@),
        ),
        shows(
            cards_html(cfg, rs, figures),
            labelled("card.duration"@)
                + r#"</div><div class="value">"#@
                + decimal(cfg.duration_secs as nat),
        ),
        shows(
            cards_html(cfg, rs, figures),
            labelled("card.target_rps"@)
                + r#"</div><div class="value">"#@
                + figures.target_rps@,
        ),
        shows(
            cards_html(cfg, rs, figures),
            labelled("card.achieved_rps"@)
                + r#"</div><div class="value">"#@
                + figures.achieved_rps@,
        ),
        shows(
            cards_html(cfg, rs, figures),
            labelled("card.success_rate"@)
                + r#"</div><div class="value "#@
                + success_class(rs)
                + r#"">"#@
                + figures.success_rate@,
        ),
        shows(
            cards_html(cfg, rs, figures),
            labelled("card.total_requests"@)
                + r#"</div><div class="value">"#@
                + decimal(rs.len()),
        ),
        shows(
            cards_html(cfg, rs, figures),
            labelled("card.total_tokens"@)
                + r#"</div><div class="value">"#@
                + decimal(total(rs, Quantity::Completion) as nat),
        ),
{
    broadcast use group_shown;

}

/// Each row of the configuration shows the setting that its label names.
pub proof fn each_setting_stands_behind_its_label(cfg: RunConfig, figures: ReportFigures)
    ensures
        shows(
            configuration_html(cfg, figures),
            labelled("config.run_id"@)
                + "</td><td><code>"@
                + escaped(cfg.run_id@),
        ),
        shows(
            configuration_html(cfg, figures),
            labelled("config.tag"@)
                + "</td><td>"@
                + tag_html(opt_view(cfg.tag)),
        ),
        shows(
            configuration_html(cfg, figures),
            labelled("config.started"@)
                + "</td><td><code>"@
                + cfg.started_at@,
        ),
        shows(
            configuration_html(cfg, figures),
            labelled("config.target"@)
                + r#"</td><td><code style="word-break:break-all;">"#@
                + escaped(cfg.target@),
        ),
        shows(
            configuration_html(cfg, figures),
            labelled("config.api"@)
                + "</td><td><code>"@
                + cfg.api.label(),
        ),
        shows(
            configuration_html(cfg, figures),
            labelled("config.model"@)
                + "</td><td><code>"@
                + escaped(cfg.model@)
                + "</code> "@
                + alias_html(opt_view(cfg.model_alias)),
        ),
        shows(
            configuration_html(cfg, figures),
            labelled("config.pattern"@)
                + "</td><td><code>"@
                + cfg.pattern.label()
                + "</code>"@
                + escaped(" · "@ + figures.pattern.detail()),
        ),
        shows(
            configuration_html(cfg, figures),
            labelled("card.target_rps"@)
                + "</td><td>"@
                + figures.target_rps@,
        ),
        shows(
            configuration_html(cfg, figures),
            labelled("card.duration"@)
                + "</td><td>"@
                + decimal(cfg.duration_secs as nat),
        ),
        shows(
            configuration_html(cfg, figures),
            labelled("config.concurrency"@)
                + "</td><td>"@
                + decimal(cfg.concurrency as nat),
        ),
        shows(
            configuration_html(cfg, figures),
            labelled("config.stream"@)
                + "</td><td>"@
                + bool_label(cfg.stream),
        ),
        shows(
            configuration_html(cfg, figures),
            labelled("config.max_tokens"@)
                + "</td><td>"@
                + decimal(cfg.max_tokens as nat),
        ),
        shows(
            configuration_html(cfg, figures),
            labelled("config.kind"@)
                + "</td><td><code>"@
                + cfg.dataset.label(),
        ),
        shows(
            configuration_html(cfg, figures),
            labelled("config.strategy"@)
                + "</span> <code>"@
                + cfg.strategy.label(),
        ),
        shows(
            configuration_html(cfg, figures),
            labelled("config.source"@)
                + r#"</td><td><code style="word-break:break-all;">"#@
                + escaped(dataset_source(cfg.dataset)),
        ),
        shows(
            configuration_html(cfg, figures),
            labelled("config.prompt_tokens"@)
                + "</td><td>"@
                + decimal(cfg.prompt_distribution.count as nat)
                + " prompts · min <strong>"@
                + decimal(cfg.prompt_distribution.min as nat)
                + "</strong> · mean <strong>"@
                + figures.prompt_mean@
                + "</strong> · max <strong>"@
                + decimal(cfg.prompt_distribution.max as nat),
        ),
{
    broadcast use group_shown;

}

/// Each row of the statistics shows the percentiles of the quantity that its label
/// names, in the order of the columns.
pub proof fn each_row_shows_its_percentiles(rs: Seq<RequestRecord>, figures: ReportFigures)
    ensures
        shows(
            statistics_html(rs, figures),
            labelled("metric.col_metric"@) + r"</th><th>p50</th><th>p90</th><th>p99</th><th>p99.9</th></tr></thead>
      <tbody>
        <tr><td"@,
        ),
        shows(
            statistics_html(rs, figures),
            labelled("metric.latency"@)
                + "</td><td>"@
                + cell(recorded(rs, HistKind::Latency).len() > 0, figures.latency.p50@)
                + "</td><td>"@
                + cell(recorded(rs, HistKind::Latency).len() > 0, figures.latency.p90@)
                + "</td><td>"@
                + cell(recorded(rs, HistKind::Latency).len() > 0, figures.latency.p99@)
                + "</td><td>"@
                + cell(recorded(rs, HistKind::Latency).len() > 0, figures.latency.p999@),
        ),
        shows(
            statistics_html(rs, figures),
            labelled("metric.ttft"@)
                + "</td><td>"@
                + cell(recorded(rs, HistKind::Ttft).len() > 0, figures.ttft.p50@)
                + "</td><td>"@
                + cell(recorded(rs, HistKind::Ttft).len() > 0, figures.ttft.p90@)
                + "</td><td>"@
                + cell(recorded(rs, HistKind::Ttft).len() > 0, figures.ttft.p99@)
                + "</td><td>"@
                + cell(recorded(rs, HistKind::Ttft).len() > 0, figures.ttft.p999@),
        ),
        shows(
            statistics_html(rs, figures),
            labelled("metric.itl"@)
                + "</td><td>"@
                + cell(recorded(rs, HistKind::Itl).len() > 0, figures.itl.p50@)
                + "</td><td>"@
                + cell(recorded(rs, HistKind::Itl).len() > 0, figures.itl.p90@)
                + "</td><td>"@
                + cell(recorded(rs, HistKind::Itl).len() > 0, figures.itl.p99@)
                + "</td><td>"@
                + cell(recorded(rs, HistKind::Itl).len() > 0, figures.itl.p999@),
        ),
        shows(
            statistics_html(rs, figures),
            labelled("metric.tps"@)
                + "</td><td>"@
                + cell(rates(rs).len() > 0, figures.tps.p50@)
                + "</td><td>"@
                + cell(rates(rs).len() > 0, figures.tps.p90@)
                + "</td><td>"@
                + cell(rates(rs).len() > 0, figures.tps.p99@)
                + "</td><td>"@
                + cell(rates(rs).len() > 0, figures.tps.p999@),
        ),
{
    broadcast use group_shown;

}

/// Each row of the further statistics shows the figure that its label names.
pub proof fn each_further_row_shows_its_figure(rs: Seq<RequestRecord>, figures: ReportFigures)
    ensures
        shows(
            advanced_html(rs, figures),
            labelled("metric.tpot"@)
                + "</td><td>"@
                + figures.tpot_ms@,
        ),
        shows(
            advanced_html(rs, figures),
            labelled("metric.throughput_output"@)
                + "</td><td>"@
                + figures.output_tps@,
        ),
        shows(
            advanced_html(rs, figures),
            labelled("metric.throughput_total"@)
                + "</td><td>"@
                + figures.total_tps@,
        ),
        shows(
            advanced_html(rs, figures),
            labelled("metric.avg_input"@)
                + "</td><td>"@
                + figures.avg_input@,
        ),
        shows(
            advanced_html(rs, figures),
            labelled("metric.avg_output"@)
                + "</td><td>"@
                + figures.avg_output@,
        ),
        shows(
            advanced_html(rs, figures),
            labelled("metric.avg_turns"@)
                + "</td><td>"@
                + figures.avg_turns@,
        ),
{
    broadcast use group_shown;

}

/// Speculative decoding is shown by decoded tokens and by acceptance.
pub proof fn decoding_shows_its_figures(figures: ReportFigures)
    ensures
        shows(
            decoding_html(figures),
            labelled("metric.spec_decoded"@)
                + "</td><td>"@
                + figures.spec_decoded@,
        ),
        shows(
            decoding_html(figures),
            labelled("metric.spec_accept"@)
                + "</td><td>"@
                + figures.spec_accept@,
        ),
{
    broadcast use group_shown;

}

/// Each bar of the cache section is as long as its rate, and stands beside it: the
/// overall rate, and that of the first turns.
#[verifier::rlimit(30)]
pub proof fn each_bar_stands_beside_its_rate(c: CacheStats, figures: CacheFigures)
    ensures
        shows(
            cache_html(c, figures),
            labelled("cache.overall"@)
                + r#"</td>
          <td style="border:none;padding:4px 0;width:300px;background:rgba(255,255,255,0.04);border-radius:3px;">
            <div style="height:14px;width:"#@
                + decimal(figures.bar_overall as nat)
                + r#"%;background:var(--accent);border-radius:3px;min-width:2px;"></div>
          </td>
          <td style="border:none;padding:4px 0 4px 12px;font-family:ui-monospace,SFMono-Regular,monospace;">"#@
                + figures.overall@,
        ),
        shows(
            cache_html(c, figures),
            labelled("cache.turn1"@)
                + r#"</td>
          <td style="border:none;padding:4px 0;background:rgba(255,255,255,0.04);border-radius:3px;">
            <div style="height:14px;width:"#@
                + decimal(figures.bar_turn1 as nat)
                + r#"%;background:var(--good);border-radius:3px;min-width:2px;"></div>
          </td>
          <td style="border:none;padding:4px 0 4px 12px;font-family:ui-monospace,SFMono-Regular,monospace;">"#@
                + figures.turn1@,
        ),
        shows(
            cache_html(c, figures),
            cache_headline(c, figures),
        ),
        shows(
            cache_html(c, figures),
            cache_subline(c),
        ),
        shows(
            cache_html(c, figures),
            later_turns_html(c, figures),
        ),
        shows(
            cache_html(c, figures),
            no_later_turns_html(c),
        ),
{
    broadcast use group_shown;

}

/// The bar of the later turns is as long as their rate, and stands beside it.
pub proof fn the_bar_of_later_turns_stands_beside_its_rate(figures: CacheFigures)
    ensures
        shows(
            turn2plus_html(figures),
            labelled("cache.turn2plus"@)
                + r#"</td>
                <td style="border:none;padding:4px 0;background:rgba(255,255,255,0.04);border-radius:3px;">
                  <div style="height:14px;width:"#@
                + decimal(figures.bar_turn2plus as nat)
                + r#"%;background:var(--muted);border-radius:3px;min-width:2px;"></div>
                </td>
                <td style="border:none;padding:4px 0 4px 12px;font-family:ui-monospace,SFMono-Regular,monospace;">"#@
                + figures.turn2plus@,
        ),
{
    broadcast use group_shown;

}

/// The lower part of the report lists the failures of the run.
pub proof fn failures_are_listed(rs: Seq<RequestRecord>, version: Seq<char>)
    ensures
        shows(
            lower_html(rs, version),
            errors_html(failures(rs)),
        ),
{
    broadcast use group_shown;

}

/// A row of the dashboard shows the run that it leads to: its id, its target, its
/// load and its figures, in the order of the columns.
pub proof fn a_row_shows_its_run(row: DashboardRow)
    ensures
        shows(
            row_html(row),
            r#"<tr class="row" data-report=""#@
                + escaped(row.run.report_filename@)
                + r#""><td><code>"#@
                + escaped(row.run.run_id@)
                + r#"</code></td><td class="target" title=""#@
                + escaped(row.run.target@)
                + r#""><a class="url" href=""#@
                + escaped(row.run.target@)
                + r#"" target="_blank" rel="noopener noreferrer">"#@
                + escaped(row.run.target@)
                + r#"</a></td><td class="num">"#@
                + row.target_rps@
                + r#"</td><td class="num">"#@
                + decimal(row.run.metrics.duration_secs as nat)
                + r#"s</td><td class="num">"#@
                + decimal(row.run.metrics.total_requests as nat)
                + r#"</td><td class="num">"#@
                + row.success_rate@
                + r#"%</td><td class="num">"#@
                + row.latency_p50@
                + r#"</td><td class="num">"#@
                + row.latency_p99@
                + r#"</td><td class="num">"#@
                + row.tps_mean@
                + r#"</td><td class="num">"#@
                + row.cache_rate@
                + "%</td></tr>"@,
        ),
{
    broadcast use group_shown;

}

/// The columns of the dashboard are named in the order in which rows fill them.
pub proof fn columns_are_named_in_order()
    ensures
        shows(
            table_head_html(),
            escaped(translated(Locale::Zh, "dash.col_run_id"@))
                + "</th><th>"@
                + escaped(translated(Locale::Zh, "dash.col_target"@))
                + "</th><th>"@
                + escaped(translated(Locale::Zh, "dash.col_rps"@))
                + "</th><th>"@
                + escaped(translated(Locale::Zh, "dash.col_duration"@))
                + "</th><th>"@
                + escaped(translated(Locale::Zh, "dash.col_requests"@))
                + "</th><th>"@
                + escaped(translated(Locale::Zh, "dash.col_success"@))
                + "</th><th>"@
                + escaped(translated(Locale::Zh, "dash.col_p50"@))
                + "</th><th>"@
                + escaped(translated(Locale::Zh, "dash.col_p99"@))
                + "</th><th>"@
                + escaped(translated(Locale::Zh, "dash.col_tps"@))
                + "</th><th>"@
                + escaped(translated(Locale::Zh, "dash.col_cache"@)),
        ),
{
    broadcast use group_shown;

}

/// The dashboard of a model shows the table of its runs, and holds their data.
#[verifier::rlimit(30)]
pub proof fn a_dashboard_shows_its_runs(
    model: Seq<char>,
    alias: Option<Seq<char>>,
    rows: Seq<DashboardRow>,
    parts: PageParts,
)
    ensures
        shows(
            dashboard_html(model, alias, rows, parts),
            runs_table_html(rows),
        ),
        shows(
            dashboard_html(model, alias, rows, parts),
            subtitle_text(rows.len(), alias),
        ),
        shows(
            dashboard_html(model, alias, rows, parts),
            script_safe(compact_text(dashboard_json(rows))),
        ),
{
    broadcast use group_shown;

}

/// Every run has a row in the dashboard, in the order of the runs.
pub proof fn every_run_has_a_row(rows: Seq<DashboardRow>, i: int, j: int)
    requires
        0 <= i <= j < rows.len(),
    ensures
        shows(runs_table_html(rows), row_html(rows[i])),
        j == i + 1 ==> shows(runs_table_html(rows), row_html(rows[i]) + row_html(rows[j])),
{
    broadcast use group_shown;

    a_row_is_listed(rows, i, j);
    assert(shows(runs_table_html(rows), rows_html(rows)));
    shown_within(runs_table_html(rows), rows_html(rows), row_html(rows[i]));
    if j == i + 1 {
        shown_within(
            runs_table_html(rows),
            rows_html(rows),
            row_html(rows[i]) + row_html(rows[j]),
        );
    }
}

proof fn a_row_is_listed(rows: Seq<DashboardRow>, i: int, j: int)
    requires
        0 <= i <= j < rows.len(),
    ensures
        shows(rows_html(rows), row_html(rows[i])),
        j == i + 1 ==> shows(rows_html(rows), row_html(rows[i]) + row_html(rows[j])),
    decreases rows.len(),
{
    broadcast use group_shown;

    let rest = rows.drop_last();
    if j < rows.len() - 1 {
        a_row_is_listed(rest, i, j);
    } else {
        assert(rows.last() == rows[j]);
        if i < j {
            a_row_is_listed(rest, i, i);
            if j == i + 1 {
                assert(rest.last() == rows[i]);
                assert(rows_html(rest) == rows_html(rest.drop_last()) + row_html(rows[i]));
            }
        }
    }
}

/// A cell shows its figure, or a dash where nothing was recorded.
pub proof fn a_cell_shows_its_figure(text: Seq<char>)
    ensures
        cell(true, text) == text,
        cell(false, text) == "—"@,
{
}

/// Each failure is listed with its count, the most frequent first.
pub proof fn every_failure_is_listed(errors: Seq<(Seq<char>, nat)>, i: int)
    requires
        0 <= i < errors.len(),
    ensures
        shows(
            error_rows(errors),
            r#"<div class="row"><span class="count">["#@ + decimal(errors[i].1) + "]</span>"@
                + escaped(errors[i].0) + "</div>"@,
        ),
        errors_html(errors) == error_rows(ranked(errors)),
    decreases errors.len(),
{
    broadcast use group_shown;

    if i < errors.len() - 1 {
        every_failure_is_listed(errors.drop_last(), i);
    } else {
        assert(errors.last() == errors[i]);
    }
}

/// The share of successes is called good from 99 percent on, bad below 90
/// percent, and neither between them. Without a request it is bad.
pub proof fn success_is_graded(rs: Seq<RequestRecord>)
    ensures
        rs.len() == 0 ==> success_class(rs) == "bad"@,
        rs.len() > 0 && 100 * n_ok(rs) >= 99 * rs.len() ==> success_class(rs) == "good"@,
        rs.len() > 0 && 100 * n_ok(rs) < 90 * rs.len() ==> success_class(rs) == "bad"@,
        rs.len() > 0 && 90 * rs.len() <= 100 * n_ok(rs) < 99 * rs.len() ==> success_class(rs)
            == ""@,
{
}

/// A text is cut for a preview where it is longer than that, and marked so.
pub proof fn previews_are_cut(text: Seq<char>, n: int)
    requires
        n >= 0,
    ensures
        text.len() <= n ==> preview(text, n) == text,
        text.len() > n ==> preview(text, n) == text.subrange(0, n) + "..."@,
{
}

/// The cache section names the hits and the tokens that the cache took, and says
/// where there was nothing to tell. Later turns have a row of their own wherever
/// there were any.
pub proof fn the_cache_section_tells_what_there_was(c: CacheStats, figures: CacheFigures)
    ensures
        shows(cache_headline(c, figures), figures.overall@),
        c.prompt_turn1 + c.prompt_turn2plus > 0 && c.cache_creation_total + c.cache_hit_total > 0
            ==> shows(
            cache_subline(c),
            labelled("cache.hit"@) + "</span>: <strong>"@ + decimal(c.cache_hit_total as nat),
        ) && shows(
            cache_subline(c),
            labelled("cache.creation"@) + "</span>: <strong>"@ + decimal(
                c.cache_creation_total as nat,
            ),
        ),
        c.cache_creation_turn2plus > 0 || c.cache_hit_turn2plus > 0 || c.prompt_turn2plus > 0 ==> {
            &&& later_turns_html(c, figures) == turn2plus_html(figures)
            &&& no_later_turns_html(c).len() == 0
        },
        c.cache_creation_turn2plus == 0 && c.cache_hit_turn2plus == 0 && c.prompt_turn2plus == 0
            ==> {
            &&& later_turns_html(c, figures).len() == 0
            &&& shows(no_later_turns_html(c), labelled("cache.no_continuations"@))
        },
{
    broadcast use group_shown;

}

/// Every page that a run can be compared on is an option, with the file that it
/// leads to.
pub proof fn every_link_is_an_option(links: Seq<(String, String)>, i: int)
    requires
        0 <= i < links.len(),
    ensures
        shows(
            link_options(links),
            r#"<option value=""#@ + escaped(links[i].0@) + r#"" data-filename=""#@ + escaped(
                links[i].1@,
            ) + r#"">"#@ + escaped(links[i].0@) + "</option>"@,
        ),
        shows(compare_panel_html(links), link_options(links)),
    decreases links.len(),
{
    broadcast use group_shown;

    if i < links.len() - 1 {
        every_link_is_an_option(links.drop_last(), i);
    } else {
        assert(links.last() == links[i]);
    }
}

/// How a dataset is named as the source of the prompts.
pub proof fn the_source_names_the_dataset(dataset: DatasetSpec)
    ensures
        match dataset {
            DatasetSpec::Literal { text } => text@.len() <= 80 ==> dataset_source(dataset)
                == "literal prompt: \""@ + text@ + "\""@,
            DatasetSpec::TokenBudget { target_tokens } => shows(
                dataset_source(dataset),
                decimal(target_tokens as nat),
            ),
            DatasetSpec::Builtin => true,
            DatasetSpec::ShareGpt { path } => dataset_source(dataset) == "sharegpt file: "@ + path@,
            DatasetSpec::Custom { path } => dataset_source(dataset) == "custom file: "@ + path@,
        },
{
    broadcast use group_shown;

}

/// Speculative decoding is shown where tokens were decoded and either passes or
/// acceptances were counted.
pub proof fn decoding_is_shown_where_it_was_used(rs: Seq<RequestRecord>, figures: ReportFigures)
    ensures
        total(rs, Quantity::SpecDecoded) > 0 && (total(rs, Quantity::SpecIterations) > 0 || total(
            rs,
            Quantity::SpecAccepted,
        ) > 0) ==> shows(advanced_html(rs, figures), decoding_html(figures)),
        total(rs, Quantity::SpecDecoded) == 0 ==> speculative_html(rs, figures).len() == 0,
        total(rs, Quantity::SpecIterations) == 0 && total(rs, Quantity::SpecAccepted) == 0
            ==> speculative_html(rs, figures).len() == 0,
{
    broadcast use group_shown;

    assert(shows(advanced_html(rs, figures), speculative_html(rs, figures)));
}

/// A label carries its key, by which a script can switch it, and is shown in
/// Chinese. A run that was broken off is called so, and no other; a tag and an
/// alias are shown where there are any.
pub proof fn labels_carry_their_key(key: Seq<char>, text: Seq<char>)
    ensures
        labelled(key) == " data-i18n=\""@ + key + "\">"@ + translated(Locale::Zh, key),
        shows(interrupted_html(true), labelled("page.interrupted_label"@)),
        interrupted_html(false).len() == 0,
        text.len() > 0 ==> tag_html(Some(text)) == "<code>"@ + escaped(text) + "</code>"@,
        text.len() > 0 ==> shows(alias_html(Some(text)), escaped(text)),
        alias_html(None).len() == 0,
        tag_html(None) == tag_html(Some(Seq::empty())),
{
    broadcast use group_shown;

}

/// The subtitle of a dashboard counts its runs and names the alias, where there
/// is one.
pub proof fn the_subtitle_counts_the_runs(n: nat, alias: Seq<char>)
    ensures
        subtitle_text(n, None) == replaced(
            translated(Locale::Zh, "dash.subtitle_no_alias"@),
            "{n}"@,
            decimal(n),
        ),
        subtitle_text(n, Some(alias)) == replaced(
            replaced(translated(Locale::Zh, "dash.subtitle"@), "{n}"@, decimal(n)),
            "{alias}"@,
            alias,
        ),
{
}

} // verus!
