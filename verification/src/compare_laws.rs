//! What a comparison shows of its two runs.

use crate::binary64::Real;
use crate::compare::{
    change_text, class_of, compare_html, compare_text, compare_title, diff_rows_html, difference,
    html_row, left_aligned, painted, shape_warning_texts, side_line, sign_of, snapshot_of,
    table_text, text_row, warning_items, warning_lines, warnings_html, warnings_text,
    AggregatorSnapshot, Change, ColorClass, CompareFigures, CompareInputs, Delta, Direction,
    LatencyPair, LatencyQuartiles, MetricDiff, HALF,
};
use crate::config::{opt_view, RunConfig};
use crate::histogram::{mean_of, percentile_of};
use crate::report::summary::{right_aligned, spaces};
use crate::runner::metrics::{rates, recorded, total, HistKind, Quantity, RequestRecord};
use crate::runner::metrics_laws::outcomes_are_counted;
use crate::shown::{differ_in, group_differ, group_shown, shown_within, shows};
use crate::storage::history::group_key;
use crate::text::{decimal, escaped};
use vstd::prelude::*;

verus! {

/// The table in the terminal shows each metric in a row of its own, with the
/// values of the first and of the second run and the change of that same metric.
/// The rows of a group follow its heading. Rates, requests and tokens should
/// rise, times should fall.
pub proof fn every_row_shows_its_own_metric(
    inputs: CompareInputs,
    figures: CompareFigures,
    color: bool,
)
    ensures
        shows(
            compare_text(inputs, figures, color),
            text_row(
                "achieved rps"@,
                figures.a.achieved_rps@,
                figures.b.achieved_rps@,
                figures.diff.achieved_rps,
                Direction::Up,
                true,
                color,
            ) + text_row(
                "total requests"@,
                decimal(inputs.records_a@.len()),
                decimal(inputs.records_b@.len()),
                figures.diff.total_requests,
                Direction::Up,
                false,
                color,
            ) + text_row(
                "success rate %"@,
                figures.a.success_rate@,
                figures.b.success_rate@,
                figures.diff.success_rate,
                Direction::Up,
                true,
                color,
            ),
        ),
        shows(
            compare_text(inputs, figures, color),
            "\n  latency (ms)\n"@ + text_row(
                "  p50"@,
                figures.a.latency_p50@,
                figures.b.latency_p50@,
                figures.diff.latency.p50,
                Direction::Down,
                true,
                color,
            ) + text_row(
                "  p90"@,
                figures.a.latency_p90@,
                figures.b.latency_p90@,
                figures.diff.latency.p90,
                Direction::Down,
                true,
                color,
            ) + text_row(
                "  p99"@,
                figures.a.latency_p99@,
                figures.b.latency_p99@,
                figures.diff.latency.p99,
                Direction::Down,
                true,
                color,
            ) + text_row(
                "  p99.9"@,
                figures.a.latency_p999@,
                figures.b.latency_p999@,
                figures.diff.latency.p99_9,
                Direction::Down,
                true,
                color,
            ),
        ),
        shows(
            compare_text(inputs, figures, color),
            "\n  ttft (ms)\n"@ + text_row(
                "  p50"@,
                figures.a.ttft_p50@,
                figures.b.ttft_p50@,
                figures.diff.ttft.first,
                Direction::Down,
                true,
                color,
            ) + text_row(
                "  p99"@,
                figures.a.ttft_p99@,
                figures.b.ttft_p99@,
                figures.diff.ttft.second,
                Direction::Down,
                true,
                color,
            ),
        ),
        shows(
            compare_text(inputs, figures, color),
            "\n  itl (ms)\n"@ + text_row(
                "  mean"@,
                figures.a.itl_mean@,
                figures.b.itl_mean@,
                figures.diff.itl.first,
                Direction::Down,
                true,
                color,
            ) + text_row(
                "  p99"@,
                figures.a.itl_p99@,
                figures.b.itl_p99@,
                figures.diff.itl.second,
                Direction::Down,
                true,
                color,
            ),
        ),
        shows(
            compare_text(inputs, figures, color),
            "\n  tps (tokens/sec)\n"@ + text_row(
                "  mean"@,
                figures.a.tps_mean@,
                figures.b.tps_mean@,
                figures.diff.tps.first,
                Direction::Up,
                true,
                color,
            ) + text_row(
                "  p99"@,
                figures.a.tps_p99@,
                figures.b.tps_p99@,
                figures.diff.tps.second,
                Direction::Up,
                true,
                color,
            ),
        ),
        shows(
            compare_text(inputs, figures, color),
            "\n"@ + text_row(
                "total tokens"@,
                decimal(total(inputs.records_a@, Quantity::Completion)),
                decimal(total(inputs.records_b@, Quantity::Completion)),
                figures.diff.total_tokens,
                Direction::Up,
                false,
                color,
            ) + text_row(
                "duration (s)"@,
                figures.a.duration@,
                figures.b.duration@,
                figures.diff.duration_secs,
                Direction::Neutral,
                true,
                color,
            ),
        ),
{
    broadcast use group_shown;

    let table = table_text(inputs, figures, color);
    let whole = compare_text(inputs, figures, color);
    assert(shows(whole, table));
    let part = text_row(
        "achieved rps"@,
        figures.a.achieved_rps@,
        figures.b.achieved_rps@,
        figures.diff.achieved_rps,
        Direction::Up,
        true,
        color,
    ) + text_row(
        "total requests"@,
        decimal(inputs.records_a@.len()),
        decimal(inputs.records_b@.len()),
        figures.diff.total_requests,
        Direction::Up,
        false,
        color,
    ) + text_row(
        "success rate %"@,
        figures.a.success_rate@,
        figures.b.success_rate@,
        figures.diff.success_rate,
        Direction::Up,
        true,
        color,
    );
    assert(shows(table, part));
    shown_within(whole, table, part);
    let part = "\n  latency (ms)\n"@ + text_row(
        "  p50"@,
        figures.a.latency_p50@,
        figures.b.latency_p50@,
        figures.diff.latency.p50,
        Direction::Down,
        true,
        color,
    ) + text_row(
        "  p90"@,
        figures.a.latency_p90@,
        figures.b.latency_p90@,
        figures.diff.latency.p90,
        Direction::Down,
        true,
        color,
    ) + text_row(
        "  p99"@,
        figures.a.latency_p99@,
        figures.b.latency_p99@,
        figures.diff.latency.p99,
        Direction::Down,
        true,
        color,
    ) + text_row(
        "  p99.9"@,
        figures.a.latency_p999@,
        figures.b.latency_p999@,
        figures.diff.latency.p99_9,
        Direction::Down,
        true,
        color,
    );
    assert(shows(table, part));
    shown_within(whole, table, part);
    let part = "\n  ttft (ms)\n"@ + text_row(
        "  p50"@,
        figures.a.ttft_p50@,
        figures.b.ttft_p50@,
        figures.diff.ttft.first,
        Direction::Down,
        true,
        color,
    ) + text_row(
        "  p99"@,
        figures.a.ttft_p99@,
        figures.b.ttft_p99@,
        figures.diff.ttft.second,
        Direction::Down,
        true,
        color,
    );
    assert(shows(table, part));
    shown_within(whole, table, part);
    let part = "\n  itl (ms)\n"@ + text_row(
        "  mean"@,
        figures.a.itl_mean@,
        figures.b.itl_mean@,
        figures.diff.itl.first,
        Direction::Down,
        true,
        color,
    ) + text_row(
        "  p99"@,
        figures.a.itl_p99@,
        figures.b.itl_p99@,
        figures.diff.itl.second,
        Direction::Down,
        true,
        color,
    );
    assert(shows(table, part));
    shown_within(whole, table, part);
    let part = "\n  tps (tokens/sec)\n"@ + text_row(
        "  mean"@,
        figures.a.tps_mean@,
        figures.b.tps_mean@,
        figures.diff.tps.first,
        Direction::Up,
        true,
        color,
    ) + text_row(
        "  p99"@,
        figures.a.tps_p99@,
        figures.b.tps_p99@,
        figures.diff.tps.second,
        Direction::Up,
        true,
        color,
    );
    assert(shows(table, part));
    shown_within(whole, table, part);
    let part = "\n"@ + text_row(
        "total tokens"@,
        decimal(total(inputs.records_a@, Quantity::Completion)),
        decimal(total(inputs.records_b@, Quantity::Completion)),
        figures.diff.total_tokens,
        Direction::Up,
        false,
        color,
    ) + text_row(
        "duration (s)"@,
        figures.a.duration@,
        figures.b.duration@,
        figures.diff.duration_secs,
        Direction::Neutral,
        true,
        color,
    );
    assert(shows(table, part));
    shown_within(whole, table, part);
}

/// The table of the page shows each metric in a row of its own, with the values
/// of the first and of the second run and the change of that same metric.
pub proof fn every_row_of_the_page_shows_its_own_metric(
    inputs: CompareInputs,
    figures: CompareFigures,
    generated: Seq<char>,
    chart_js: Seq<char>,
    version: Seq<char>,
)
    ensures
        shows(
            compare_html(inputs, figures, generated, chart_js, version),
            html_row(
                "achieved rps"@,
                figures.a.achieved_rps@,
                figures.b.achieved_rps@,
                figures.diff.achieved_rps,
                Direction::Up,
                true,
            ),
        ),
        shows(
            compare_html(inputs, figures, generated, chart_js, version),
            html_row(
                "total requests"@,
                decimal(inputs.records_a@.len()),
                decimal(inputs.records_b@.len()),
                figures.diff.total_requests,
                Direction::Up,
                false,
            ),
        ),
        shows(
            compare_html(inputs, figures, generated, chart_js, version),
            html_row(
                "success rate %"@,
                figures.a.success_rate@,
                figures.b.success_rate@,
                figures.diff.success_rate,
                Direction::Up,
                true,
            ),
        ),
        shows(
            compare_html(inputs, figures, generated, chart_js, version),
            html_row(
                "latency p50 (ms)"@,
                figures.a.latency_p50@,
                figures.b.latency_p50@,
                figures.diff.latency.p50,
                Direction::Down,
                true,
            ),
        ),
        shows(
            compare_html(inputs, figures, generated, chart_js, version),
            html_row(
                "latency p90 (ms)"@,
                figures.a.latency_p90@,
                figures.b.latency_p90@,
                figures.diff.latency.p90,
                Direction::Down,
                true,
            ),
        ),
        shows(
            compare_html(inputs, figures, generated, chart_js, version),
            html_row(
                "latency p99 (ms)"@,
                figures.a.latency_p99@,
                figures.b.latency_p99@,
                figures.diff.latency.p99,
                Direction::Down,
                true,
            ),
        ),
        shows(
            compare_html(inputs, figures, generated, chart_js, version),
            html_row(
                "latency p99.9 (ms)"@,
                figures.a.latency_p999@,
                figures.b.latency_p999@,
                figures.diff.latency.p99_9,
                Direction::Down,
                true,
            ),
        ),
        shows(
            compare_html(inputs, figures, generated, chart_js, version),
            html_row(
                "ttft p50 (ms)"@,
                figures.a.ttft_p50@,
                figures.b.ttft_p50@,
                figures.diff.ttft.first,
                Direction::Down,
                true,
            ),
        ),
        shows(
            compare_html(inputs, figures, generated, chart_js, version),
            html_row(
                "ttft p99 (ms)"@,
                figures.a.ttft_p99@,
                figures.b.ttft_p99@,
                figures.diff.ttft.second,
                Direction::Down,
                true,
            ),
        ),
        shows(
            compare_html(inputs, figures, generated, chart_js, version),
            html_row(
                "itl mean (ms)"@,
                figures.a.itl_mean@,
                figures.b.itl_mean@,
                figures.diff.itl.first,
                Direction::Down,
                true,
            ),
        ),
        shows(
            compare_html(inputs, figures, generated, chart_js, version),
            html_row(
                "itl p99 (ms)"@,
                figures.a.itl_p99@,
                figures.b.itl_p99@,
                figures.diff.itl.second,
                Direction::Down,
                true,
            ),
        ),
        shows(
            compare_html(inputs, figures, generated, chart_js, version),
            html_row(
                "tps mean (tok/s)"@,
                figures.a.tps_mean@,
                figures.b.tps_mean@,
                figures.diff.tps.first,
                Direction::Up,
                true,
            ),
        ),
        shows(
            compare_html(inputs, figures, generated, chart_js, version),
            html_row(
                "tps p99 (tok/s)"@,
                figures.a.tps_p99@,
                figures.b.tps_p99@,
                figures.diff.tps.second,
                Direction::Up,
                true,
            ),
        ),
        shows(
            compare_html(inputs, figures, generated, chart_js, version),
            html_row(
                "total tokens"@,
                decimal(total(inputs.records_a@, Quantity::Completion)),
                decimal(total(inputs.records_b@, Quantity::Completion)),
                figures.diff.total_tokens,
                Direction::Up,
                false,
            ),
        ),
        shows(
            compare_html(inputs, figures, generated, chart_js, version),
            html_row(
                "duration (s)"@,
                figures.a.duration@,
                figures.b.duration@,
                figures.diff.duration_secs,
                Direction::Neutral,
                true,
            ),
        ),
{
    let table = diff_rows_html(inputs, figures);
    let whole = compare_html(inputs, figures, generated, chart_js, version);
    the_page_shows_its_table(inputs, figures, generated, chart_js, version);
    the_table_shows_its_rows(inputs, figures);
    shown_within(
        whole,
        table,
        html_row(
            "achieved rps"@,
            figures.a.achieved_rps@,
            figures.b.achieved_rps@,
            figures.diff.achieved_rps,
            Direction::Up,
            true,
        ),
    );
    shown_within(
        whole,
        table,
        html_row(
            "total requests"@,
            decimal(inputs.records_a@.len()),
            decimal(inputs.records_b@.len()),
            figures.diff.total_requests,
            Direction::Up,
            false,
        ),
    );
    shown_within(
        whole,
        table,
        html_row(
            "success rate %"@,
            figures.a.success_rate@,
            figures.b.success_rate@,
            figures.diff.success_rate,
            Direction::Up,
            true,
        ),
    );
    shown_within(
        whole,
        table,
        html_row(
            "latency p50 (ms)"@,
            figures.a.latency_p50@,
            figures.b.latency_p50@,
            figures.diff.latency.p50,
            Direction::Down,
            true,
        ),
    );
    shown_within(
        whole,
        table,
        html_row(
            "latency p90 (ms)"@,
            figures.a.latency_p90@,
            figures.b.latency_p90@,
            figures.diff.latency.p90,
            Direction::Down,
            true,
        ),
    );
    shown_within(
        whole,
        table,
        html_row(
            "latency p99 (ms)"@,
            figures.a.latency_p99@,
            figures.b.latency_p99@,
            figures.diff.latency.p99,
            Direction::Down,
            true,
        ),
    );
    shown_within(
        whole,
        table,
        html_row(
            "latency p99.9 (ms)"@,
            figures.a.latency_p999@,
            figures.b.latency_p999@,
            figures.diff.latency.p99_9,
            Direction::Down,
            true,
        ),
    );
    shown_within(
        whole,
        table,
        html_row(
            "ttft p50 (ms)"@,
            figures.a.ttft_p50@,
            figures.b.ttft_p50@,
            figures.diff.ttft.first,
            Direction::Down,
            true,
        ),
    );
    shown_within(
        whole,
        table,
        html_row(
            "ttft p99 (ms)"@,
            figures.a.ttft_p99@,
            figures.b.ttft_p99@,
            figures.diff.ttft.second,
            Direction::Down,
            true,
        ),
    );
    shown_within(
        whole,
        table,
        html_row(
            "itl mean (ms)"@,
            figures.a.itl_mean@,
            figures.b.itl_mean@,
            figures.diff.itl.first,
            Direction::Down,
            true,
        ),
    );
    shown_within(
        whole,
        table,
        html_row(
            "itl p99 (ms)"@,
            figures.a.itl_p99@,
            figures.b.itl_p99@,
            figures.diff.itl.second,
            Direction::Down,
            true,
        ),
    );
    shown_within(
        whole,
        table,
        html_row(
            "tps mean (tok/s)"@,
            figures.a.tps_mean@,
            figures.b.tps_mean@,
            figures.diff.tps.first,
            Direction::Up,
            true,
        ),
    );
    shown_within(
        whole,
        table,
        html_row(
            "tps p99 (tok/s)"@,
            figures.a.tps_p99@,
            figures.b.tps_p99@,
            figures.diff.tps.second,
            Direction::Up,
            true,
        ),
    );
    shown_within(
        whole,
        table,
        html_row(
            "total tokens"@,
            decimal(total(inputs.records_a@, Quantity::Completion)),
            decimal(total(inputs.records_b@, Quantity::Completion)),
            figures.diff.total_tokens,
            Direction::Up,
            false,
        ),
    );
    shown_within(
        whole,
        table,
        html_row(
            "duration (s)"@,
            figures.a.duration@,
            figures.b.duration@,
            figures.diff.duration_secs,
            Direction::Neutral,
            true,
        ),
    );
}

proof fn the_page_shows_its_table(
    inputs: CompareInputs,
    figures: CompareFigures,
    generated: Seq<char>,
    chart_js: Seq<char>,
    version: Seq<char>,
)
    ensures
        shows(
            compare_html(inputs, figures, generated, chart_js, version),
            diff_rows_html(inputs, figures),
        ),
{
    broadcast use group_shown;

}

proof fn the_table_shows_its_rows(inputs: CompareInputs, figures: CompareFigures)
    ensures
        shows(
            diff_rows_html(inputs, figures),
            html_row(
                "achieved rps"@,
                figures.a.achieved_rps@,
                figures.b.achieved_rps@,
                figures.diff.achieved_rps,
                Direction::Up,
                true,
            ),
        ),
        shows(
            diff_rows_html(inputs, figures),
            html_row(
                "total requests"@,
                decimal(inputs.records_a@.len()),
                decimal(inputs.records_b@.len()),
                figures.diff.total_requests,
                Direction::Up,
                false,
            ),
        ),
        shows(
            diff_rows_html(inputs, figures),
            html_row(
                "success rate %"@,
                figures.a.success_rate@,
                figures.b.success_rate@,
                figures.diff.success_rate,
                Direction::Up,
                true,
            ),
        ),
        shows(
            diff_rows_html(inputs, figures),
            html_row(
                "latency p50 (ms)"@,
                figures.a.latency_p50@,
                figures.b.latency_p50@,
                figures.diff.latency.p50,
                Direction::Down,
                true,
            ),
        ),
        shows(
            diff_rows_html(inputs, figures),
            html_row(
                "latency p90 (ms)"@,
                figures.a.latency_p90@,
                figures.b.latency_p90@,
                figures.diff.latency.p90,
                Direction::Down,
                true,
            ),
        ),
        shows(
            diff_rows_html(inputs, figures),
            html_row(
                "latency p99 (ms)"@,
                figures.a.latency_p99@,
                figures.b.latency_p99@,
                figures.diff.latency.p99,
                Direction::Down,
                true,
            ),
        ),
        shows(
            diff_rows_html(inputs, figures),
            html_row(
                "latency p99.9 (ms)"@,
                figures.a.latency_p999@,
                figures.b.latency_p999@,
                figures.diff.latency.p99_9,
                Direction::Down,
                true,
            ),
        ),
        shows(
            diff_rows_html(inputs, figures),
            html_row(
                "ttft p50 (ms)"@,
                figures.a.ttft_p50@,
                figures.b.ttft_p50@,
                figures.diff.ttft.first,
                Direction::Down,
                true,
            ),
        ),
        shows(
            diff_rows_html(inputs, figures),
            html_row(
                "ttft p99 (ms)"@,
                figures.a.ttft_p99@,
                figures.b.ttft_p99@,
                figures.diff.ttft.second,
                Direction::Down,
                true,
            ),
        ),
        shows(
            diff_rows_html(inputs, figures),
            html_row(
                "itl mean (ms)"@,
                figures.a.itl_mean@,
                figures.b.itl_mean@,
                figures.diff.itl.first,
                Direction::Down,
                true,
            ),
        ),
        shows(
            diff_rows_html(inputs, figures),
            html_row(
                "itl p99 (ms)"@,
                figures.a.itl_p99@,
                figures.b.itl_p99@,
                figures.diff.itl.second,
                Direction::Down,
                true,
            ),
        ),
        shows(
            diff_rows_html(inputs, figures),
            html_row(
                "tps mean (tok/s)"@,
                figures.a.tps_mean@,
                figures.b.tps_mean@,
                figures.diff.tps.first,
                Direction::Up,
                true,
            ),
        ),
        shows(
            diff_rows_html(inputs, figures),
            html_row(
                "tps p99 (tok/s)"@,
                figures.a.tps_p99@,
                figures.b.tps_p99@,
                figures.diff.tps.second,
                Direction::Up,
                true,
            ),
        ),
        shows(
            diff_rows_html(inputs, figures),
            html_row(
                "total tokens"@,
                decimal(total(inputs.records_a@, Quantity::Completion)),
                decimal(total(inputs.records_b@, Quantity::Completion)),
                figures.diff.total_tokens,
                Direction::Up,
                false,
            ),
        ),
        shows(
            diff_rows_html(inputs, figures),
            html_row(
                "duration (s)"@,
                figures.a.duration@,
                figures.b.duration@,
                figures.diff.duration_secs,
                Direction::Neutral,
                true,
            ),
        ),
{
    broadcast use group_shown;

}

/// The metrics that are compared.
pub enum Metric {
    AchievedRps,
    TotalRequests,
    SuccessRate,
    LatencyP50,
    LatencyP90,
    LatencyP99,
    LatencyP999,
    TtftP50,
    TtftP99,
    ItlMean,
    ItlP99,
    TpsMean,
    TpsP99,
    TotalTokens,
    Duration,
}

impl Metric {
    /// The changes with another change of this metric.
    pub open spec fn changed(self, diff: MetricDiff, change: Change) -> MetricDiff {
        match self {
            Metric::AchievedRps => MetricDiff { achieved_rps: change, ..diff },
            Metric::TotalRequests => MetricDiff { total_requests: change, ..diff },
            Metric::SuccessRate => MetricDiff { success_rate: change, ..diff },
            Metric::LatencyP50 => MetricDiff {
                latency: LatencyQuartiles { p50: change, ..diff.latency },
                ..diff
            },
            Metric::LatencyP90 => MetricDiff {
                latency: LatencyQuartiles { p90: change, ..diff.latency },
                ..diff
            },
            Metric::LatencyP99 => MetricDiff {
                latency: LatencyQuartiles { p99: change, ..diff.latency },
                ..diff
            },
            Metric::LatencyP999 => MetricDiff {
                latency: LatencyQuartiles { p99_9: change, ..diff.latency },
                ..diff
            },
            Metric::TtftP50 => MetricDiff {
                ttft: LatencyPair { first: change, ..diff.ttft },
                ..diff
            },
            Metric::TtftP99 => MetricDiff {
                ttft: LatencyPair { second: change, ..diff.ttft },
                ..diff
            },
            Metric::ItlMean => MetricDiff {
                itl: LatencyPair { first: change, ..diff.itl },
                ..diff
            },
            Metric::ItlP99 => MetricDiff {
                itl: LatencyPair { second: change, ..diff.itl },
                ..diff
            },
            Metric::TpsMean => MetricDiff {
                tps: LatencyPair { first: change, ..diff.tps },
                ..diff
            },
            Metric::TpsP99 => MetricDiff {
                tps: LatencyPair { second: change, ..diff.tps },
                ..diff
            },
            Metric::TotalTokens => MetricDiff { total_tokens: change, ..diff },
            Metric::Duration => MetricDiff { duration_secs: change, ..diff },
        }
    }

    /// The row of this metric in the terminal.
    pub open spec fn text_row(
        self,
        inputs: CompareInputs,
        figures: CompareFigures,
        change: Change,
        color: bool,
    ) -> Seq<char> {
        match self {
            Metric::AchievedRps => text_row(
                "achieved rps"@,
                figures.a.achieved_rps@,
                figures.b.achieved_rps@,
                change,
                Direction::Up,
                true,
                color,
            ),
            Metric::TotalRequests => text_row(
                "total requests"@,
                decimal(inputs.records_a@.len()),
                decimal(inputs.records_b@.len()),
                change,
                Direction::Up,
                false,
                color,
            ),
            Metric::SuccessRate => text_row(
                "success rate %"@,
                figures.a.success_rate@,
                figures.b.success_rate@,
                change,
                Direction::Up,
                true,
                color,
            ),
            Metric::LatencyP50 => text_row(
                "  p50"@,
                figures.a.latency_p50@,
                figures.b.latency_p50@,
                change,
                Direction::Down,
                true,
                color,
            ),
            Metric::LatencyP90 => text_row(
                "  p90"@,
                figures.a.latency_p90@,
                figures.b.latency_p90@,
                change,
                Direction::Down,
                true,
                color,
            ),
            Metric::LatencyP99 => text_row(
                "  p99"@,
                figures.a.latency_p99@,
                figures.b.latency_p99@,
                change,
                Direction::Down,
                true,
                color,
            ),
            Metric::LatencyP999 => text_row(
                "  p99.9"@,
                figures.a.latency_p999@,
                figures.b.latency_p999@,
                change,
                Direction::Down,
                true,
                color,
            ),
            Metric::TtftP50 => text_row(
                "  p50"@,
                figures.a.ttft_p50@,
                figures.b.ttft_p50@,
                change,
                Direction::Down,
                true,
                color,
            ),
            Metric::TtftP99 => text_row(
                "  p99"@,
                figures.a.ttft_p99@,
                figures.b.ttft_p99@,
                change,
                Direction::Down,
                true,
                color,
            ),
            Metric::ItlMean => text_row(
                "  mean"@,
                figures.a.itl_mean@,
                figures.b.itl_mean@,
                change,
                Direction::Down,
                true,
                color,
            ),
            Metric::ItlP99 => text_row(
                "  p99"@,
                figures.a.itl_p99@,
                figures.b.itl_p99@,
                change,
                Direction::Down,
                true,
                color,
            ),
            Metric::TpsMean => text_row(
                "  mean"@,
                figures.a.tps_mean@,
                figures.b.tps_mean@,
                change,
                Direction::Up,
                true,
                color,
            ),
            Metric::TpsP99 => text_row(
                "  p99"@,
                figures.a.tps_p99@,
                figures.b.tps_p99@,
                change,
                Direction::Up,
                true,
                color,
            ),
            Metric::TotalTokens => text_row(
                "total tokens"@,
                decimal(total(inputs.records_a@, Quantity::Completion)),
                decimal(total(inputs.records_b@, Quantity::Completion)),
                change,
                Direction::Up,
                false,
                color,
            ),
            Metric::Duration => text_row(
                "duration (s)"@,
                figures.a.duration@,
                figures.b.duration@,
                change,
                Direction::Neutral,
                true,
                color,
            ),
        }
    }

    /// The row of this metric in the page.
    pub open spec fn html_row(
        self,
        inputs: CompareInputs,
        figures: CompareFigures,
        change: Change,
    ) -> Seq<char> {
        match self {
            Metric::AchievedRps => html_row(
                "achieved rps"@,
                figures.a.achieved_rps@,
                figures.b.achieved_rps@,
                change,
                Direction::Up,
                true,
            ),
            Metric::TotalRequests => html_row(
                "total requests"@,
                decimal(inputs.records_a@.len()),
                decimal(inputs.records_b@.len()),
                change,
                Direction::Up,
                false,
            ),
            Metric::SuccessRate => html_row(
                "success rate %"@,
                figures.a.success_rate@,
                figures.b.success_rate@,
                change,
                Direction::Up,
                true,
            ),
            Metric::LatencyP50 => html_row(
                "latency p50 (ms)"@,
                figures.a.latency_p50@,
                figures.b.latency_p50@,
                change,
                Direction::Down,
                true,
            ),
            Metric::LatencyP90 => html_row(
                "latency p90 (ms)"@,
                figures.a.latency_p90@,
                figures.b.latency_p90@,
                change,
                Direction::Down,
                true,
            ),
            Metric::LatencyP99 => html_row(
                "latency p99 (ms)"@,
                figures.a.latency_p99@,
                figures.b.latency_p99@,
                change,
                Direction::Down,
                true,
            ),
            Metric::LatencyP999 => html_row(
                "latency p99.9 (ms)"@,
                figures.a.latency_p999@,
                figures.b.latency_p999@,
                change,
                Direction::Down,
                true,
            ),
            Metric::TtftP50 => html_row(
                "ttft p50 (ms)"@,
                figures.a.ttft_p50@,
                figures.b.ttft_p50@,
                change,
                Direction::Down,
                true,
            ),
            Metric::TtftP99 => html_row(
                "ttft p99 (ms)"@,
                figures.a.ttft_p99@,
                figures.b.ttft_p99@,
                change,
                Direction::Down,
                true,
            ),
            Metric::ItlMean => html_row(
                "itl mean (ms)"@,
                figures.a.itl_mean@,
                figures.b.itl_mean@,
                change,
                Direction::Down,
                true,
            ),
            Metric::ItlP99 => html_row(
                "itl p99 (ms)"@,
                figures.a.itl_p99@,
                figures.b.itl_p99@,
                change,
                Direction::Down,
                true,
            ),
            Metric::TpsMean => html_row(
                "tps mean (tok/s)"@,
                figures.a.tps_mean@,
                figures.b.tps_mean@,
                change,
                Direction::Up,
                true,
            ),
            Metric::TpsP99 => html_row(
                "tps p99 (tok/s)"@,
                figures.a.tps_p99@,
                figures.b.tps_p99@,
                change,
                Direction::Up,
                true,
            ),
            Metric::TotalTokens => html_row(
                "total tokens"@,
                decimal(total(inputs.records_a@, Quantity::Completion)),
                decimal(total(inputs.records_b@, Quantity::Completion)),
                change,
                Direction::Up,
                false,
            ),
            Metric::Duration => html_row(
                "duration (s)"@,
                figures.a.duration@,
                figures.b.duration@,
                change,
                Direction::Neutral,
                true,
            ),
        }
    }
}

/// The change of a metric stands in the row of that metric and nowhere else: two
/// comparisons that differ only in the change of one metric differ only in its
/// row, in the terminal and in the page.
#[verifier::rlimit(60)]
#[verifier::spinoff_prover]
pub proof fn a_change_shows_in_its_row_alone(
    inputs: CompareInputs,
    figures: CompareFigures,
    metric: Metric,
    first: Change,
    second: Change,
    color: bool,
)
    ensures
        differ_in(
            table_text(
                inputs,
                CompareFigures { diff: metric.changed(figures.diff, first), ..figures },
                color,
            ),
            table_text(
                inputs,
                CompareFigures { diff: metric.changed(figures.diff, second), ..figures },
                color,
            ),
            metric.text_row(inputs, figures, first, color),
            metric.text_row(inputs, figures, second, color),
        ),
        differ_in(
            diff_rows_html(
                inputs,
                CompareFigures { diff: metric.changed(figures.diff, first), ..figures },
            ),
            diff_rows_html(
                inputs,
                CompareFigures { diff: metric.changed(figures.diff, second), ..figures },
            ),
            metric.html_row(inputs, figures, first),
            metric.html_row(inputs, figures, second),
        ),
{
    broadcast use group_differ;

    let one = CompareFigures { diff: metric.changed(figures.diff, first), ..figures };
    let other = CompareFigures { diff: metric.changed(figures.diff, second), ..figures };
    match metric {
        Metric::AchievedRps => {
            assert(differ_in(
                table_text(inputs, one, color),
                table_text(inputs, other, color),
                metric.text_row(inputs, figures, first, color),
                metric.text_row(inputs, figures, second, color),
            ) && differ_in(
                diff_rows_html(inputs, one),
                diff_rows_html(inputs, other),
                metric.html_row(inputs, figures, first),
                metric.html_row(inputs, figures, second),
            ));
        },
        Metric::TotalRequests => {
            assert(differ_in(
                table_text(inputs, one, color),
                table_text(inputs, other, color),
                metric.text_row(inputs, figures, first, color),
                metric.text_row(inputs, figures, second, color),
            ) && differ_in(
                diff_rows_html(inputs, one),
                diff_rows_html(inputs, other),
                metric.html_row(inputs, figures, first),
                metric.html_row(inputs, figures, second),
            ));
        },
        Metric::SuccessRate => {
            assert(differ_in(
                table_text(inputs, one, color),
                table_text(inputs, other, color),
                metric.text_row(inputs, figures, first, color),
                metric.text_row(inputs, figures, second, color),
            ) && differ_in(
                diff_rows_html(inputs, one),
                diff_rows_html(inputs, other),
                metric.html_row(inputs, figures, first),
                metric.html_row(inputs, figures, second),
            ));
        },
        Metric::LatencyP50 => {
            assert(differ_in(
                table_text(inputs, one, color),
                table_text(inputs, other, color),
                metric.text_row(inputs, figures, first, color),
                metric.text_row(inputs, figures, second, color),
            ) && differ_in(
                diff_rows_html(inputs, one),
                diff_rows_html(inputs, other),
                metric.html_row(inputs, figures, first),
                metric.html_row(inputs, figures, second),
            ));
        },
        Metric::LatencyP90 => {
            assert(differ_in(
                table_text(inputs, one, color),
                table_text(inputs, other, color),
                metric.text_row(inputs, figures, first, color),
                metric.text_row(inputs, figures, second, color),
            ) && differ_in(
                diff_rows_html(inputs, one),
                diff_rows_html(inputs, other),
                metric.html_row(inputs, figures, first),
                metric.html_row(inputs, figures, second),
            ));
        },
        Metric::LatencyP99 => {
            assert(differ_in(
                table_text(inputs, one, color),
                table_text(inputs, other, color),
                metric.text_row(inputs, figures, first, color),
                metric.text_row(inputs, figures, second, color),
            ) && differ_in(
                diff_rows_html(inputs, one),
                diff_rows_html(inputs, other),
                metric.html_row(inputs, figures, first),
                metric.html_row(inputs, figures, second),
            ));
        },
        Metric::LatencyP999 => {
            assert(differ_in(
                table_text(inputs, one, color),
                table_text(inputs, other, color),
                metric.text_row(inputs, figures, first, color),
                metric.text_row(inputs, figures, second, color),
            ) && differ_in(
                diff_rows_html(inputs, one),
                diff_rows_html(inputs, other),
                metric.html_row(inputs, figures, first),
                metric.html_row(inputs, figures, second),
            ));
        },
        Metric::TtftP50 => {
            assert(differ_in(
                table_text(inputs, one, color),
                table_text(inputs, other, color),
                metric.text_row(inputs, figures, first, color),
                metric.text_row(inputs, figures, second, color),
            ) && differ_in(
                diff_rows_html(inputs, one),
                diff_rows_html(inputs, other),
                metric.html_row(inputs, figures, first),
                metric.html_row(inputs, figures, second),
            ));
        },
        Metric::TtftP99 => {
            assert(differ_in(
                table_text(inputs, one, color),
                table_text(inputs, other, color),
                metric.text_row(inputs, figures, first, color),
                metric.text_row(inputs, figures, second, color),
            ) && differ_in(
                diff_rows_html(inputs, one),
                diff_rows_html(inputs, other),
                metric.html_row(inputs, figures, first),
                metric.html_row(inputs, figures, second),
            ));
        },
        Metric::ItlMean => {
            assert(differ_in(
                table_text(inputs, one, color),
                table_text(inputs, other, color),
                metric.text_row(inputs, figures, first, color),
                metric.text_row(inputs, figures, second, color),
            ) && differ_in(
                diff_rows_html(inputs, one),
                diff_rows_html(inputs, other),
                metric.html_row(inputs, figures, first),
                metric.html_row(inputs, figures, second),
            ));
        },
        Metric::ItlP99 => {
            assert(differ_in(
                table_text(inputs, one, color),
                table_text(inputs, other, color),
                metric.text_row(inputs, figures, first, color),
                metric.text_row(inputs, figures, second, color),
            ) && differ_in(
                diff_rows_html(inputs, one),
                diff_rows_html(inputs, other),
                metric.html_row(inputs, figures, first),
                metric.html_row(inputs, figures, second),
            ));
        },
        Metric::TpsMean => {
            assert(differ_in(
                table_text(inputs, one, color),
                table_text(inputs, other, color),
                metric.text_row(inputs, figures, first, color),
                metric.text_row(inputs, figures, second, color),
            ) && differ_in(
                diff_rows_html(inputs, one),
                diff_rows_html(inputs, other),
                metric.html_row(inputs, figures, first),
                metric.html_row(inputs, figures, second),
            ));
        },
        Metric::TpsP99 => {
            assert(differ_in(
                table_text(inputs, one, color),
                table_text(inputs, other, color),
                metric.text_row(inputs, figures, first, color),
                metric.text_row(inputs, figures, second, color),
            ) && differ_in(
                diff_rows_html(inputs, one),
                diff_rows_html(inputs, other),
                metric.html_row(inputs, figures, first),
                metric.html_row(inputs, figures, second),
            ));
        },
        Metric::TotalTokens => {
            assert(differ_in(
                table_text(inputs, one, color),
                table_text(inputs, other, color),
                metric.text_row(inputs, figures, first, color),
                metric.text_row(inputs, figures, second, color),
            ) && differ_in(
                diff_rows_html(inputs, one),
                diff_rows_html(inputs, other),
                metric.html_row(inputs, figures, first),
                metric.html_row(inputs, figures, second),
            ));
        },
        Metric::Duration => {
            assert(differ_in(
                table_text(inputs, one, color),
                table_text(inputs, other, color),
                metric.text_row(inputs, figures, first, color),
                metric.text_row(inputs, figures, second, color),
            ) && differ_in(
                diff_rows_html(inputs, one),
                diff_rows_html(inputs, other),
                metric.html_row(inputs, figures, first),
                metric.html_row(inputs, figures, second),
            ));
        },
    }
}

/// A row of the terminal's table without colours: the name at the left, and then
/// the value of the first run, that of the second one and the change, each
/// behind at least two spaces.
pub proof fn a_row_reads_from_left_to_right(
    name: Seq<char>,
    a: Seq<char>,
    b: Seq<char>,
    change: Change,
    direction: Direction,
    show_pct: bool,
)
    ensures
        exists|i: int, j: int, k: int|
            i >= 2 && j >= 2 && k >= 2 && text_row(name, a, b, change, direction, show_pct, false)
                == "  "@ + name + #[trigger] spaces(i) + a + #[trigger] spaces(j) + b
                + #[trigger] spaces(k) + change_text(change, show_pct) + "  \n"@,
{
    let i: int = 2 + (if name.len() < 22 {
        22 - name.len()
    } else {
        0
    }) + (if a.len() < 14 {
        14 - a.len()
    } else {
        0
    });
    let j: int = 2 + (if b.len() < 14 {
        14 - b.len()
    } else {
        0
    });
    let text = change_text(change, show_pct);
    let k: int = 2 + (if text.len() < 20 {
        20 - text.len()
    } else {
        0
    });
    let head = "  "@;
    let x = left_aligned(name, 22);
    let one = right_aligned(a, 14);
    let two = right_aligned(b, 14);
    let three = right_aligned(text, 20);
    assert(head =~= spaces(2) && head + ""@ + "\n"@ =~= "  \n"@) by {
        reveal_strlit("  ");
        reveal_strlit("");
        reveal_strlit("\n");
        reveal_strlit("  \n");
    }
    assert(x + head + one =~= name + spaces(i) + a);
    assert(head + two =~= spaces(j) + b);
    assert(head + three =~= spaces(k) + text);
    let row = text_row(name, a, b, change, direction, show_pct, false);
    assert(row == head + x + head + one + head + two + head + three + head + ""@ + "\n"@);
    behind(head, x, head, one);
    let first = head + (x + head + one);
    behind(first, head, two, Seq::empty());
    let second = first + (head + two);
    behind(second, head, three, Seq::empty());
    let third = second + (head + three);
    behind(third, head, ""@, "\n"@);
    behind(head, name, spaces(i), a);
    let front = head + name + spaces(i) + a;
    behind(front, spaces(j), b, Seq::empty());
    behind(front + spaces(j) + b, spaces(k), text, Seq::empty());
    assert(row == head + name + spaces(i) + a + spaces(j) + b + spaces(k) + text + "  \n"@);
}

/// Parts can be put together in any order.
proof fn behind(a: Seq<char>, b: Seq<char>, c: Seq<char>, d: Seq<char>)
    ensures
        a + b + c + d == a + (b + c + d),
        a + b + c == a + (b + c),
{
    assert(a + b + c + d =~= a + (b + c + d));
    assert(a + b + c =~= a + (b + c));
}

/// A row of the page: the name, the value of the first run, that of the second
/// one, and the change, which is marked by whether it is good or bad.
pub proof fn a_row_of_the_page_reads_from_left_to_right(
    name: Seq<char>,
    a: Seq<char>,
    b: Seq<char>,
    change: Change,
    direction: Direction,
    show_pct: bool,
)
    ensures
        shows(
            html_row(name, a, b, change, direction, show_pct),
            "<tr><td>"@ + escaped(name) + "</td><td class=\"num\">"@ + a + "</td><td class=\"num\">"@
                + b,
        ),
        shows(
            html_row(name, a, b, change, direction, show_pct),
            "</td><td class=\"num delta "@ + (match class_of(change.delta, direction) {
                ColorClass::Good => "good"@,
                ColorClass::Bad => "bad"@,
                ColorClass::Neutral => "neutral"@,
            }) + "\">"@ + (sign_of(change.delta) + change.abs_text@),
        ),
        show_pct && change.delta.pct is Some ==> shows(
            html_row(name, a, b, change, direction, show_pct),
            "\">"@ + (sign_of(change.delta) + change.pct_text@ + "%"@) + "</td></tr>\n"@,
        ),
{
    broadcast use group_shown;

}

/// How a change is written: with a plus where it is not below zero, and with its
/// percentage behind it where that is asked for and can be told.
pub proof fn a_change_is_written_with_its_sign(change: Change)
    ensures
        !change.delta.abs.nan() && change.delta.abs.rank() >= 0 ==> {
            &&& change_text(change, false) == "+"@ + change.abs_text@
            &&& change.delta.pct is Some ==> change_text(change, true) == "+"@ + change.abs_text@
                + "  (+"@ + change.pct_text@ + "%)"@
            &&& change.delta.pct is None ==> change_text(change, true) == "+"@ + change.abs_text@
                + "  (n/a)"@
        },
        !change.delta.abs.nan() && change.delta.abs.rank() < 0 ==> {
            &&& change_text(change, false) == change.abs_text@
            &&& change.delta.pct is Some ==> change_text(change, true) == change.abs_text@ + "  ("@
                + change.pct_text@ + "%)"@
            &&& change.delta.pct is None ==> change_text(change, true) == change.abs_text@
                + "  (n/a)"@
        },
{
    reveal_strlit("+");
    reveal_strlit("");
    reveal_strlit("  (");
    reveal_strlit("  (+");
    let abs = change.abs_text@;
    let pct = change.pct_text@;
    assert(""@ + abs =~= abs);
    assert("  ("@ + "+"@ =~= "  (+"@);
    assert("+"@ + abs + "  ("@ + "+"@ + pct + "%)"@ =~= "+"@ + abs + ("  ("@ + "+"@) + pct + "%)"@);
    assert(""@ + abs + "  ("@ + ""@ + pct + "%)"@ =~= abs + "  ("@ + pct + "%)"@);
    assert(""@ + abs + "  (n/a)"@ =~= abs + "  (n/a)"@);
}

/// A metric that should rise is better by half a percent or more up, and worse
/// by half a percent or more down; one that should fall the other way round.
/// Smaller changes, changes without a percentage and metrics without a direction
/// are neither.
pub proof fn changes_are_judged_by_their_direction(delta: Delta, direction: Direction)
    ensures
        delta.pct is None ==> class_of(delta, direction) == ColorClass::Neutral,
        direction == Direction::Neutral ==> class_of(delta, direction) == ColorClass::Neutral,
        delta.pct matches Some(pct) ==> (!pct.nan() ==> {
            let up = pct.rank() >= HALF;
            let down = pct.rank() <= -(HALF as int);
            &&& !up && !down ==> class_of(delta, direction) == ColorClass::Neutral
            &&& up && direction == Direction::Up ==> class_of(delta, direction) == ColorClass::Good
            &&& down && direction == Direction::Up ==> class_of(delta, direction) == ColorClass::Bad
            &&& up && direction == Direction::Down ==> class_of(delta, direction) == ColorClass::Bad
            &&& down && direction == Direction::Down ==> class_of(delta, direction)
                == ColorClass::Good
        }),
        HALF == 0x3fe0_0000_0000_0000,
{
}

/// A warning stands in the comparison for each thing in which the runs differ:
/// target, model, alias and kind of load, with the value of the first run and
/// that of the second. There are no others, and without one there is no block of
/// warnings.
pub proof fn runs_are_warned_about_by_their_differences(a: RunConfig, b: RunConfig)
    ensures
        a.target@ != b.target@ ==> shape_warning_texts(a, b).contains(
            "different targets: '"@ + a.target@ + "' vs '"@ + b.target@ + "'"@,
        ),
        a.model@ != b.model@ ==> shape_warning_texts(a, b).contains(
            "different models: '"@ + a.model@ + "' vs '"@ + b.model@ + "'"@,
        ),
        a.pattern.label() != b.pattern.label() ==> shape_warning_texts(a, b).contains(
            "different load patterns: '"@ + a.pattern.label() + "' vs '"@ + b.pattern.label()
                + "'"@,
        ),
        shape_warning_texts(a, b).len() == (if a.target@ != b.target@ {
            1int
        } else {
            0
        }) + (if a.model@ != b.model@ {
            1int
        } else {
            0
        }) + (if group_key(a.model@, opt_view(a.model_alias)) != group_key(
            b.model@,
            opt_view(b.model_alias),
        ) {
            1int
        } else {
            0
        }) + (if a.pattern.label() != b.pattern.label() {
            1int
        } else {
            0
        }),
{
    reveal_strlit("different ");
    reveal_strlit("targets");
    reveal_strlit("models");
    reveal_strlit("load patterns");
    reveal_strlit(": '");
    reveal_strlit("");
    reveal_strlit("different targets: '");
    reveal_strlit("different models: '");
    reveal_strlit("different load patterns: '");
    let one = difference("targets"@, a.target@, b.target@, ""@);
    let two = difference("models"@, a.model@, b.model@, ""@);
    let three = difference(
        "model alias"@,
        group_key(a.model@, opt_view(a.model_alias)),
        group_key(b.model@, opt_view(b.model_alias)),
        " (runs are in different history subdirectories)"@,
    );
    let four = difference("load patterns"@, a.pattern.label(), b.pattern.label(), ""@);
    let all = shape_warning_texts(a, b);
    assert(all == one + two + three + four);
    if a.target@ != b.target@ {
        assert("different "@ + "targets"@ + ": '"@ =~= "different targets: '"@);
        assert(one[0] =~= "different targets: '"@ + a.target@ + "' vs '"@ + b.target@ + "'"@);
        assert(all[0] == one[0]);
    }
    if a.model@ != b.model@ {
        assert("different "@ + "models"@ + ": '"@ =~= "different models: '"@);
        assert(two[0] =~= "different models: '"@ + a.model@ + "' vs '"@ + b.model@ + "'"@);
        assert(all[one.len() as int] == two[0]);
    }
    if a.pattern.label() != b.pattern.label() {
        assert("different "@ + "load patterns"@ + ": '"@ =~= "different load patterns: '"@);
        assert(four[0] =~= "different load patterns: '"@ + a.pattern.label() + "' vs '"@
            + b.pattern.label() + "'"@);
        assert(all[(one + two + three).len() as int] == four[0]);
    }
}

/// The comparison names the first run first: in its title, and with its set-up
/// as the baseline; the second run follows as the candidate. The warnings stand
/// between the title and the set-ups.
pub proof fn the_baseline_comes_first(inputs: CompareInputs, figures: CompareFigures, color: bool)
    ensures
        compare_title(inputs) == "power_test compare — "@ + inputs.cfg_a.run_id@ + " vs "@
            + inputs.cfg_b.run_id@,
        shows(
            compare_text(inputs, figures, color),
            side_line("  baseline (a): target="@, inputs.cfg_a, figures.a) + side_line(
                "  candidate (b): target="@,
                inputs.cfg_b,
                figures.b,
            ),
        ),
        shows(
            compare_text(inputs, figures, color),
            warnings_text(shape_warning_texts(inputs.cfg_a, inputs.cfg_b)),
        ),
        shows(
            side_line("  baseline (a): target="@, inputs.cfg_a, figures.a),
            "  baseline (a): target="@ + inputs.cfg_a.target@ + " model="@ + inputs.cfg_a.model@
                + " rps="@ + figures.a.target_rps@ + " duration="@ + decimal(
                inputs.cfg_a.duration_secs as nat,
            ) + "s\n"@,
        ),
        shows(
            side_line("  candidate (b): target="@, inputs.cfg_b, figures.b),
            "  candidate (b): target="@ + inputs.cfg_b.target@ + " model="@ + inputs.cfg_b.model@
                + " rps="@ + figures.b.target_rps@ + " duration="@ + decimal(
                inputs.cfg_b.duration_secs as nat,
            ) + "s\n"@,
        ),
{
    broadcast use group_shown;

}

/// Each warning of a comparison stands on a line of its own in the terminal, and
/// as an item of a list in the page, in their order.
pub proof fn every_warning_is_shown(warnings: Seq<Seq<char>>, i: int)
    requires
        0 <= i < warnings.len(),
    ensures
        shows(warnings_text(warnings), "warning: "@ + warnings[i] + "\n"@),
        shows(warnings_html(warnings), "<li>"@ + escaped(warnings[i]) + "</li>"@),
{
    broadcast use group_shown;

    a_warning_is_listed(warnings, i);
    assert(shows(warnings_html(warnings), warning_items(warnings)));
    shown_within(
        warnings_html(warnings),
        warning_items(warnings),
        "<li>"@ + escaped(warnings[i]) + "</li>"@,
    );
}

proof fn a_warning_is_listed(warnings: Seq<Seq<char>>, i: int)
    requires
        0 <= i < warnings.len(),
    ensures
        shows(warning_lines(warnings), "warning: "@ + warnings[i] + "\n"@),
        shows(warning_items(warnings), "<li>"@ + escaped(warnings[i]) + "</li>"@),
    decreases warnings.len(),
{
    broadcast use group_shown;

    if i < warnings.len() - 1 {
        a_warning_is_listed(warnings.drop_last(), i);
    } else {
        assert(warnings.last() == warnings[i]);
    }
}

/// What a run is compared by: the statistics of its own requests, each under the
/// name it carries, and the duration that was set for it.
pub proof fn a_snapshot_holds_the_statistics_of_its_run(
    s: AggregatorSnapshot,
    rs: Seq<RequestRecord>,
    duration_secs: u64,
)
    requires
        snapshot_of(s, rs, duration_secs),
    ensures
        s.total_requests == rs.len(),
        s.success_count == rs.filter(
            |r: RequestRecord| r.error is None && r.status != 0 && r.status < 400,
        ).len(),
        s.duration_secs == duration_secs,
        recorded(rs, HistKind::Latency).len() > 0 ==> {
            &&& s.latency_p50 == Some(percentile_of(recorded(rs, HistKind::Latency), "50"@))
            &&& s.latency_p90 == Some(percentile_of(recorded(rs, HistKind::Latency), "90"@))
            &&& s.latency_p99 == Some(percentile_of(recorded(rs, HistKind::Latency), "99"@))
            &&& s.latency_p999 == Some(percentile_of(recorded(rs, HistKind::Latency), "99.9"@))
        },
        recorded(rs, HistKind::Ttft).len() > 0 ==> {
            &&& s.ttft_p50 == Some(percentile_of(recorded(rs, HistKind::Ttft), "50"@))
            &&& s.ttft_p99 == Some(percentile_of(recorded(rs, HistKind::Ttft), "99"@))
        },
        recorded(rs, HistKind::Itl).len() > 0 ==> {
            &&& s.itl_p99 == Some(percentile_of(recorded(rs, HistKind::Itl), "99"@))
            &&& s.itl_mean == Some(Real { bits: mean_of(recorded(rs, HistKind::Itl)) })
        },
        recorded(rs, HistKind::Latency).len() == 0 ==> s.latency_p50 is None,
        recorded(rs, HistKind::Ttft).len() == 0 ==> s.ttft_p50 is None && s.ttft_p99 is None,
        recorded(rs, HistKind::Itl).len() == 0 ==> s.itl_mean is None && s.itl_p99 is None,
        s.token_rates@ == rates(rs),
        s.total_completion_tokens == total(rs, Quantity::Completion),
{
    outcomes_are_counted(rs, 0);
}

/// A good change is green, a bad one red and any other grey; the colour ends
/// behind the text, and without colours nothing is added.
pub proof fn changes_are_coloured_by_their_class(text: Seq<char>)
    ensures
        painted(text, ColorClass::Good, true) == "\u{1b}[32m"@ + text + "\u{1b}[0m"@,
        painted(text, ColorClass::Bad, true) == "\u{1b}[31m"@ + text + "\u{1b}[0m"@,
        painted(text, ColorClass::Neutral, true) == "\u{1b}[90m"@ + text + "\u{1b}[0m"@,
        painted(text, ColorClass::Good, false) == text,
        painted(text, ColorClass::Bad, false) == text,
        painted(text, ColorClass::Neutral, false) == text,
{
}

} // verus!
