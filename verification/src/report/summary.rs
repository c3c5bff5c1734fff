//! The plain-text summary of a run.

use super::charts::{status_list, status_rows};
use super::figures::{format_pattern_detail, PatternFigures, PercentileFigures};
use super::html::{preview, preview_text};
use crate::client::{bool_label, bool_text};
use crate::config::{opt_view, DatasetSpec, RunConfig};
use crate::runner::metrics::{
    cache_totals, failures, n_failed, n_ok, recorded, total, CacheStats, HistKind,
    MetricsAggregator, Percentile, Quantity, RequestRecord, RunView,
};
use crate::tables::{count_views, rank, ranked};
use crate::text::{decimal, decimal_text};
use vstd::prelude::*;

verus! {

/// The numbers of the summary, written out. Those of a metric are read only
/// where something was recorded.
#[derive(Debug)]
pub struct SummaryFigures {
    pub rps: String,
    pub target_rps: String,
    pub achieved_rps: String,
    pub prompt_mean: String,
    pub pattern: PatternFigures,
    pub latency: PercentileFigures,
    pub ttft_p50: String,
    pub ttft_p99: String,
    pub itl_mean: String,
    pub itl_p99: String,
    pub tps_mean: String,
    pub tps_p99: String,
    pub cache_overall: String,
    pub cache_turn1: String,
    pub cache_turn2plus: String,
}

/// `n` spaces.
pub open spec fn spaces(n: int) -> Seq<char> {
    Seq::new(
        (if n > 0 {
            n
        } else {
            0
        }) as nat,
        |i: int| ' ',
    )
}

/// A text at the right end of a column of the given width.
pub open spec fn right_aligned(text: Seq<char>, width: int) -> Seq<char> {
    spaces(width - text.len()) + text
}

/// Puts a text at the right end of a column.
pub fn align_right(text: &str, width: usize) -> (r: String)
    ensures
        r@ == right_aligned(text@, width as int),
{
    let len = text.unicode_len();
    let mut out = String::new();
    let mut i: usize = len;
    proof {
        assert(out@ =~= spaces(0));
    }
    while i < width
        invariant
            len == text@.len(),
            i >= len,
            i <= width || i == len,
            out@ == spaces(i - len),
        decreases width - i,
    {
        out.push(' ');
        proof {
            assert(out@ =~= spaces(i + 1 - len));
        }
        i += 1;
    }
    proof {
        assert(out@ =~= spaces(width - text@.len()));
    }
    out.push_str(text);
    out
}

/// A line `head text`, where there is a text.
pub open spec fn optional_line(head: Seq<char>, text: Option<Seq<char>>) -> Seq<char> {
    match text {
        Some(text) => head + text + "\n"@,
        None => Seq::empty(),
    }
}

fn optional_text(head: &str, text: &Option<String>) -> (r: String)
    ensures
        r@ == optional_line(head@, opt_view(*text)),
{
    match text {
        Some(text) => {
            let mut out = head.to_owned();
            out.push_str(text.as_str());
            out.push_str("\n");
            out
        },
        None => String::new(),
    }
}

/// What the prompts are, in short.
pub open spec fn dataset_detail(dataset: DatasetSpec) -> Seq<char> {
    match dataset {
        DatasetSpec::Literal { text } => "\""@ + preview(text@, 40) + "\""@,
        DatasetSpec::TokenBudget { target_tokens } => "~"@ + decimal(target_tokens as nat)
            + " tokens"@,
        DatasetSpec::Builtin => "hardcoded pool (12 prompts)"@,
        DatasetSpec::ShareGpt { path } => path@,
        DatasetSpec::Custom { path } => path@,
    }
}

fn format_dataset_detail(cfg: &RunConfig) -> (r: String)
    ensures
        r@ == dataset_detail(cfg.dataset),
{
    match &cfg.dataset {
        DatasetSpec::Literal { text } => {
            let mut out = "\"".to_owned();
            out.push_str(preview_text(text.as_str(), 40).as_str());
            out.push_str("\"");
            out
        },
        DatasetSpec::TokenBudget { target_tokens } => {
            let mut out = "~".to_owned();
            out.push_str(decimal_text(*target_tokens as u128).as_str());
            out.push_str(" tokens");
            out
        },
        DatasetSpec::Builtin => "hardcoded pool (12 prompts)".to_owned(),
        DatasetSpec::ShareGpt { path } => path.clone(),
        DatasetSpec::Custom { path } => path.clone(),
    }
}

/// Which run this is, and how it was set up.
pub open spec fn setup_text(cfg: RunConfig, figures: SummaryFigures) -> Seq<char> {
    "power_test summary — run "@ + cfg.run_id@
        + "\n============================================================\nttft-includes-thinking: true   # reasoning/thinking deltas count as tokens\n"@
        + optional_line("tag:     "@, opt_view(cfg.tag)) + "started: "@ + cfg.started_at@
        + "\ntarget:  "@ + cfg.target@ + "\nmodel:   "@ + cfg.model@ + "\n"@ + optional_line(
        "alias:   "@,
        opt_view(cfg.model_alias),
    ) + "api:     "@ + cfg.api.label() + "\nload:    rps="@ + figures.rps@ + " duration="@
        + decimal(cfg.duration_secs as nat) + "s concurrency="@ + decimal(cfg.concurrency as nat)
        + " stream="@ + bool_label(cfg.stream) + "\npattern: "@ + cfg.pattern.label() + " ("@
        + figures.pattern.detail() + ")\ndataset: "@ + cfg.dataset.label() + " ("@
        + dataset_detail(cfg.dataset) + ") · strategy="@ + cfg.strategy.label() + " · "@ + decimal(
        cfg.prompt_distribution.count as nat,
    ) + " prompts (min "@ + decimal(cfg.prompt_distribution.min as nat) + " / mean "@
        + figures.prompt_mean@ + " / max "@ + decimal(cfg.prompt_distribution.max as nat) + ")\n"@
        + optional_line("tag:     "@, opt_view(cfg.tag)) + "\n"@
}

fn setup(cfg: &RunConfig, figures: &SummaryFigures) -> (r: String)
    ensures
        r@ == setup_text(*cfg, *figures),
{
    let mut out = "power_test summary — run ".to_owned();
    out.push_str(cfg.run_id.as_str());
    out.push_str(
        "\n============================================================\nttft-includes-thinking: true   # reasoning/thinking deltas count as tokens\n",
    );
    out.push_str(optional_text("tag:     ", &cfg.tag).as_str());
    out.push_str("started: ");
    out.push_str(cfg.started_at.as_str());
    out.push_str("\ntarget:  ");
    out.push_str(cfg.target.as_str());
    out.push_str("\nmodel:   ");
    out.push_str(cfg.model.as_str());
    out.push_str("\n");
    out.push_str(optional_text("alias:   ", &cfg.model_alias).as_str());
    out.push_str("api:     ");
    out.push_str(cfg.api.as_str());
    out.push_str("\nload:    rps=");
    out.push_str(figures.rps.as_str());
    out.push_str(" duration=");
    out.push_str(decimal_text(cfg.duration_secs as u128).as_str());
    out.push_str("s concurrency=");
    out.push_str(decimal_text(cfg.concurrency as u128).as_str());
    out.push_str(" stream=");
    out.push_str(bool_text(cfg.stream));
    out.push_str("\npattern: ");
    out.push_str(cfg.pattern.name());
    out.push_str(" (");
    out.push_str(format_pattern_detail(&figures.pattern).as_str());
    out.push_str(")\ndataset: ");
    out.push_str(cfg.dataset.name());
    out.push_str(" (");
    out.push_str(format_dataset_detail(cfg).as_str());
    out.push_str(") · strategy=");
    out.push_str(cfg.strategy.as_str());
    out.push_str(" · ");
    out.push_str(decimal_text(cfg.prompt_distribution.count as u128).as_str());
    out.push_str(" prompts (min ");
    out.push_str(decimal_text(cfg.prompt_distribution.min as u128).as_str());
    out.push_str(" / mean ");
    out.push_str(figures.prompt_mean.as_str());
    out.push_str(" / max ");
    out.push_str(decimal_text(cfg.prompt_distribution.max as u128).as_str());
    out.push_str(")\n");
    out.push_str(optional_text("tag:     ", &cfg.tag).as_str());
    out.push_str("\n");
    out
}

/// The note that a run was interrupted.
pub open spec fn interrupted_line(interrupted: bool) -> Seq<char> {
    if interrupted {
        "interrupted:      yes\n"@
    } else {
        ""@
    }
}

fn interrupted_note(interrupted: bool) -> (r: &'static str)
    ensures
        r@ == interrupted_line(interrupted),
{
    if interrupted {
        "interrupted:      yes\n"
    } else {
        ""
    }
}

/// How many requests were made, and how they ended.
pub open spec fn results_text(run: RunView, figures: SummaryFigures, interrupted: bool) -> Seq<
    char,
> {
    "results\n-------\nscheduled:        "@ + decimal(run.scheduled as nat)
        + "\ncompleted:        "@ + decimal(run.records.len()) + "\n  success:       "@ + decimal(
        n_ok(run.records),
    ) + "\n  error:         "@ + decimal(n_failed(run.records)) + "\nskipped ticks:    "@ + decimal(
        run.skipped as nat,
    ) + "\nachieved rps:     "@ + figures.achieved_rps@ + " (target "@ + figures.target_rps@
        + ")\ntotal tokens:     "@ + decimal(total(run.records, Quantity::Completion) as nat)
        + "\n"@ + interrupted_line(interrupted) + "\n"@
}

fn results(agg: &MetricsAggregator, figures: &SummaryFigures, interrupted: bool) -> (r: String)
    requires
        agg.wf(),
    ensures
        r@ == results_text(agg@, *figures, interrupted),
{
    let mut out = "results\n-------\nscheduled:        ".to_owned();
    out.push_str(decimal_text(agg.scheduled() as u128).as_str());
    out.push_str("\ncompleted:        ");
    out.push_str(decimal_text(agg.total_requests() as u128).as_str());
    out.push_str("\n  success:       ");
    out.push_str(decimal_text(agg.success_count() as u128).as_str());
    out.push_str("\n  error:         ");
    out.push_str(decimal_text(agg.error_count() as u128).as_str());
    out.push_str("\nskipped ticks:    ");
    out.push_str(decimal_text(agg.skipped() as u128).as_str());
    out.push_str("\nachieved rps:     ");
    out.push_str(figures.achieved_rps.as_str());
    out.push_str(" (target ");
    out.push_str(figures.target_rps.as_str());
    out.push_str(")\ntotal tokens:     ");
    out.push_str(decimal_text(agg.total_completion_tokens() as u128).as_str());
    out.push_str("\n");
    out.push_str(interrupted_note(interrupted));
    out.push_str("\n");
    out
}

/// One line of a table: a number at the right end of its column, or a note that
/// there is none.
pub open spec fn figure_line(
    head: Seq<char>,
    gap: Seq<char>,
    present: bool,
    text: Seq<char>,
) -> Seq<char> {
    if present {
        head + gap + right_aligned(text, 10) + "\n"@
    } else {
        head + gap + "  (no data)\n"@
    }
}

fn figure_text(head: &str, gap: &str, present: bool, text: &String) -> (r: String)
    ensures
        r@ == figure_line(head@, gap@, present, text@),
{
    let mut out = head.to_owned();
    out.push_str(gap);
    if present {
        out.push_str(align_right(text.as_str(), 10).as_str());
        out.push_str("\n");
    } else {
        out.push_str("  (no data)\n");
    }
    out
}

/// The latency percentiles.
pub open spec fn latency_text(rs: Seq<RequestRecord>, figures: SummaryFigures) -> Seq<char> {
    let any = recorded(rs, HistKind::Latency).len() > 0;
    "latency (ms)\n-----------\n"@ + figure_line("  p  50:"@, " "@, any, figures.latency.p50@)
        + figure_line("  p  90:"@, " "@, any, figures.latency.p90@) + figure_line(
        "  p  99:"@,
        " "@,
        any,
        figures.latency.p99@,
    ) + figure_line("  p99.9:"@, " "@, any, figures.latency.p999@) + "\n"@
}

fn latency(agg: &MetricsAggregator, figures: &SummaryFigures) -> (r: String)
    requires
        agg.wf(),
    ensures
        r@ == latency_text(agg@.records, *figures),
{
    let p50 = agg.percentile(HistKind::Latency, Percentile::P50);
    let p90 = agg.percentile(HistKind::Latency, Percentile::P90);
    let p99 = agg.percentile(HistKind::Latency, Percentile::P99);
    let p999 = agg.percentile(HistKind::Latency, Percentile::P999);
    let mut out = "latency (ms)\n-----------\n".to_owned();
    out.push_str(figure_text("  p  50:", " ", p50.is_some(), &figures.latency.p50).as_str());
    out.push_str(figure_text("  p  90:", " ", p90.is_some(), &figures.latency.p90).as_str());
    out.push_str(figure_text("  p  99:", " ", p99.is_some(), &figures.latency.p99).as_str());
    out.push_str(figure_text("  p99.9:", " ", p999.is_some(), &figures.latency.p999).as_str());
    out.push_str("\n");
    out
}

/// The times to the first token and between tokens, and the token rates.
pub open spec fn token_text(rs: Seq<RequestRecord>, figures: SummaryFigures) -> Seq<char> {
    let first = recorded(rs, HistKind::Ttft).len() > 0;
    let between = recorded(rs, HistKind::Itl).len() > 0;
    "ttft (ms)\n---------\n"@ + figure_line("  p50:"@, "  "@, first, figures.ttft_p50@)
        + figure_line("  p99:"@, "  "@, first, figures.ttft_p99@) + "\nitl (ms)\n--------\n"@
        + figure_line("  mean:"@, " "@, between, figures.itl_mean@) + figure_line(
        "  p99:"@,
        "  "@,
        between,
        figures.itl_p99@,
    ) + "\ntps (tokens/sec)\n----------------\n  mean: "@ + right_aligned(figures.tps_mean@, 10)
        + "\n  p99:  "@ + right_aligned(figures.tps_p99@, 10) + "\n\n"@
}

fn tokens(agg: &MetricsAggregator, figures: &SummaryFigures) -> (r: String)
    requires
        agg.wf(),
    ensures
        r@ == token_text(agg@.records, *figures),
{
    let ttft_p50 = agg.percentile(HistKind::Ttft, Percentile::P50);
    let ttft_p99 = agg.percentile(HistKind::Ttft, Percentile::P99);
    let itl_mean = agg.mean(HistKind::Itl);
    let itl_p99 = agg.percentile(HistKind::Itl, Percentile::P99);
    let mut out = "ttft (ms)\n---------\n".to_owned();
    out.push_str(figure_text("  p50:", "  ", ttft_p50.is_some(), &figures.ttft_p50).as_str());
    out.push_str(figure_text("  p99:", "  ", ttft_p99.is_some(), &figures.ttft_p99).as_str());
    out.push_str("\nitl (ms)\n--------\n");
    out.push_str(figure_text("  mean:", " ", itl_mean.is_some(), &figures.itl_mean).as_str());
    out.push_str(figure_text("  p99:", "  ", itl_p99.is_some(), &figures.itl_p99).as_str());
    out.push_str("\ntps (tokens/sec)\n----------------\n  mean: ");
    out.push_str(align_right(figures.tps_mean.as_str(), 10).as_str());
    out.push_str("\n  p99:  ");
    out.push_str(align_right(figures.tps_p99.as_str(), 10).as_str());
    out.push_str("\n\n");
    out
}

/// One line for each status.
pub open spec fn status_lines(rows: Seq<(u16, nat)>) -> Seq<char>
    decreases rows.len(),
{
    if rows.len() == 0 {
        Seq::empty()
    } else {
        status_lines(rows.drop_last()) + "  "@ + decimal(rows.last().0 as nat) + ": "@ + decimal(
            rows.last().1,
        ) + "\n"@
    }
}

/// The statuses, ascending; nothing where there is none.
pub open spec fn statuses_text(rs: Seq<RequestRecord>) -> Seq<char> {
    if status_list(rs, 0).len() == 0 {
        Seq::empty()
    } else {
        "status codes\n------------\n"@ + status_lines(status_list(rs, 0)) + "\n"@
    }
}

fn statuses(agg: &MetricsAggregator) -> (r: String)
    requires
        agg.wf(),
    ensures
        r@ == statuses_text(agg@.records),
{
    let rows = status_rows(agg);
    let ghost list = status_list(agg@.records, 0);
    if rows.len() == 0 {
        return String::new();
    }
    let mut lines = String::new();
    let mut i: usize = 0;
    proof {
        assert(lines@ =~= status_lines(list.take(0)));
    }
    while i < rows.len()
        invariant
            i <= rows@.len(),
            rows@.len() == list.len(),
            forall|j: int|
                0 <= j < rows@.len() ==> (#[trigger] rows@[j]).0 == list[j].0 && rows@[j].1
                    == list[j].1,
            lines@ == status_lines(list.take(i as int)),
        decreases rows@.len() - i,
    {
        lines.push_str("  ");
        lines.push_str(decimal_text(rows[i].0 as u128).as_str());
        lines.push_str(": ");
        lines.push_str(decimal_text(rows[i].1 as u128).as_str());
        lines.push_str("\n");
        proof {
            assert(list.take(i + 1).drop_last() =~= list.take(i as int));
            assert(rows@[i as int].0 == list[i as int].0);
        }
        i += 1;
    }
    proof {
        assert(list.take(i as int) =~= list);
    }
    let mut out = "status codes\n------------\n".to_owned();
    out.push_str(lines.as_str());
    out.push_str("\n");
    out
}

/// One line for each failure.
pub open spec fn error_lines(errors: Seq<(Seq<char>, nat)>) -> Seq<char>
    decreases errors.len(),
{
    if errors.len() == 0 {
        Seq::empty()
    } else {
        error_lines(errors.drop_last()) + "  ["@ + decimal(errors.last().1) + "] "@
            + errors.last().0 + "\n"@
    }
}

/// The failures, the most frequent ones first; nothing where there is none.
pub open spec fn errors_text(errors: Seq<(Seq<char>, nat)>) -> Seq<char> {
    if errors.len() == 0 {
        Seq::empty()
    } else {
        "errors\n------\n"@ + error_lines(ranked(errors)) + "\n"@
    }
}

fn errors(agg: &MetricsAggregator) -> (r: String)
    requires
        agg.wf(),
    ensures
        r@ == errors_text(failures(agg@.records)),
{
    let found = agg.error_messages();
    proof {
        assert(count_views(found@).len() == found@.len());
    }
    if found.len() == 0 {
        return String::new();
    }
    let list = rank(found);
    let mut lines = String::new();
    let mut i: usize = 0;
    proof {
        assert(lines@ =~= error_lines(count_views(list@).take(0)));
    }
    while i < list.len()
        invariant
            i <= list@.len(),
            lines@ == error_lines(count_views(list@).take(i as int)),
        decreases list@.len() - i,
    {
        lines.push_str("  [");
        lines.push_str(decimal_text(list[i].1 as u128).as_str());
        lines.push_str("] ");
        lines.push_str(list[i].0.as_str());
        lines.push_str("\n");
        proof {
            let all = count_views(list@);
            assert(all.take(i + 1).drop_last() =~= all.take(i as int));
            assert(all.take(i + 1).last() == (list@[i as int].0@, list@[i as int].1 as nat));
        }
        i += 1;
    }
    proof {
        assert(count_views(list@).take(i as int) =~= count_views(list@));
    }
    let mut out = "errors\n------\n".to_owned();
    out.push_str(lines.as_str());
    out.push_str("\n");
    out
}

/// One cache rate with the tokens behind it.
pub open spec fn cache_rate_line(
    head: Seq<char>,
    rate: Seq<char>,
    hits: nat,
    prompts: nat,
) -> Seq<char> {
    head + right_aligned(rate, 6) + "%   ("@ + decimal(hits) + " / "@ + decimal(prompts)
        + " prompt tokens)\n"@
}

fn cache_rate(head: &str, rate: &String, hits: u64, prompts: u128) -> (r: String)
    ensures
        r@ == cache_rate_line(head@, rate@, hits as nat, prompts as nat),
{
    let mut out = head.to_owned();
    out.push_str(align_right(rate.as_str(), 6).as_str());
    out.push_str("%   (");
    out.push_str(decimal_text(hits as u128).as_str());
    out.push_str(" / ");
    out.push_str(decimal_text(prompts).as_str());
    out.push_str(" prompt tokens)\n");
    out
}

/// The prompt cache; nothing where no cache data was seen.
pub open spec fn cache_text(c: CacheStats, figures: SummaryFigures) -> Seq<char> {
    if c.cache_creation_total == 0 && c.cache_hit_total == 0 {
        Seq::empty()
    } else {
        "prompt cache\n------------\n"@ + cache_rate_line(
            "  hit rate:        "@,
            figures.cache_overall@,
            c.cache_hit_total as nat,
            (c.prompt_turn1 + c.prompt_turn2plus) as nat,
        ) + cache_rate_line(
            "    turn 1:        "@,
            figures.cache_turn1@,
            c.cache_hit_turn1 as nat,
            c.prompt_turn1 as nat,
        ) + cache_rate_line(
            "    turn 2+:       "@,
            figures.cache_turn2plus@,
            c.cache_hit_turn2plus as nat,
            c.prompt_turn2plus as nat,
        ) + "  cache creation:  "@ + decimal(c.cache_creation_total as nat)
            + " tokens (turn 1: "@ + decimal(c.cache_creation_turn1 as nat) + " · turn 2+: "@
            + decimal(c.cache_creation_turn2plus as nat) + ")\n\n"@
    }
}

fn cache(c: &CacheStats, figures: &SummaryFigures) -> (r: String)
    ensures
        r@ == cache_text(*c, *figures),
{
    if c.cache_creation_total == 0 && c.cache_hit_total == 0 {
        return String::new();
    }
    let mut out = "prompt cache\n------------\n".to_owned();
    out.push_str(
        cache_rate(
            "  hit rate:        ",
            &figures.cache_overall,
            c.cache_hit_total,
            c.prompt_turn1 as u128 + c.prompt_turn2plus as u128,
        ).as_str(),
    );
    out.push_str(
        cache_rate(
            "    turn 1:        ",
            &figures.cache_turn1,
            c.cache_hit_turn1,
            c.prompt_turn1 as u128,
        ).as_str(),
    );
    out.push_str(
        cache_rate(
            "    turn 2+:       ",
            &figures.cache_turn2plus,
            c.cache_hit_turn2plus,
            c.prompt_turn2plus as u128,
        ).as_str(),
    );
    out.push_str("  cache creation:  ");
    out.push_str(decimal_text(c.cache_creation_total as u128).as_str());
    out.push_str(" tokens (turn 1: ");
    out.push_str(decimal_text(c.cache_creation_turn1 as u128).as_str());
    out.push_str(" · turn 2+: ");
    out.push_str(decimal_text(c.cache_creation_turn2plus as u128).as_str());
    out.push_str(")\n\n");
    out
}

/// The summary of a run.
pub open spec fn summary_text(
    cfg: RunConfig,
    run: RunView,
    interrupted: bool,
    figures: SummaryFigures,
) -> Seq<char> {
    setup_text(cfg, figures) + results_text(run, figures, interrupted) + latency_text(
        run.records,
        figures,
    ) + token_text(run.records, figures) + statuses_text(run.records) + errors_text(
        failures(run.records),
    ) + cache_text(cache_totals(run.records), figures)
}

/// Renders the summary of a run.
pub fn render_summary(
    cfg: &RunConfig,
    agg: &MetricsAggregator,
    interrupted: bool,
    figures: &SummaryFigures,
) -> (r: String)
    requires
        agg.wf(),
    ensures
        r@ == summary_text(*cfg, agg@, interrupted, *figures),
{
    let mut out = setup(cfg, figures);
    out.push_str(results(agg, figures, interrupted).as_str());
    out.push_str(latency(agg, figures).as_str());
    out.push_str(tokens(agg, figures).as_str());
    out.push_str(statuses(agg).as_str());
    out.push_str(errors(agg).as_str());
    out.push_str(cache(&agg.cache_stats(), figures).as_str());
    out
}

} // verus!
