//! Comparing two runs.
//!
//! `a` is the baseline, and changes are `b - a`. Whether a change is good
//! depends on the metric: latency should fall, throughput should rise. Runs that
//! are not alike are compared too, with warnings.

use crate::binary64::{Real, SIGN};
use crate::config::{opt_view, LoadPattern, RunConfig, RunStatus};
use crate::histogram::{mean_of, percentile_of};
use crate::json::compact_text;
use crate::report::data::{compare_data, comparison_json, CompareNumbers};
use crate::report::summary::{align_right, right_aligned, spaces};
use crate::runner::metrics::{
    countable, n_ok, rates, recorded, replay_rebuilds_the_statistics, total, HistKind,
    MetricsAggregator, Percentile, Quantity, RequestRecord, TokenRate,
};
use crate::storage::history::{effective_group_key, group_key};
use crate::text::{
    decimal, decimal_text, escape_script, escaped, html_escape, same_text, script_safe, views,
    views_push,
};
use vstd::prelude::*;

verus! {

/// Two runs, as they were kept.
#[derive(Debug)]
pub struct CompareInputs {
    pub cfg_a: RunConfig,
    pub records_a: Vec<RequestRecord>,
    pub status_a: RunStatus,
    pub cfg_b: RunConfig,
    pub records_b: Vec<RequestRecord>,
    pub status_b: RunStatus,
}

impl CompareInputs {
    pub fn run_id_a(&self) -> (r: &str)
        ensures
            r@ == self.cfg_a.run_id@,
    {
        self.cfg_a.run_id.as_str()
    }

    pub fn run_id_b(&self) -> (r: &str)
        ensures
            r@ == self.cfg_b.run_id@,
    {
        self.cfg_b.run_id.as_str()
    }
}

/// A change: `b - a`, and the same as a percentage of `a`, where `a` is not
/// zero.
#[derive(Debug, Clone, Copy, PartialEq, Eq, Structural)]
pub struct Delta {
    pub abs: Real,
    pub pct: Option<Real>,
}

/// A change with its numbers written out: `abs_text` with two decimals, or with
/// none where the metric is a count, and `pct_text` with two.
#[derive(Debug)]
pub struct Change {
    pub delta: Delta,
    pub abs_text: String,
    pub pct_text: String,
}

/// The changes of all metrics.
#[derive(Debug)]
pub struct MetricDiff {
    pub achieved_rps: Change,
    pub total_requests: Change,
    pub success_rate: Change,
    pub latency: LatencyQuartiles,
    /// p50 and p99 of the time to the first token.
    pub ttft: LatencyPair,
    /// Mean and p99 of the time between tokens.
    pub itl: LatencyPair,
    /// Mean and p99 of the token rate.
    pub tps: LatencyPair,
    pub total_tokens: Change,
    pub duration_secs: Change,
}

#[derive(Debug)]
pub struct LatencyQuartiles {
    pub p50: Change,
    pub p90: Change,
    pub p99: Change,
    pub p99_9: Change,
}

#[derive(Debug)]
pub struct LatencyPair {
    pub first: Change,
    pub second: Change,
}

/// The metrics of one run, written out.
#[derive(Debug)]
pub struct SideFigures {
    pub target_rps: String,
    pub achieved_rps: String,
    pub success_rate: String,
    /// With one decimal.
    pub success_short: String,
    pub latency_p50: String,
    pub latency_p90: String,
    pub latency_p99: String,
    pub latency_p999: String,
    pub ttft_p50: String,
    pub ttft_p99: String,
    pub itl_mean: String,
    pub itl_p99: String,
    pub tps_mean: String,
    pub tps_p99: String,
    pub duration: String,
}

/// The numbers of a comparison, written out.
#[derive(Debug)]
pub struct CompareFigures {
    pub a: SideFigures,
    pub b: SideFigures,
    pub diff: MetricDiff,
    pub data: CompareNumbers,
}

/// The metrics of one run, exactly. Times are microseconds.
#[derive(Debug)]
pub struct AggregatorSnapshot {
    pub total_requests: u64,
    pub success_count: u64,
    pub duration_secs: u64,
    pub latency_p50: Option<u64>,
    pub latency_p90: Option<u64>,
    pub latency_p99: Option<u64>,
    pub latency_p999: Option<u64>,
    pub ttft_p50: Option<u64>,
    pub ttft_p99: Option<u64>,
    pub itl_mean: Option<Real>,
    pub itl_p99: Option<u64>,
    pub token_rates: Vec<TokenRate>,
    pub total_completion_tokens: u64,
}

/// A percentile of what was recorded, where something was.
pub open spec fn percentile_in(rs: Seq<RequestRecord>, which: HistKind, p: Percentile) -> Option<
    u64,
> {
    if recorded(rs, which).len() == 0 {
        None
    } else {
        Some(percentile_of(recorded(rs, which), p.percent()))
    }
}

/// The metrics of a run with these records.
pub open spec fn snapshot_of(
    s: AggregatorSnapshot,
    rs: Seq<RequestRecord>,
    duration_secs: u64,
) -> bool {
    &&& s.total_requests == rs.len()
    &&& s.success_count == n_ok(rs)
    &&& s.duration_secs == duration_secs
    &&& s.latency_p50 == percentile_in(rs, HistKind::Latency, Percentile::P50)
    &&& s.latency_p90 == percentile_in(rs, HistKind::Latency, Percentile::P90)
    &&& s.latency_p99 == percentile_in(rs, HistKind::Latency, Percentile::P99)
    &&& s.latency_p999 == percentile_in(rs, HistKind::Latency, Percentile::P999)
    &&& s.ttft_p50 == percentile_in(rs, HistKind::Ttft, Percentile::P50)
    &&& s.ttft_p99 == percentile_in(rs, HistKind::Ttft, Percentile::P99)
    &&& s.itl_mean == (if recorded(rs, HistKind::Itl).len() == 0 {
        None
    } else {
        Some(Real { bits: mean_of(recorded(rs, HistKind::Itl)) })
    })
    &&& s.itl_p99 == percentile_in(rs, HistKind::Itl, Percentile::P99)
    &&& s.token_rates@ == rates(rs)
    &&& s.total_completion_tokens == total(rs, Quantity::Completion)
}

impl AggregatorSnapshot {
    pub fn from(agg: &MetricsAggregator, cfg: &RunConfig) -> (r: Self)
        requires
            agg.wf(),
        ensures
            snapshot_of(r, agg@.records, cfg.duration_secs),
    {
        AggregatorSnapshot {
            total_requests: agg.total_requests(),
            success_count: agg.success_count(),
            duration_secs: cfg.duration_secs,
            latency_p50: agg.percentile(HistKind::Latency, Percentile::P50),
            latency_p90: agg.percentile(HistKind::Latency, Percentile::P90),
            latency_p99: agg.percentile(HistKind::Latency, Percentile::P99),
            latency_p999: agg.percentile(HistKind::Latency, Percentile::P999),
            ttft_p50: agg.percentile(HistKind::Ttft, Percentile::P50),
            ttft_p99: agg.percentile(HistKind::Ttft, Percentile::P99),
            itl_mean: agg.mean(HistKind::Itl),
            itl_p99: agg.percentile(HistKind::Itl, Percentile::P99),
            token_rates: agg.tps_values(),
            total_completion_tokens: agg.total_completion_tokens(),
        }
    }
}

/// The metrics of both runs, and the warnings.
pub fn compute(inputs: &CompareInputs) -> (r: (AggregatorSnapshot, AggregatorSnapshot, Vec<String>))
    requires
        countable(inputs.records_a@),
        countable(inputs.records_b@),
    ensures
        snapshot_of(r.0, inputs.records_a@, inputs.cfg_a.duration_secs),
        snapshot_of(r.1, inputs.records_b@, inputs.cfg_b.duration_secs),
        views(r.2@) == shape_warning_texts(inputs.cfg_a, inputs.cfg_b),
{
    let agg_a = MetricsAggregator::from_records(
        &inputs.records_a,
        inputs.cfg_a.started_at.clone(),
    );
    let agg_b = MetricsAggregator::from_records(
        &inputs.records_b,
        inputs.cfg_b.started_at.clone(),
    );
    proof {
        replay_rebuilds_the_statistics(agg_a@.records, inputs.records_a@);
        replay_rebuilds_the_statistics(agg_b@.records, inputs.records_b@);
    }
    let a = AggregatorSnapshot::from(&agg_a, &inputs.cfg_a);
    let b = AggregatorSnapshot::from(&agg_b, &inputs.cfg_b);
    (a, b, shape_warnings(&inputs.cfg_a, &inputs.cfg_b))
}

/// A warning, where two texts differ.
pub open spec fn difference(
    what: Seq<char>,
    a: Seq<char>,
    b: Seq<char>,
    note: Seq<char>,
) -> Seq<Seq<char>> {
    if a == b {
        Seq::empty()
    } else {
        seq!["different "@ + what + ": '"@ + a + "' vs '"@ + b + "'"@ + note]
    }
}

/// The warnings for two runs that are not alike.
pub open spec fn shape_warning_texts(a: RunConfig, b: RunConfig) -> Seq<Seq<char>> {
    difference("targets"@, a.target@, b.target@, ""@) + difference(
        "models"@,
        a.model@,
        b.model@,
        ""@,
    ) + difference(
        "model alias"@,
        group_key(a.model@, opt_view(a.model_alias)),
        group_key(b.model@, opt_view(b.model_alias)),
        " (runs are in different history subdirectories)"@,
    ) + difference("load patterns"@, a.pattern.label(), b.pattern.label(), ""@)
}

fn warn(out: &mut Vec<String>, what: &str, a: &str, b: &str, note: &str)
    ensures
        views(final(out)@) == views(old(out)@) + difference(what@, a@, b@, note@),
{
    if !same_text(a, b) {
        let mut text = "different ".to_owned();
        text.push_str(what);
        text.push_str(": '");
        text.push_str(a);
        text.push_str("' vs '");
        text.push_str(b);
        text.push_str("'");
        text.push_str(note);
        proof {
            views_push(out@, text);
            assert(views(out@).push(text@) =~= views(out@) + seq![text@]);
        }
        out.push(text);
    } else {
        proof {
            assert(views(out@) + Seq::<Seq<char>>::empty() =~= views(out@));
        }
    }
}

fn group_of(cfg: &RunConfig) -> (r: &str)
    ensures
        r@ == group_key(cfg.model@, opt_view(cfg.model_alias)),
{
    match &cfg.model_alias {
        Some(alias) => effective_group_key(cfg.model.as_str(), Some(alias.as_str())),
        None => effective_group_key(cfg.model.as_str(), None),
    }
}

/// The warnings for two runs that are not alike. They never stand in the way of
/// the comparison.
pub fn shape_warnings(a: &RunConfig, b: &RunConfig) -> (r: Vec<String>)
    ensures
        views(r@) == shape_warning_texts(*a, *b),
{
    let mut out: Vec<String> = Vec::new();
    proof {
        assert(views(out@) + difference("targets"@, a.target@, b.target@, ""@) =~= difference(
            "targets"@,
            a.target@,
            b.target@,
            ""@,
        ));
    }
    warn(&mut out, "targets", a.target.as_str(), b.target.as_str(), "");
    warn(&mut out, "models", a.model.as_str(), b.model.as_str(), "");
    warn(
        &mut out,
        "model alias",
        group_of(a),
        group_of(b),
        " (runs are in different history subdirectories)",
    );
    warn(&mut out, "load patterns", a.pattern.name(), b.pattern.name(), "");
    out
}

/// Runs of the same target, model, alias and kind of load raise no warning.
pub proof fn alike_runs_raise_no_warning(a: RunConfig, b: RunConfig)
    requires
        a.target@ == b.target@,
        a.model@ == b.model@,
        opt_view(a.model_alias) == opt_view(b.model_alias),
        a.pattern.label() == b.pattern.label(),
    ensures
        shape_warning_texts(a, b).len() == 0,
{
}

/// Exchanging the runs keeps the number of warnings.
pub proof fn warnings_come_in_both_directions(a: RunConfig, b: RunConfig)
    ensures
        shape_warning_texts(a, b).len() == shape_warning_texts(b, a).len(),
{
}

/// Which way a metric should go.
#[derive(Debug, Clone, Copy, PartialEq, Eq, Structural)]
pub enum Direction {
    /// More is better.
    Up,
    /// Less is better.
    Down,
    /// Neither.
    Neutral,
}

#[derive(Debug, Clone, Copy, PartialEq, Eq, Structural)]
pub enum ColorClass {
    Good,
    Bad,
    Neutral,
}

/// One half.
pub const HALF: u64 = 0x3fe0_0000_0000_0000;

/// Less than half a percent either way.
pub open spec fn noise(pct: Real) -> bool {
    -(HALF as int) < pct.rank() < HALF
}

/// Whether a change is good or bad. Changes without a percentage, and those
/// below half a percent, are neither.
pub open spec fn class_of(delta: Delta, direction: Direction) -> ColorClass {
    match delta.pct {
        None => ColorClass::Neutral,
        Some(pct) => if direction == Direction::Neutral || noise(pct) {
            ColorClass::Neutral
        } else if pct.positive() == (direction == Direction::Up) {
            ColorClass::Good
        } else {
            ColorClass::Bad
        },
    }
}

/// Decides whether a change is an improvement, a regression, or neither.
pub fn color_class(delta: Delta, direction: Direction) -> (r: ColorClass)
    ensures
        r == class_of(delta, direction),
{
    match delta.pct {
        None => ColorClass::Neutral,
        Some(pct) => {
            if direction == Direction::Neutral || pct.bits % SIGN < HALF {
                return ColorClass::Neutral;
            }
            let up = match direction {
                Direction::Up => true,
                _ => false,
            };
            if pct.is_positive() == up {
                ColorClass::Good
            } else {
                ColorClass::Bad
            }
        },
    }
}

/// What is good for a metric that should rise is bad for one that should fall.
pub proof fn directions_mirror_each_other(delta: Delta)
    ensures
        class_of(delta, Direction::Up) == ColorClass::Good <==> class_of(delta, Direction::Down)
            == ColorClass::Bad,
        class_of(delta, Direction::Up) == ColorClass::Bad <==> class_of(delta, Direction::Down)
            == ColorClass::Good,
        class_of(delta, Direction::Neutral) == ColorClass::Neutral,
{
}

/// The sign that is written before a change.
pub open spec fn sign_of(delta: Delta) -> Seq<char> {
    if !delta.abs.nan() && delta.abs.rank() >= 0 {
        "+"@
    } else {
        ""@
    }
}

fn sign_text(delta: Delta) -> (r: &'static str)
    ensures
        r@ == sign_of(delta),
{
    if !delta.abs.is_nan() && delta.abs.bits <= SIGN {
        "+"
    } else {
        ""
    }
}

/// A change as it stands in the terminal.
pub open spec fn change_text(change: Change, show_pct: bool) -> Seq<char> {
    let sign = sign_of(change.delta);
    if show_pct {
        match change.delta.pct {
            Some(_) => sign + change.abs_text@ + "  ("@ + sign + change.pct_text@ + "%)"@,
            None => sign + change.abs_text@ + "  (n/a)"@,
        }
    } else {
        sign + change.abs_text@
    }
}

/// Writes a change, with its percentage where that is asked for.
pub fn format_delta(change: &Change, show_pct: bool) -> (r: String)
    ensures
        r@ == change_text(*change, show_pct),
{
    let sign = sign_text(change.delta);
    let mut out = sign.to_owned();
    out.push_str(change.abs_text.as_str());
    if show_pct {
        match change.delta.pct {
            Some(_) => {
                out.push_str("  (");
                out.push_str(sign);
                out.push_str(change.pct_text.as_str());
                out.push_str("%)");
            },
            None => {
                out.push_str("  (n/a)");
            },
        }
    }
    out
}

pub open spec fn class_label(class: ColorClass) -> Seq<char> {
    match class {
        ColorClass::Good => "good"@,
        ColorClass::Bad => "bad"@,
        ColorClass::Neutral => "neutral"@,
    }
}

fn class_text(class: ColorClass) -> (r: &'static str)
    ensures
        r@ == class_label(class),
{
    match class {
        ColorClass::Good => "good",
        ColorClass::Bad => "bad",
        ColorClass::Neutral => "neutral",
    }
}

/// The label at the end of a row; there is one only with colours.
pub fn color_label(class: ColorClass, color: bool) -> (r: &'static str)
    ensures
        r@ == (if color {
            class_label(class)
        } else {
            ""@
        }),
{
    if !color {
        ""
    } else {
        class_text(class)
    }
}

/// The terminal's code for a colour: green, red or grey.
pub open spec fn ansi_code(class: ColorClass) -> Seq<char> {
    match class {
        ColorClass::Good => "\u{1b}[32m"@,
        ColorClass::Bad => "\u{1b}[31m"@,
        ColorClass::Neutral => "\u{1b}[90m"@,
    }
}

/// A text in colour.
pub open spec fn coloured(text: Seq<char>, class: ColorClass) -> Seq<char> {
    ansi_code(class) + text + "\u{1b}[0m"@
}

/// Puts a text between the codes for its colour.
pub fn colorize(s: &str, cls: ColorClass) -> (r: String)
    ensures
        r@ == coloured(s@, cls),
{
    let mut out = match cls {
        ColorClass::Good => "\u{1b}[32m".to_owned(),
        ColorClass::Bad => "\u{1b}[31m".to_owned(),
        ColorClass::Neutral => "\u{1b}[90m".to_owned(),
    };
    out.push_str(s);
    out.push_str("\u{1b}[0m");
    out
}

/// A text in colour, where colours are wanted.
pub open spec fn painted(text: Seq<char>, class: ColorClass, color: bool) -> Seq<char> {
    if color {
        coloured(text, class)
    } else {
        text
    }
}

fn paint(text: &str, class: ColorClass, color: bool) -> (r: String)
    ensures
        r@ == painted(text@, class, color),
{
    if color {
        colorize(text, class)
    } else {
        text.to_owned()
    }
}

/// A text at the left end of a column of the given width.
pub open spec fn left_aligned(text: Seq<char>, width: int) -> Seq<char> {
    text + spaces(width - text.len())
}

pub fn align_left(text: &str, width: usize) -> (r: String)
    ensures
        r@ == left_aligned(text@, width as int),
{
    let len = text.unicode_len();
    let mut out = text.to_owned();
    let mut i: usize = len;
    proof {
        assert(out@ =~= text@ + spaces(0));
    }
    while i < width
        invariant
            len == text@.len(),
            i >= len,
            i <= width || i == len,
            out@ == text@ + spaces(i - len),
        decreases width - i,
    {
        out.push(' ');
        proof {
            assert(out@ =~= text@ + spaces(i + 1 - len));
        }
        i += 1;
    }
    proof {
        assert(out@ =~= left_aligned(text@, width as int));
    }
    out
}

/// One row of the table in the terminal: the metric, both values, the change in
/// its colour, and its label.
pub open spec fn text_row(
    name: Seq<char>,
    a: Seq<char>,
    b: Seq<char>,
    change: Change,
    direction: Direction,
    show_pct: bool,
    color: bool,
) -> Seq<char> {
    let class = class_of(change.delta, direction);
    "  "@ + left_aligned(name, 22) + "  "@ + right_aligned(
        painted(a, ColorClass::Neutral, color),
        14,
    ) + "  "@ + right_aligned(painted(b, ColorClass::Neutral, color), 14) + "  "@ + right_aligned(
        painted(change_text(change, show_pct), class, color),
        20,
    ) + "  "@ + (if color {
        class_label(class)
    } else {
        ""@
    }) + "\n"@
}

fn text_line(
    name: &str,
    a: &str,
    b: &str,
    change: &Change,
    direction: Direction,
    show_pct: bool,
    color: bool,
) -> (r: String)
    ensures
        r@ == text_row(name@, a@, b@, *change, direction, show_pct, color),
{
    let class = color_class(change.delta, direction);
    let delta = paint(format_delta(change, show_pct).as_str(), class, color);
    let mut out = "  ".to_owned();
    out.push_str(align_left(name, 22).as_str());
    out.push_str("  ");
    out.push_str(align_right(paint(a, ColorClass::Neutral, color).as_str(), 14).as_str());
    out.push_str("  ");
    out.push_str(align_right(paint(b, ColorClass::Neutral, color).as_str(), 14).as_str());
    out.push_str("  ");
    out.push_str(align_right(delta.as_str(), 20).as_str());
    out.push_str("  ");
    out.push_str(color_label(class, color));
    out.push_str("\n");
    out
}

/// All completion tokens.
fn completion_total(records: &Vec<RequestRecord>) -> (r: u128)
    ensures
        r == total(records@, Quantity::Completion),
{
    let mut sum: u128 = 0;
    let mut i: usize = 0;
    while i < records.len()
        invariant
            i <= records@.len(),
            sum == total(records@.take(i as int), Quantity::Completion),
            sum <= i * 0xffff_ffff,
        decreases records@.len() - i,
    {
        proof {
            assert(records@.take(i + 1).drop_last() =~= records@.take(i as int));
        }
        sum += records[i].completion_tokens as u128;
        i += 1;
    }
    proof {
        assert(records@.take(i as int) =~= records@);
    }
    sum
}

/// One row of the table in the page.
pub open spec fn html_row(
    name: Seq<char>,
    a: Seq<char>,
    b: Seq<char>,
    change: Change,
    direction: Direction,
    show_pct: bool,
) -> Seq<char> {
    let class = class_label(class_of(change.delta, direction));
    let sign = sign_of(change.delta);
    let pct = if !show_pct {
        "—"@
    } else if change.delta.pct is Some {
        sign + change.pct_text@ + "%"@
    } else {
        "n/a"@
    };
    "<tr><td>"@ + escaped(name) + "</td><td class=\"num\">"@ + a + "</td><td class=\"num\">"@ + b
        + "</td><td class=\"num delta "@ + class + "\">"@ + (sign + change.abs_text@)
        + "</td><td class=\"num delta "@ + class + "\">"@ + pct + "</td></tr>\n"@
}

fn html_line(
    name: &str,
    a: &str,
    b: &str,
    change: &Change,
    direction: Direction,
    show_pct: bool,
) -> (r: String)
    ensures
        r@ == html_row(name@, a@, b@, *change, direction, show_pct),
{
    let class = class_text(color_class(change.delta, direction));
    let sign = sign_text(change.delta);
    let mut abs = sign.to_owned();
    abs.push_str(change.abs_text.as_str());
    let pct = if !show_pct {
        "—".to_owned()
    } else if change.delta.pct.is_some() {
        let mut p = sign.to_owned();
        p.push_str(change.pct_text.as_str());
        p.push_str("%");
        p
    } else {
        "n/a".to_owned()
    };
    let mut out = "<tr><td>".to_owned();
    out.push_str(html_escape(name).as_str());
    out.push_str("</td><td class=\"num\">");
    out.push_str(a);
    out.push_str("</td><td class=\"num\">");
    out.push_str(b);
    out.push_str("</td><td class=\"num delta ");
    out.push_str(class);
    out.push_str("\">");
    out.push_str(abs.as_str());
    out.push_str("</td><td class=\"num delta ");
    out.push_str(class);
    out.push_str("\">");
    out.push_str(pct.as_str());
    out.push_str("</td></tr>\n");
    out
}

/// The title of a comparison.
pub open spec fn compare_title(inputs: CompareInputs) -> Seq<char> {
    "power_test compare — "@ + inputs.cfg_a.run_id@ + " vs "@ + inputs.cfg_b.run_id@
}

fn title_text(inputs: &CompareInputs) -> (r: String)
    ensures
        r@ == compare_title(*inputs),
{
    let mut out = "power_test compare — ".to_owned();
    out.push_str(inputs.run_id_a());
    out.push_str(" vs ");
    out.push_str(inputs.run_id_b());
    out
}

/// One line for each warning.
pub open spec fn warning_lines(warnings: Seq<Seq<char>>) -> Seq<char>
    decreases warnings.len(),
{
    if warnings.len() == 0 {
        Seq::empty()
    } else {
        warning_lines(warnings.drop_last()) + "warning: "@ + warnings.last() + "\n"@
    }
}

/// The warnings and a rule; nothing without warnings.
pub open spec fn warnings_text(warnings: Seq<Seq<char>>) -> Seq<char> {
    if warnings.len() == 0 {
        Seq::empty()
    } else {
        warning_lines(warnings)
            + "------------------------------------------------------------------------\n"@
    }
}

fn warnings_lines(warnings: &Vec<String>) -> (r: String)
    ensures
        r@ == warnings_text(views(warnings@)),
{
    let mut out = String::new();
    let mut i: usize = 0;
    proof {
        assert(out@ =~= warning_lines(views(warnings@).take(0)));
    }
    while i < warnings.len()
        invariant
            i <= warnings@.len(),
            out@ == warning_lines(views(warnings@).take(i as int)),
        decreases warnings@.len() - i,
    {
        out.push_str("warning: ");
        out.push_str(warnings[i].as_str());
        out.push_str("\n");
        proof {
            let all = views(warnings@);
            assert(all.take(i + 1).drop_last() =~= all.take(i as int));
            assert(all.take(i + 1).last() == warnings@[i as int]@);
        }
        i += 1;
    }
    proof {
        assert(views(warnings@).take(i as int) =~= views(warnings@));
    }
    if warnings.len() > 0 {
        out.push_str(
            "------------------------------------------------------------------------\n",
        );
    }
    out
}

/// How one of the runs was set up.
pub open spec fn side_line(head: Seq<char>, cfg: RunConfig, figures: SideFigures) -> Seq<char> {
    head + cfg.target@ + " model="@ + cfg.model@ + " rps="@ + figures.target_rps@ + " duration="@
        + decimal(cfg.duration_secs as nat) + "s\n"@
}

fn side_text(head: &str, cfg: &RunConfig, figures: &SideFigures) -> (r: String)
    ensures
        r@ == side_line(head@, *cfg, *figures),
{
    let mut out = head.to_owned();
    out.push_str(cfg.target.as_str());
    out.push_str(" model=");
    out.push_str(cfg.model.as_str());
    out.push_str(" rps=");
    out.push_str(figures.target_rps.as_str());
    out.push_str(" duration=");
    out.push_str(decimal_text(cfg.duration_secs as u128).as_str());
    out.push_str("s\n");
    out
}

/// The comparison as it stands in the terminal.
pub open spec fn compare_text(inputs: CompareInputs, figures: CompareFigures, color: bool) -> Seq<
    char,
> {
    compare_title(inputs)
        + "\n========================================================================\n"@
        + warnings_text(shape_warning_texts(inputs.cfg_a, inputs.cfg_b)) + side_line(
        "  baseline (a): target="@,
        inputs.cfg_a,
        figures.a,
    ) + side_line("  candidate (b): target="@, inputs.cfg_b, figures.b) + "\n  "@ + left_aligned(
        "metric"@,
        22,
    ) + "  "@ + right_aligned("a"@, 14) + "  "@ + right_aligned("b"@, 14) + "  "@ + right_aligned(
        "delta"@,
        20,
    ) + "  \n  ----------------------------------------------------------------------------\n"@
        + table_text(inputs, figures, color)
}

/// Renders the comparison for the terminal. With `color`, changes are coloured:
/// green where they are good, red where they are bad, grey otherwise.
pub fn render_text(inputs: &CompareInputs, figures: &CompareFigures, color: bool) -> (r: String)
    ensures
        r@ == compare_text(*inputs, *figures, color),
{
    let warnings = shape_warnings(&inputs.cfg_a, &inputs.cfg_b);
    let mut out = title_text(inputs);
    out.push_str("\n========================================================================\n");
    out.push_str(warnings_lines(&warnings).as_str());
    out.push_str(side_text("  baseline (a): target=", &inputs.cfg_a, &figures.a).as_str());
    out.push_str(side_text("  candidate (b): target=", &inputs.cfg_b, &figures.b).as_str());
    out.push_str("\n  ");
    out.push_str(align_left("metric", 22).as_str());
    out.push_str("  ");
    out.push_str(align_right("a", 14).as_str());
    out.push_str("  ");
    out.push_str(align_right("b", 14).as_str());
    out.push_str("  ");
    out.push_str(align_right("delta", 20).as_str());
    out.push_str("  \n  ----------------------------------------------------------------------------\n");
    out.push_str(table(inputs, figures, color).as_str());
    out
}

/// The warnings as list items.
pub open spec fn warning_items(warnings: Seq<Seq<char>>) -> Seq<char>
    decreases warnings.len(),
{
    if warnings.len() == 0 {
        Seq::empty()
    } else {
        warning_items(warnings.drop_last()) + "<li>"@ + escaped(warnings.last()) + "</li>"@
    }
}

/// The block of warnings in the page; nothing without warnings.
pub open spec fn warnings_html(warnings: Seq<Seq<char>>) -> Seq<char> {
    if warnings.len() == 0 {
        Seq::empty()
    } else {
        r#"<div class="warnings"><strong>warnings:</strong><ul>"#@ + warning_items(warnings)
            + "</ul></div>"@
    }
}

fn warnings_block(warnings: &Vec<String>) -> (r: String)
    ensures
        r@ == warnings_html(views(warnings@)),
{
    if warnings.len() == 0 {
        return String::new();
    }
    let mut items = String::new();
    let mut i: usize = 0;
    proof {
        assert(items@ =~= warning_items(views(warnings@).take(0)));
    }
    while i < warnings.len()
        invariant
            i <= warnings@.len(),
            items@ == warning_items(views(warnings@).take(i as int)),
        decreases warnings@.len() - i,
    {
        items.push_str("<li>");
        items.push_str(html_escape(warnings[i].as_str()).as_str());
        items.push_str("</li>");
        proof {
            let all = views(warnings@);
            assert(all.take(i + 1).drop_last() =~= all.take(i as int));
            assert(all.take(i + 1).last() == warnings@[i as int]@);
        }
        i += 1;
    }
    proof {
        assert(views(warnings@).take(i as int) =~= views(warnings@));
    }
    let mut out = r#"<div class="warnings"><strong>warnings:</strong><ul>"#.to_owned();
    out.push_str(items.as_str());
    out.push_str("</ul></div>");
    out
}

/// The rows of the table in the terminal.
pub open spec fn table_text(inputs: CompareInputs, figures: CompareFigures, color: bool) -> Seq<char> {
    text_row("achieved rps"@, figures.a.achieved_rps@, figures.b.achieved_rps@, figures.diff.achieved_rps, Direction::Up, true, color)
        + text_row("total requests"@, decimal(inputs.records_a@.len()), decimal(inputs.records_b@.len()), figures.diff.total_requests, Direction::Up, false, color)
        + text_row("success rate %"@, figures.a.success_rate@, figures.b.success_rate@, figures.diff.success_rate, Direction::Up, true, color)
        + "\n  latency (ms)\n"@
        + text_row("  p50"@, figures.a.latency_p50@, figures.b.latency_p50@, figures.diff.latency.p50, Direction::Down, true, color)
        + text_row("  p90"@, figures.a.latency_p90@, figures.b.latency_p90@, figures.diff.latency.p90, Direction::Down, true, color)
        + text_row("  p99"@, figures.a.latency_p99@, figures.b.latency_p99@, figures.diff.latency.p99, Direction::Down, true, color)
        + text_row("  p99.9"@, figures.a.latency_p999@, figures.b.latency_p999@, figures.diff.latency.p99_9, Direction::Down, true, color)
        + "\n  ttft (ms)\n"@
        + text_row("  p50"@, figures.a.ttft_p50@, figures.b.ttft_p50@, figures.diff.ttft.first, Direction::Down, true, color)
        + text_row("  p99"@, figures.a.ttft_p99@, figures.b.ttft_p99@, figures.diff.ttft.second, Direction::Down, true, color)
        + "\n  itl (ms)\n"@
        + text_row("  mean"@, figures.a.itl_mean@, figures.b.itl_mean@, figures.diff.itl.first, Direction::Down, true, color)
        + text_row("  p99"@, figures.a.itl_p99@, figures.b.itl_p99@, figures.diff.itl.second, Direction::Down, true, color)
        + "\n  tps (tokens/sec)\n"@
        + text_row("  mean"@, figures.a.tps_mean@, figures.b.tps_mean@, figures.diff.tps.first, Direction::Up, true, color)
        + text_row("  p99"@, figures.a.tps_p99@, figures.b.tps_p99@, figures.diff.tps.second, Direction::Up, true, color)
        + "\n"@
        + text_row("total tokens"@, decimal(total(inputs.records_a@, Quantity::Completion) as nat), decimal(total(inputs.records_b@, Quantity::Completion) as nat), figures.diff.total_tokens, Direction::Up, false, color)
        + text_row("duration (s)"@, figures.a.duration@, figures.b.duration@, figures.diff.duration_secs, Direction::Neutral, true, color)
}

fn table(inputs: &CompareInputs, figures: &CompareFigures, color: bool) -> (r: String)
    ensures
        r@ == table_text(*inputs, *figures, color),
{
    let mut out = text_line("achieved rps", figures.a.achieved_rps.as_str(), figures.b.achieved_rps.as_str(), &figures.diff.achieved_rps, Direction::Up, true, color);
    out.push_str(text_line("total requests", decimal_text(inputs.records_a.len() as u128).as_str(), decimal_text(inputs.records_b.len() as u128).as_str(), &figures.diff.total_requests, Direction::Up, false, color).as_str());
    out.push_str(text_line("success rate %", figures.a.success_rate.as_str(), figures.b.success_rate.as_str(), &figures.diff.success_rate, Direction::Up, true, color).as_str());
    out.push_str("\n  latency (ms)\n");
    out.push_str(text_line("  p50", figures.a.latency_p50.as_str(), figures.b.latency_p50.as_str(), &figures.diff.latency.p50, Direction::Down, true, color).as_str());
    out.push_str(text_line("  p90", figures.a.latency_p90.as_str(), figures.b.latency_p90.as_str(), &figures.diff.latency.p90, Direction::Down, true, color).as_str());
    out.push_str(text_line("  p99", figures.a.latency_p99.as_str(), figures.b.latency_p99.as_str(), &figures.diff.latency.p99, Direction::Down, true, color).as_str());
    out.push_str(text_line("  p99.9", figures.a.latency_p999.as_str(), figures.b.latency_p999.as_str(), &figures.diff.latency.p99_9, Direction::Down, true, color).as_str());
    out.push_str("\n  ttft (ms)\n");
    out.push_str(text_line("  p50", figures.a.ttft_p50.as_str(), figures.b.ttft_p50.as_str(), &figures.diff.ttft.first, Direction::Down, true, color).as_str());
    out.push_str(text_line("  p99", figures.a.ttft_p99.as_str(), figures.b.ttft_p99.as_str(), &figures.diff.ttft.second, Direction::Down, true, color).as_str());
    out.push_str("\n  itl (ms)\n");
    out.push_str(text_line("  mean", figures.a.itl_mean.as_str(), figures.b.itl_mean.as_str(), &figures.diff.itl.first, Direction::Down, true, color).as_str());
    out.push_str(text_line("  p99", figures.a.itl_p99.as_str(), figures.b.itl_p99.as_str(), &figures.diff.itl.second, Direction::Down, true, color).as_str());
    out.push_str("\n  tps (tokens/sec)\n");
    out.push_str(text_line("  mean", figures.a.tps_mean.as_str(), figures.b.tps_mean.as_str(), &figures.diff.tps.first, Direction::Up, true, color).as_str());
    out.push_str(text_line("  p99", figures.a.tps_p99.as_str(), figures.b.tps_p99.as_str(), &figures.diff.tps.second, Direction::Up, true, color).as_str());
    out.push_str("\n");
    out.push_str(text_line("total tokens", decimal_text(completion_total(&inputs.records_a)).as_str(), decimal_text(completion_total(&inputs.records_b)).as_str(), &figures.diff.total_tokens, Direction::Up, false, color).as_str());
    out.push_str(text_line("duration (s)", figures.a.duration.as_str(), figures.b.duration.as_str(), &figures.diff.duration_secs, Direction::Neutral, true, color).as_str());
    out
}

/// The rows of the table in the page.
pub open spec fn diff_rows_html(inputs: CompareInputs, figures: CompareFigures) -> Seq<char> {
    html_row("achieved rps"@, figures.a.achieved_rps@, figures.b.achieved_rps@, figures.diff.achieved_rps, Direction::Up, true)
        + html_row("total requests"@, decimal(inputs.records_a@.len()), decimal(inputs.records_b@.len()), figures.diff.total_requests, Direction::Up, false)
        + html_row("success rate %"@, figures.a.success_rate@, figures.b.success_rate@, figures.diff.success_rate, Direction::Up, true)
        + html_row("latency p50 (ms)"@, figures.a.latency_p50@, figures.b.latency_p50@, figures.diff.latency.p50, Direction::Down, true)
        + html_row("latency p90 (ms)"@, figures.a.latency_p90@, figures.b.latency_p90@, figures.diff.latency.p90, Direction::Down, true)
        + html_row("latency p99 (ms)"@, figures.a.latency_p99@, figures.b.latency_p99@, figures.diff.latency.p99, Direction::Down, true)
        + html_row("latency p99.9 (ms)"@, figures.a.latency_p999@, figures.b.latency_p999@, figures.diff.latency.p99_9, Direction::Down, true)
        + html_row("ttft p50 (ms)"@, figures.a.ttft_p50@, figures.b.ttft_p50@, figures.diff.ttft.first, Direction::Down, true)
        + html_row("ttft p99 (ms)"@, figures.a.ttft_p99@, figures.b.ttft_p99@, figures.diff.ttft.second, Direction::Down, true)
        + html_row("itl mean (ms)"@, figures.a.itl_mean@, figures.b.itl_mean@, figures.diff.itl.first, Direction::Down, true)
        + html_row("itl p99 (ms)"@, figures.a.itl_p99@, figures.b.itl_p99@, figures.diff.itl.second, Direction::Down, true)
        + html_row("tps mean (tok/s)"@, figures.a.tps_mean@, figures.b.tps_mean@, figures.diff.tps.first, Direction::Up, true)
        + html_row("tps p99 (tok/s)"@, figures.a.tps_p99@, figures.b.tps_p99@, figures.diff.tps.second, Direction::Up, true)
        + html_row("total tokens"@, decimal(total(inputs.records_a@, Quantity::Completion) as nat), decimal(total(inputs.records_b@, Quantity::Completion) as nat), figures.diff.total_tokens, Direction::Up, false)
        + html_row("duration (s)"@, figures.a.duration@, figures.b.duration@, figures.diff.duration_secs, Direction::Neutral, true)
}

fn build_diff_rows(inputs: &CompareInputs, figures: &CompareFigures) -> (r: String)
    ensures
        r@ == diff_rows_html(*inputs, *figures),
{
    let mut out = html_line("achieved rps", figures.a.achieved_rps.as_str(), figures.b.achieved_rps.as_str(), &figures.diff.achieved_rps, Direction::Up, true);
    out.push_str(html_line("total requests", decimal_text(inputs.records_a.len() as u128).as_str(), decimal_text(inputs.records_b.len() as u128).as_str(), &figures.diff.total_requests, Direction::Up, false).as_str());
    out.push_str(html_line("success rate %", figures.a.success_rate.as_str(), figures.b.success_rate.as_str(), &figures.diff.success_rate, Direction::Up, true).as_str());
    out.push_str(html_line("latency p50 (ms)", figures.a.latency_p50.as_str(), figures.b.latency_p50.as_str(), &figures.diff.latency.p50, Direction::Down, true).as_str());
    out.push_str(html_line("latency p90 (ms)", figures.a.latency_p90.as_str(), figures.b.latency_p90.as_str(), &figures.diff.latency.p90, Direction::Down, true).as_str());
    out.push_str(html_line("latency p99 (ms)", figures.a.latency_p99.as_str(), figures.b.latency_p99.as_str(), &figures.diff.latency.p99, Direction::Down, true).as_str());
    out.push_str(html_line("latency p99.9 (ms)", figures.a.latency_p999.as_str(), figures.b.latency_p999.as_str(), &figures.diff.latency.p99_9, Direction::Down, true).as_str());
    out.push_str(html_line("ttft p50 (ms)", figures.a.ttft_p50.as_str(), figures.b.ttft_p50.as_str(), &figures.diff.ttft.first, Direction::Down, true).as_str());
    out.push_str(html_line("ttft p99 (ms)", figures.a.ttft_p99.as_str(), figures.b.ttft_p99.as_str(), &figures.diff.ttft.second, Direction::Down, true).as_str());
    out.push_str(html_line("itl mean (ms)", figures.a.itl_mean.as_str(), figures.b.itl_mean.as_str(), &figures.diff.itl.first, Direction::Down, true).as_str());
    out.push_str(html_line("itl p99 (ms)", figures.a.itl_p99.as_str(), figures.b.itl_p99.as_str(), &figures.diff.itl.second, Direction::Down, true).as_str());
    out.push_str(html_line("tps mean (tok/s)", figures.a.tps_mean.as_str(), figures.b.tps_mean.as_str(), &figures.diff.tps.first, Direction::Up, true).as_str());
    out.push_str(html_line("tps p99 (tok/s)", figures.a.tps_p99.as_str(), figures.b.tps_p99.as_str(), &figures.diff.tps.second, Direction::Up, true).as_str());
    out.push_str(html_line("total tokens", decimal_text(completion_total(&inputs.records_a)).as_str(), decimal_text(completion_total(&inputs.records_b)).as_str(), &figures.diff.total_tokens, Direction::Up, false).as_str());
    out.push_str(html_line("duration (s)", figures.a.duration.as_str(), figures.b.duration.as_str(), &figures.diff.duration_secs, Direction::Neutral, true).as_str());
    out
}

/// The style of the comparison page, up to its heading.
pub const COMPARE_STYLE: &'static str = r#"</script>
  <style>
    :root {
      --bg: #0e1116;
      --fg: #e6edf3;
      --muted: #8b949e;
      --card: #161b22;
      --border: #30363d;
      --accent: #58a6ff;
      --good: #3fb950;
      --bad: #f85149;
    }
    * { box-sizing: border-box; }
    body {
      margin: 0;
      font-family: -apple-system, BlinkMacSystemFont, "Segoe UI", Roboto,
                   Oxygen, Ubuntu, sans-serif;
      background: var(--bg);
      color: var(--fg);
      line-height: 1.5;
    }
    .wrap { max-width: 1200px; margin: 0 auto; padding: 24px; }
    h1 { margin: 0 0 8px 0; font-size: 24px; }
    h2 { margin: 32px 0 12px 0; font-size: 18px; border-bottom: 1px solid var(--border); padding-bottom: 6px; }
    .sub { color: var(--muted); margin-bottom: 16px; }
    .warnings {
      background: rgba(248,81,73,0.08);
      border: 1px solid rgba(248,81,73,0.4);
      color: var(--fg);
      padding: 10px 14px;
      border-radius: 8px;
      margin-bottom: 16px;
    }
    .warnings ul { margin: 6px 0 0 0; padding-left: 20px; }
    .header-cards {
      display: grid;
      grid-template-columns: 1fr 1fr;
      gap: 16px;
      margin-bottom: 24px;
    }
    .run-card {
      background: var(--card);
      border: 1px solid var(--border);
      border-radius: 8px;
      padding: 16px;
    }
    .run-card h3 {
      margin: 0 0 10px 0;
      font-family: ui-monospace, SFMono-Regular, monospace;
      font-size: 14px;
      color: var(--accent);
    }
    .run-card dl {
      display: grid;
      grid-template-columns: max-content 1fr;
      gap: 4px 16px;
      margin: 0;
      font-size: 13px;
    }
    .run-card dt { color: var(--muted); }
    .run-card dd { margin: 0; font-family: ui-monospace, SFMono-Regular, monospace; }
    table { width: 100%; border-collapse: collapse; background: var(--card); border: 1px solid var(--border); border-radius: 8px; overflow: hidden; }
    th, td { text-align: left; padding: 8px 12px; border-bottom: 1px solid var(--border); font-size: 13px; }
    th { color: var(--muted); font-weight: 500; font-size: 12px; text-transform: uppercase; letter-spacing: 0.5px; background: rgba(255,255,255,0.02); }
    tr:last-child td { border-bottom: none; }
    td.num { font-family: ui-monospace, SFMono-Regular, monospace; text-align: right; }
    .delta.good { color: var(--good); }
    .delta.bad { color: var(--bad); }
    .delta.neutral { color: var(--muted); }
    .charts { display: grid; grid-template-columns: 1fr 1fr; gap: 16px; }
    .chart-card { background: var(--card); border: 1px solid var(--border); border-radius: 8px; padding: 16px; min-height: 320px; }
    .chart-card h3 { margin: 0 0 12px 0; font-size: 14px; color: var(--muted); text-transform: uppercase; letter-spacing: 0.5px; }
    .chart-card canvas { max-height: 280px; }
    footer { margin-top: 48px; padding-top: 16px; border-top: 1px solid var(--border); color: var(--muted); font-size: 12px; text-align: center; }
  </style>
</head>
<body>
  <div class="wrap">
    <h1>power_test compare</h1>
    <div class="sub">"#;

/// The script that draws the charts of the comparison page.
pub const COMPARE_SCRIPT: &'static str = r"</script>
  <script>
    const DATA = JSON.parse(document.getElementById('compare-data').textContent);
    const palette = ['#58a6ff', '#3fb950', '#d29922', '#a371f7', '#f85149', '#8b949e'];
    const chartFont = { size: 12 };

    function makeBar(canvasId, values) {
      new Chart(document.getElementById(canvasId), {
        type: 'bar',
        data: {
          labels: ['p50', 'p90', 'p99', 'p99.9'],
          datasets: [{
            label: 'Latency (ms)',
            data: values,
            backgroundColor: palette[0],
          }]
        },
        options: {
          responsive: true,
          maintainAspectRatio: false,
          plugins: { legend: { display: false } },
          scales: { y: { beginAtZero: true, ticks: { font: chartFont } }, x: { ticks: { font: chartFont } } }
        }
      });
    }

    makeBar('latA', [DATA.a.latency_ms.p50, DATA.a.latency_ms.p90, DATA.a.latency_ms.p99, DATA.a.latency_ms.p99_9]);
    makeBar('latB', [DATA.b.latency_ms.p50, DATA.b.latency_ms.p90, DATA.b.latency_ms.p99, DATA.b.latency_ms.p99_9]);
  </script>
</body>
</html>
";

/// The comparison page. It holds the chart library, and so needs no other file.
pub open spec fn compare_html(
    inputs: CompareInputs,
    figures: CompareFigures,
    generated: Seq<char>,
    chart_js: Seq<char>,
    version: Seq<char>,
) -> Seq<char> {
    r#"<!doctype html>
<html lang="en">
<head>
  <meta charset="utf-8">
  <title>"#@
        + escaped(compare_title(inputs))
        + r#"</title>
  <script data-library="chart.js">"#@
        + chart_js
        + COMPARE_STYLE@
        + escaped(inputs.cfg_a.run_id@)
        + r#" <span style="color:var(--muted)">vs</span> "#@
        + escaped(inputs.cfg_b.run_id@)
        + " · generated <code>"@
        + generated
        + r"</code></div>
    "@
        + warnings_html(shape_warning_texts(inputs.cfg_a, inputs.cfg_b))
        + r#"

    <div class="header-cards">
      <div class="run-card">
        <h3>a · "#@
        + escaped(inputs.cfg_a.run_id@)
        + r"</h3>
        <dl>
          <dt>target</dt><dd>"@
        + escaped(inputs.cfg_a.target@)
        + r"</dd>
          <dt>model</dt><dd>"@
        + escaped(inputs.cfg_a.model@)
        + r"</dd>
          <dt>target rps</dt><dd>"@
        + figures.a.target_rps@
        + r"</dd>
          <dt>duration</dt><dd>"@
        + decimal(inputs.cfg_a.duration_secs as nat)
        + r"s</dd>
          <dt>total requests</dt><dd>"@
        + decimal(inputs.records_a@.len())
        + r"</dd>
          <dt>success rate</dt><dd>"@
        + figures.a.success_short@
        + r"%</dd>
          <dt>status</dt><dd>"@
        + inputs.status_a.label()
        + r#"</dd>
        </dl>
      </div>
      <div class="run-card">
        <h3>b · "#@
        + escaped(inputs.cfg_b.run_id@)
        + r"</h3>
        <dl>
          <dt>target</dt><dd>"@
        + escaped(inputs.cfg_b.target@)
        + r"</dd>
          <dt>model</dt><dd>"@
        + escaped(inputs.cfg_b.model@)
        + r"</dd>
          <dt>target rps</dt><dd>"@
        + figures.b.target_rps@
        + r"</dd>
          <dt>duration</dt><dd>"@
        + decimal(inputs.cfg_b.duration_secs as nat)
        + r"s</dd>
          <dt>total requests</dt><dd>"@
        + decimal(inputs.records_b@.len())
        + r"</dd>
          <dt>success rate</dt><dd>"@
        + figures.b.success_short@
        + r"%</dd>
          <dt>status</dt><dd>"@
        + inputs.status_b.label()
        + r#"</dd>
        </dl>
      </div>
    </div>

    <h2>Diff</h2>
    <table>
      <thead><tr><th>metric</th><th style="text-align:right">a</th><th style="text-align:right">b</th><th style="text-align:right">delta</th><th style="text-align:right">%</th></tr></thead>
      <tbody>"#@
        + diff_rows_html(inputs, figures)
        + r#"</tbody>
    </table>

    <h2>Latency percentiles (ms)</h2>
    <div class="charts">
      <div class="chart-card"><h3>"#@
        + escaped(inputs.cfg_a.run_id@)
        + r#" latency (ms)</h3><canvas id="latA"></canvas></div>
      <div class="chart-card"><h3>"#@
        + escaped(inputs.cfg_b.run_id@)
        + r#" latency (ms)</h3><canvas id="latB"></canvas></div>
    </div>

    <footer>powered by power_test v"#@
        + version
        + r#"</footer>
  </div>

  <script id="compare-data" type="application/json">"#@
        + script_safe(compact_text(comparison_json(inputs, figures.data)))
        + COMPARE_SCRIPT@
}

pub fn render_html(
    inputs: &CompareInputs,
    figures: &CompareFigures,
    generated: &str,
    chart_js: &str,
    version: &str,
) -> (r: String)
    ensures
        r@ == compare_html(*inputs, *figures, generated@, chart_js@, version@),
{
    let warnings = shape_warnings(&inputs.cfg_a, &inputs.cfg_b);
    let mut out = r#"<!doctype html>
<html lang="en">
<head>
  <meta charset="utf-8">
  <title>"#.to_owned();
    out.push_str(html_escape(title_text(inputs).as_str()).as_str());
    out.push_str(
        r#"</title>
  <script data-library="chart.js">"#,
    );
    out.push_str(chart_js);
    out.push_str(COMPARE_STYLE);
    out.push_str(html_escape(inputs.cfg_a.run_id.as_str()).as_str());
    out.push_str(r#" <span style="color:var(--muted)">vs</span> "#);
    out.push_str(html_escape(inputs.cfg_b.run_id.as_str()).as_str());
    out.push_str(" · generated <code>");
    out.push_str(generated);
    out.push_str(
        r"</code></div>
    ",
    );
    out.push_str(warnings_block(&warnings).as_str());
    out.push_str(
        r#"

    <div class="header-cards">
      <div class="run-card">
        <h3>a · "#,
    );
    out.push_str(html_escape(inputs.cfg_a.run_id.as_str()).as_str());
    out.push_str(
        r"</h3>
        <dl>
          <dt>target</dt><dd>",
    );
    out.push_str(html_escape(inputs.cfg_a.target.as_str()).as_str());
    out.push_str(
        r"</dd>
          <dt>model</dt><dd>",
    );
    out.push_str(html_escape(inputs.cfg_a.model.as_str()).as_str());
    out.push_str(
        r"</dd>
          <dt>target rps</dt><dd>",
    );
    out.push_str(figures.a.target_rps.as_str());
    out.push_str(
        r"</dd>
          <dt>duration</dt><dd>",
    );
    out.push_str(decimal_text(inputs.cfg_a.duration_secs as u128).as_str());
    out.push_str(
        r"s</dd>
          <dt>total requests</dt><dd>",
    );
    out.push_str(decimal_text(inputs.records_a.len() as u128).as_str());
    out.push_str(
        r"</dd>
          <dt>success rate</dt><dd>",
    );
    out.push_str(figures.a.success_short.as_str());
    out.push_str(
        r"%</dd>
          <dt>status</dt><dd>",
    );
    out.push_str(inputs.status_a.as_str());
    out.push_str(
        r#"</dd>
        </dl>
      </div>
      <div class="run-card">
        <h3>b · "#,
    );
    out.push_str(html_escape(inputs.cfg_b.run_id.as_str()).as_str());
    out.push_str(
        r"</h3>
        <dl>
          <dt>target</dt><dd>",
    );
    out.push_str(html_escape(inputs.cfg_b.target.as_str()).as_str());
    out.push_str(
        r"</dd>
          <dt>model</dt><dd>",
    );
    out.push_str(html_escape(inputs.cfg_b.model.as_str()).as_str());
    out.push_str(
        r"</dd>
          <dt>target rps</dt><dd>",
    );
    out.push_str(figures.b.target_rps.as_str());
    out.push_str(
        r"</dd>
          <dt>duration</dt><dd>",
    );
    out.push_str(decimal_text(inputs.cfg_b.duration_secs as u128).as_str());
    out.push_str(
        r"s</dd>
          <dt>total requests</dt><dd>",
    );
    out.push_str(decimal_text(inputs.records_b.len() as u128).as_str());
    out.push_str(
        r"</dd>
          <dt>success rate</dt><dd>",
    );
    out.push_str(figures.b.success_short.as_str());
    out.push_str(
        r"%</dd>
          <dt>status</dt><dd>",
    );
    out.push_str(inputs.status_b.as_str());
    out.push_str(
        r#"</dd>
        </dl>
      </div>
    </div>

    <h2>Diff</h2>
    <table>
      <thead><tr><th>metric</th><th style="text-align:right">a</th><th style="text-align:right">b</th><th style="text-align:right">delta</th><th style="text-align:right">%</th></tr></thead>
      <tbody>"#,
    );
    out.push_str(build_diff_rows(inputs, figures).as_str());
    out.push_str(
        r#"</tbody>
    </table>

    <h2>Latency percentiles (ms)</h2>
    <div class="charts">
      <div class="chart-card"><h3>"#,
    );
    out.push_str(html_escape(inputs.cfg_a.run_id.as_str()).as_str());
    out.push_str(
        r#" latency (ms)</h3><canvas id="latA"></canvas></div>
      <div class="chart-card"><h3>"#,
    );
    out.push_str(html_escape(inputs.cfg_b.run_id.as_str()).as_str());
    out.push_str(
        r#" latency (ms)</h3><canvas id="latB"></canvas></div>
    </div>

    <footer>powered by power_test v"#,
    );
    out.push_str(version);
    out.push_str(
        r#"</footer>
  </div>

  <script id="compare-data" type="application/json">"#,
    );
    out.push_str(escape_script(compare_data(inputs, &figures.data).as_str()).as_str());
    out.push_str(COMPARE_SCRIPT);
    out
}

/// Without the character that starts a terminal code.
#[verifier::opaque]
pub open spec fn plain(s: Seq<char>) -> bool {
    forall|i: int| 0 <= i < s.len() ==> #[trigger] s[i] != '\u{1b}'
}

broadcast proof fn plain_sum(a: Seq<char>, b: Seq<char>)
    ensures
        #[trigger] plain(a + b) <==> plain(a) && plain(b),
{
    reveal(plain);
    if plain(a + b) {
        assert forall|i: int| 0 <= i < a.len() implies #[trigger] a[i] != '\u{1b}' by {
            assert((a + b)[i] == a[i]);
        }
        assert forall|i: int| 0 <= i < b.len() implies #[trigger] b[i] != '\u{1b}' by {
            assert((a + b)[a.len() + i] == b[i]);
        }
    }
}

proof fn plain_decimal(n: nat)
    ensures
        plain(decimal(n)),
    decreases n,
{
    reveal(plain);
    if n >= 10 {
        plain_decimal(n / 10);
    }
}

/// What a side of the comparison writes is plain.
pub open spec fn plain_side(cfg: RunConfig, f: SideFigures) -> bool {
    &&& plain(cfg.run_id@) && plain(cfg.target@) && plain(cfg.model@)
    &&& cfg.model_alias matches Some(alias) ==> plain(alias@)
    &&& plain(f.target_rps@) && plain(f.achieved_rps@) && plain(f.success_rate@)
    &&& plain(f.latency_p50@) && plain(f.latency_p90@) && plain(f.latency_p99@) && plain(
        f.latency_p999@,
    )
    &&& plain(f.ttft_p50@) && plain(f.ttft_p99@) && plain(f.itl_mean@) && plain(f.itl_p99@)
    &&& plain(f.tps_mean@) && plain(f.tps_p99@) && plain(f.duration@)
}

pub open spec fn plain_change(c: Change) -> bool {
    plain(c.abs_text@) && plain(c.pct_text@)
}

/// What the changes write is plain.
pub open spec fn plain_diff(d: MetricDiff) -> bool {
    &&& plain_change(d.achieved_rps) && plain_change(d.total_requests) && plain_change(
        d.success_rate,
    )
    &&& plain_change(d.latency.p50) && plain_change(d.latency.p90) && plain_change(d.latency.p99)
        && plain_change(d.latency.p99_9)
    &&& plain_change(d.ttft.first) && plain_change(d.ttft.second)
    &&& plain_change(d.itl.first) && plain_change(d.itl.second)
    &&& plain_change(d.tps.first) && plain_change(d.tps.second)
    &&& plain_change(d.total_tokens) && plain_change(d.duration_secs)
}

proof fn plain_row(
    name: Seq<char>,
    a: Seq<char>,
    b: Seq<char>,
    change: Change,
    direction: Direction,
    show_pct: bool,
)
    requires
        plain(name),
        plain(a),
        plain(b),
        plain_change(change),
    ensures
        plain(text_row(name, a, b, change, direction, show_pct, false)),
{
    reveal(plain);
    broadcast use plain_sum;

    reveal_strlit("  ");
    reveal_strlit("");
    reveal_strlit("+");
    reveal_strlit("\n");
    reveal_strlit("  (");
    reveal_strlit("%)");
    reveal_strlit("  (n/a)");
    assert(plain("  "@) && plain(""@) && plain("+"@) && plain("\n"@));
    assert(plain("  ("@) && plain("%)"@) && plain("  (n/a)"@));
    let text = change_text(change, show_pct);
    assert(plain(text));
    plain_spaces(22 - name.len());
    plain_spaces(14 - a.len());
    plain_spaces(14 - b.len());
    plain_spaces(20 - text.len());
}

proof fn plain_warnings(warnings: Seq<Seq<char>>)
    requires
        forall|i: int| 0 <= i < warnings.len() ==> plain(#[trigger] warnings[i]),
    ensures
        plain(warning_lines(warnings)),
    decreases warnings.len(),
{
    reveal(plain);
    broadcast use plain_sum;

    if warnings.len() > 0 {
        plain_warnings(warnings.drop_last());
        reveal_strlit("warning: ");
        reveal_strlit("\n");
        assert(plain("warning: "@) && plain("\n"@));
        assert(plain(warnings.last()));
    }
}

proof fn plain_difference(what: Seq<char>, a: Seq<char>, b: Seq<char>, note: Seq<char>)
    requires
        plain(what),
        plain(a),
        plain(b),
        plain(note),
    ensures
        forall|i: int|
            0 <= i < difference(what, a, b, note).len() ==> plain(
                #[trigger] difference(what, a, b, note)[i],
            ),
{
    reveal(plain);
    broadcast use plain_sum;

    reveal_strlit("different ");
    reveal_strlit(": '");
    reveal_strlit("' vs '");
    reveal_strlit("'");
    assert(plain("different "@) && plain(": '"@) && plain("' vs '"@) && plain("'"@));
}

proof fn plain_pattern(p: LoadPattern)
    ensures
        plain(p.label()),
{
    reveal(plain);
    reveal_strlit("constant");
    reveal_strlit("ramp");
    reveal_strlit("spike");
    reveal_strlit("soak");
}

proof fn plain_shape(a: RunConfig, b: RunConfig, fa: SideFigures, fb: SideFigures)
    requires
        plain_side(a, fa),
        plain_side(b, fb),
    ensures
        plain(warnings_text(shape_warning_texts(a, b))),
{
    reveal(plain);
    broadcast use plain_sum;

    reveal_strlit("targets");
    reveal_strlit("models");
    reveal_strlit("model alias");
    reveal_strlit("load patterns");
    reveal_strlit("");
    reveal_strlit(" (runs are in different history subdirectories)");
    reveal_strlit("------------------------------------------------------------------------\n");
    let ka = group_key(a.model@, opt_view(a.model_alias));
    let kb = group_key(b.model@, opt_view(b.model_alias));
    let note = " (runs are in different history subdirectories)"@;
    assert(plain(ka) && plain(kb));
    plain_pattern(a.pattern);
    plain_pattern(b.pattern);
    plain_difference("targets"@, a.target@, b.target@, ""@);
    plain_difference("models"@, a.model@, b.model@, ""@);
    plain_difference("model alias"@, ka, kb, note);
    plain_difference("load patterns"@, a.pattern.label(), b.pattern.label(), ""@);
    let d1 = difference("targets"@, a.target@, b.target@, ""@);
    let d2 = difference("models"@, a.model@, b.model@, ""@);
    let d3 = difference("model alias"@, ka, kb, note);
    let d4 = difference("load patterns"@, a.pattern.label(), b.pattern.label(), ""@);
    let all = shape_warning_texts(a, b);
    assert(all =~= d1 + d2 + d3 + d4);
    assert forall|i: int| 0 <= i < all.len() implies plain(#[trigger] all[i]) by {
        if i < d1.len() {
            assert(all[i] == d1[i]);
        } else if i < d1.len() + d2.len() {
            assert(all[i] == d2[i - d1.len()]);
        } else if i < d1.len() + d2.len() + d3.len() {
            assert(all[i] == d3[i - d1.len() - d2.len()]);
        } else {
            assert(all[i] == d4[i - d1.len() - d2.len() - d3.len()]);
        }
    }
    plain_warnings(all);
    assert(plain("------------------------------------------------------------------------\n"@));
}

proof fn plain_table(inputs: CompareInputs, figures: CompareFigures)
    requires
        plain_side(inputs.cfg_a, figures.a),
        plain_side(inputs.cfg_b, figures.b),
        plain_diff(figures.diff),
    ensures
        plain(table_text(inputs, figures, false)),
{
    reveal(plain);
    broadcast use plain_sum;

    reveal_strlit("achieved rps");
    assert(plain("achieved rps"@));
    reveal_strlit("total requests");
    assert(plain("total requests"@));
    reveal_strlit("success rate %");
    assert(plain("success rate %"@));
    reveal_strlit("  p50");
    assert(plain("  p50"@));
    reveal_strlit("  p90");
    assert(plain("  p90"@));
    reveal_strlit("  p99");
    assert(plain("  p99"@));
    reveal_strlit("  p99.9");
    assert(plain("  p99.9"@));
    reveal_strlit("  mean");
    assert(plain("  mean"@));
    reveal_strlit("total tokens");
    assert(plain("total tokens"@));
    reveal_strlit("duration (s)");
    assert(plain("duration (s)"@));
    reveal_strlit("\n  latency (ms)\n");
    assert(plain("\n  latency (ms)\n"@));
    reveal_strlit("\n  ttft (ms)\n");
    assert(plain("\n  ttft (ms)\n"@));
    reveal_strlit("\n  itl (ms)\n");
    assert(plain("\n  itl (ms)\n"@));
    reveal_strlit("\n  tps (tokens/sec)\n");
    assert(plain("\n  tps (tokens/sec)\n"@));
    reveal_strlit("\n");
    assert(plain("\n"@));
    plain_decimal(inputs.records_a@.len());
    plain_decimal(total(inputs.records_a@, Quantity::Completion) as nat);
    plain_decimal(inputs.records_b@.len());
    plain_decimal(total(inputs.records_b@, Quantity::Completion) as nat);
    plain_row("achieved rps"@, figures.a.achieved_rps@, figures.b.achieved_rps@, figures.diff.achieved_rps, Direction::Up, true);
    plain_row("total requests"@, decimal(inputs.records_a@.len()), decimal(inputs.records_b@.len()), figures.diff.total_requests, Direction::Up, false);
    plain_row("success rate %"@, figures.a.success_rate@, figures.b.success_rate@, figures.diff.success_rate, Direction::Up, true);
    plain_row("  p50"@, figures.a.latency_p50@, figures.b.latency_p50@, figures.diff.latency.p50, Direction::Down, true);
    plain_row("  p90"@, figures.a.latency_p90@, figures.b.latency_p90@, figures.diff.latency.p90, Direction::Down, true);
    plain_row("  p99"@, figures.a.latency_p99@, figures.b.latency_p99@, figures.diff.latency.p99, Direction::Down, true);
    plain_row("  p99.9"@, figures.a.latency_p999@, figures.b.latency_p999@, figures.diff.latency.p99_9, Direction::Down, true);
    plain_row("  p50"@, figures.a.ttft_p50@, figures.b.ttft_p50@, figures.diff.ttft.first, Direction::Down, true);
    plain_row("  p99"@, figures.a.ttft_p99@, figures.b.ttft_p99@, figures.diff.ttft.second, Direction::Down, true);
    plain_row("  mean"@, figures.a.itl_mean@, figures.b.itl_mean@, figures.diff.itl.first, Direction::Down, true);
    plain_row("  p99"@, figures.a.itl_p99@, figures.b.itl_p99@, figures.diff.itl.second, Direction::Down, true);
    plain_row("  mean"@, figures.a.tps_mean@, figures.b.tps_mean@, figures.diff.tps.first, Direction::Up, true);
    plain_row("  p99"@, figures.a.tps_p99@, figures.b.tps_p99@, figures.diff.tps.second, Direction::Up, true);
    plain_row("total tokens"@, decimal(total(inputs.records_a@, Quantity::Completion) as nat), decimal(total(inputs.records_b@, Quantity::Completion) as nat), figures.diff.total_tokens, Direction::Up, false);
    plain_row("duration (s)"@, figures.a.duration@, figures.b.duration@, figures.diff.duration_secs, Direction::Neutral, true);
}

proof fn plain_frame()
    ensures
        plain("power_test compare — "@),
        plain(" vs "@),
        plain("\n========================================================================\n"@),
        plain("  baseline (a): target="@),
        plain("  candidate (b): target="@),
        plain(" model="@),
        plain(" rps="@),
        plain(" duration="@),
        plain("s\n"@),
        plain("\n  "@),
        plain("metric"@),
        plain("a"@),
        plain("b"@),
        plain("delta"@),
        plain("  "@),
        plain("  \n  ----------------------------------------------------------------------------\n"@),
{
    reveal(plain);
    reveal_strlit("power_test compare — ");
    reveal_strlit(" vs ");
    reveal_strlit("\n========================================================================\n");
    reveal_strlit("  baseline (a): target=");
    reveal_strlit("  candidate (b): target=");
    reveal_strlit(" model=");
    reveal_strlit(" rps=");
    reveal_strlit(" duration=");
    reveal_strlit("s\n");
    reveal_strlit("\n  ");
    reveal_strlit("metric");
    reveal_strlit("a");
    reveal_strlit("b");
    reveal_strlit("delta");
    reveal_strlit("  ");
    reveal_strlit("  \n  ----------------------------------------------------------------------------\n");
}

proof fn plain_side_line(head: Seq<char>, cfg: RunConfig, f: SideFigures)
    requires
        plain(head),
        plain_side(cfg, f),
    ensures
        plain(side_line(head, cfg, f)),
{
    broadcast use plain_sum;

    plain_frame();
    plain_decimal(cfg.duration_secs as nat);
}

proof fn plain_spaces(n: int)
    ensures
        plain(spaces(n)),
{
    reveal(plain);
}

/// Without colours, the comparison holds no terminal codes, where the texts that
/// it is made of hold none.
pub proof fn plain_output_holds_no_codes(inputs: CompareInputs, figures: CompareFigures)
    requires
        plain_side(inputs.cfg_a, figures.a),
        plain_side(inputs.cfg_b, figures.b),
        plain_diff(figures.diff),
    ensures
        plain(compare_text(inputs, figures, false)),
{
    broadcast use plain_sum;

    plain_table(inputs, figures);
    plain_shape(inputs.cfg_a, inputs.cfg_b, figures.a, figures.b);
    plain_frame();
    plain_side_line("  baseline (a): target="@, inputs.cfg_a, figures.a);
    plain_side_line("  candidate (b): target="@, inputs.cfg_b, figures.b);
    assert(plain(compare_title(inputs)));
    plain_spaces(22 - "metric"@.len());
    plain_spaces(14 - "a"@.len());
    plain_spaces(14 - "b"@.len());
    plain_spaces(20 - "delta"@.len());
}

} // verus!
