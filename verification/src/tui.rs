//! The live view of a run: what keys do, and what the panels say.

use crate::binary64::Real;
use crate::config::RunConfig;
use crate::histogram::mean_of;
use crate::report::html::{cell, cell_text};
use crate::runner::metrics::{
    n_failed, n_ok, rates, recorded, HistKind, MetricsAggregator, Percentile, RunView,
    TokenRate,
};
use crate::compare::percentile_in;
use crate::shown::{group_shown, shows};
use crate::tables::{insert_all, keys_of};
use crate::text::{chars_of, decimal, decimal_text, text_between};
use vstd::prelude::*;

verus! {

broadcast use vstd::std_specs::hash::group_hash_axioms;

/// What the user wants.
#[derive(Debug, Clone, Copy, PartialEq, Eq, Structural)]
pub enum TuiAction {
    /// Stop the run.
    Quit,
    /// Pause, or go on.
    Pause,
    /// Nothing at all.
    Nothing,
}

/// What happened to a key.
#[derive(Debug, Clone, Copy, PartialEq, Eq, Structural)]
pub enum KeyKind {
    Press,
    Repeat,
    Release,
}

#[derive(Debug, Clone, Copy, PartialEq, Eq, Structural)]
pub enum KeyCode {
    Char(char),
    Esc,
    /// Any other key.
    Other,
}

#[derive(Debug, Clone, Copy, PartialEq, Eq, Structural)]
pub struct KeyEvent {
    pub kind: KeyKind,
    pub code: KeyCode,
}

/// What a key stands for: `q`, `c` and escape stop the run, `p` pauses it.
/// Letting go of a key does nothing.
pub open spec fn action_of(key: KeyEvent) -> TuiAction {
    if key.kind == KeyKind::Release {
        TuiAction::Nothing
    } else {
        match key.code {
            KeyCode::Esc => TuiAction::Quit,
            KeyCode::Char(c) => if c == 'q' || c == 'Q' || c == 'c' || c == 'C' {
                TuiAction::Quit
            } else if c == 'p' || c == 'P' {
                TuiAction::Pause
            } else {
                TuiAction::Nothing
            },
            KeyCode::Other => TuiAction::Nothing,
        }
    }
}

/// Turns a key event into an action.
pub fn parse_key_event(key: KeyEvent) -> (r: TuiAction)
    ensures
        r == action_of(key),
{
    match key.kind {
        KeyKind::Release => TuiAction::Nothing,
        _ => match key.code {
            KeyCode::Esc => TuiAction::Quit,
            KeyCode::Char(c) => if c == 'q' || c == 'Q' || c == 'c' || c == 'C' {
                TuiAction::Quit
            } else if c == 'p' || c == 'P' {
                TuiAction::Pause
            } else {
                TuiAction::Nothing
            },
            KeyCode::Other => TuiAction::Nothing,
        },
    }
}

/// Whether a run is paused after an action.
pub open spec fn paused_after(action: TuiAction, paused: bool) -> bool {
    if action == TuiAction::Pause {
        !paused
    } else {
        paused
    }
}

/// What an action does to a run that can be paused: whether the view stops, and
/// whether the run is paused then.
pub fn apply_action(action: TuiAction, paused: bool) -> (r: (bool, bool))
    ensures
        r.0 == (action == TuiAction::Quit),
        r.1 == paused_after(action, paused),
{
    match action {
        TuiAction::Quit => (true, paused),
        TuiAction::Pause => (false, !paused),
        TuiAction::Nothing => (false, paused),
    }
}

/// Pausing twice changes nothing.
pub proof fn pausing_twice_changes_nothing(paused: bool)
    ensures
        paused_after(TuiAction::Pause, paused_after(TuiAction::Pause, paused)) == paused,
{
}

/// The current rate: the requests of the latest second, or all requests over
/// the time so far.
#[derive(Debug, Clone, Copy, PartialEq, Eq, Structural)]
pub enum CurrentRate {
    PerSecond(u64),
    Average { requests: u64, nanos: u128 },
}

/// A snapshot of a run for the panels. Times are microseconds, but for those in
/// nanoseconds.
#[derive(Debug)]
pub struct Snapshot {
    pub total: u64,
    pub success: u64,
    pub errors: u64,
    pub scheduled: u64,
    pub skipped: u64,
    pub current_rps: CurrentRate,
    pub latency_p50: Option<u64>,
    pub latency_p90: Option<u64>,
    pub latency_p99: Option<u64>,
    pub ttft_p50: Option<u64>,
    pub ttft_p99: Option<u64>,
    pub itl_mean: Option<Real>,
    pub itl_p99: Option<u64>,
    pub token_rates: Vec<TokenRate>,
    /// Nothing once the duration is over.
    pub nanos_remaining: u128,
}

/// `second` is the latest one that has a count.
pub open spec fn latest(m: Map<u64, u64>, second: u64) -> bool {
    &&& m.contains_key(second)
    &&& forall|s: u64| #[trigger] m.contains_key(s) ==> s <= second
}

/// The current rate of a run.
pub open spec fn current_rate(rate: CurrentRate, run: RunView, elapsed_nanos: u128) -> bool {
    match rate {
        CurrentRate::PerSecond(n) => n > 0 && exists|s: u64| #[trigger]
            latest(run.completed, s) && run.completed[s] == n,
        CurrentRate::Average { requests, nanos } => {
            &&& requests == run.records.len()
            &&& nanos == elapsed_nanos
            &&& forall|s: u64| #[trigger] latest(run.completed, s) ==> run.completed[s] == 0
        },
    }
}

/// The count of the latest second that has one.
fn latest_count(agg: &MetricsAggregator) -> (r: Option<u64>)
    ensures
        match r {
            Some(n) => exists|s: u64| #[trigger] latest(agg@.completed, s) && agg@.completed[s] == n,
            None => forall|s: u64| !(#[trigger] latest(agg@.completed, s)),
        },
{
    let map = agg.per_second_completed();
    let mut seconds: Vec<u64> = Vec::new();
    let keys = keys_of(map);
    insert_all(&mut seconds, &keys);
    proof {
        assert(Seq::<u64>::empty().to_set() =~= Set::<u64>::empty());
        assert(seconds@.to_set() =~= map@.dom());
    }
    let n = seconds.len();
    if n == 0 {
        proof {
            assert forall|s: u64| !(#[trigger] latest(agg@.completed, s)) by {
                assert(!seconds@.to_set().contains(s));
            }
        }
        return None;
    }
    let last = seconds[n - 1];
    proof {
        assert(seconds@.to_set().contains(last));
        assert(map@.contains_key(last));
        assert forall|s: u64| #[trigger] map@.contains_key(s) implies s <= last by {
            assert(seconds@.to_set().contains(s));
            let i = choose|i: int| 0 <= i < seconds@.len() && seconds@[i] == s;
            if i < n - 1 {
                assert(seconds@[i] < seconds@[n - 1]);
            }
        }
        assert(latest(agg@.completed, last));
    }
    match map.get(&last) {
        Some(c) => Some(*c),
        None => None,
    }
}

impl Snapshot {
    /// Takes a snapshot after so many nanoseconds of a run.
    pub fn from_aggregator(agg: &MetricsAggregator, elapsed_nanos: u128, duration_secs: u64) -> (r:
        Self)
        requires
            agg.wf(),
        ensures
            r.total == agg@.records.len(),
            r.success == n_ok(agg@.records),
            r.errors == n_failed(agg@.records),
            r.scheduled == agg@.scheduled,
            r.skipped == agg@.skipped,
            current_rate(r.current_rps, agg@, elapsed_nanos),
            r.latency_p50 == percentile_in(agg@.records, HistKind::Latency, Percentile::P50),
            r.latency_p90 == percentile_in(agg@.records, HistKind::Latency, Percentile::P90),
            r.latency_p99 == percentile_in(agg@.records, HistKind::Latency, Percentile::P99),
            r.ttft_p50 == percentile_in(agg@.records, HistKind::Ttft, Percentile::P50),
            r.ttft_p99 == percentile_in(agg@.records, HistKind::Ttft, Percentile::P99),
            r.itl_mean == (if recorded(agg@.records, HistKind::Itl).len() == 0 {
                None
            } else {
                Some(Real { bits: mean_of(recorded(agg@.records, HistKind::Itl)) })
            }),
            r.itl_p99 == percentile_in(agg@.records, HistKind::Itl, Percentile::P99),
            r.token_rates@ == rates(agg@.records),
            r.nanos_remaining == (if duration_secs * 1_000_000_000 > elapsed_nanos {
                duration_secs * 1_000_000_000 - elapsed_nanos
            } else {
                0
            }),
    {
        let total = agg.total_requests();
        let average = CurrentRate::Average { requests: total, nanos: elapsed_nanos };
        let current_rps = match latest_count(agg) {
            Some(n) => if n > 0 {
                CurrentRate::PerSecond(n)
            } else {
                proof {
                    let s0 = choose|s: u64| #[trigger]
                        latest(agg@.completed, s) && agg@.completed[s] == n;
                    assert forall|s: u64| #[trigger] latest(agg@.completed, s) implies
                        agg@.completed[s] == 0 by {
                        assert(s <= s0 && s0 <= s);
                    }
                }
                average
            },
            None => average,
        };
        let limit = duration_secs as u128 * 1_000_000_000;
        Snapshot {
            total,
            success: agg.success_count(),
            errors: agg.error_count(),
            scheduled: agg.scheduled(),
            skipped: agg.skipped(),
            current_rps,
            latency_p50: agg.percentile(HistKind::Latency, Percentile::P50),
            latency_p90: agg.percentile(HistKind::Latency, Percentile::P90),
            latency_p99: agg.percentile(HistKind::Latency, Percentile::P99),
            ttft_p50: agg.percentile(HistKind::Ttft, Percentile::P50),
            ttft_p99: agg.percentile(HistKind::Ttft, Percentile::P99),
            itl_mean: agg.mean(HistKind::Itl),
            itl_p99: agg.percentile(HistKind::Itl, Percentile::P99),
            token_rates: agg.tps_values(),
            nanos_remaining: if limit > elapsed_nanos {
                limit - elapsed_nanos
            } else {
                0
            },
        }
    }
}

/// A text of at most `limit` characters: a longer one loses its end to a mark.
pub open spec fn shortened(text: Seq<char>, limit: int) -> Seq<char> {
    if text.len() > limit {
        text.take(limit - 3) + "…"@
    } else {
        text
    }
}

/// Shortens a text to at most `limit` characters.
pub fn shorten(text: &str, limit: usize) -> (r: String)
    requires
        limit >= 3,
    ensures
        r@ == shortened(text@, limit as int),
        r@.len() <= limit,
{
    let chars = chars_of(text);
    if chars.len() > limit {
        let mut out = text_between(&chars, 0, limit - 3);
        proof {
            reveal_strlit("…");
            assert(text@.subrange(0, limit - 3) =~= text@.take(limit - 3));
        }
        out.push_str("…");
        out
    } else {
        text.to_owned()
    }
}

/// The numbers of the panels, written out. Those of a metric are read only where
/// there is one.
#[derive(Debug)]
pub struct PanelFigures {
    pub target_rps: String,
    pub current_rps: String,
    pub seconds_remaining: String,
    pub latency_p50: String,
    pub latency_p90: String,
    pub latency_p99: String,
    pub ttft_p50: String,
    pub ttft_p99: String,
    pub itl_mean: String,
    pub itl_p99: String,
    pub tps_mean: String,
    pub tps_p99: String,
}

/// The parts of the top bar: the run, its target, its model and its rates.
pub open spec fn top_bar(cfg: RunConfig, figures: PanelFigures) -> Seq<Seq<char>> {
    let id = if cfg.run_id@.len() > 8 {
        cfg.run_id@.take(8)
    } else {
        cfg.run_id@
    };
    seq![
        " run "@ + id + " "@,
        " target="@ + shortened(cfg.target@, 50) + " "@,
        " model="@ + cfg.model@ + " "@,
        " target_rps="@ + figures.target_rps@ + " current_rps="@ + figures.current_rps@
            + " remaining="@ + figures.seconds_remaining@ + "s "@,
    ]
}

fn framed(head: &str, text: &str) -> (r: String)
    ensures
        r@ == head@ + text@ + " "@,
{
    let mut out = head.to_owned();
    out.push_str(text);
    out.push_str(" ");
    out
}

/// Writes the parts of the top bar.
pub fn render_top_bar(cfg: &RunConfig, figures: &PanelFigures) -> (r: Vec<String>)
    ensures
        crate::text::views(r@) == top_bar(*cfg, *figures),
{
    let chars = chars_of(cfg.run_id.as_str());
    let id = if chars.len() > 8 {
        let id = text_between(&chars, 0, 8);
        proof {
            assert(cfg.run_id@.subrange(0, 8) =~= cfg.run_id@.take(8));
        }
        id
    } else {
        cfg.run_id.clone()
    };
    let mut rates = " target_rps=".to_owned();
    rates.push_str(figures.target_rps.as_str());
    rates.push_str(" current_rps=");
    rates.push_str(figures.current_rps.as_str());
    rates.push_str(" remaining=");
    rates.push_str(figures.seconds_remaining.as_str());
    rates.push_str("s ");
    let mut out: Vec<String> = Vec::new();
    out.push(framed(" run ", id.as_str()));
    out.push(framed(" target=", shorten(cfg.target.as_str(), 50).as_str()));
    out.push(framed(" model=", cfg.model.as_str()));
    out.push(rates);
    proof {
        assert(crate::text::views(out@) =~= top_bar(*cfg, *figures));
    }
    out
}

/// One line of a panel: a number, or a dash where there is none.
pub open spec fn panel_line(head: Seq<char>, present: bool, text: Seq<char>) -> Seq<char> {
    head + cell(present, text)
}

fn panel_text(head: &str, present: bool, text: &String) -> (r: String)
    ensures
        r@ == panel_line(head@, present, text@),
{
    let mut out = head.to_owned();
    out.push_str(cell_text(present, text).as_str());
    out
}

/// The panels of the view.
#[derive(Debug, Clone, Copy, PartialEq, Eq, Structural)]
pub enum Panel {
    Latency,
    Ttft,
    Itl,
    Tps,
}

impl Panel {
    pub open spec fn heading(self) -> Seq<char> {
        match self {
            Panel::Latency => " Latency (ms) "@,
            Panel::Ttft => " TTFT (ms) "@,
            Panel::Itl => " ITL (ms) "@,
            Panel::Tps => " TPS "@,
        }
    }

    /// What stands in the border of the panel.
    pub fn title(self) -> (r: &'static str)
        ensures
            r@ == self.heading(),
    {
        match self {
            Panel::Latency => " Latency (ms) ",
            Panel::Ttft => " TTFT (ms) ",
            Panel::Itl => " ITL (ms) ",
            Panel::Tps => " TPS ",
        }
    }
}

/// The lines of the four panels: latency, first token, between tokens, token
/// rates.
pub open spec fn panels(snap: Snapshot, f: PanelFigures) -> Seq<Seq<char>> {
    seq![
        panel_line(" p50:  "@, snap.latency_p50 is Some, f.latency_p50@),
        panel_line(" p90:  "@, snap.latency_p90 is Some, f.latency_p90@),
        panel_line(" p99:  "@, snap.latency_p99 is Some, f.latency_p99@),
        panel_line(" p50:  "@, snap.ttft_p50 is Some, f.ttft_p50@),
        panel_line(" p99:  "@, snap.ttft_p99 is Some, f.ttft_p99@),
        panel_line(" mean: "@, snap.itl_mean is Some, f.itl_mean@),
        panel_line(" p99:  "@, snap.itl_p99 is Some, f.itl_p99@),
        panel_line(" mean: "@, true, f.tps_mean@),
        panel_line(" p99:  "@, true, f.tps_p99@),
    ]
}

/// Writes the lines of the panels: three for the latency, then two for each of
/// the others.
pub fn render_panels(snap: &Snapshot, f: &PanelFigures) -> (r: Vec<String>)
    ensures
        crate::text::views(r@) == panels(*snap, *f),
{
    let mut out: Vec<String> = Vec::new();
    out.push(panel_text(" p50:  ", snap.latency_p50.is_some(), &f.latency_p50));
    out.push(panel_text(" p90:  ", snap.latency_p90.is_some(), &f.latency_p90));
    out.push(panel_text(" p99:  ", snap.latency_p99.is_some(), &f.latency_p99));
    out.push(panel_text(" p50:  ", snap.ttft_p50.is_some(), &f.ttft_p50));
    out.push(panel_text(" p99:  ", snap.ttft_p99.is_some(), &f.ttft_p99));
    out.push(panel_text(" mean: ", snap.itl_mean.is_some(), &f.itl_mean));
    out.push(panel_text(" p99:  ", snap.itl_p99.is_some(), &f.itl_p99));
    out.push(panel_text(" mean: ", true, &f.tps_mean));
    out.push(panel_text(" p99:  ", true, &f.tps_p99));
    proof {
        assert(crate::text::views(out@) =~= panels(*snap, *f));
    }
    out
}

/// The bottom bar: how far the run is.
pub open spec fn bottom_bar(snap: Snapshot, f: PanelFigures) -> Seq<char> {
    let planned: int = snap.scheduled + snap.skipped;
    " "@ + decimal(snap.total as nat) + "/"@ + decimal(
        if planned > u64::MAX {
            u64::MAX as nat
        } else {
            planned as nat
        },
    ) + " requests, "@ + decimal(snap.errors as nat) + " errors, skipped "@ + decimal(
        snap.skipped as nat,
    ) + ", ETA "@ + f.seconds_remaining@ + "s "@
}

/// Writes the bottom bar.
pub fn render_bottom_bar(snap: &Snapshot, f: &PanelFigures) -> (r: String)
    ensures
        r@ == bottom_bar(*snap, *f),
{
    let mut out = " ".to_owned();
    out.push_str(decimal_text(snap.total as u128).as_str());
    out.push_str("/");
    out.push_str(decimal_text(snap.scheduled.saturating_add(snap.skipped) as u128).as_str());
    out.push_str(" requests, ");
    out.push_str(decimal_text(snap.errors as u128).as_str());
    out.push_str(" errors, skipped ");
    out.push_str(decimal_text(snap.skipped as u128).as_str());
    out.push_str(", ETA ");
    out.push_str(f.seconds_remaining.as_str());
    out.push_str("s ");
    out
}

/// Whether the view ends: the whole seconds so far have reached the duration.
pub fn view_is_over(elapsed_nanos: u128, duration_secs: u64) -> (r: bool)
    ensures
        r == (elapsed_nanos / 1_000_000_000 >= duration_secs),
{
    elapsed_nanos / 1_000_000_000 >= duration_secs as u128
}

/// Each line of the panels shows the figure that it names: the latencies, the
/// time to the first token, the time between tokens and the token rate, in this
/// order, with a dash where nothing was recorded.
pub proof fn each_panel_shows_its_figures(snap: Snapshot, f: PanelFigures)
    ensures
        panels(snap, f).len() == 9,
        snap.latency_p50 is Some ==> panels(snap, f)[0] == " p50:  "@ + f.latency_p50@,
        snap.latency_p90 is Some ==> panels(snap, f)[1] == " p90:  "@ + f.latency_p90@,
        snap.latency_p99 is Some ==> panels(snap, f)[2] == " p99:  "@ + f.latency_p99@,
        snap.ttft_p50 is Some ==> panels(snap, f)[3] == " p50:  "@ + f.ttft_p50@,
        snap.ttft_p99 is Some ==> panels(snap, f)[4] == " p99:  "@ + f.ttft_p99@,
        snap.itl_mean is Some ==> panels(snap, f)[5] == " mean: "@ + f.itl_mean@,
        snap.itl_p99 is Some ==> panels(snap, f)[6] == " p99:  "@ + f.itl_p99@,
        panels(snap, f)[7] == " mean: "@ + f.tps_mean@,
        panels(snap, f)[8] == " p99:  "@ + f.tps_p99@,
        snap.latency_p50 is None ==> panels(snap, f)[0] == " p50:  "@ + "—"@,
        snap.ttft_p50 is None ==> panels(snap, f)[3] == " p50:  "@ + "—"@,
        snap.itl_mean is None ==> panels(snap, f)[5] == " mean: "@ + "—"@,
{
}

/// The bars name the run, its target, its model and its rates, and count what is
/// done of what was planned, the errors and the skipped ticks.
pub proof fn the_bars_count_the_run(cfg: RunConfig, snap: Snapshot, f: PanelFigures)
    ensures
        top_bar(cfg, f).len() == 4,
        cfg.run_id@.len() <= 8 ==> top_bar(cfg, f)[0] == " run "@ + cfg.run_id@ + " "@,
        cfg.run_id@.len() > 8 ==> top_bar(cfg, f)[0] == " run "@ + cfg.run_id@.take(8) + " "@,
        cfg.target@.len() <= 50 ==> top_bar(cfg, f)[1] == " target="@ + cfg.target@ + " "@,
        top_bar(cfg, f)[2] == " model="@ + cfg.model@ + " "@,
        shows(top_bar(cfg, f)[3], " target_rps="@ + f.target_rps@ + " current_rps="@
            + f.current_rps@ + " remaining="@ + f.seconds_remaining@),
        snap.scheduled + snap.skipped <= u64::MAX ==> shows(
            bottom_bar(snap, f),
            " "@ + decimal(snap.total as nat) + "/"@ + decimal(
                (snap.scheduled + snap.skipped) as nat,
            ) + " requests, "@ + decimal(snap.errors as nat) + " errors, skipped "@ + decimal(
                snap.skipped as nat,
            ) + ", ETA "@ + f.seconds_remaining@,
        ),
{
    broadcast use group_shown;

}

/// Escape, `q` and `c` end the display, `p` pauses it, in either case; other
/// keys, and keys that are let go, do nothing.
pub proof fn keys_do_what_they_are_for(kind: KeyKind, c: char)
    requires
        kind != KeyKind::Release,
    ensures
        action_of(KeyEvent { kind, code: KeyCode::Esc }) == TuiAction::Quit,
        c == 'q' || c == 'Q' || c == 'c' || c == 'C' ==> action_of(
            KeyEvent { kind, code: KeyCode::Char(c) },
        ) == TuiAction::Quit,
        c == 'p' || c == 'P' ==> action_of(KeyEvent { kind, code: KeyCode::Char(c) })
            == TuiAction::Pause,
        c != 'q' && c != 'Q' && c != 'c' && c != 'C' && c != 'p' && c != 'P' ==> action_of(
            KeyEvent { kind, code: KeyCode::Char(c) },
        ) == TuiAction::Nothing,
        action_of(KeyEvent { kind: KeyKind::Release, code: KeyCode::Char(c) })
            == TuiAction::Nothing,
        action_of(KeyEvent { kind: KeyKind::Release, code: KeyCode::Esc }) == TuiAction::Nothing,
{
}

/// The current rate is what was completed in the latest second in which anything
/// was; without one it is the average so far.
pub proof fn the_current_rate_is_that_of_the_latest_second(
    rate: CurrentRate,
    run: RunView,
    elapsed_nanos: u128,
    second: u64,
)
    requires
        current_rate(rate, run, elapsed_nanos),
    ensures
        run.completed.contains_key(second) && run.completed[second] > 0 && (forall|s: u64| #[trigger]
            run.completed.contains_key(s) ==> s <= second) ==> rate == CurrentRate::PerSecond(
            run.completed[second],
        ),
        run.completed.dom() == Set::<u64>::empty() ==> rate == (CurrentRate::Average {
            requests: run.records.len() as u64,
            nanos: elapsed_nanos,
        }),
{
    if run.completed.contains_key(second) && run.completed[second] > 0 && (forall|s: u64| #[trigger]
        run.completed.contains_key(s) ==> s <= second) {
        assert(latest(run.completed, second));
        if let CurrentRate::PerSecond(n) = rate {
            let s = choose|s: u64| #[trigger]
                latest(run.completed, s) && run.completed[s] == n;
            assert(s == second);
        }
    }
    if run.completed.dom() == Set::<u64>::empty() {
        if let CurrentRate::PerSecond(n) = rate {
            let s = choose|s: u64| #[trigger]
                latest(run.completed, s) && run.completed[s] == n;
            assert(run.completed.dom().contains(s));
        }
    }
}

/// A text that is too long is cut three characters short of the limit and
/// marked; any other stays as it is.
pub proof fn long_texts_are_shortened(text: Seq<char>, limit: int)
    requires
        limit >= 3,
    ensures
        text.len() <= limit ==> shortened(text, limit) == text,
        text.len() > limit ==> shortened(text, limit) == text.subrange(0, limit - 3) + "…"@,
{
}

} // verus!
