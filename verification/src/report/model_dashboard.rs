//! The dashboard of a model: all its runs, and a picker to compare two of them.

use super::data::{dashboard_data, dashboard_json, RowNumbers};
use super::html::{
    dictionary, footer_text, labelled, no_later_turns, powered_by, push_label, PageParts,
};
use super::i18n::{dict_to_json, t, translated, Locale};
use crate::binary64::Real;
use crate::compare::{snapshot_of, AggregatorSnapshot};
use crate::config::{opt_view, RunConfig};
use crate::json::compact_text;
use crate::runner::metrics::{cache_totals, MetricsAggregator, Ratio};
use crate::text::{
    decimal, decimal_text, escape_script, escaped, html_escape, replace, replaced, script_safe,
};
use vstd::prelude::*;

verus! {

/// The prompt cache of a run.
#[derive(Debug, Clone, Copy, PartialEq, Eq, Structural)]
pub struct CacheStatsView {
    pub rate_overall: Ratio,
    pub rate_turn1: Ratio,
    pub rate_turn2plus: Ratio,
    pub creation_total: u64,
    pub hit_total: u64,
    pub has_continuations: bool,
    pub denominator_total: u128,
}

/// One run as the dashboard shows it.
#[derive(Debug)]
pub struct RunSummary {
    pub run_id: String,
    pub started_at: String,
    pub target: String,
    pub model: String,
    pub model_alias: Option<String>,
    pub target_rps: Real,
    pub status: String,
    pub tag: Option<String>,
    /// Requests, duration, latencies and token rates.
    pub metrics: AggregatorSnapshot,
    pub cache: CacheStatsView,
    pub report_filename: String,
}

/// Sums a run up for the dashboard.
pub fn run_summary_from_run(config: &RunConfig, agg: &MetricsAggregator, report_filename: String)
    -> (r: RunSummary)
    requires
        agg.wf(),
    ensures
        r.run_id@ == config.run_id@,
        r.started_at@ == config.started_at@,
        r.target@ == config.target@,
        r.model@ == config.model@,
        opt_view(r.model_alias) == opt_view(config.model_alias),
        r.target_rps == config.target_rps,
        r.status@ == "completed"@,
        opt_view(r.tag) == opt_view(config.tag),
        snapshot_of(r.metrics, agg@.records, config.duration_secs),
        ({
            let c = cache_totals(agg@.records);
            &&& r.cache.rate_overall == c.rate_overall
            &&& r.cache.rate_turn1 == c.rate_turn1
            &&& r.cache.rate_turn2plus == c.rate_turn2plus
            &&& r.cache.creation_total == c.cache_creation_total
            &&& r.cache.hit_total == c.cache_hit_total
            &&& r.cache.has_continuations == !no_later_turns(c)
            &&& r.cache.denominator_total == c.prompt_turn1 + c.prompt_turn2plus
        }),
        r.report_filename == report_filename,
{
    let c = agg.cache_stats();
    RunSummary {
        run_id: config.run_id.clone(),
        started_at: config.started_at.clone(),
        target: config.target.clone(),
        model: config.model.clone(),
        model_alias: config.model_alias.clone(),
        target_rps: config.target_rps,
        status: "completed".to_owned(),
        tag: config.tag.clone(),
        metrics: AggregatorSnapshot::from(agg, config),
        cache: CacheStatsView {
            rate_overall: c.rate_overall,
            rate_turn1: c.rate_turn1,
            rate_turn2plus: c.rate_turn2plus,
            creation_total: c.cache_creation_total,
            hit_total: c.cache_hit_total,
            has_continuations: c.cache_creation_turn2plus > 0 || c.cache_hit_turn2plus > 0
                || c.prompt_turn2plus > 0,
            denominator_total: c.prompt_turn1 as u128 + c.prompt_turn2plus as u128,
        },
        report_filename,
    }
}

/// A run with the numbers of its row written out.
#[derive(Debug)]
pub struct DashboardRow {
    pub run: RunSummary,
    pub target_rps: String,
    pub success_rate: String,
    pub latency_p50: String,
    pub latency_p99: String,
    pub tps_mean: String,
    pub cache_rate: String,
    pub data: RowNumbers,
}

/// How many runs there are, and the alias where there is one.
pub open spec fn subtitle_text(n: nat, alias: Option<Seq<char>>) -> Seq<char> {
    match alias {
        Some(alias) => replaced(
            replaced(translated(Locale::Zh, "dash.subtitle"@), "{n}"@, decimal(n)),
            "{alias}"@,
            alias,
        ),
        None => replaced(translated(Locale::Zh, "dash.subtitle_no_alias"@), "{n}"@, decimal(n)),
    }
}

fn subtitle(n: usize, alias: &Option<String>) -> (r: String)
    ensures
        r@ == subtitle_text(n as nat, opt_view(*alias)),
{
    proof {
        reveal_strlit("{n}");
        reveal_strlit("{alias}");
    }
    let count = decimal_text(n as u128);
    match alias {
        Some(a) => {
            let text = replace(t(Locale::Zh, "dash.subtitle").as_str(), "{n}", count.as_str());
            replace(text.as_str(), "{alias}", a.as_str())
        },
        None => replace(
            t(Locale::Zh, "dash.subtitle_no_alias").as_str(),
            "{n}",
            count.as_str(),
        ),
    }
}

/// The note that there are no runs.
pub open spec fn no_runs_html(n: nat) -> Seq<char> {
    if n == 0 {
        r#"<div class="empty-state""#@ + labelled("dash.no_runs"@) + "</div>"@
    } else {
        Seq::empty()
    }
}

fn no_runs(n: usize) -> (r: String)
    ensures
        r@ == no_runs_html(n as nat),
{
    if n == 0 {
        let mut out = r#"<div class="empty-state""#.to_owned();
        push_label(&mut out, "dash.no_runs");
        out.push_str("</div>");
        out
    } else {
        String::new()
    }
}

/// The rows of the table.
pub open spec fn rows_html(rows: Seq<DashboardRow>) -> Seq<char>
    decreases rows.len(),
{
    if rows.len() == 0 {
        Seq::empty()
    } else {
        rows_html(rows.drop_last()) + row_html(rows.last())
    }
}

/// The table of all runs; nothing without runs.
pub open spec fn runs_table_html(rows: Seq<DashboardRow>) -> Seq<char> {
    if rows.len() == 0 {
        Seq::empty()
    } else {
        table_head_html() + rows_html(rows) + "</tbody></table>"@
    }
}

fn build_runs_table(rows: &Vec<DashboardRow>) -> (r: String)
    ensures
        r@ == runs_table_html(rows@),
{
    if rows.len() == 0 {
        return String::new();
    }
    let mut body = String::new();
    let mut i: usize = 0;
    proof {
        assert(body@ =~= rows_html(rows@.take(0)));
    }
    while i < rows.len()
        invariant
            i <= rows@.len(),
            body@ == rows_html(rows@.take(i as int)),
        decreases rows@.len() - i,
    {
        body.push_str(table_row(&rows[i]).as_str());
        proof {
            assert(rows@.take(i + 1).drop_last() =~= rows@.take(i as int));
        }
        i += 1;
    }
    proof {
        assert(rows@.take(i as int) =~= rows@);
    }
    let mut out = table_head();
    out.push_str(body.as_str());
    out.push_str("</tbody></table>");
    out
}

/// The head of the table.
pub open spec fn table_head_html() -> Seq<char> {
    r#"<table class="runs"><colgroup><col style="width:200px"><col style="width:280px"><col style="width:60px"><col style="width:60px"><col style="width:70px"><col style="width:80px"><col style="width:70px"><col style="width:70px"><col style="width:70px"><col style="width:90px"></colgroup><thead><tr><th>"#@
        + escaped(translated(Locale::Zh, "dash.col_run_id"@))
        + "</th><th>"@
        + escaped(translated(Locale::Zh, "dash.col_target"@))
        + "</th><th>"@
        + escaped(translated(Locale::Zh, "dash.col_rps"@))
        + "</th><th>"@
        + escaped(translated(Locale::Zh, "dash.col_duration"@))
        + "</th><th>"@
        + escaped(translated(Locale::Zh, "dash.col_requests"@))
        + "</th><th>"@
        + escaped(translated(Locale::Zh, "dash.col_success"@))
        + "</th><th>"@
        + escaped(translated(Locale::Zh, "dash.col_p50"@))
        + "</th><th>"@
        + escaped(translated(Locale::Zh, "dash.col_p99"@))
        + "</th><th>"@
        + escaped(translated(Locale::Zh, "dash.col_tps"@))
        + "</th><th>"@
        + escaped(translated(Locale::Zh, "dash.col_cache"@))
        + "</th></tr></thead><tbody>"@
}

fn table_head() -> (r: String)
    ensures
        r@ == table_head_html(),
{
    let mut out = r#"<table class="runs"><colgroup><col style="width:200px"><col style="width:280px"><col style="width:60px"><col style="width:60px"><col style="width:70px"><col style="width:80px"><col style="width:70px"><col style="width:70px"><col style="width:70px"><col style="width:90px"></colgroup><thead><tr><th>"#.to_owned();
    out.push_str(html_escape(t(Locale::Zh, "dash.col_run_id").as_str()).as_str());
    out.push_str("</th><th>");
    out.push_str(html_escape(t(Locale::Zh, "dash.col_target").as_str()).as_str());
    out.push_str("</th><th>");
    out.push_str(html_escape(t(Locale::Zh, "dash.col_rps").as_str()).as_str());
    out.push_str("</th><th>");
    out.push_str(html_escape(t(Locale::Zh, "dash.col_duration").as_str()).as_str());
    out.push_str("</th><th>");
    out.push_str(html_escape(t(Locale::Zh, "dash.col_requests").as_str()).as_str());
    out.push_str("</th><th>");
    out.push_str(html_escape(t(Locale::Zh, "dash.col_success").as_str()).as_str());
    out.push_str("</th><th>");
    out.push_str(html_escape(t(Locale::Zh, "dash.col_p50").as_str()).as_str());
    out.push_str("</th><th>");
    out.push_str(html_escape(t(Locale::Zh, "dash.col_p99").as_str()).as_str());
    out.push_str("</th><th>");
    out.push_str(html_escape(t(Locale::Zh, "dash.col_tps").as_str()).as_str());
    out.push_str("</th><th>");
    out.push_str(html_escape(t(Locale::Zh, "dash.col_cache").as_str()).as_str());
    out.push_str("</th></tr></thead><tbody>");
    out
}

/// One run in the table.
pub open spec fn row_html(row: DashboardRow) -> Seq<char> {
    r#"<tr class="row" data-report=""#@
        + escaped(row.run.report_filename@)
        + r#""><td><code>"#@
        + escaped(row.run.run_id@)
        + r#"</code></td><td class="target" title=""#@
        + escaped(row.run.target@)
        + r#""><a class="url" href=""#@
        + escaped(row.run.target@)
        + r#"" target="_blank" rel="noopener noreferrer">"#@
        + escaped(row.run.target@)
        + r#"</a></td><td class="num">"#@
        + row.target_rps@
        + r#"</td><td class="num">"#@
        + decimal(row.run.metrics.duration_secs as nat)
        + r#"s</td><td class="num">"#@
        + decimal(row.run.metrics.total_requests as nat)
        + r#"</td><td class="num">"#@
        + row.success_rate@
        + r#"%</td><td class="num">"#@
        + row.latency_p50@
        + r#"</td><td class="num">"#@
        + row.latency_p99@
        + r#"</td><td class="num">"#@
        + row.tps_mean@
        + r#"</td><td class="num">"#@
        + row.cache_rate@
        + "%</td></tr>"@
}

fn table_row(row: &DashboardRow) -> (r: String)
    ensures
        r@ == row_html(*row),
{
    let mut out = r#"<tr class="row" data-report=""#.to_owned();
    out.push_str(html_escape(row.run.report_filename.as_str()).as_str());
    out.push_str(r#""><td><code>"#);
    out.push_str(html_escape(row.run.run_id.as_str()).as_str());
    out.push_str(r#"</code></td><td class="target" title=""#);
    out.push_str(html_escape(row.run.target.as_str()).as_str());
    out.push_str(r#""><a class="url" href=""#);
    out.push_str(html_escape(row.run.target.as_str()).as_str());
    out.push_str(r#"" target="_blank" rel="noopener noreferrer">"#);
    out.push_str(html_escape(row.run.target.as_str()).as_str());
    out.push_str(r#"</a></td><td class="num">"#);
    out.push_str(row.target_rps.as_str());
    out.push_str(r#"</td><td class="num">"#);
    out.push_str(decimal_text(row.run.metrics.duration_secs as u128).as_str());
    out.push_str(r#"s</td><td class="num">"#);
    out.push_str(decimal_text(row.run.metrics.total_requests as u128).as_str());
    out.push_str(r#"</td><td class="num">"#);
    out.push_str(row.success_rate.as_str());
    out.push_str(r#"%</td><td class="num">"#);
    out.push_str(row.latency_p50.as_str());
    out.push_str(r#"</td><td class="num">"#);
    out.push_str(row.latency_p99.as_str());
    out.push_str(r#"</td><td class="num">"#);
    out.push_str(row.tps_mean.as_str());
    out.push_str(r#"</td><td class="num">"#);
    out.push_str(row.cache_rate.as_str());
    out.push_str("%</td></tr>");
    out
}

/// The styles of the dashboard, up to its heading.
pub const DASHBOARD_STYLE: &'static str = r#"</script>
  <style>
    :root { --bg:#0e1116; --fg:#e6edf3; --muted:#8b949e; --card:#161b22; --border:#30363d; --accent:#58a6ff; --good:#3fb950; --bad:#f85149; }
    * { box-sizing: border-box; }
    body { margin: 0; font-family: -apple-system, BlinkMacSystemFont, "Segoe UI", Roboto, "PingFang SC", "Microsoft YaHei", "Noto Sans CJK SC", Oxygen, Ubuntu, sans-serif; background: var(--bg); color: var(--fg); line-height: 1.5; }
    .wrap { max-width: 1200px; margin: 0 auto; padding: 24px; }
    h1 { margin: 0 0 8px 0; font-size: 24px; display: flex; align-items: center; justify-content: space-between; gap: 16px; flex-wrap: wrap; }
    h2 { margin: 32px 0 12px 0; font-size: 18px; border-bottom: 1px solid var(--border); padding-bottom: 6px; }
    .sub { color: var(--muted); margin-bottom: 16px; }
    .compare-bar { display: flex; align-items: center; gap: 12px; background: var(--card); border: 1px solid var(--border); border-radius: 8px; padding: 12px 14px; margin-bottom: 16px; flex-wrap: wrap; }
    .compare-bar label { color: var(--muted); font-size: 12px; text-transform: uppercase; letter-spacing: 0.5px; flex: 0 0 auto; }
    .compare-bar select { background: var(--bg); color: var(--fg); border: 1px solid var(--border); border-radius: 6px; padding: 6px 8px; font: inherit; flex: 1 1 200px; min-width: 0; }
    .compare-bar a.btn { background: var(--accent); color: #0e1116; padding: 6px 14px; border-radius: 6px; text-decoration: none; font-weight: 600; cursor: pointer; border: 0; font: inherit; flex: 0 0 auto; }
    .compare-bar a.btn.disabled { background: var(--border); color: var(--muted); pointer-events: none; }
    .compare-bar a.btn.secondary { background: var(--card); color: var(--fg); border: 1px solid var(--border); }
    table { width: 100%; border-collapse: collapse; background: var(--card); border: 1px solid var(--border); border-radius: 8px; overflow: hidden; }
    table.runs { table-layout: fixed; width: max-content; }
    table.runs col { min-width: 0; }
    th, td { text-align: left; padding: 10px 12px; border-bottom: 1px solid var(--border); font-size: 13px; }
    th { letter-spacing: 0.6px; color: var(--fg); font-weight: 600; font-size: 11px; text-transform: uppercase; letter-spacing: 0.5px; background: rgba(255,255,255,0.04); white-space: nowrap; padding-bottom: 12px; }
    th { text-align: center !important; font-weight: 600; }
    tr:last-child td { border-bottom: none; }
    tr.row { transition: background-color 0.1s ease; cursor: pointer; }
    tr.row:hover { background: rgba(88,166,255,0.10); }
    td { border-right: 1px solid rgba(255,255,255,0.05); }
    td:last-child { border-right: none; }
    td { overflow: hidden; text-overflow: ellipsis; white-space: nowrap; }
    td code, td.target { display: block; max-width: 100%; overflow: hidden; text-overflow: ellipsis; white-space: nowrap; font-family: ui-monospace, SFMono-Regular, monospace; font-size: 12px; }
    td.target a.url { display: block; max-width: 100%; overflow: hidden; text-overflow: ellipsis; white-space: nowrap; color: var(--accent); text-decoration: none; }
    td.num { font-family: ui-monospace, SFMono-Regular, monospace; text-align: right; color: var(--fg); }
    .empty-state { background: var(--card); border: 1px solid var(--border); border-radius: 8px; padding: 24px; text-align: center; color: var(--muted); }
    .runs-wrap { overflow-x: auto; }
    .charts { display: grid; grid-template-columns: repeat(auto-fit, minmax(380px, 1fr)); gap: 16px; margin-top: 16px; }
    .chart-card { background: var(--card); border: 1px solid var(--border); border-radius: 8px; padding: 16px; min-height: 280px; }
    .chart-card h3 { margin: 0 0 12px 0; font-size: 14px; color: var(--muted); text-transform: uppercase; letter-spacing: 0.5px; }
    .chart-card canvas { max-height: 240px; }
    .hidden { display: none; }
    .lang-toggle { display: inline-flex; gap: 4px; background: var(--card); border: 1px solid var(--border); border-radius: 6px; padding: 2px; }
    .lang-toggle .lang-btn { background: transparent; color: var(--muted); border: 0; padding: 4px 10px; border-radius: 4px; font: inherit; cursor: pointer; }
    .lang-toggle .lang-btn.active { background: var(--accent); color: #0e1116; font-weight: 600; }
    footer { margin-top: 48px; padding-top: 16px; border-top: 1px solid var(--border); color: var(--muted); font-size: 12px; text-align: center; }
    .diff-table { width: 100%; }
    .diff-table th, .diff-table td { white-space: nowrap; }
  </style>
</head>
<body>
  <div class="wrap">
    <h1>
      <span"#;

/// The scripts of the dashboard: switching the language, and comparing two runs.
pub const DASHBOARD_SCRIPTS: &'static str = r#"</script>
  <script>
    (function() {
      const ZH = JSON.parse(document.getElementById('i18n-dict-zh').textContent);
      const EN = JSON.parse(document.getElementById('i18n-dict-en').textContent);
      const STORAGE_KEY = 'power_test.lang';
      const DEFAULT_LANG = 'zh';
      function applyLang(lang) {
        const dict = (lang === 'en') ? EN : ZH;
        document.documentElement.lang = lang;
        document.querySelectorAll('[data-i18n]').forEach(function(el) {
          const key = el.getAttribute('data-i18n');
          if (dict[key] !== undefined) { el.textContent = dict[key]; }
        });
        document.querySelectorAll('.lang-toggle .lang-btn').forEach(function(b) {
          if (b.dataset.lang === lang) { b.classList.add('active'); } else { b.classList.remove('active'); }
        });
        try { localStorage.setItem(STORAGE_KEY, lang); } catch (e) {}
      }
      document.querySelectorAll('.lang-toggle .lang-btn').forEach(function(btn) {
        btn.addEventListener('click', function() { applyLang(btn.dataset.lang); });
      });
      let stored = null;
      try { stored = localStorage.getItem(STORAGE_KEY); } catch (e) {}
      applyLang(stored === 'en' ? 'en' : DEFAULT_LANG);
    })();
  </script>
  <script>
    (function() {
      const DATA = JSON.parse(document.getElementById('dash-data').textContent);
      const selA = document.getElementById('run-a');
      const selB = document.getElementById('run-b');
      const compareBtn = document.getElementById('compare-btn');
      const resetBtn = document.getElementById('reset-btn');
      const compareView = document.getElementById('compare-view');
      function populate() {
        [selA, selB].forEach(function(sel, idx) {
          sel.innerHTML = '';
          DATA.forEach(function(r, i) {
            const opt = document.createElement('option');
            opt.value = String(i);
            opt.textContent = r.run_id;
            sel.appendChild(opt);
          });
          sel.selectedIndex = idx === 0 ? 0 : Math.max(0, DATA.length - 1);
        });
      }
      populate();
      function delta(a, b) {
        const abs = b - a;
        const pct = (Math.abs(a) > 1e-9) ? (100 * abs / a) : null;
        return { abs: abs, pct: pct };
      }
      function colorClass(delta, direction) {
        if (direction === 'neutral' || delta.pct === null) return 'neutral';
        if (Math.abs(delta.pct) < 0.5) return 'neutral';
        const positive = delta.pct > 0;
        if (direction === 'up') return positive ? 'good' : 'bad';
        if (direction === 'down') return positive ? 'bad' : 'good';
        return 'neutral';
      }
      function fmtNum(v, decimals) { return (v || 0).toFixed(decimals || 0); }
      function fmtPct(v) { return (v || 0).toFixed(1) + '%'; }
      function fmtDelta(d, showPct, decimals) {
        const sign = d.abs >= 0 ? '+' : '';
        const abs = decimals === undefined ? sign + d.abs.toFixed(2) : sign + d.abs.toFixed(decimals);
        if (!showPct) return abs;
        if (d.pct === null) return abs + ' (n/a)';
        return abs + ' (' + sign + d.pct.toFixed(2) + '%)';
      }
      const ZH = JSON.parse(document.getElementById('i18n-dict-zh').textContent);
      const EN = JSON.parse(document.getElementById('i18n-dict-en').textContent);
      function labelFor(key) {
        const dict = (document.documentElement.lang === 'en') ? EN : ZH;
        return dict[key] || key;
      }
      function buildRows(a, b) {
        return [
          ['dash.metric.achieved_rps', a.achieved_rps, b.achieved_rps, 'up', true, 2],
          ['dash.metric.total_requests', a.total_requests, b.total_requests, 'up', false, 0],
          ['dash.metric.success_rate', a.success_rate, b.success_rate, 'up', true, 2],
          ['dash.metric.latency_p50', a.latency_ms.p50, b.latency_ms.p50, 'down', true, 2],
          ['dash.metric.latency_p90', a.latency_ms.p90, b.latency_ms.p90, 'down', true, 2],
          ['dash.metric.latency_p99', a.latency_ms.p99, b.latency_ms.p99, 'down', true, 2],
          ['dash.metric.latency_p999', a.latency_ms.p99_9, b.latency_ms.p99_9, 'down', true, 2],
          ['dash.metric.ttft_p50', a.ttft_ms.first, b.ttft_ms.first, 'down', true, 2],
          ['dash.metric.ttft_p99', a.ttft_ms.second, b.ttft_ms.second, 'down', true, 2],
          ['dash.metric.itl_mean', a.itl_ms.first, b.itl_ms.first, 'down', true, 2],
          ['dash.metric.itl_p99', a.itl_ms.second, b.itl_ms.second, 'down', true, 2],
          ['dash.metric.tps_mean', a.tps.first, b.tps.first, 'up', true, 2],
          ['dash.metric.tps_p99', a.tps.second, b.tps.second, 'up', true, 2],
          ['dash.metric.total_tokens', a.total_completion_tokens, b.total_completion_tokens, 'up', false, 0],
          ['dash.metric.duration', a.duration_secs, b.duration_secs, 'neutral', true, 2],
          ['dash.metric.cache_hit_rate', a.cache.rate_overall, b.cache.rate_overall, 'up', true, 2],
          ['dash.metric.cache_creation_total', a.cache.creation_total, b.cache.creation_total, 'neutral', false, 0],
        ];
      }
      let chartA = null;
      let chartB = null;
      function clearCharts() {
        if (chartA) { chartA.destroy(); chartA = null; }
        if (chartB) { chartB.destroy(); chartB = null; }
      }
      function renderCompare() {
        if (DATA.length === 0) { compareView.classList.add('hidden'); return; }
        const ai = parseInt(selA.value, 10);
        const bi = parseInt(selB.value, 10);
        if (isNaN(ai) || isNaN(bi)) { compareView.classList.add('hidden'); return; }
        const a = DATA[ai];
        const b = DATA[bi];
        compareView.classList.remove('hidden');
        // Diff names: run_id is the target URL (clickable).
        // The target is the config target (e.g. the LLM endpoint);
        // making it clickable lets the user copy the URL or open
        // it in a new tab from the dashboard.
        document.getElementById('run-heads').innerHTML =
          '<div><strong>' + (document.documentElement.lang === 'en' ? 'A:' : 'A:') + ' </strong>' +
            '<a href="' + escapeAttr(a.target) + '" target="_blank" rel="noopener noreferrer" title="' + escapeAttr(a.target) + '">' + escapeHtml(a.run_id) + '</a></div>' +
          '<div><strong>' + (document.documentElement.lang === 'en' ? 'B:' : 'B:') + ' </strong>' +
            '<a href="' + escapeAttr(b.target) + '" target="_blank" rel="noopener noreferrer" title="' + escapeAttr(b.target) + '">' + escapeHtml(b.run_id) + '</a></div>';
        const rows = buildRows(a, b);
        let html = '<thead><tr><th>' + (document.documentElement.lang === 'en' ? 'metric' : 'metric') + '</th><th>A</th><th>B</th><th>\u0394</th><th>%</th></tr></thead><tbody>';
        rows.forEach(function(r) {
          const key = r[0]; const av = r[1]; const bv = r[2]; const dir = r[3]; const showPct = r[4]; const decimals = r[5];
          const d = delta(av, bv);
          const cls = colorClass(d, dir);
          const deltaStr = fmtDelta(d, showPct, decimals);
          const pctStr = showPct ? (d.pct === null ? '\u2014' : (d.pct >= 0 ? '+' : '') + d.pct.toFixed(2) + '%') : '\u2014';
          html += '<tr>' +
            '<td>' + labelFor(key) + '</td>' +
            '<td class="num">' + (typeof av === 'number' ? (decimals === 0 ? fmtNum(av) : av.toFixed(decimals)) : av) + '</td>' +
            '<td class="num">' + (typeof bv === 'number' ? (decimals === 0 ? fmtNum(bv) : bv.toFixed(decimals)) : bv) + '</td>' +
            '<td class="num delta ' + cls + '">' + deltaStr + '</td>' +
            '<td class="num delta ' + cls + '">' + pctStr + '</td>' +
            '</tr>';
        });
        if (a.run_id === b.run_id) {
          html += '<tr><td colspan="5" style="color: var(--muted); font-style: italic; text-align: center;">' + labelFor('dash.pick_same_run_warning') + '</td></tr>';
        }
        html += '</tbody>';
        document.getElementById('diff-table').innerHTML = html;
        clearCharts();
        const palette = ['#58a6ff', '#3fb950', '#d29922', '#a371f7', '#f85149', '#8b949e'];
        const chartFont = { size: 12 };
        document.getElementById('lat-a-head').textContent = a.run_id + ' \u00b7 ' + a.target + ' latency (ms)';
        document.getElementById('lat-b-head').textContent = b.run_id + ' \u00b7 ' + b.target + ' latency (ms)';
        const lats = ['p50', 'p90', 'p99', 'p99.9'];
        const latsKey = ['p50', 'p90', 'p99', 'p99_9'];
        const avals = latsKey.map(function(k) { return a.latency_ms[k]; });
        const bvals = latsKey.map(function(k) { return b.latency_ms[k]; });
        if (window.Chart) {
          chartA = new Chart(document.getElementById('latA'), {
            type: 'bar', data: { labels: lats, datasets: [{ label: 'latency', data: avals, backgroundColor: palette[0] }] },
            options: { responsive: true, maintainAspectRatio: false, plugins: { legend: { display: false } }, scales: { y: { beginAtZero: true, ticks: { font: chartFont } }, x: { ticks: { font: chartFont } } } }
          });
          chartB = new Chart(document.getElementById('latB'), {
            type: 'bar', data: { labels: lats, datasets: [{ label: 'latency', data: bvals, backgroundColor: palette[1] }] },
            options: { responsive: true, maintainAspectRatio: false, plugins: { legend: { display: false } }, scales: { y: { beginAtZero: true, ticks: { font: chartFont } }, x: { ticks: { font: chartFont } } } }
          });
        }
      }
      function escapeHtml(s) { return String(s).replace(/[&<>"']/g, function(c) { return {'&': '&amp;', '<': '&lt;', '>': '&gt;', '"': '&quot;', "'": '&#39;'}[c]; }); }
      function escapeAttr(s) { return String(s).replace(/"/g, '&quot;'); }
      compareBtn.addEventListener('click', renderCompare);
      selA.addEventListener('change', renderCompare);
      selB.addEventListener('change', renderCompare);
      resetBtn.addEventListener('click', function() {
        if (DATA.length >= 2) { selA.selectedIndex = 0; selB.selectedIndex = DATA.length - 1; }
        else { selA.selectedIndex = 0; selB.selectedIndex = 0; }
        renderCompare();
      });
      window.addEventListener('load', renderCompare);
    })();
  </script>
</body>
</html>
"#;

/// The dashboard.
pub open spec fn dashboard_html(
    model: Seq<char>,
    alias: Option<Seq<char>>,
    rows: Seq<DashboardRow>,
    parts: PageParts,
) -> Seq<char> {
    r#"<!doctype html>
<html lang="zh">
<head>
  <meta charset="utf-8">
  <title>power_test dashboard — "#@
        + model
        + r"</title>
  <script>"@
        + parts.chart_js@
        + DASHBOARD_STYLE@
        + labelled("dash.title"@)
        + r#"</span>
      <span class="lang-toggle" role="group" aria-label="language">
        <button class="lang-btn active" data-lang="zh""#@
        + labelled("ui.language_toggle_zh"@)
        + r#"</button>
        <button class="lang-btn" data-lang="en""#@
        + labelled("ui.language_toggle_en"@)
        + r#"</button>
      </span>
    </h1>
    <div class="sub">"#@
        + subtitle_text(rows.len(), alias)
        + r"</div>

    <h2"@
        + labelled("dash.runs_heading"@)
        + r#"</h2>
    <div class="runs-wrap">"#@
        + runs_table_html(rows)
        + r"</div>
"@
        + no_runs_html(rows.len())
        + r"
    <h2"@
        + labelled("dash.compare_pick"@)
        + r#"</h2>
    <div class="compare-bar">
      <label for="run-a" data-i18n="dash.col_a">A</label>
      <select id="run-a"></select>
      <label for="run-b" data-i18n="dash.col_b">B</label>
      <select id="run-b"></select>
      <a class="btn" id="compare-btn">"#@
        + translated(Locale::Zh, "dash.compare"@)
        + r#"</a>
      <a class="btn secondary" id="reset-btn">"#@
        + translated(Locale::Zh, "dash.reset"@)
        + r#"</a>
    </div>

    <div id="compare-view" class="hidden">
      <h2"#@
        + labelled("dash.diff_heading"@)
        + r#"</h2>
      <div id="run-heads" style="display:flex;gap:16px;margin-bottom:12px;flex-wrap:wrap;"></div>
      <table class="diff-table" id="diff-table"></table>
      <div class="charts">
        <div class="chart-card"><h3 id="lat-a-head">A latency (ms)</h3><canvas id="latA"></canvas></div>
        <div class="chart-card"><h3 id="lat-b-head">B latency (ms)</h3><canvas id="latB"></canvas></div>
      </div>
    </div>

    <footer data-i18n="footer.powered_by">"#@
        + footer_text(parts.version@)
        + r#"</footer>
  </div>

  <script id="i18n-dict-en" type="application/json">"#@
        + script_safe(dictionary(Locale::En))
        + r#"</script>
  <script id="i18n-dict-zh" type="application/json">"#@
        + script_safe(dictionary(Locale::Zh))
        + r#"</script>
  <script id="dash-data" type="application/json">"#@
        + script_safe(compact_text(dashboard_json(rows)))
        + DASHBOARD_SCRIPTS@
}

pub fn render_dashboard(
    _group_key: &str,
    model: &str,
    alias: &Option<String>,
    rows: &Vec<DashboardRow>,
    parts: &PageParts,
) -> (r: String)
    ensures
        r@ == dashboard_html(model@, opt_view(*alias), rows@, *parts),
{
    let mut out = r#"<!doctype html>
<html lang="zh">
<head>
  <meta charset="utf-8">
  <title>power_test dashboard — "#.to_owned();
    out.push_str(model);
    out.push_str(
        r"</title>
  <script>",
    );
    out.push_str(parts.chart_js.as_str());
    out.push_str(DASHBOARD_STYLE);
    push_label(&mut out, "dash.title");
    out.push_str(
        r#"</span>
      <span class="lang-toggle" role="group" aria-label="language">
        <button class="lang-btn active" data-lang="zh""#,
    );
    push_label(&mut out, "ui.language_toggle_zh");
    out.push_str(
        r#"</button>
        <button class="lang-btn" data-lang="en""#,
    );
    push_label(&mut out, "ui.language_toggle_en");
    out.push_str(
        r#"</button>
      </span>
    </h1>
    <div class="sub">"#,
    );
    out.push_str(subtitle(rows.len(), alias).as_str());
    out.push_str(
        r"</div>

    <h2",
    );
    push_label(&mut out, "dash.runs_heading");
    out.push_str(
        r#"</h2>
    <div class="runs-wrap">"#,
    );
    out.push_str(build_runs_table(rows).as_str());
    out.push_str(
        r"</div>
",
    );
    out.push_str(no_runs(rows.len()).as_str());
    out.push_str(
        r"
    <h2",
    );
    push_label(&mut out, "dash.compare_pick");
    out.push_str(
        r#"</h2>
    <div class="compare-bar">
      <label for="run-a" data-i18n="dash.col_a">A</label>
      <select id="run-a"></select>
      <label for="run-b" data-i18n="dash.col_b">B</label>
      <select id="run-b"></select>
      <a class="btn" id="compare-btn">"#,
    );
    out.push_str(t(Locale::Zh, "dash.compare").as_str());
    out.push_str(
        r#"</a>
      <a class="btn secondary" id="reset-btn">"#,
    );
    out.push_str(t(Locale::Zh, "dash.reset").as_str());
    out.push_str(
        r#"</a>
    </div>

    <div id="compare-view" class="hidden">
      <h2"#,
    );
    push_label(&mut out, "dash.diff_heading");
    out.push_str(
        r#"</h2>
      <div id="run-heads" style="display:flex;gap:16px;margin-bottom:12px;flex-wrap:wrap;"></div>
      <table class="diff-table" id="diff-table"></table>
      <div class="charts">
        <div class="chart-card"><h3 id="lat-a-head">A latency (ms)</h3><canvas id="latA"></canvas></div>
        <div class="chart-card"><h3 id="lat-b-head">B latency (ms)</h3><canvas id="latB"></canvas></div>
      </div>
    </div>

    <footer data-i18n="footer.powered_by">"#,
    );
    out.push_str(powered_by(parts.version.as_str()).as_str());
    out.push_str(
        r#"</footer>
  </div>

  <script id="i18n-dict-en" type="application/json">"#,
    );
    out.push_str(escape_script(dict_to_json(Locale::En).as_str()).as_str());
    out.push_str(
        r#"</script>
  <script id="i18n-dict-zh" type="application/json">"#,
    );
    out.push_str(escape_script(dict_to_json(Locale::Zh).as_str()).as_str());
    out.push_str(
        r#"</script>
  <script id="dash-data" type="application/json">"#,
    );
    out.push_str(escape_script(dashboard_data(rows).as_str()).as_str());
    out.push_str(DASHBOARD_SCRIPTS);
    out
}

} // verus!
