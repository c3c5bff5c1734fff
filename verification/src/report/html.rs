//! The self-contained HTML report of one run.
//!
//! Labels come from the dictionaries in [`crate::report::i18n`]; the page is
//! rendered in Chinese, and an inline script switches every label. The cache
//! section is always there, with a zero state where the run saw no cache data.

use super::data::{equal_records_give_equal_data, report_data, report_json};
use super::figures::{format_pattern_detail, CacheFigures, ReportFigures};
use super::i18n::{dict_to_json, dictionary_json, t, translated, Locale};
use crate::client::{bool_label, bool_text};
use crate::config::{opt_view, DatasetSpec, RunConfig};
use crate::json::compact_text;
use crate::runner::metrics::{
    alike, cache_totals, failures, n_ok, rates, recorded, replay_rebuilds_the_statistics,
    saturated, total, CacheStats, HistKind, MetricsAggregator, Percentile, Quantity,
    RequestRecord, RunView,
};
use crate::tables::{count_views, rank, ranked};
use crate::text::{
    chars_of, decimal, decimal_text, escape_script, escaped, html_escape, replace, replaced,
    script_safe, text_between,
};
use vstd::prelude::*;

verus! {

/// A label and the attribute that says which one it is, inside an opening tag.
pub open spec fn labelled(key: Seq<char>) -> Seq<char> {
    " data-i18n=\""@ + key + "\">"@ + translated(Locale::Zh, key)
}

/// Appends a label with its attribute.
pub fn push_label(out: &mut String, key: &str)
    ensures
        final(out)@ == old(out)@ + labelled(key@),
{
    out.push_str(" data-i18n=\"");
    out.push_str(key);
    out.push_str("\">");
    out.push_str(t(Locale::Zh, key).as_str());
    proof {
        assert(out@ =~= old(out)@ + labelled(key@));
    }
}

/// A number, or a dash where there is none.
pub open spec fn cell(present: bool, text: Seq<char>) -> Seq<char> {
    if present {
        text
    } else {
        "—"@
    }
}

pub fn cell_text(present: bool, text: &String) -> (r: String)
    ensures
        r@ == cell(present, text@),
{
    if present {
        text.clone()
    } else {
        "—".to_owned()
    }
}

/// The note that a run was interrupted.
pub open spec fn interrupted_html(interrupted: bool) -> Seq<char> {
    if interrupted {
        r#" · <span style="color:var(--bad)""#@ + labelled("page.interrupted_label"@) + "</span>"@
    } else {
        Seq::empty()
    }
}

fn interrupted_note(interrupted: bool) -> (r: String)
    ensures
        r@ == interrupted_html(interrupted),
{
    if interrupted {
        let mut out = r#" · <span style="color:var(--bad)""#.to_owned();
        push_label(&mut out, "page.interrupted_label");
        out.push_str("</span>");
        out
    } else {
        String::new()
    }
}

/// The tag of the run, or a note that it has none.
pub open spec fn tag_html(tag: Option<Seq<char>>) -> Seq<char> {
    match tag {
        Some(tag) if tag.len() > 0 => "<code>"@ + escaped(tag) + "</code>"@,
        _ => r#"<span style="color:var(--muted);font-style:italic;">(no tag)</span>"#@,
    }
}

fn tag_cell(tag: &Option<String>) -> (r: String)
    ensures
        r@ == tag_html(opt_view(*tag)),
{
    if let Some(tag) = tag {
        if !tag.as_str().is_empty() {
            let mut out = "<code>".to_owned();
            out.push_str(html_escape(tag.as_str()).as_str());
            out.push_str("</code>");
            return out;
        }
    }
    r#"<span style="color:var(--muted);font-style:italic;">(no tag)</span>"#.to_owned()
}

/// The alias of the model, where it has one.
pub open spec fn alias_html(alias: Option<Seq<char>>) -> Seq<char> {
    match alias {
        Some(alias) if alias.len() > 0 =>
            r#" <span style="color:var(--muted);font-size:12px;">· alias <code>"#@ + escaped(alias)
                + "</code></span>"@,
        _ => Seq::empty(),
    }
}

fn alias_note(alias: &Option<String>) -> (r: String)
    ensures
        r@ == alias_html(opt_view(*alias)),
{
    if let Some(alias) = alias {
        if !alias.as_str().is_empty() {
            let mut out =
                r#" <span style="color:var(--muted);font-size:12px;">· alias <code>"#.to_owned();
            out.push_str(html_escape(alias.as_str()).as_str());
            out.push_str("</code></span>");
            return out;
        }
    }
    String::new()
}

fn pattern_note(pattern: &super::figures::PatternFigures) -> (r: String)
    ensures
        r@ == " · "@ + pattern.detail(),
{
    let mut out = " · ".to_owned();
    out.push_str(format_pattern_detail(pattern).as_str());
    out
}

/// The first `n` characters, and dots where there are more.
pub open spec fn preview(text: Seq<char>, n: int) -> Seq<char> {
    if text.len() > n {
        text.take(n) + "..."@
    } else {
        text
    }
}

pub fn preview_text(text: &str, n: usize) -> (r: String)
    ensures
        r@ == preview(text@, n as int),
{
    let chars = chars_of(text);
    if chars.len() > n {
        let mut out = text_between(&chars, 0, n);
        proof {
            assert(text@.subrange(0, n as int) =~= text@.take(n as int));
        }
        out.push_str("...");
        out
    } else {
        text.to_owned()
    }
}

/// Where the prompts come from.
pub open spec fn dataset_source(dataset: DatasetSpec) -> Seq<char> {
    match dataset {
        DatasetSpec::Literal { text } => "literal prompt: \""@ + preview(text@, 80) + "\""@,
        DatasetSpec::TokenBudget { target_tokens } => "token-budget: ~"@ + decimal(
            target_tokens as nat,
        ) + " tokens"@,
        DatasetSpec::Builtin => "built-in: hardcoded 12-prompt pool (mixed English + Chinese)"@,
        DatasetSpec::ShareGpt { path } => "sharegpt file: "@ + path@,
        DatasetSpec::Custom { path } => "custom file: "@ + path@,
    }
}

/// Says where the prompts come from: a short description, or the file's path.
pub fn format_dataset_source(cfg: &RunConfig) -> (r: String)
    ensures
        r@ == dataset_source(cfg.dataset),
{
    match &cfg.dataset {
        DatasetSpec::Literal { text } => {
            let mut out = "literal prompt: \"".to_owned();
            out.push_str(preview_text(text.as_str(), 80).as_str());
            out.push_str("\"");
            out
        },
        DatasetSpec::TokenBudget { target_tokens } => {
            let mut out = "token-budget: ~".to_owned();
            out.push_str(decimal_text(*target_tokens as u128).as_str());
            out.push_str(" tokens");
            out
        },
        DatasetSpec::Builtin =>
            "built-in: hardcoded 12-prompt pool (mixed English + Chinese)".to_owned(),
        DatasetSpec::ShareGpt { path } => {
            let mut out = "sharegpt file: ".to_owned();
            out.push_str(path.as_str());
            out
        },
        DatasetSpec::Custom { path } => {
            let mut out = "custom file: ".to_owned();
            out.push_str(path.as_str());
            out
        },
    }
}

/// How the success rate is coloured: good from 99 percent on, bad below 90.
/// Without requests it is bad.
pub open spec fn success_class(rs: Seq<RequestRecord>) -> Seq<char> {
    if rs.len() == 0 || 100 * n_ok(rs) < 90 * rs.len() {
        "bad"@
    } else if 100 * n_ok(rs) >= 99 * rs.len() {
        "good"@
    } else {
        ""@
    }
}

fn success_grade(agg: &MetricsAggregator) -> (r: &'static str)
    requires
        agg.wf(),
    ensures
        r@ == success_class(agg@.records),
{
    let total = agg.total_requests() as u128;
    let ok = agg.success_count() as u128;
    if total == 0 || 100 * ok < 90 * total {
        "bad"
    } else if 100 * ok >= 99 * total {
        "good"
    } else {
        ""
    }
}

/// The rows on speculative decoding, where there was any.
pub open spec fn speculative_html(rs: Seq<RequestRecord>, figures: ReportFigures) -> Seq<char> {
    let decoded = saturated(total(rs, Quantity::SpecDecoded));
    let iterations = saturated(total(rs, Quantity::SpecIterations));
    let accepted = saturated(total(rs, Quantity::SpecAccepted));
    if decoded > 0 && (iterations > 0 || accepted > 0) {
        decoding_html(figures)
    } else {
        Seq::empty()
    }
}

fn speculative_rows(agg: &MetricsAggregator, figures: &ReportFigures) -> (r: String)
    ensures
        r@ == speculative_html(agg@.records, *figures),
{
    let (per_iteration, acceptance) = agg.speculative_stats();
    if per_iteration.num > 0 && (per_iteration.den > 0 || acceptance.num > 0) {
        decoding_rows(figures)
    } else {
        String::new()
    }
}

/// The rows of the error list.
pub open spec fn error_rows(errors: Seq<(Seq<char>, nat)>) -> Seq<char>
    decreases errors.len(),
{
    if errors.len() == 0 {
        Seq::empty()
    } else {
        error_rows(errors.drop_last()) + r#"<div class="row"><span class="count">["#@ + decimal(
            errors.last().1,
        ) + "]</span>"@ + escaped(errors.last().0) + "</div>"@
    }
}

/// The error list: the most frequent failures first, or a note that there was
/// none.
pub open spec fn errors_html(errors: Seq<(Seq<char>, nat)>) -> Seq<char> {
    if errors.len() == 0 {
        r#"<div class="row" style="color:var(--muted)""#@ + labelled("errors.none"@) + "</div>"@
    } else {
        error_rows(ranked(errors))
    }
}

fn build_errors_rows(agg: &MetricsAggregator) -> (r: String)
    requires
        agg.wf(),
    ensures
        r@ == errors_html(failures(agg@.records)),
{
    let errors = agg.error_messages();
    proof {
        assert(count_views(errors@).len() == errors@.len());
    }
    if errors.len() == 0 {
        let mut out = r#"<div class="row" style="color:var(--muted)""#.to_owned();
        push_label(&mut out, "errors.none");
        out.push_str("</div>");
        return out;
    }
    let list = rank(errors);
    let mut out = String::new();
    let mut i: usize = 0;
    proof {
        assert(out@ =~= error_rows(count_views(list@).take(0)));
    }
    while i < list.len()
        invariant
            i <= list@.len(),
            out@ == error_rows(count_views(list@).take(i as int)),
        decreases list@.len() - i,
    {
        out.push_str(r#"<div class="row"><span class="count">["#);
        out.push_str(decimal_text(list[i].1 as u128).as_str());
        out.push_str("]</span>");
        out.push_str(html_escape(list[i].0.as_str()).as_str());
        out.push_str("</div>");
        proof {
            let all = count_views(list@);
            assert(all.take(i + 1).drop_last() =~= all.take(i as int));
            assert(all.take(i + 1).last() == (list@[i as int].0@, list@[i as int].1 as nat));
        }
        i += 1;
    }
    proof {
        assert(count_views(list@).take(i as int) =~= count_views(list@));
    }
    out
}

/// The other runs that can be chosen.
pub open spec fn link_options(links: Seq<(String, String)>) -> Seq<char>
    decreases links.len(),
{
    if links.len() == 0 {
        r#"<option value="" data-filename="""#@ + labelled("ui.pick_run"@) + "</option>"@
    } else {
        let id = escaped(links.last().0@);
        link_options(links.drop_last()) + r#"<option value=""#@ + id + r#"" data-filename=""#@
            + escaped(links.last().1@) + r#"">"#@ + id + "</option>"@
    }
}

/// The panel that leads to comparisons with other runs; nothing without links.
pub open spec fn compare_panel_html(links: Seq<(String, String)>) -> Seq<char> {
    if links.len() == 0 {
        Seq::empty()
    } else {
        r#"<div class="compare-panel"><label for="compare-select""#@ + labelled(
            "ui.compare_with"@,
        ) + r#"</label><select id="compare-select">"#@ + link_options(links)
            + r##"</select><a id="compare-link" class="btn" href="#""##@ + labelled("ui.compare"@)
            + r#"</a><span class="hint""#@ + labelled("ui.pre_render_hint"@) + "</span></div>"@
    }
}

fn build_compare_panel(links: &Vec<(String, String)>) -> (r: String)
    ensures
        r@ == compare_panel_html(links@),
{
    if links.len() == 0 {
        return String::new();
    }
    let mut options = r#"<option value="" data-filename="""#.to_owned();
    push_label(&mut options, "ui.pick_run");
    options.push_str("</option>");
    let mut i: usize = 0;
    while i < links.len()
        invariant
            i <= links@.len(),
            options@ == link_options(links@.take(i as int)),
        decreases links@.len() - i,
    {
        let id = html_escape(links[i].0.as_str());
        options.push_str(r#"<option value=""#);
        options.push_str(id.as_str());
        options.push_str(r#"" data-filename=""#);
        options.push_str(html_escape(links[i].1.as_str()).as_str());
        options.push_str(r#"">"#);
        options.push_str(id.as_str());
        options.push_str("</option>");
        proof {
            assert(links@.take(i + 1).drop_last() =~= links@.take(i as int));
        }
        i += 1;
    }
    proof {
        assert(links@.take(i as int) =~= links@);
    }
    let mut out = r#"<div class="compare-panel"><label for="compare-select""#.to_owned();
    push_label(&mut out, "ui.compare_with");
    out.push_str(r#"</label><select id="compare-select">"#);
    out.push_str(options.as_str());
    out.push_str(r##"</select><a id="compare-link" class="btn" href="#""##);
    push_label(&mut out, "ui.compare");
    out.push_str(r#"</a><span class="hint""#);
    push_label(&mut out, "ui.pre_render_hint");
    out.push_str("</span></div>");
    out
}

/// No cache data was seen.
pub open spec fn no_cache_data(c: CacheStats) -> bool {
    c.cache_creation_total == 0 && c.cache_hit_total == 0
}

/// No later turns were seen.
pub open spec fn no_later_turns(c: CacheStats) -> bool {
    c.cache_creation_turn2plus == 0 && c.cache_hit_turn2plus == 0 && c.prompt_turn2plus == 0
}

/// The headline: the overall rate, and without data a note that a zero is a
/// fact.
pub open spec fn cache_headline(c: CacheStats, figures: CacheFigures) -> Seq<char> {
    if no_cache_data(c) {
        r#"<span data-i18n="cache.hit_rate">"#@ + figures.overall@
            + r#"</span> <span style="color:var(--muted);font-size:14px;font-weight:400;" data-i18n="cache.no_data">("#@
            + translated(Locale::Zh, "cache.no_data"@) + ")</span>"@
    } else {
        r#"<span data-i18n="cache.hit_rate">"#@ + figures.overall@ + "</span>"@
    }
}

fn cache_head(c: &CacheStats, figures: &CacheFigures) -> (r: String)
    ensures
        r@ == cache_headline(*c, *figures),
{
    let mut out = r#"<span data-i18n="cache.hit_rate">"#.to_owned();
    out.push_str(figures.overall.as_str());
    if c.cache_creation_total == 0 && c.cache_hit_total == 0 {
        out.push_str(
            r#"</span> <span style="color:var(--muted);font-size:14px;font-weight:400;" data-i18n="cache.no_data">("#,
        );
        out.push_str(t(Locale::Zh, "cache.no_data").as_str());
        out.push_str(")</span>");
    } else {
        out.push_str("</span>");
    }
    out
}

/// The line below: a hint that there is nothing to divide by where the run had
/// no prompt tokens, else how many tokens were served and written. It is empty
/// where no cache data was seen.
pub open spec fn cache_subline(c: CacheStats) -> Seq<char> {
    if c.prompt_turn1 == 0 && c.prompt_turn2plus == 0 {
        r#"<div style="font-size:13px;color:var(--muted);margin-bottom:8px;""#@ + labelled(
            "cache.denominator_zero"@,
        ) + "</div>"@
    } else if no_cache_data(c) {
        r#"<div style="font-size:13px;color:var(--muted);margin-bottom:8px;"></div>"#@
    } else {
        r#"<div style="font-size:13px;color:var(--muted);margin-bottom:8px;"><span"#@ + labelled(
            "cache.hit"@,
        ) + "</span>: <strong>"@ + decimal(c.cache_hit_total as nat) + "</strong> / <strong>"@
            + decimal((c.cache_creation_total + c.cache_hit_total) as nat)
            + "</strong> · <span"@ + labelled("cache.creation"@) + "</span>: <strong>"@ + decimal(
            c.cache_creation_total as nat,
        ) + "</strong></div>"@
    }
}

fn cache_line(c: &CacheStats) -> (r: String)
    ensures
        r@ == cache_subline(*c),
{
    if c.prompt_turn1 == 0 && c.prompt_turn2plus == 0 {
        let mut out =
            r#"<div style="font-size:13px;color:var(--muted);margin-bottom:8px;""#.to_owned();
        push_label(&mut out, "cache.denominator_zero");
        out.push_str("</div>");
        out
    } else if c.cache_creation_total == 0 && c.cache_hit_total == 0 {
        r#"<div style="font-size:13px;color:var(--muted);margin-bottom:8px;"></div>"#.to_owned()
    } else {
        let mut out =
            r#"<div style="font-size:13px;color:var(--muted);margin-bottom:8px;"><span"#.to_owned();
        push_label(&mut out, "cache.hit");
        out.push_str("</span>: <strong>");
        out.push_str(decimal_text(c.cache_hit_total as u128).as_str());
        out.push_str("</strong> / <strong>");
        out.push_str(
            decimal_text(c.cache_creation_total as u128 + c.cache_hit_total as u128).as_str(),
        );
        out.push_str("</strong> · <span");
        push_label(&mut out, "cache.creation");
        out.push_str("</span>: <strong>");
        out.push_str(decimal_text(c.cache_creation_total as u128).as_str());
        out.push_str("</strong></div>");
        out
    }
}

/// The row of later turns, where there were any.
pub open spec fn later_turns_html(c: CacheStats, figures: CacheFigures) -> Seq<char> {
    if no_later_turns(c) {
        Seq::empty()
    } else {
        turn2plus_html(figures)
    }
}

fn later_turns_row(c: &CacheStats, figures: &CacheFigures) -> (r: String)
    ensures
        r@ == later_turns_html(*c, *figures),
{
    if c.cache_creation_turn2plus == 0 && c.cache_hit_turn2plus == 0 && c.prompt_turn2plus == 0 {
        String::new()
    } else {
        turn2plus_row(figures)
    }
}

/// The hint that there were no later turns.
pub open spec fn no_later_turns_html(c: CacheStats) -> Seq<char> {
    if no_later_turns(c) {
        r#"<div style="font-size:12px;color:var(--muted);margin-top:8px;""#@ + labelled(
            "cache.no_continuations"@,
        ) + "</div>"@
    } else {
        Seq::empty()
    }
}

fn no_later_turns_hint(c: &CacheStats) -> (r: String)
    ensures
        r@ == no_later_turns_html(*c),
{
    if c.cache_creation_turn2plus == 0 && c.cache_hit_turn2plus == 0 && c.prompt_turn2plus == 0 {
        let mut out =
            r#"<div style="font-size:12px;color:var(--muted);margin-top:8px;""#.to_owned();
        push_label(&mut out, "cache.no_continuations");
        out.push_str("</div>");
        out
    } else {
        String::new()
    }
}

/// The cache card of a run.
pub fn build_cache_card(agg: &MetricsAggregator, figures: &CacheFigures) -> (r: String)
    requires
        agg.wf(),
    ensures
        r@ == cache_html(cache_totals(agg@.records), *figures),
{
    let c = agg.cache_stats();
    cache_card(&c, figures)
}

/// The text of the footer.
pub open spec fn footer_text(version: Seq<char>) -> Seq<char> {
    replaced(translated(Locale::Zh, "footer.powered_by"@), "{version}"@, version)
}

pub fn powered_by(version: &str) -> (r: String)
    ensures
        r@ == footer_text(version@),
{
    proof {
        reveal_strlit("{version}");
    }
    replace(t(Locale::Zh, "footer.powered_by").as_str(), "{version}", version)
}

/// The dictionary of one language, as JSON.
pub open spec fn dictionary(locale: Locale) -> Seq<char> {
    compact_text(dictionary_json(locale))
}

/// The styles of the page, up to its heading.
pub const PAGE_STYLE: &'static str = r#"</script>
  <style>
    :root {
      --bg: #0e1116;
      --fg: #e6edf3;
      --muted: #8b949e;
      --card: #161b22;
      --border: #30363d;
      --accent: #58a6ff;
      --good: #3fb950;
      --bad: #f85149;
    }
    * { box-sizing: border-box; }
    body {
      margin: 0;
      font-family: -apple-system, BlinkMacSystemFont, "Segoe UI", Roboto,
                   "PingFang SC", "Microsoft YaHei", "Noto Sans CJK SC",
                   Oxygen, Ubuntu, sans-serif;
      background: var(--bg);
      color: var(--fg);
      line-height: 1.5;
    }
    .wrap { max-width: 1100px; margin: 0 auto; padding: 24px; }
    h1 { margin: 0 0 8px 0; font-size: 24px; display: flex; align-items: center; justify-content: space-between; gap: 16px; flex-wrap: wrap; }
    h2 { margin: 32px 0 12px 0; font-size: 18px; border-bottom: 1px solid var(--border); padding-bottom: 6px; }
    h3 { margin: 16px 0 8px 0; font-size: 13px; color: var(--muted); text-transform: uppercase; letter-spacing: 0.5px; font-weight: 500; }
    .sub { color: var(--muted); margin-bottom: 24px; }
    .grid { display: grid; grid-template-columns: repeat(auto-fit, minmax(180px, 1fr)); gap: 12px; margin-bottom: 24px; }
    .card { background: var(--card); border: 1px solid var(--border); border-radius: 8px; padding: 14px; }
    .card .label { color: var(--muted); font-size: 12px; text-transform: uppercase; letter-spacing: 0.5px; }
    .card .value { font-size: 22px; font-weight: 600; margin-top: 4px; }
    .card .value.good { color: var(--good); }
    .card .value.bad { color: var(--bad); }
    table { width: 100%; border-collapse: collapse; background: var(--card); border: 1px solid var(--border); border-radius: 8px; overflow: hidden; }
    th, td { text-align: left; padding: 8px 12px; border-bottom: 1px solid var(--border); }
    th { color: var(--muted); font-weight: 500; font-size: 12px; text-transform: uppercase; letter-spacing: 0.5px; background: rgba(255,255,255,0.02); }
    tr:last-child td { border-bottom: none; }
    .charts { display: grid; grid-template-columns: repeat(auto-fit, minmax(380px, 1fr)); gap: 16px; }
    .chart-card { background: var(--card); border: 1px solid var(--border); border-radius: 8px; padding: 16px; min-height: 320px; }
    .chart-card h3 { margin: 0 0 12px 0; font-size: 14px; color: var(--muted); text-transform: uppercase; letter-spacing: 0.5px; }
    .chart-card canvas { max-height: 260px; }
    .errors { background: var(--card); border: 1px solid var(--border); border-radius: 8px; padding: 0; }
    .errors .row { padding: 10px 14px; border-bottom: 1px solid var(--border); font-family: ui-monospace, SFMono-Regular, monospace; font-size: 13px; }
    .errors .row:last-child { border-bottom: none; }
    .errors .count { color: var(--bad); font-weight: 600; margin-right: 8px; }
    .compare-panel {
      display: flex; align-items: center; gap: 10px;
      background: var(--card);
      border: 1px solid var(--border);
      border-radius: 8px;
      padding: 10px 14px;
      margin-bottom: 24px;
    }
    .compare-panel label { color: var(--muted); font-size: 12px; text-transform: uppercase; letter-spacing: 0.5px; }
    .compare-panel select {
      flex: 1; min-width: 200px;
      background: var(--bg);
      color: var(--fg);
      border: 1px solid var(--border);
      border-radius: 6px;
      padding: 6px 8px;
      font: inherit;
    }
    .compare-panel a.btn {
      background: var(--accent); color: #0e1116;
      padding: 6px 12px; border-radius: 6px;
      text-decoration: none; font-weight: 600;
    }
    .compare-panel a.btn.disabled {
      background: var(--border); color: var(--muted); pointer-events: none;
    }
    .compare-panel .hint { color: var(--muted); font-size: 12px; }
    .lang-toggle { display: inline-flex; gap: 4px; background: var(--card); border: 1px solid var(--border); border-radius: 6px; padding: 2px; }
    .lang-toggle .lang-btn { background: transparent; color: var(--muted); border: 0; padding: 4px 10px; border-radius: 4px; font: inherit; cursor: pointer; }
    .lang-toggle .lang-btn.active { background: var(--accent); color: #0e1116; font-weight: 600; }
    footer { margin-top: 48px; padding-top: 16px; border-top: 1px solid var(--border); color: var(--muted); font-size: 12px; text-align: center; }
  </style>
</head>
<body>
  <div class="wrap">
    <h1>
      <span"#;

/// The scripts of the page: switching the language, drawing the charts, and the
/// choice of another run.
pub const PAGE_SCRIPTS: &'static str = r"</script>
  <script>
    (function() {
      const ZH = JSON.parse(document.getElementById('i18n-dict-zh').textContent);
      const EN = JSON.parse(document.getElementById('i18n-dict-en').textContent);
      const STORAGE_KEY = 'power_test.lang';
      const DEFAULT_LANG = 'zh';
      function applyLang(lang) {
        const dict = (lang === 'en') ? EN : ZH;
        document.documentElement.lang = lang;
        document.querySelectorAll('[data-i18n]').forEach(function(el) {
          const key = el.getAttribute('data-i18n');
          if (dict[key] !== undefined) {
            el.textContent = dict[key];
          }
        });
        document.querySelectorAll('.lang-toggle .lang-btn').forEach(function(b) {
          if (b.dataset.lang === lang) {
            b.classList.add('active');
          } else {
            b.classList.remove('active');
          }
        });
        try { localStorage.setItem(STORAGE_KEY, lang); } catch (e) {}
      }
      document.querySelectorAll('.lang-toggle .lang-btn').forEach(function(btn) {
        btn.addEventListener('click', function() {
          applyLang(btn.dataset.lang);
        });
      });
      let stored = null;
      try { stored = localStorage.getItem(STORAGE_KEY); } catch (e) {}
      if (stored === 'en' || stored === 'zh') {
        applyLang(stored);
      } else {
        applyLang(DEFAULT_LANG);
      }
    })();
  </script>

  <script>
    window.addEventListener('load', function() {
    const DATA = JSON.parse(document.getElementById('metrics-data').textContent);
    const palette = ['#58a6ff', '#3fb950', '#d29922', '#a371f7', '#f85149', '#8b949e'];
    const chartFont = { size: 12 };

    function fmtMs(us) { return (us / 1000).toFixed(2); }

    new Chart(document.getElementById('latencyChart'), {
      type: 'bar',
      data: {
        labels: DATA.latencyPercentiles.labels,
        datasets: [{
          label: 'Latency (ms)',
          data: DATA.latencyPercentiles.values_ms,
          backgroundColor: palette[0],
        }]
      },
      options: {
        responsive: true,
        maintainAspectRatio: false,
        plugins: { legend: { display: false } },
        scales: { y: { beginAtZero: true, ticks: { font: chartFont } }, x: { ticks: { font: chartFont } } }
      }
    });

    new Chart(document.getElementById('statusChart'), {
      type: 'doughnut',
      data: {
        labels: DATA.statusBreakdown.labels,
        datasets: [{ data: DATA.statusBreakdown.counts, backgroundColor: palette }]
      },
      options: {
        responsive: true,
        maintainAspectRatio: false,
        plugins: { legend: { position: 'bottom', labels: { font: chartFont } } }
      }
    });

    new Chart(document.getElementById('rpsChart'), {
      type: 'line',
      data: {
        labels: DATA.rpsTimeline.seconds.map(s => s + 's'),
        datasets: [
          { label: 'Started', data: DATA.rpsTimeline.started, borderColor: palette[0], backgroundColor: palette[0], tension: 0.1 },
          { label: 'Completed', data: DATA.rpsTimeline.completed, borderColor: palette[1], backgroundColor: palette[1], tension: 0.1 }
        ]
      },
      options: {
        responsive: true,
        maintainAspectRatio: false,
        plugins: { legend: { position: 'bottom', labels: { font: chartFont } } },
        scales: { y: { beginAtZero: true, ticks: { font: chartFont, precision: 0 } }, x: { ticks: { font: chartFont } } }
      }
    });

    (function() {
      const sel = document.getElementById('compare-select');
      const link = document.getElementById('compare-link');
      if (!sel || !link) return;
      const opts = sel.querySelectorAll('option');
      if (opts.length <= 1) return;
      function refresh() {
        const opt = sel.options[sel.selectedIndex];
        if (!opt || !opt.dataset.filename) {
          link.classList.add('disabled');
          link.setAttribute('aria-disabled', 'true');
          try {
            const ZH = JSON.parse(document.getElementById('i18n-dict-zh').textContent);
            const EN = JSON.parse(document.getElementById('i18n-dict-en').textContent);
            const dict = document.documentElement.lang === 'en' ? EN : ZH;
            link.textContent = dict['ui.compare'] || 'Compare';
          } catch (e) {
            link.textContent = 'Compare';
          }
          link.removeAttribute('href');
          return;
        }
        link.href = opt.dataset.filename;
        link.classList.remove('disabled');
        try {
          const ZH = JSON.parse(document.getElementById('i18n-dict-zh').textContent);
          const EN = JSON.parse(document.getElementById('i18n-dict-en').textContent);
          const dict = document.documentElement.lang === 'en' ? EN : ZH;
          link.textContent = (dict['ui.compare'] || 'Compare') + ' \u2192';
        } catch (e) {
          link.textContent = 'Compare';
        }
      }
      sel.addEventListener('change', refresh);
      refresh();
    })();
    });
  </script>
</body>
</html>
";

/// The head of the page, its styles and its heading.
pub open spec fn head_html(cfg: RunConfig, chart_js: Seq<char>) -> Seq<char> {
    r#"<!doctype html>
<html lang="zh">
<head>
  <meta charset="utf-8">
  <title>power_test report — "#@
        + cfg.run_id@
        + r"</title>
  <script>"@
        + chart_js
        + PAGE_STYLE@
        + labelled("page.title"@)
        + r#"</span>
      <span class="lang-toggle" role="group" aria-label="language">
        <button class="lang-btn active" data-lang="zh""#@
        + labelled("ui.language_toggle_zh"@)
        + r#"</button>
        <button class="lang-btn" data-lang="en""#@
        + labelled("ui.language_toggle_en"@)
        + r"</button>
      </span>
    </h1>
"@
}

fn page_head(cfg: &RunConfig, chart_js: &str) -> (r: String)
    ensures
        r@ == head_html(*cfg, chart_js@),
{
    let mut out = r#"<!doctype html>
<html lang="zh">
<head>
  <meta charset="utf-8">
  <title>power_test report — "#.to_owned();
    out.push_str(cfg.run_id.as_str());
    out.push_str(
        r"</title>
  <script>",
    );
    out.push_str(chart_js);
    out.push_str(PAGE_STYLE);
    push_label(&mut out, "page.title");
    out.push_str(
        r#"</span>
      <span class="lang-toggle" role="group" aria-label="language">
        <button class="lang-btn active" data-lang="zh""#,
    );
    push_label(&mut out, "ui.language_toggle_zh");
    out.push_str(
        r#"</button>
        <button class="lang-btn" data-lang="en""#,
    );
    push_label(&mut out, "ui.language_toggle_en");
    out.push_str(
        r"</button>
      </span>
    </h1>
",
    );
    out
}

/// The line that says which run this is.
pub open spec fn run_line_html(cfg: RunConfig, interrupted: bool) -> Seq<char> {
    r#"    <div class="sub"><span"#@
        + labelled("page.run_label"@)
        + "</span> <code>"@
        + escaped(cfg.run_id@)
        + "</code> · <span"@
        + labelled("page.started_label"@)
        + "</span> <code>"@
        + cfg.started_at@
        + "</code>"@
        + interrupted_html(interrupted)
        + r"</div>

"@
}

fn run_line(cfg: &RunConfig, interrupted: bool) -> (r: String)
    ensures
        r@ == run_line_html(*cfg, interrupted),
{
    let mut out = r#"    <div class="sub"><span"#.to_owned();
    push_label(&mut out, "page.run_label");
    out.push_str("</span> <code>");
    out.push_str(html_escape(cfg.run_id.as_str()).as_str());
    out.push_str("</code> · <span");
    push_label(&mut out, "page.started_label");
    out.push_str("</span> <code>");
    out.push_str(cfg.started_at.as_str());
    out.push_str("</code>");
    out.push_str(interrupted_note(interrupted).as_str());
    out.push_str(
        r"</div>

",
    );
    out
}

/// The cards at the top.
pub open spec fn cards_html(cfg: RunConfig, rs: Seq<RequestRecord>, figures: ReportFigures) -> Seq<char> {
    r#"    <div class="grid">
      <div class="card"><div class="label""#@
        + labelled("card.target"@)
        + r#"</div><div class="value" style="font-size:14px;word-break:break-all;">"#@
        + escaped(cfg.target@)
        + r#"</div></div>
      <div class="card"><div class="label""#@
        + labelled("card.model"@)
        + r#"</div><div class="value" style="font-size:18px;">"#@
        + escaped(cfg.model@)
        + r#"</div></div>
      <div class="card"><div class="label""#@
        + labelled("card.duration"@)
        + r#"</div><div class="value">"#@
        + decimal(cfg.duration_secs as nat)
        + r#"s</div></div>
      <div class="card"><div class="label""#@
        + labelled("card.target_rps"@)
        + r#"</div><div class="value">"#@
        + figures.target_rps@
        + r#"</div></div>
      <div class="card"><div class="label""#@
        + labelled("card.achieved_rps"@)
        + r#"</div><div class="value">"#@
        + figures.achieved_rps@
        + r#"</div></div>
      <div class="card"><div class="label""#@
        + labelled("card.success_rate"@)
        + r#"</div><div class="value "#@
        + success_class(rs)
        + r#"">"#@
        + figures.success_rate@
        + r#"%</div></div>
      <div class="card"><div class="label""#@
        + labelled("card.total_requests"@)
        + r#"</div><div class="value">"#@
        + decimal(rs.len())
        + r#"</div></div>
      <div class="card"><div class="label""#@
        + labelled("card.total_tokens"@)
        + r#"</div><div class="value">"#@
        + decimal(total(rs, Quantity::Completion) as nat)
        + r"</div></div>
    </div>

"@
}

fn cards(cfg: &RunConfig, agg: &MetricsAggregator, figures: &ReportFigures) -> (r: String)
    requires
        agg.wf(),
    ensures
        r@ == cards_html(*cfg, agg@.records, *figures),
{
    let mut out = r#"    <div class="grid">
      <div class="card"><div class="label""#.to_owned();
    push_label(&mut out, "card.target");
    out.push_str(r#"</div><div class="value" style="font-size:14px;word-break:break-all;">"#);
    out.push_str(html_escape(cfg.target.as_str()).as_str());
    out.push_str(
        r#"</div></div>
      <div class="card"><div class="label""#,
    );
    push_label(&mut out, "card.model");
    out.push_str(r#"</div><div class="value" style="font-size:18px;">"#);
    out.push_str(html_escape(cfg.model.as_str()).as_str());
    out.push_str(
        r#"</div></div>
      <div class="card"><div class="label""#,
    );
    push_label(&mut out, "card.duration");
    out.push_str(r#"</div><div class="value">"#);
    out.push_str(decimal_text(cfg.duration_secs as u128).as_str());
    out.push_str(
        r#"s</div></div>
      <div class="card"><div class="label""#,
    );
    push_label(&mut out, "card.target_rps");
    out.push_str(r#"</div><div class="value">"#);
    out.push_str(figures.target_rps.as_str());
    out.push_str(
        r#"</div></div>
      <div class="card"><div class="label""#,
    );
    push_label(&mut out, "card.achieved_rps");
    out.push_str(r#"</div><div class="value">"#);
    out.push_str(figures.achieved_rps.as_str());
    out.push_str(
        r#"</div></div>
      <div class="card"><div class="label""#,
    );
    push_label(&mut out, "card.success_rate");
    out.push_str(r#"</div><div class="value "#);
    out.push_str(success_grade(agg));
    out.push_str(r#"">"#);
    out.push_str(figures.success_rate.as_str());
    out.push_str(
        r#"%</div></div>
      <div class="card"><div class="label""#,
    );
    push_label(&mut out, "card.total_requests");
    out.push_str(r#"</div><div class="value">"#);
    out.push_str(decimal_text(agg.total_requests() as u128).as_str());
    out.push_str(
        r#"</div></div>
      <div class="card"><div class="label""#,
    );
    push_label(&mut out, "card.total_tokens");
    out.push_str(r#"</div><div class="value">"#);
    out.push_str(decimal_text(agg.total_completion_tokens() as u128).as_str());
    out.push_str(
        r"</div></div>
    </div>

",
    );
    out
}

/// The configuration tables.
pub open spec fn configuration_html(cfg: RunConfig, figures: ReportFigures) -> Seq<char> {
    "    <h2"@
        + labelled("config.heading"@)
        + r"</h2>

    <h3"@
        + labelled("config.run_identity"@)
        + r"</h3>
    <table>
      <tbody>
        <tr><td"@
        + labelled("config.run_id"@)
        + "</td><td><code>"@
        + escaped(cfg.run_id@)
        + r"</code></td></tr>
        <tr><td"@
        + labelled("config.tag"@)
        + "</td><td>"@
        + tag_html(opt_view(cfg.tag))
        + r"</td></tr>
        <tr><td"@
        + labelled("config.started"@)
        + "</td><td><code>"@
        + cfg.started_at@
        + r"</code></td></tr>
        <tr><td"@
        + labelled("config.target"@)
        + r#"</td><td><code style="word-break:break-all;">"#@
        + escaped(cfg.target@)
        + r"</code></td></tr>
        <tr><td"@
        + labelled("config.api"@)
        + "</td><td><code>"@
        + cfg.api.label()
        + r"</code></td></tr>
        <tr><td"@
        + labelled("config.model"@)
        + "</td><td><code>"@
        + escaped(cfg.model@)
        + "</code> "@
        + alias_html(opt_view(cfg.model_alias))
        + r"</td></tr>
      </tbody>
    </table>

    <h3"@
        + labelled("config.load"@)
        + r"</h3>
    <table>
      <tbody>
        <tr><td"@
        + labelled("config.pattern"@)
        + "</td><td><code>"@
        + cfg.pattern.label()
        + "</code>"@
        + escaped(" · "@ + figures.pattern.detail())
        + r"</td></tr>
        <tr><td"@
        + labelled("card.target_rps"@)
        + "</td><td>"@
        + figures.target_rps@
        + r"</td></tr>
        <tr><td"@
        + labelled("card.duration"@)
        + "</td><td>"@
        + decimal(cfg.duration_secs as nat)
        + r"s</td></tr>
        <tr><td"@
        + labelled("config.concurrency"@)
        + "</td><td>"@
        + decimal(cfg.concurrency as nat)
        + r"</td></tr>
        <tr><td"@
        + labelled("config.stream"@)
        + "</td><td>"@
        + bool_label(cfg.stream)
        + r"</td></tr>
        <tr><td"@
        + labelled("config.max_tokens"@)
        + "</td><td>"@
        + decimal(cfg.max_tokens as nat)
        + r"</td></tr>
      </tbody>
    </table>

    <h3"@
        + labelled("config.dataset"@)
        + r"</h3>
    <table>
      <tbody>
        <tr><td"@
        + labelled("config.kind"@)
        + "</td><td><code>"@
        + cfg.dataset.label()
        + "</code> · <span"@
        + labelled("config.strategy"@)
        + "</span> <code>"@
        + cfg.strategy.label()
        + r"</code></td></tr>
        <tr><td"@
        + labelled("config.source"@)
        + r#"</td><td><code style="word-break:break-all;">"#@
        + escaped(dataset_source(cfg.dataset))
        + r"</code></td></tr>
        <tr><td"@
        + labelled("config.prompt_tokens"@)
        + "</td><td>"@
        + decimal(cfg.prompt_distribution.count as nat)
        + " prompts · min <strong>"@
        + decimal(cfg.prompt_distribution.min as nat)
        + "</strong> · mean <strong>"@
        + figures.prompt_mean@
        + "</strong> · max <strong>"@
        + decimal(cfg.prompt_distribution.max as nat)
        + r"</strong></td></tr>
      </tbody>
    </table>

"@
}

fn configuration(cfg: &RunConfig, figures: &ReportFigures) -> (r: String)
    ensures
        r@ == configuration_html(*cfg, *figures),
{
    let mut out = "    <h2".to_owned();
    push_label(&mut out, "config.heading");
    out.push_str(
        r"</h2>

    <h3",
    );
    push_label(&mut out, "config.run_identity");
    out.push_str(
        r"</h3>
    <table>
      <tbody>
        <tr><td",
    );
    push_label(&mut out, "config.run_id");
    out.push_str("</td><td><code>");
    out.push_str(html_escape(cfg.run_id.as_str()).as_str());
    out.push_str(
        r"</code></td></tr>
        <tr><td",
    );
    push_label(&mut out, "config.tag");
    out.push_str("</td><td>");
    out.push_str(tag_cell(&cfg.tag).as_str());
    out.push_str(
        r"</td></tr>
        <tr><td",
    );
    push_label(&mut out, "config.started");
    out.push_str("</td><td><code>");
    out.push_str(cfg.started_at.as_str());
    out.push_str(
        r"</code></td></tr>
        <tr><td",
    );
    push_label(&mut out, "config.target");
    out.push_str(r#"</td><td><code style="word-break:break-all;">"#);
    out.push_str(html_escape(cfg.target.as_str()).as_str());
    out.push_str(
        r"</code></td></tr>
        <tr><td",
    );
    push_label(&mut out, "config.api");
    out.push_str("</td><td><code>");
    out.push_str(cfg.api.as_str());
    out.push_str(
        r"</code></td></tr>
        <tr><td",
    );
    push_label(&mut out, "config.model");
    out.push_str("</td><td><code>");
    out.push_str(html_escape(cfg.model.as_str()).as_str());
    out.push_str("</code> ");
    out.push_str(alias_note(&cfg.model_alias).as_str());
    out.push_str(
        r"</td></tr>
      </tbody>
    </table>

    <h3",
    );
    push_label(&mut out, "config.load");
    out.push_str(
        r"</h3>
    <table>
      <tbody>
        <tr><td",
    );
    push_label(&mut out, "config.pattern");
    out.push_str("</td><td><code>");
    out.push_str(cfg.pattern.name());
    out.push_str("</code>");
    out.push_str(html_escape(pattern_note(&figures.pattern).as_str()).as_str());
    out.push_str(
        r"</td></tr>
        <tr><td",
    );
    push_label(&mut out, "card.target_rps");
    out.push_str("</td><td>");
    out.push_str(figures.target_rps.as_str());
    out.push_str(
        r"</td></tr>
        <tr><td",
    );
    push_label(&mut out, "card.duration");
    out.push_str("</td><td>");
    out.push_str(decimal_text(cfg.duration_secs as u128).as_str());
    out.push_str(
        r"s</td></tr>
        <tr><td",
    );
    push_label(&mut out, "config.concurrency");
    out.push_str("</td><td>");
    out.push_str(decimal_text(cfg.concurrency as u128).as_str());
    out.push_str(
        r"</td></tr>
        <tr><td",
    );
    push_label(&mut out, "config.stream");
    out.push_str("</td><td>");
    out.push_str(bool_text(cfg.stream));
    out.push_str(
        r"</td></tr>
        <tr><td",
    );
    push_label(&mut out, "config.max_tokens");
    out.push_str("</td><td>");
    out.push_str(decimal_text(cfg.max_tokens as u128).as_str());
    out.push_str(
        r"</td></tr>
      </tbody>
    </table>

    <h3",
    );
    push_label(&mut out, "config.dataset");
    out.push_str(
        r"</h3>
    <table>
      <tbody>
        <tr><td",
    );
    push_label(&mut out, "config.kind");
    out.push_str("</td><td><code>");
    out.push_str(cfg.dataset.name());
    out.push_str("</code> · <span");
    push_label(&mut out, "config.strategy");
    out.push_str("</span> <code>");
    out.push_str(cfg.strategy.as_str());
    out.push_str(
        r"</code></td></tr>
        <tr><td",
    );
    push_label(&mut out, "config.source");
    out.push_str(r#"</td><td><code style="word-break:break-all;">"#);
    out.push_str(html_escape(format_dataset_source(cfg).as_str()).as_str());
    out.push_str(
        r"</code></td></tr>
        <tr><td",
    );
    push_label(&mut out, "config.prompt_tokens");
    out.push_str("</td><td>");
    out.push_str(decimal_text(cfg.prompt_distribution.count as u128).as_str());
    out.push_str(" prompts · min <strong>");
    out.push_str(decimal_text(cfg.prompt_distribution.min as u128).as_str());
    out.push_str("</strong> · mean <strong>");
    out.push_str(figures.prompt_mean.as_str());
    out.push_str("</strong> · max <strong>");
    out.push_str(decimal_text(cfg.prompt_distribution.max as u128).as_str());
    out.push_str(
        r"</strong></td></tr>
      </tbody>
    </table>

",
    );
    out
}

/// The percentiles table.
pub open spec fn statistics_html(rs: Seq<RequestRecord>, figures: ReportFigures) -> Seq<char> {
    "    <h2"@
        + labelled("metric.heading"@)
        + r"</h2>
    <table>
      <thead><tr><th"@
        + labelled("metric.col_metric"@)
        + r"</th><th>p50</th><th>p90</th><th>p99</th><th>p99.9</th></tr></thead>
      <tbody>
        <tr><td"@
        + labelled("metric.latency"@)
        + "</td><td>"@
        + cell(recorded(rs, HistKind::Latency).len() > 0, figures.latency.p50@)
        + "</td><td>"@
        + cell(recorded(rs, HistKind::Latency).len() > 0, figures.latency.p90@)
        + "</td><td>"@
        + cell(recorded(rs, HistKind::Latency).len() > 0, figures.latency.p99@)
        + "</td><td>"@
        + cell(recorded(rs, HistKind::Latency).len() > 0, figures.latency.p999@)
        + r"</td></tr>
        <tr><td"@
        + labelled("metric.ttft"@)
        + "</td><td>"@
        + cell(recorded(rs, HistKind::Ttft).len() > 0, figures.ttft.p50@)
        + "</td><td>"@
        + cell(recorded(rs, HistKind::Ttft).len() > 0, figures.ttft.p90@)
        + "</td><td>"@
        + cell(recorded(rs, HistKind::Ttft).len() > 0, figures.ttft.p99@)
        + "</td><td>"@
        + cell(recorded(rs, HistKind::Ttft).len() > 0, figures.ttft.p999@)
        + r"</td></tr>
        <tr><td"@
        + labelled("metric.itl"@)
        + "</td><td>"@
        + cell(recorded(rs, HistKind::Itl).len() > 0, figures.itl.p50@)
        + "</td><td>"@
        + cell(recorded(rs, HistKind::Itl).len() > 0, figures.itl.p90@)
        + "</td><td>"@
        + cell(recorded(rs, HistKind::Itl).len() > 0, figures.itl.p99@)
        + "</td><td>"@
        + cell(recorded(rs, HistKind::Itl).len() > 0, figures.itl.p999@)
        + r"</td></tr>
        <tr><td"@
        + labelled("metric.tps"@)
        + "</td><td>"@
        + cell(rates(rs).len() > 0, figures.tps.p50@)
        + "</td><td>"@
        + cell(rates(rs).len() > 0, figures.tps.p90@)
        + "</td><td>"@
        + cell(rates(rs).len() > 0, figures.tps.p99@)
        + "</td><td>"@
        + cell(rates(rs).len() > 0, figures.tps.p999@)
        + r"</td></tr>
      </tbody>
    </table>

"@
}

fn statistics(agg: &MetricsAggregator, figures: &ReportFigures) -> (r: String)
    requires
        agg.wf(),
    ensures
        r@ == statistics_html(agg@.records, *figures),
{
    let rated = agg.tps_values().len() > 0;
    let mut out = "    <h2".to_owned();
    push_label(&mut out, "metric.heading");
    out.push_str(
        r"</h2>
    <table>
      <thead><tr><th",
    );
    push_label(&mut out, "metric.col_metric");
    out.push_str(
        r"</th><th>p50</th><th>p90</th><th>p99</th><th>p99.9</th></tr></thead>
      <tbody>
        <tr><td",
    );
    push_label(&mut out, "metric.latency");
    out.push_str("</td><td>");
    out.push_str(cell_text(agg.percentile(HistKind::Latency, Percentile::P50).is_some(), &figures.latency.p50).as_str());
    out.push_str("</td><td>");
    out.push_str(cell_text(agg.percentile(HistKind::Latency, Percentile::P90).is_some(), &figures.latency.p90).as_str());
    out.push_str("</td><td>");
    out.push_str(cell_text(agg.percentile(HistKind::Latency, Percentile::P99).is_some(), &figures.latency.p99).as_str());
    out.push_str("</td><td>");
    out.push_str(cell_text(agg.percentile(HistKind::Latency, Percentile::P999).is_some(), &figures.latency.p999).as_str());
    out.push_str(
        r"</td></tr>
        <tr><td",
    );
    push_label(&mut out, "metric.ttft");
    out.push_str("</td><td>");
    out.push_str(cell_text(agg.percentile(HistKind::Ttft, Percentile::P50).is_some(), &figures.ttft.p50).as_str());
    out.push_str("</td><td>");
    out.push_str(cell_text(agg.percentile(HistKind::Ttft, Percentile::P90).is_some(), &figures.ttft.p90).as_str());
    out.push_str("</td><td>");
    out.push_str(cell_text(agg.percentile(HistKind::Ttft, Percentile::P99).is_some(), &figures.ttft.p99).as_str());
    out.push_str("</td><td>");
    out.push_str(cell_text(agg.percentile(HistKind::Ttft, Percentile::P999).is_some(), &figures.ttft.p999).as_str());
    out.push_str(
        r"</td></tr>
        <tr><td",
    );
    push_label(&mut out, "metric.itl");
    out.push_str("</td><td>");
    out.push_str(cell_text(agg.percentile(HistKind::Itl, Percentile::P50).is_some(), &figures.itl.p50).as_str());
    out.push_str("</td><td>");
    out.push_str(cell_text(agg.percentile(HistKind::Itl, Percentile::P90).is_some(), &figures.itl.p90).as_str());
    out.push_str("</td><td>");
    out.push_str(cell_text(agg.percentile(HistKind::Itl, Percentile::P99).is_some(), &figures.itl.p99).as_str());
    out.push_str("</td><td>");
    out.push_str(cell_text(agg.percentile(HistKind::Itl, Percentile::P999).is_some(), &figures.itl.p999).as_str());
    out.push_str(
        r"</td></tr>
        <tr><td",
    );
    push_label(&mut out, "metric.tps");
    out.push_str("</td><td>");
    out.push_str(cell_text(rated, &figures.tps.p50).as_str());
    out.push_str("</td><td>");
    out.push_str(cell_text(rated, &figures.tps.p90).as_str());
    out.push_str("</td><td>");
    out.push_str(cell_text(rated, &figures.tps.p99).as_str());
    out.push_str("</td><td>");
    out.push_str(cell_text(rated, &figures.tps.p999).as_str());
    out.push_str(
        r"</td></tr>
      </tbody>
    </table>

",
    );
    out
}

/// The advanced metrics: time per token, throughput, averages.
pub open spec fn advanced_html(rs: Seq<RequestRecord>, figures: ReportFigures) -> Seq<char> {
    "<h2"@
        + labelled("metric.t8"@)
        + r"</h2>
<table>
  <tbody>
    <tr><td"@
        + labelled("metric.tpot"@)
        + "</td><td>"@
        + figures.tpot_ms@
        + r"</td></tr>
    <tr><td"@
        + labelled("metric.throughput_output"@)
        + "</td><td>"@
        + figures.output_tps@
        + r"</td></tr>
    <tr><td"@
        + labelled("metric.throughput_total"@)
        + "</td><td>"@
        + figures.total_tps@
        + r"</td></tr>
    <tr><td"@
        + labelled("metric.avg_input"@)
        + "</td><td>"@
        + figures.avg_input@
        + r"</td></tr>
    <tr><td"@
        + labelled("metric.avg_output"@)
        + "</td><td>"@
        + figures.avg_output@
        + r"</td></tr>
    <tr><td"@
        + labelled("metric.avg_turns"@)
        + "</td><td>"@
        + figures.avg_turns@
        + r"</td></tr>
    "@
        + speculative_html(rs, figures)
        + r"
  </tbody>
</table>"@
}

fn advanced_metrics(agg: &MetricsAggregator, figures: &ReportFigures) -> (r: String)
    ensures
        r@ == advanced_html(agg@.records, *figures),
{
    let mut out = "<h2".to_owned();
    push_label(&mut out, "metric.t8");
    out.push_str(
        r"</h2>
<table>
  <tbody>
    <tr><td",
    );
    push_label(&mut out, "metric.tpot");
    out.push_str("</td><td>");
    out.push_str(figures.tpot_ms.as_str());
    out.push_str(
        r"</td></tr>
    <tr><td",
    );
    push_label(&mut out, "metric.throughput_output");
    out.push_str("</td><td>");
    out.push_str(figures.output_tps.as_str());
    out.push_str(
        r"</td></tr>
    <tr><td",
    );
    push_label(&mut out, "metric.throughput_total");
    out.push_str("</td><td>");
    out.push_str(figures.total_tps.as_str());
    out.push_str(
        r"</td></tr>
    <tr><td",
    );
    push_label(&mut out, "metric.avg_input");
    out.push_str("</td><td>");
    out.push_str(figures.avg_input.as_str());
    out.push_str(
        r"</td></tr>
    <tr><td",
    );
    push_label(&mut out, "metric.avg_output");
    out.push_str("</td><td>");
    out.push_str(figures.avg_output.as_str());
    out.push_str(
        r"</td></tr>
    <tr><td",
    );
    push_label(&mut out, "metric.avg_turns");
    out.push_str("</td><td>");
    out.push_str(figures.avg_turns.as_str());
    out.push_str(
        r"</td></tr>
    ",
    );
    out.push_str(speculative_rows(agg, figures).as_str());
    out.push_str(
        r"
  </tbody>
</table>",
    );
    out
}

/// The rows on speculative decoding.
pub open spec fn decoding_html(figures: ReportFigures) -> Seq<char> {
    "<tr><td"@
        + labelled("metric.spec_decoded"@)
        + "</td><td>"@
        + figures.spec_decoded@
        + r"</td></tr>
<tr><td"@
        + labelled("metric.spec_accept"@)
        + "</td><td>"@
        + figures.spec_accept@
        + "%</td></tr>"@
}

fn decoding_rows(figures: &ReportFigures) -> (r: String)
    ensures
        r@ == decoding_html(*figures),
{
    let mut out = "<tr><td".to_owned();
    push_label(&mut out, "metric.spec_decoded");
    out.push_str("</td><td>");
    out.push_str(figures.spec_decoded.as_str());
    out.push_str(
        r"</td></tr>
<tr><td",
    );
    push_label(&mut out, "metric.spec_accept");
    out.push_str("</td><td>");
    out.push_str(figures.spec_accept.as_str());
    out.push_str("%</td></tr>");
    out
}

/// Charts, errors and the footer.
pub open spec fn lower_html(rs: Seq<RequestRecord>, version: Seq<char>) -> Seq<char> {
    "    <h2"@
        + labelled("charts.heading"@)
        + r#"</h2>
    <div class="charts">
      <div class="chart-card"><h3"#@
        + labelled("chart.latency"@)
        + r#"</h3><canvas id="latencyChart"></canvas></div>
      <div class="chart-card"><h3"#@
        + labelled("chart.status"@)
        + r#"</h3><canvas id="statusChart"></canvas></div>
      <div class="chart-card"><h3"#@
        + labelled("chart.rps"@)
        + r#"</h3><canvas id="rpsChart"></canvas></div>
    </div>

    <h2"#@
        + labelled("errors.heading"@)
        + r#"</h2>
    <div class="errors">"#@
        + errors_html(failures(rs))
        + r#"</div>

    <footer data-i18n="footer.powered_by">"#@
        + footer_text(version)
        + r"</footer>
  </div>

"@
}

fn lower_part(agg: &MetricsAggregator, version: &str) -> (r: String)
    requires
        agg.wf(),
    ensures
        r@ == lower_html(agg@.records, version@),
{
    let errors = build_errors_rows(agg);
    let mut out = "    <h2".to_owned();
    push_label(&mut out, "charts.heading");
    out.push_str(
        r#"</h2>
    <div class="charts">
      <div class="chart-card"><h3"#,
    );
    push_label(&mut out, "chart.latency");
    out.push_str(
        r#"</h3><canvas id="latencyChart"></canvas></div>
      <div class="chart-card"><h3"#,
    );
    push_label(&mut out, "chart.status");
    out.push_str(
        r#"</h3><canvas id="statusChart"></canvas></div>
      <div class="chart-card"><h3"#,
    );
    push_label(&mut out, "chart.rps");
    out.push_str(
        r#"</h3><canvas id="rpsChart"></canvas></div>
    </div>

    <h2"#,
    );
    push_label(&mut out, "errors.heading");
    out.push_str(
        r#"</h2>
    <div class="errors">"#,
    );
    out.push_str(errors.as_str());
    out.push_str(
        r#"</div>

    <footer data-i18n="footer.powered_by">"#,
    );
    out.push_str(powered_by(version).as_str());
    out.push_str(
        r"</footer>
  </div>

",
    );
    out
}

/// The embedded dictionaries, the data and the scripts.
pub open spec fn scripts_html(data_json: Seq<char>) -> Seq<char> {
    r#"  <script id="i18n-dict-en" type="application/json">"#@
        + script_safe(dictionary(Locale::En))
        + r#"</script>
  <script id="i18n-dict-zh" type="application/json">"#@
        + script_safe(dictionary(Locale::Zh))
        + r#"</script>
  <script id="metrics-data" type="application/json">"#@
        + script_safe(data_json)
        + PAGE_SCRIPTS@
}

fn scripts(data_json: &str) -> (r: String)
    ensures
        r@ == scripts_html(data_json@),
{
    let mut out = r#"  <script id="i18n-dict-en" type="application/json">"#.to_owned();
    out.push_str(escape_script(dict_to_json(Locale::En).as_str()).as_str());
    out.push_str(
        r#"</script>
  <script id="i18n-dict-zh" type="application/json">"#,
    );
    out.push_str(escape_script(dict_to_json(Locale::Zh).as_str()).as_str());
    out.push_str(
        r#"</script>
  <script id="metrics-data" type="application/json">"#,
    );
    out.push_str(escape_script(data_json).as_str());
    out.push_str(PAGE_SCRIPTS);
    out
}

/// The prompt-cache card.
pub open spec fn cache_html(c: CacheStats, figures: CacheFigures) -> Seq<char> {
    "<h2"@
        + labelled("cache.heading"@)
        + r#"</h2>
<div class="card" style="margin-bottom:24px;">
  <div class="label" style="color:var(--muted);font-size:12px;text-transform:uppercase;letter-spacing:0.5px;""#@
        + labelled("cache.hit_rate"@)
        + r#"</div>
  <div style="font-size:32px;font-weight:600;margin:4px 0 16px 0;">"#@
        + cache_headline(c, figures)
        + r"</div>
  "@
        + cache_subline(c)
        + r#"
  <table style="width:auto;background:transparent;border:none;">
    <tbody>
      <tr><td style="border:none;padding:4px 12px 4px 0;color:var(--muted);width:120px;""#@
        + labelled("cache.overall"@)
        + r#"</td>
          <td style="border:none;padding:4px 0;width:300px;background:rgba(255,255,255,0.04);border-radius:3px;">
            <div style="height:14px;width:"#@
        + decimal(figures.bar_overall as nat)
        + r#"%;background:var(--accent);border-radius:3px;min-width:2px;"></div>
          </td>
          <td style="border:none;padding:4px 0 4px 12px;font-family:ui-monospace,SFMono-Regular,monospace;">"#@
        + figures.overall@
        + r#"</td></tr>
      <tr><td style="border:none;padding:4px 12px 4px 0;color:var(--muted);""#@
        + labelled("cache.turn1"@)
        + r#"</td>
          <td style="border:none;padding:4px 0;background:rgba(255,255,255,0.04);border-radius:3px;">
            <div style="height:14px;width:"#@
        + decimal(figures.bar_turn1 as nat)
        + r#"%;background:var(--good);border-radius:3px;min-width:2px;"></div>
          </td>
          <td style="border:none;padding:4px 0 4px 12px;font-family:ui-monospace,SFMono-Regular,monospace;">"#@
        + figures.turn1@
        + r"</td></tr>
      "@
        + later_turns_html(c, figures)
        + r"
    </tbody>
  </table>
  "@
        + no_later_turns_html(c)
        + r"
</div>"@
}

fn cache_card(c: &CacheStats, figures: &CacheFigures) -> (r: String)
    ensures
        r@ == cache_html(*c, *figures),
{
    let mut out = "<h2".to_owned();
    push_label(&mut out, "cache.heading");
    out.push_str(
        r#"</h2>
<div class="card" style="margin-bottom:24px;">
  <div class="label" style="color:var(--muted);font-size:12px;text-transform:uppercase;letter-spacing:0.5px;""#,
    );
    push_label(&mut out, "cache.hit_rate");
    out.push_str(
        r#"</div>
  <div style="font-size:32px;font-weight:600;margin:4px 0 16px 0;">"#,
    );
    out.push_str(cache_head(c, figures).as_str());
    out.push_str(
        r"</div>
  ",
    );
    out.push_str(cache_line(c).as_str());
    out.push_str(
        r#"
  <table style="width:auto;background:transparent;border:none;">
    <tbody>
      <tr><td style="border:none;padding:4px 12px 4px 0;color:var(--muted);width:120px;""#,
    );
    push_label(&mut out, "cache.overall");
    out.push_str(
        r#"</td>
          <td style="border:none;padding:4px 0;width:300px;background:rgba(255,255,255,0.04);border-radius:3px;">
            <div style="height:14px;width:"#,
    );
    out.push_str(decimal_text(figures.bar_overall as u128).as_str());
    out.push_str(
        r#"%;background:var(--accent);border-radius:3px;min-width:2px;"></div>
          </td>
          <td style="border:none;padding:4px 0 4px 12px;font-family:ui-monospace,SFMono-Regular,monospace;">"#,
    );
    out.push_str(figures.overall.as_str());
    out.push_str(
        r#"</td></tr>
      <tr><td style="border:none;padding:4px 12px 4px 0;color:var(--muted);""#,
    );
    push_label(&mut out, "cache.turn1");
    out.push_str(
        r#"</td>
          <td style="border:none;padding:4px 0;background:rgba(255,255,255,0.04);border-radius:3px;">
            <div style="height:14px;width:"#,
    );
    out.push_str(decimal_text(figures.bar_turn1 as u128).as_str());
    out.push_str(
        r#"%;background:var(--good);border-radius:3px;min-width:2px;"></div>
          </td>
          <td style="border:none;padding:4px 0 4px 12px;font-family:ui-monospace,SFMono-Regular,monospace;">"#,
    );
    out.push_str(figures.turn1.as_str());
    out.push_str(
        r"</td></tr>
      ",
    );
    out.push_str(later_turns_row(c, figures).as_str());
    out.push_str(
        r"
    </tbody>
  </table>
  ",
    );
    out.push_str(no_later_turns_hint(c).as_str());
    out.push_str(
        r"
</div>",
    );
    out
}

/// The row of later turns.
pub open spec fn turn2plus_html(figures: CacheFigures) -> Seq<char> {
    r#"<tr><td style="border:none;padding:4px 12px 4px 0;color:var(--muted);""#@
        + labelled("cache.turn2plus"@)
        + r#"</td>
                <td style="border:none;padding:4px 0;background:rgba(255,255,255,0.04);border-radius:3px;">
                  <div style="height:14px;width:"#@
        + decimal(figures.bar_turn2plus as nat)
        + r#"%;background:var(--muted);border-radius:3px;min-width:2px;"></div>
                </td>
                <td style="border:none;padding:4px 0 4px 12px;font-family:ui-monospace,SFMono-Regular,monospace;">"#@
        + figures.turn2plus@
        + "</td></tr>"@
}

fn turn2plus_row(figures: &CacheFigures) -> (r: String)
    ensures
        r@ == turn2plus_html(*figures),
{
    let mut out = r#"<tr><td style="border:none;padding:4px 12px 4px 0;color:var(--muted);""#.to_owned();
    push_label(&mut out, "cache.turn2plus");
    out.push_str(
        r#"</td>
                <td style="border:none;padding:4px 0;background:rgba(255,255,255,0.04);border-radius:3px;">
                  <div style="height:14px;width:"#,
    );
    out.push_str(decimal_text(figures.bar_turn2plus as u128).as_str());
    out.push_str(
        r#"%;background:var(--muted);border-radius:3px;min-width:2px;"></div>
                </td>
                <td style="border:none;padding:4px 0 4px 12px;font-family:ui-monospace,SFMono-Regular,monospace;">"#,
    );
    out.push_str(figures.turn2plus.as_str());
    out.push_str("</td></tr>");
    out
}

/// What a page needs besides the run: the library that draws the charts, and
/// the version of this program.
#[derive(Debug)]
pub struct PageParts {
    pub chart_js: String,
    pub version: String,
}

/// The report of a run.
pub open spec fn report_html(
    cfg: RunConfig,
    v: RunView,
    interrupted: bool,
    links: Seq<(String, String)>,
    figures: ReportFigures,
    parts: PageParts,
) -> Seq<char> {
    let rs = v.records;
    head_html(cfg, parts.chart_js@) + run_line_html(cfg, interrupted) + "    "@
        + compare_panel_html(links) + "\n\n"@ + cards_html(cfg, rs, figures) + configuration_html(
        cfg,
        figures,
    ) + statistics_html(rs, figures) + "    "@ + advanced_html(rs, figures) + "\n\n    "@
        + cache_html(cache_totals(rs), figures.cache) + "\n\n"@ + lower_html(rs, parts.version@) + scripts_html(
        compact_text(report_json(cfg, v, interrupted, figures.data)),
    )
}

/// Renders the report of a run, with a panel that leads to comparisons with
/// other runs: pairs of a run id and a file name.
#[verifier::spinoff_prover]
#[verifier::rlimit(40)]
pub fn render_html_with_compare(
    cfg: &RunConfig,
    agg: &MetricsAggregator,
    interrupted: bool,
    compare_links: &Vec<(String, String)>,
    figures: &ReportFigures,
    parts: &PageParts,
) -> (r: String)
    requires
        agg.wf(),
    ensures
        r@ == report_html(*cfg, agg@, interrupted, compare_links@, *figures, *parts),
{
    let mut out = page_head(cfg, parts.chart_js.as_str());
    out.push_str(run_line(cfg, interrupted).as_str());
    out.push_str("    ");
    out.push_str(build_compare_panel(compare_links).as_str());
    out.push_str("\n\n");
    out.push_str(cards(cfg, agg, figures).as_str());
    out.push_str(configuration(cfg, figures).as_str());
    out.push_str(statistics(agg, figures).as_str());
    out.push_str("    ");
    out.push_str(advanced_metrics(agg, figures).as_str());
    out.push_str("\n\n    ");
    out.push_str(build_cache_card(agg, &figures.cache).as_str());
    out.push_str("\n\n");
    out.push_str(lower_part(agg, parts.version.as_str()).as_str());
    let data = report_data(cfg, agg, interrupted, &figures.data);
    out.push_str(scripts(data.as_str()).as_str());
    out
}

/// The report depends on what the records hold alone: runs with the same records
/// and counts have the same page.
pub proof fn equal_records_give_equal_pages(
    cfg: RunConfig,
    a: RunView,
    b: RunView,
    interrupted: bool,
    links: Seq<(String, String)>,
    figures: ReportFigures,
    parts: PageParts,
)
    requires
        alike(a.records, b.records),
        b == (RunView { records: b.records, ..a }),
    ensures
        report_html(cfg, a, interrupted, links, figures, parts) == report_html(
            cfg,
            b,
            interrupted,
            links,
            figures,
            parts,
        ),
{
    let x = a.records;
    let y = b.records;
    replay_rebuilds_the_statistics(x, y);
    equal_records_give_equal_data(cfg, a, b, interrupted, figures.data);
    assert forall|q: Quantity| total(x, q) == total(y, q) by {}
    assert(cards_html(cfg, x, figures) == cards_html(cfg, y, figures));
    assert(statistics_html(x, figures) == statistics_html(y, figures));
    assert(advanced_html(x, figures) == advanced_html(y, figures));
    assert(cache_totals(x) == cache_totals(y));
    assert(lower_html(x, parts.version@) == lower_html(y, parts.version@));
}

/// Renders the report of a run on its own.
pub fn render_html(
    cfg: &RunConfig,
    agg: &MetricsAggregator,
    interrupted: bool,
    figures: &ReportFigures,
    parts: &PageParts,
) -> (r: String)
    requires
        agg.wf(),
    ensures
        r@ == report_html(*cfg, agg@, interrupted, Seq::empty(), *figures, *parts),
{
    let none: Vec<(String, String)> = Vec::new();
    render_html_with_compare(cfg, agg, interrupted, &none, figures, parts)
}

} // verus!
