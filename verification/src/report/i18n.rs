//! The bilingual labels of the HTML pages.
//!
//! Pages are rendered in Chinese; the dictionaries of both languages are
//! embedded so that a script can switch every label. A key that is not known
//! stands for itself, so that a slip shows up on the page.

use super::label_keys::{no_key_is_repeated, no_label_is_empty};
use crate::json::{
    alike, compact_text, folded, json_value, max_levels, members, new_object, object_value,
    put_member, storable, text_value, the_last_entry_counts, write_compact, Json,
};
use crate::text::same_text;
use vstd::prelude::*;

verus! {

/// The languages that the pages know.
#[derive(Debug, Clone, Copy, PartialEq, Eq, Structural)]
pub enum Locale {
    Zh,
    En,
}

impl Locale {
    /// The language that a page is rendered in.
    pub fn default() -> (r: Self)
        ensures
            r == Locale::Zh,
    {
        Locale::Zh
    }

    pub open spec fn label(self) -> Seq<char> {
        match self {
            Locale::Zh => "zh"@,
            Locale::En => "en"@,
        }
    }

    /// The short name that `lang` attributes use.
    pub fn as_str(self) -> (r: &'static str)
        ensures
            r@ == self.label(),
    {
        match self {
            Locale::Zh => "zh",
            Locale::En => "en",
        }
    }
}

/// One label in both languages.
pub struct Label {
    pub key: &'static str,
    pub zh: &'static str,
    pub en: &'static str,
}

/// The texts of one label: key, Chinese, English.
pub struct LabelText {
    pub key: Seq<char>,
    pub zh: Seq<char>,
    pub en: Seq<char>,
}

pub open spec fn text_of(label: Label) -> LabelText {
    LabelText { key: label.key@, zh: label.zh@, en: label.en@ }
}

pub open spec fn texts(labels: Seq<Label>) -> Seq<LabelText> {
    labels.map_values(|label: Label| text_of(label))
}

pub open spec fn row(key: &str, zh: &str, en: &str) -> LabelText {
    LabelText { key: key@, zh: zh@, en: en@ }
}

fn put(out: &mut Vec<Label>, key: &'static str, zh: &'static str, en: &'static str)
    ensures
        texts(final(out)@) == texts(old(out)@).push(row(key, zh, en)),
{
    out.push(Label { key, zh, en });
    proof {
        assert(texts(out@) =~= texts(old(out)@).push(row(key, zh, en)));
    }
}

/// The page frame and its cards.
#[verifier::opaque]
pub open spec fn page_rows() -> Seq<LabelText> {
    seq![
        row("page.title", "power_test 报告", "power_test report"),
        row("page.run_label", "运行 ID", "run"),
        row("page.started_label", "开始时间", "started"),
        row("page.interrupted_label", "（已中断）", "(interrupted)"),
        row("ui.compare_with", "与历史报告对比", "Compare with…"),
        row("ui.compare", "对比", "Compare"),
        row("ui.pick_run", "— 请选择 —", "— pick a run —"),
        row("ui.pre_render_hint", "预生成请运行 `power_test compare --html`", "pre-render via `power_test compare --html`"),
        row("ui.language_toggle_zh", "中文", "中文"),
        row("ui.language_toggle_en", "English", "English"),
        row("ui.open_report", "打开报告", "Open report"),
        row("card.target", "目标", "Target"),
        row("card.model", "模型", "Model"),
        row("card.duration", "时长", "Duration"),
        row("card.target_rps", "目标 RPS", "Target RPS"),
        row("card.achieved_rps", "实际 RPS", "Achieved RPS"),
        row("card.success_rate", "成功率", "Success rate"),
        row("card.total_requests", "总请求数", "Total requests"),
        row("card.total_tokens", "总 token 数", "Total tokens"),
    ]
}

fn put_page_labels(out: &mut Vec<Label>)
    ensures
        texts(final(out)@) == texts(old(out)@) + page_rows(),
{
    put(out, "page.title", "power_test 报告", "power_test report");
    put(out, "page.run_label", "运行 ID", "run");
    put(out, "page.started_label", "开始时间", "started");
    put(out, "page.interrupted_label", "（已中断）", "(interrupted)");
    put(out, "ui.compare_with", "与历史报告对比", "Compare with…");
    put(out, "ui.compare", "对比", "Compare");
    put(out, "ui.pick_run", "— 请选择 —", "— pick a run —");
    put(out, "ui.pre_render_hint", "预生成请运行 `power_test compare --html`", "pre-render via `power_test compare --html`");
    put(out, "ui.language_toggle_zh", "中文", "中文");
    put(out, "ui.language_toggle_en", "English", "English");
    put(out, "ui.open_report", "打开报告", "Open report");
    put(out, "card.target", "目标", "Target");
    put(out, "card.model", "模型", "Model");
    put(out, "card.duration", "时长", "Duration");
    put(out, "card.target_rps", "目标 RPS", "Target RPS");
    put(out, "card.achieved_rps", "实际 RPS", "Achieved RPS");
    put(out, "card.success_rate", "成功率", "Success rate");
    put(out, "card.total_requests", "总请求数", "Total requests");
    put(out, "card.total_tokens", "总 token 数", "Total tokens");
    proof {
        reveal(page_rows);
        assert(texts(out@) =~= texts(old(out)@) + page_rows());
    }
}

/// The configuration tables.
#[verifier::opaque]
pub open spec fn config_rows() -> Seq<LabelText> {
    seq![
        row("config.heading", "运行配置", "Configuration"),
        row("config.run_identity", "基本信息", "Run identity"),
        row("config.load", "负载", "Load"),
        row("config.dataset", "数据集", "Dataset"),
        row("config.run_id", "运行 ID", "Run id"),
        row("config.tag", "标签", "Tag"),
        row("config.started", "开始时间", "Started"),
        row("config.target", "目标", "Target"),
        row("config.api", "API", "API"),
        row("config.model", "模型", "Model"),
        row("config.pattern", "模式", "Pattern"),
        row("config.concurrency", "并发数", "Concurrency"),
        row("config.stream", "流式", "Stream"),
        row("config.max_tokens", "最大 token", "Max tokens"),
        row("config.kind", "类型", "Kind"),
        row("config.source", "来源", "Source"),
        row("config.strategy", "策略", "Strategy"),
        row("config.prompt_tokens", "Prompt token", "Prompt tokens"),
    ]
}

fn put_config_labels(out: &mut Vec<Label>)
    ensures
        texts(final(out)@) == texts(old(out)@) + config_rows(),
{
    put(out, "config.heading", "运行配置", "Configuration");
    put(out, "config.run_identity", "基本信息", "Run identity");
    put(out, "config.load", "负载", "Load");
    put(out, "config.dataset", "数据集", "Dataset");
    put(out, "config.run_id", "运行 ID", "Run id");
    put(out, "config.tag", "标签", "Tag");
    put(out, "config.started", "开始时间", "Started");
    put(out, "config.target", "目标", "Target");
    put(out, "config.api", "API", "API");
    put(out, "config.model", "模型", "Model");
    put(out, "config.pattern", "模式", "Pattern");
    put(out, "config.concurrency", "并发数", "Concurrency");
    put(out, "config.stream", "流式", "Stream");
    put(out, "config.max_tokens", "最大 token", "Max tokens");
    put(out, "config.kind", "类型", "Kind");
    put(out, "config.source", "来源", "Source");
    put(out, "config.strategy", "策略", "Strategy");
    put(out, "config.prompt_tokens", "Prompt token", "Prompt tokens");
    proof {
        reveal(config_rows);
        assert(texts(out@) =~= texts(old(out)@) + config_rows());
    }
}

/// The statistics tables.
#[verifier::opaque]
pub open spec fn metric_rows() -> Seq<LabelText> {
    seq![
        row("metric.heading", "摘要统计", "Summary statistics"),
        row("metric.col_metric", "指标", "Metric"),
        row("metric.latency", "延迟 (毫秒)", "Latency (ms)"),
        row("metric.ttft", "首 token (毫秒)", "TTFT (ms)"),
        row("metric.itl", "token 间隔 (毫秒)", "ITL (ms)"),
        row("metric.tps", "TPS (token/秒)", "TPS (tok/s)"),
        row("metric.t8", "高级指标", "Advanced metrics"),
        row("metric.tpot", "TPOT (毫秒/token)", "TPOT (ms/token)"),
        row("metric.throughput_output", "输出 token/秒", "Output tok/s"),
        row("metric.throughput_total", "总 token/秒", "Total tok/s"),
        row("metric.avg_input", "平均输入 token", "Avg Input Tokens"),
        row("metric.avg_output", "平均输出 token", "Avg Output Tokens"),
        row("metric.avg_turns", "平均轮次/请求", "Avg Turns/Request"),
        row("metric.spec_decoded", "每轮解码 token", "Decoded Tok/Iter"),
        row("metric.spec_accept", "投机接受率", "Spec. Accept Rate"),
        row("metric.p50", "p50", "p50"),
        row("metric.p90", "p90", "p90"),
        row("metric.p99", "p99", "p99"),
        row("metric.p999", "p99.9", "p99.9"),
    ]
}

fn put_metric_labels(out: &mut Vec<Label>)
    ensures
        texts(final(out)@) == texts(old(out)@) + metric_rows(),
{
    put(out, "metric.heading", "摘要统计", "Summary statistics");
    put(out, "metric.col_metric", "指标", "Metric");
    put(out, "metric.latency", "延迟 (毫秒)", "Latency (ms)");
    put(out, "metric.ttft", "首 token (毫秒)", "TTFT (ms)");
    put(out, "metric.itl", "token 间隔 (毫秒)", "ITL (ms)");
    put(out, "metric.tps", "TPS (token/秒)", "TPS (tok/s)");
    put(out, "metric.t8", "高级指标", "Advanced metrics");
    put(out, "metric.tpot", "TPOT (毫秒/token)", "TPOT (ms/token)");
    put(out, "metric.throughput_output", "输出 token/秒", "Output tok/s");
    put(out, "metric.throughput_total", "总 token/秒", "Total tok/s");
    put(out, "metric.avg_input", "平均输入 token", "Avg Input Tokens");
    put(out, "metric.avg_output", "平均输出 token", "Avg Output Tokens");
    put(out, "metric.avg_turns", "平均轮次/请求", "Avg Turns/Request");
    put(out, "metric.spec_decoded", "每轮解码 token", "Decoded Tok/Iter");
    put(out, "metric.spec_accept", "投机接受率", "Spec. Accept Rate");
    put(out, "metric.p50", "p50", "p50");
    put(out, "metric.p90", "p90", "p90");
    put(out, "metric.p99", "p99", "p99");
    put(out, "metric.p999", "p99.9", "p99.9");
    proof {
        reveal(metric_rows);
        assert(texts(out@) =~= texts(old(out)@) + metric_rows());
    }
}

/// Charts, errors, the prompt cache and the footer.
#[verifier::opaque]
pub open spec fn section_rows() -> Seq<LabelText> {
    seq![
        row("charts.heading", "图表", "Charts"),
        row("chart.latency", "延迟分位数 (毫秒)", "Latency percentiles (ms)"),
        row("chart.status", "状态码分布", "Status code distribution"),
        row("chart.rps", "每秒 RPS", "Per-second RPS"),
        row("chart.rps_started", "已发起", "Started"),
        row("chart.rps_completed", "已完成", "Completed"),
        row("errors.heading", "错误", "Errors"),
        row("errors.none", "无错误。", "No errors."),
        row("cache.heading", "提示词缓存", "Prompt cache"),
        row("cache.hit_rate", "缓存命中率", "Cache hit rate"),
        row("cache.no_data", "无缓存命中", "no cache observed"),
        row("cache.overall", "总体", "Overall"),
        row("cache.turn1", "第 1 轮", "Turn 1"),
        row("cache.turn2plus", "第 2 轮起", "Turn 2+"),
        row("cache.creation", "写入缓存的 token", "tokens written to cache"),
        row("cache.hit", "命中缓存的 prompt token", "prompt tokens served from prefix cache"),
        row("cache.denominator_zero", "本轮 prompt token 总数为 0 — 命中率未定义", "Run had 0 prompt tokens — rate undefined"),
        row("cache.no_continuations", "本轮无第 2 轮及之后的请求", "No continuation turns were observed"),
        row("footer.powered_by", "由 power_test v{version} 驱动", "powered by power_test v{version}"),
    ]
}

fn put_section_labels(out: &mut Vec<Label>)
    ensures
        texts(final(out)@) == texts(old(out)@) + section_rows(),
{
    put(out, "charts.heading", "图表", "Charts");
    put(out, "chart.latency", "延迟分位数 (毫秒)", "Latency percentiles (ms)");
    put(out, "chart.status", "状态码分布", "Status code distribution");
    put(out, "chart.rps", "每秒 RPS", "Per-second RPS");
    put(out, "chart.rps_started", "已发起", "Started");
    put(out, "chart.rps_completed", "已完成", "Completed");
    put(out, "errors.heading", "错误", "Errors");
    put(out, "errors.none", "无错误。", "No errors.");
    put(out, "cache.heading", "提示词缓存", "Prompt cache");
    put(out, "cache.hit_rate", "缓存命中率", "Cache hit rate");
    put(out, "cache.no_data", "无缓存命中", "no cache observed");
    put(out, "cache.overall", "总体", "Overall");
    put(out, "cache.turn1", "第 1 轮", "Turn 1");
    put(out, "cache.turn2plus", "第 2 轮起", "Turn 2+");
    put(out, "cache.creation", "写入缓存的 token", "tokens written to cache");
    put(out, "cache.hit", "命中缓存的 prompt token", "prompt tokens served from prefix cache");
    put(out, "cache.denominator_zero", "本轮 prompt token 总数为 0 — 命中率未定义", "Run had 0 prompt tokens — rate undefined");
    put(out, "cache.no_continuations", "本轮无第 2 轮及之后的请求", "No continuation turns were observed");
    put(out, "footer.powered_by", "由 power_test v{version} 驱动", "powered by power_test v{version}");
    proof {
        reveal(section_rows);
        assert(texts(out@) =~= texts(old(out)@) + section_rows());
    }
}

/// The frame of the model dashboard.
#[verifier::opaque]
pub open spec fn dash_rows() -> Seq<LabelText> {
    seq![
        row("dash.title", "power_test 模型报告", "power_test model report"),
        row("dash.subtitle", "共 {n} 次测试 · alias = {alias}", "{n} runs · alias = {alias}"),
        row("dash.subtitle_no_alias", "共 {n} 次测试", "{n} runs"),
        row("dash.compare_pick", "选择 2 份报告对比", "Pick 2 runs to compare"),
        row("dash.run_a", "A：{id}", "A: {id}"),
        row("dash.run_b", "B：{id}", "B: {id}"),
        row("dash.compare", "对比", "Compare"),
        row("dash.reset", "重置", "Reset"),
        row("dash.open_compare", "打开完整对比报告", "Open full compare report"),
        row("dash.no_runs", "该模型下还没有任何测试结果。运行 power_test run 后会自动生成。", "No runs yet for this model. Run power_test run to generate one."),
        row("dash.runs_heading", "历史报告列表（新 → 旧）", "History (newest first)"),
        row("dash.col_run_id", "运行 ID", "run id"),
        row("dash.col_time", "时间", "started"),
        row("dash.col_target", "目标", "target"),
        row("dash.col_rps", "RPS", "RPS"),
        row("dash.col_duration", "时长", "duration"),
        row("dash.col_requests", "请求", "requests"),
        row("dash.col_success", "成功率", "success"),
        row("dash.col_p50", "p50", "p50"),
        row("dash.col_p99", "p99", "p99"),
        row("dash.col_tps", "TPS", "TPS"),
        row("dash.col_cache", "缓存命中率", "cache"),
        row("dash.col_status", "状态", "status"),
        row("dash.col_tag", "标签", "tag"),
        row("dash.col_alias", "alias", "alias"),
        row("dash.open_report", "打开报告", "open report"),
        row("dash.diff_heading", "差异", "Diff"),
        row("dash.col_a", "A", "A"),
        row("dash.col_b", "B", "B"),
        row("dash.col_delta", "差值", "delta"),
        row("dash.col_pct", "%", "%"),
    ]
}

fn put_dash_labels(out: &mut Vec<Label>)
    ensures
        texts(final(out)@) == texts(old(out)@) + dash_rows(),
{
    put(out, "dash.title", "power_test 模型报告", "power_test model report");
    put(out, "dash.subtitle", "共 {n} 次测试 · alias = {alias}", "{n} runs · alias = {alias}");
    put(out, "dash.subtitle_no_alias", "共 {n} 次测试", "{n} runs");
    put(out, "dash.compare_pick", "选择 2 份报告对比", "Pick 2 runs to compare");
    put(out, "dash.run_a", "A：{id}", "A: {id}");
    put(out, "dash.run_b", "B：{id}", "B: {id}");
    put(out, "dash.compare", "对比", "Compare");
    put(out, "dash.reset", "重置", "Reset");
    put(out, "dash.open_compare", "打开完整对比报告", "Open full compare report");
    put(out, "dash.no_runs", "该模型下还没有任何测试结果。运行 power_test run 后会自动生成。", "No runs yet for this model. Run power_test run to generate one.");
    put(out, "dash.runs_heading", "历史报告列表（新 → 旧）", "History (newest first)");
    put(out, "dash.col_run_id", "运行 ID", "run id");
    put(out, "dash.col_time", "时间", "started");
    put(out, "dash.col_target", "目标", "target");
    put(out, "dash.col_rps", "RPS", "RPS");
    put(out, "dash.col_duration", "时长", "duration");
    put(out, "dash.col_requests", "请求", "requests");
    put(out, "dash.col_success", "成功率", "success");
    put(out, "dash.col_p50", "p50", "p50");
    put(out, "dash.col_p99", "p99", "p99");
    put(out, "dash.col_tps", "TPS", "TPS");
    put(out, "dash.col_cache", "缓存命中率", "cache");
    put(out, "dash.col_status", "状态", "status");
    put(out, "dash.col_tag", "标签", "tag");
    put(out, "dash.col_alias", "alias", "alias");
    put(out, "dash.open_report", "打开报告", "open report");
    put(out, "dash.diff_heading", "差异", "Diff");
    put(out, "dash.col_a", "A", "A");
    put(out, "dash.col_b", "B", "B");
    put(out, "dash.col_delta", "差值", "delta");
    put(out, "dash.col_pct", "%", "%");
    proof {
        reveal(dash_rows);
        assert(texts(out@) =~= texts(old(out)@) + dash_rows());
    }
}

/// The metrics of the model dashboard.
#[verifier::opaque]
pub open spec fn dash_metric_rows() -> Seq<LabelText> {
    seq![
        row("dash.metric.achieved_rps", "实际 RPS", "achieved RPS"),
        row("dash.metric.total_requests", "总请求数", "total requests"),
        row("dash.metric.success_rate", "成功率", "success rate %"),
        row("dash.metric.latency_p50", "延迟 p50 (毫秒)", "latency p50 (ms)"),
        row("dash.metric.latency_p90", "延迟 p90 (毫秒)", "latency p90 (ms)"),
        row("dash.metric.latency_p99", "延迟 p99 (毫秒)", "latency p99 (ms)"),
        row("dash.metric.latency_p999", "延迟 p99.9 (毫秒)", "latency p99.9 (ms)"),
        row("dash.metric.ttft_p50", "首 token p50 (毫秒)", "TTFT p50 (ms)"),
        row("dash.metric.ttft_p99", "首 token p99 (毫秒)", "TTFT p99 (ms)"),
        row("dash.metric.itl_mean", "token 间隔 mean (毫秒)", "ITL mean (ms)"),
        row("dash.metric.itl_p99", "token 间隔 p99 (毫秒)", "ITL p99 (ms)"),
        row("dash.metric.tps_mean", "TPS mean (token/秒)", "TPS mean (tok/s)"),
        row("dash.metric.tps_p99", "TPS p99 (token/秒)", "TPS p99 (tok/s)"),
        row("dash.metric.total_tokens", "总 token", "total tokens"),
        row("dash.metric.duration", "时长 (秒)", "duration (s)"),
        row("dash.metric.cache_hit_rate", "缓存命中率", "cache hit rate"),
        row("dash.metric.cache_creation_total", "写入缓存的 token", "cache creation tokens"),
    ]
}

fn put_dash_metric_labels(out: &mut Vec<Label>)
    ensures
        texts(final(out)@) == texts(old(out)@) + dash_metric_rows(),
{
    put(out, "dash.metric.achieved_rps", "实际 RPS", "achieved RPS");
    put(out, "dash.metric.total_requests", "总请求数", "total requests");
    put(out, "dash.metric.success_rate", "成功率", "success rate %");
    put(out, "dash.metric.latency_p50", "延迟 p50 (毫秒)", "latency p50 (ms)");
    put(out, "dash.metric.latency_p90", "延迟 p90 (毫秒)", "latency p90 (ms)");
    put(out, "dash.metric.latency_p99", "延迟 p99 (毫秒)", "latency p99 (ms)");
    put(out, "dash.metric.latency_p999", "延迟 p99.9 (毫秒)", "latency p99.9 (ms)");
    put(out, "dash.metric.ttft_p50", "首 token p50 (毫秒)", "TTFT p50 (ms)");
    put(out, "dash.metric.ttft_p99", "首 token p99 (毫秒)", "TTFT p99 (ms)");
    put(out, "dash.metric.itl_mean", "token 间隔 mean (毫秒)", "ITL mean (ms)");
    put(out, "dash.metric.itl_p99", "token 间隔 p99 (毫秒)", "ITL p99 (ms)");
    put(out, "dash.metric.tps_mean", "TPS mean (token/秒)", "TPS mean (tok/s)");
    put(out, "dash.metric.tps_p99", "TPS p99 (token/秒)", "TPS p99 (tok/s)");
    put(out, "dash.metric.total_tokens", "总 token", "total tokens");
    put(out, "dash.metric.duration", "时长 (秒)", "duration (s)");
    put(out, "dash.metric.cache_hit_rate", "缓存命中率", "cache hit rate");
    put(out, "dash.metric.cache_creation_total", "写入缓存的 token", "cache creation tokens");
    proof {
        reveal(dash_metric_rows);
        assert(texts(out@) =~= texts(old(out)@) + dash_metric_rows());
    }
}

/// The comparison inside the model dashboard.
#[verifier::opaque]
pub open spec fn dash_more_rows() -> Seq<LabelText> {
    seq![
        row("dash.latency_chart_a", "A 延迟 (毫秒)", "A latency (ms)"),
        row("dash.latency_chart_b", "B 延迟 (毫秒)", "B latency (ms)"),
        row("dash.pick_run_hint", "请在上方选择 A 和 B 后点击「对比」。", "Pick run A and B above, then click Compare."),
        row("dash.pick_same_run_warning", "提示：A 和 B 选了同一份报告，差异为 0。", "Note: A and B are the same run — the diff is all zeros."),
        row("dash.warnings", "警告", "warnings"),
    ]
}

fn put_dash_more_labels(out: &mut Vec<Label>)
    ensures
        texts(final(out)@) == texts(old(out)@) + dash_more_rows(),
{
    put(out, "dash.latency_chart_a", "A 延迟 (毫秒)", "A latency (ms)");
    put(out, "dash.latency_chart_b", "B 延迟 (毫秒)", "B latency (ms)");
    put(out, "dash.pick_run_hint", "请在上方选择 A 和 B 后点击「对比」。", "Pick run A and B above, then click Compare.");
    put(out, "dash.pick_same_run_warning", "提示：A 和 B 选了同一份报告，差异为 0。", "Note: A and B are the same run — the diff is all zeros.");
    put(out, "dash.warnings", "警告", "warnings");
    proof {
        reveal(dash_more_rows);
        assert(texts(out@) =~= texts(old(out)@) + dash_more_rows());
    }
}

/// The frame of the comparison page.
#[verifier::opaque]
pub open spec fn cmp_rows() -> Seq<LabelText> {
    seq![
        row("cmp.title", "power_test 对比报告", "power_test compare"),
        row("cmp.generated", "生成于", "generated"),
        row("cmp.warnings", "警告：", "warnings:"),
        row("cmp.run_a_head", "A · {id}", "a · {id}"),
        row("cmp.run_b_head", "B · {id}", "b · {id}"),
        row("cmp.run_id_label", "运行 ID", "run id"),
        row("cmp.target", "目标", "target"),
        row("cmp.model", "模型", "model"),
        row("cmp.target_rps", "目标 RPS", "target RPS"),
        row("cmp.duration", "时长", "duration"),
        row("cmp.total_requests", "总请求数", "total requests"),
        row("cmp.success_rate", "成功率", "success rate"),
        row("cmp.status", "状态", "status"),
        row("cmp.diff_heading", "差异", "Diff"),
        row("cmp.col_metric", "指标", "metric"),
        row("cmp.col_a", "A", "a"),
        row("cmp.col_b", "B", "b"),
        row("cmp.col_delta", "差值", "delta"),
        row("cmp.col_pct", "%", "%"),
        row("cmp.latency_heading", "延迟分位数 (毫秒)", "Latency percentiles (ms)"),
        row("cmp.latency_chart_a", "A 延迟 (毫秒)", "A latency (ms)"),
        row("cmp.latency_chart_b", "B 延迟 (毫秒)", "B latency (ms)"),
        row("cmp.latency_chart_label", "延迟 (毫秒)", "Latency (ms)"),
    ]
}

fn put_cmp_labels(out: &mut Vec<Label>)
    ensures
        texts(final(out)@) == texts(old(out)@) + cmp_rows(),
{
    put(out, "cmp.title", "power_test 对比报告", "power_test compare");
    put(out, "cmp.generated", "生成于", "generated");
    put(out, "cmp.warnings", "警告：", "warnings:");
    put(out, "cmp.run_a_head", "A · {id}", "a · {id}");
    put(out, "cmp.run_b_head", "B · {id}", "b · {id}");
    put(out, "cmp.run_id_label", "运行 ID", "run id");
    put(out, "cmp.target", "目标", "target");
    put(out, "cmp.model", "模型", "model");
    put(out, "cmp.target_rps", "目标 RPS", "target RPS");
    put(out, "cmp.duration", "时长", "duration");
    put(out, "cmp.total_requests", "总请求数", "total requests");
    put(out, "cmp.success_rate", "成功率", "success rate");
    put(out, "cmp.status", "状态", "status");
    put(out, "cmp.diff_heading", "差异", "Diff");
    put(out, "cmp.col_metric", "指标", "metric");
    put(out, "cmp.col_a", "A", "a");
    put(out, "cmp.col_b", "B", "b");
    put(out, "cmp.col_delta", "差值", "delta");
    put(out, "cmp.col_pct", "%", "%");
    put(out, "cmp.latency_heading", "延迟分位数 (毫秒)", "Latency percentiles (ms)");
    put(out, "cmp.latency_chart_a", "A 延迟 (毫秒)", "A latency (ms)");
    put(out, "cmp.latency_chart_b", "B 延迟 (毫秒)", "B latency (ms)");
    put(out, "cmp.latency_chart_label", "延迟 (毫秒)", "Latency (ms)");
    proof {
        reveal(cmp_rows);
        assert(texts(out@) =~= texts(old(out)@) + cmp_rows());
    }
}

/// The metrics of the comparison page.
#[verifier::opaque]
pub open spec fn cmp_metric_rows() -> Seq<LabelText> {
    seq![
        row("cmp.metric.achieved_rps", "实际 RPS", "achieved RPS"),
        row("cmp.metric.total_requests", "总请求数", "total requests"),
        row("cmp.metric.success_rate", "成功率", "success rate %"),
        row("cmp.metric.latency_p50", "延迟 p50 (毫秒)", "latency p50 (ms)"),
        row("cmp.metric.latency_p90", "延迟 p90 (毫秒)", "latency p90 (ms)"),
        row("cmp.metric.latency_p99", "延迟 p99 (毫秒)", "latency p99 (ms)"),
        row("cmp.metric.latency_p999", "延迟 p99.9 (毫秒)", "latency p99.9 (ms)"),
        row("cmp.metric.ttft_p50", "首 token p50 (毫秒)", "TTFT p50 (ms)"),
        row("cmp.metric.ttft_p99", "首 token p99 (毫秒)", "TTFT p99 (ms)"),
        row("cmp.metric.itl_mean", "token 间隔 mean (毫秒)", "ITL mean (ms)"),
        row("cmp.metric.itl_p99", "token 间隔 p99 (毫秒)", "ITL p99 (ms)"),
        row("cmp.metric.tps_mean", "TPS mean (token/秒)", "TPS mean (tok/s)"),
        row("cmp.metric.tps_p99", "TPS p99 (token/秒)", "TPS p99 (tok/s)"),
        row("cmp.metric.total_tokens", "总 token", "total tokens"),
        row("cmp.metric.duration", "时长 (秒)", "duration (s)"),
    ]
}

fn put_cmp_metric_labels(out: &mut Vec<Label>)
    ensures
        texts(final(out)@) == texts(old(out)@) + cmp_metric_rows(),
{
    put(out, "cmp.metric.achieved_rps", "实际 RPS", "achieved RPS");
    put(out, "cmp.metric.total_requests", "总请求数", "total requests");
    put(out, "cmp.metric.success_rate", "成功率", "success rate %");
    put(out, "cmp.metric.latency_p50", "延迟 p50 (毫秒)", "latency p50 (ms)");
    put(out, "cmp.metric.latency_p90", "延迟 p90 (毫秒)", "latency p90 (ms)");
    put(out, "cmp.metric.latency_p99", "延迟 p99 (毫秒)", "latency p99 (ms)");
    put(out, "cmp.metric.latency_p999", "延迟 p99.9 (毫秒)", "latency p99.9 (ms)");
    put(out, "cmp.metric.ttft_p50", "首 token p50 (毫秒)", "TTFT p50 (ms)");
    put(out, "cmp.metric.ttft_p99", "首 token p99 (毫秒)", "TTFT p99 (ms)");
    put(out, "cmp.metric.itl_mean", "token 间隔 mean (毫秒)", "ITL mean (ms)");
    put(out, "cmp.metric.itl_p99", "token 间隔 p99 (毫秒)", "ITL p99 (ms)");
    put(out, "cmp.metric.tps_mean", "TPS mean (token/秒)", "TPS mean (tok/s)");
    put(out, "cmp.metric.tps_p99", "TPS p99 (token/秒)", "TPS p99 (tok/s)");
    put(out, "cmp.metric.total_tokens", "总 token", "total tokens");
    put(out, "cmp.metric.duration", "时长 (秒)", "duration (s)");
    proof {
        reveal(cmp_metric_rows);
        assert(texts(out@) =~= texts(old(out)@) + cmp_metric_rows());
    }
}

/// All labels, in order.
pub open spec fn rows() -> Seq<LabelText> {
    page_rows() + config_rows() + metric_rows() + section_rows() + dash_rows() + dash_metric_rows() + dash_more_rows() + cmp_rows() + cmp_metric_rows()
}

fn labels() -> (r: Vec<Label>)
    ensures
        texts(r@) == rows(),
{
    let mut out: Vec<Label> = Vec::new();
    put_page_labels(&mut out);
    put_config_labels(&mut out);
    put_metric_labels(&mut out);
    put_section_labels(&mut out);
    put_dash_labels(&mut out);
    put_dash_metric_labels(&mut out);
    put_dash_more_labels(&mut out);
    put_cmp_labels(&mut out);
    put_cmp_metric_labels(&mut out);
    proof {
        assert(texts(out@) =~= rows());
    }
    out
}

/// The text of a label in one language.
pub open spec fn in_locale(text: LabelText, locale: Locale) -> Seq<char> {
    match locale {
        Locale::Zh => text.zh,
        Locale::En => text.en,
    }
}

/// The first label under `key`, from `from` on.
pub open spec fn label_at(labels: Seq<LabelText>, key: Seq<char>, from: int) -> Option<LabelText>
    decreases labels.len() - from,
{
    if from >= labels.len() {
        None
    } else if labels[from].key == key {
        Some(labels[from])
    } else {
        label_at(labels, key, from + 1)
    }
}

/// The text under `key`, or the key itself where there is none.
pub open spec fn translated(locale: Locale, key: Seq<char>) -> Seq<char> {
    match label_at(rows(), key, 0) {
        Some(text) => in_locale(text, locale),
        None => key,
    }
}

/// Looks up a label. An unknown key is returned as it is.
pub fn t(locale: Locale, key: &str) -> (r: String)
    ensures
        r@ == translated(locale, key@),
        key@.len() > 0 ==> r@.len() > 0,
{
    proof {
        if key@.len() > 0 {
            no_label_is_empty(locale, key@);
        }
    }
    let all = labels();
    let mut i: usize = 0;
    while i < all.len()
        invariant
            i <= all@.len(),
            texts(all@) == rows(),
            label_at(rows(), key@, 0) == label_at(rows(), key@, i as int),
            key@.len() > 0 ==> translated(locale, key@).len() > 0,
        decreases all@.len() - i,
    {
        proof {
            assert(texts(all@)[i as int] == text_of(all@[i as int]));
        }
        if same_text(all[i].key, key) {
            return match locale {
                Locale::Zh => all[i].zh.to_owned(),
                Locale::En => all[i].en.to_owned(),
            };
        }
        i += 1;
    }
    proof {
        assert(texts(all@).len() == all@.len());
    }
    key.to_owned()
}

/// The keys and texts of one language.
pub open spec fn entries(locale: Locale) -> Seq<(Seq<char>, Seq<char>)> {
    rows().map_values(|text: LabelText| (text.key, in_locale(text, locale)))
}

/// The keys of a dictionary.
pub open spec fn keys(locale: Locale) -> Set<Seq<char>> {
    entries(locale).map_values(|entry: (Seq<char>, Seq<char>)| entry.0).to_set()
}

/// The keys and texts of a dictionary.
pub open spec fn pairs(dict: Seq<(&'static str, &'static str)>) -> Seq<(Seq<char>, Seq<char>)> {
    dict.map_values(|entry: (&'static str, &'static str)| (entry.0@, entry.1@))
}

fn dict(locale: Locale) -> (r: Vec<(&'static str, &'static str)>)
    ensures
        pairs(r@) == entries(locale),
{
    let all = labels();
    let mut out: Vec<(&'static str, &'static str)> = Vec::new();
    let mut i: usize = 0;
    while i < all.len()
        invariant
            i <= all@.len(),
            texts(all@) == rows(),
            pairs(out@) == entries(locale).take(i as int),
        decreases all@.len() - i,
    {
        let ghost before = out@;
        let text = match locale {
            Locale::Zh => all[i].zh,
            Locale::En => all[i].en,
        };
        out.push((all[i].key, text));
        proof {
            assert(texts(all@)[i as int] == text_of(all@[i as int]));
            assert(texts(all@).len() == all@.len());
            assert(pairs(out@) =~= pairs(before).push((all@[i as int].key@, text@)));
            assert(pairs(out@) =~= entries(locale).take(i + 1));
        }
        i += 1;
    }
    proof {
        assert(texts(all@).len() == all@.len());
        assert(pairs(out@) =~= entries(locale));
    }
    out
}

/// The Chinese dictionary.
pub fn zh_dict() -> (r: Vec<(&'static str, &'static str)>)
    ensures
        pairs(r@) == entries(Locale::Zh),
{
    dict(Locale::Zh)
}

/// The English dictionary.
pub fn en_dict() -> (r: Vec<(&'static str, &'static str)>)
    ensures
        pairs(r@) == entries(Locale::En),
{
    dict(Locale::En)
}

/// How many keys there are.
pub fn key_count() -> (r: usize)
    ensures
        r == rows().len(),
        r == keys(Locale::Zh).len(),
{
    let all = labels();
    proof {
        no_key_is_repeated(Locale::Zh);
        assert(texts(all@).len() == all@.len());
    }
    all.len()
}

/// The dictionaries of all languages have the same keys, in the same order.
pub proof fn dictionaries_agree_on_keys(a: Locale, b: Locale)
    ensures
        entries(a).len() == entries(b).len(),
        forall|i: int|
            0 <= i < entries(a).len() ==> (#[trigger] entries(a)[i]).0 == entries(b)[i].0,
{
}

/// A key of one language is found in the other: none is rendered as itself in
/// one language alone.
pub proof fn a_key_is_known_to_all_or_none(key: Seq<char>)
    ensures
        (exists|i: int| 0 <= i < rows().len() && (#[trigger] rows()[i]).key == key)
            <==> label_at(rows(), key, 0) is Some,
{
    found_where_present(rows(), key, 0);
}

proof fn found_where_present(labels: Seq<LabelText>, key: Seq<char>, from: int)
    requires
        0 <= from <= labels.len(),
    ensures
        (exists|i: int| from <= i < labels.len() && (#[trigger] labels[i]).key == key)
            <==> label_at(labels, key, from) is Some,
    decreases labels.len() - from,
{
    if from < labels.len() {
        found_where_present(labels, key, from + 1);
        if label_at(labels, key, from) is Some && labels[from].key != key {
            let i = choose|i: int| from + 1 <= i < labels.len() && (#[trigger] labels[i]).key
                == key;
            assert(from <= i < labels.len() && labels[i].key == key);
        }
    }
}

/// The dictionary of one language as a JSON object: each text under its key.
pub open spec fn dictionary_json(locale: Locale) -> Json {
    Json::Object(
        folded(
            entries(locale).map_values(
                |entry: (Seq<char>, Seq<char>)| (entry.0, Json::Str(entry.1)),
            ),
            entries(locale).len() as int,
        ),
    )
}

proof fn strings_are_storable(rows: Seq<(Seq<char>, Json)>, n: int)
    requires
        0 <= n <= rows.len(),
        forall|i: int| 0 <= i < rows.len() ==> (#[trigger] rows[i]).1 is Str,
    ensures
        forall|key: Seq<char>| #[trigger]
            folded(rows, n).contains_key(key) ==> folded(rows, n)[key] is Str,
    decreases n,
{
    if n > 0 {
        strings_are_storable(rows, n - 1);
        assert(rows[n - 1].1 is Str);
    }
}

/// The dictionary of one language as a JSON object. Reading the text gives the
/// dictionary back.
pub fn dict_to_json(locale: Locale) -> (r: String)
    ensures
        r@ == compact_text(dictionary_json(locale)),
        json_value(r@) == Ok::<Json, Seq<char>>(dictionary_json(locale)),
{
    let dict = dict(locale);
    let ghost rows = entries(locale).map_values(
        |entry: (Seq<char>, Seq<char>)| (entry.0, Json::Str(entry.1)),
    );
    let mut object = new_object();
    let mut i: usize = 0;
    while i < dict.len()
        invariant
            i <= dict@.len(),
            pairs(dict@) == entries(locale),
            rows.len() == dict@.len(),
            forall|j: int|
                0 <= j < rows.len() ==> #[trigger] rows[j] == (
                    entries(locale)[j].0,
                    Json::Str(entries(locale)[j].1),
                ),
            members(object) == folded(rows, i as int),
        decreases dict@.len() - i,
    {
        proof {
            assert(pairs(dict@)[i as int] == (dict@[i as int].0@, dict@[i as int].1@));
            assert(rows[i as int].0 == dict@[i as int].0@);
        }
        put_member(&mut object, dict[i].0, text_value(dict[i].1));
        i += 1;
    }
    proof {
        assert(pairs(dict@).len() == dict@.len());
        strings_are_storable(rows, rows.len() as int);
        reveal_with_fuel(storable, 2);
        assert(storable(dictionary_json(locale), max_levels()));
    }
    let value = object_value(object);
    let text = write_compact(&value);
    proof {
        reveal_with_fuel(alike, 2);
        let all = members(object);
        let back = json_value(text@)->Ok_0->Object_0;
        assert forall|key: Seq<char>| #[trigger] back.contains_key(key) implies back[key]
            == all[key] by {
            assert(all.contains_key(key));
        }
        assert(back =~= all);
    }
    text
}

/// A label is shown by the text of its own row, in the language that is asked
/// for; a key without a row is shown as it is.
pub proof fn a_label_is_shown_in_its_language(key: Seq<char>, k: int)
    requires
        0 <= k <= rows().len(),
        forall|i: int| 0 <= i < k ==> (#[trigger] rows()[i]).key != key,
        k < rows().len() ==> rows()[k].key == key,
    ensures
        k < rows().len() ==> translated(Locale::Zh, key) == rows()[k].zh && translated(
            Locale::En,
            key,
        ) == rows()[k].en,
        k == rows().len() ==> translated(Locale::Zh, key) == key && translated(Locale::En, key)
            == key,
{
    other_rows_are_passed(rows(), key, 0, k);
}

proof fn other_rows_are_passed(labels: Seq<LabelText>, key: Seq<char>, from: int, k: int)
    requires
        0 <= from <= k <= labels.len(),
        forall|i: int| from <= i < k ==> (#[trigger] labels[i]).key != key,
    ensures
        label_at(labels, key, from) == label_at(labels, key, k),
    decreases k - from,
{
    if from < k {
        assert(labels[from].key != key);
        other_rows_are_passed(labels, key, from + 1, k);
    }
}

/// A dictionary holds, under the key of each row that no later one repeats, the
/// text of that row in its language.
pub proof fn a_dictionary_holds_every_label(k: int)
    requires
        0 <= k < rows().len(),
        forall|i: int| k < i < rows().len() ==> (#[trigger] rows()[i]).key != rows()[k].key,
    ensures
        dictionary_json(Locale::Zh).field(rows()[k].key) == Some(Json::Str(rows()[k].zh)),
        dictionary_json(Locale::En).field(rows()[k].key) == Some(Json::Str(rows()[k].en)),
{
    let n = rows().len() as int;
    let zh = entries(Locale::Zh).map_values(
        |entry: (Seq<char>, Seq<char>)| (entry.0, Json::Str(entry.1)),
    );
    let en = entries(Locale::En).map_values(
        |entry: (Seq<char>, Seq<char>)| (entry.0, Json::Str(entry.1)),
    );
    assert forall|i: int| k < i < n implies (#[trigger] zh[i]).0 != zh[k].0 by {
        assert(rows()[i].key != rows()[k].key);
    }
    assert forall|i: int| k < i < n implies (#[trigger] en[i]).0 != en[k].0 by {
        assert(rows()[i].key != rows()[k].key);
    }
    the_last_entry_counts(zh, k, n);
    the_last_entry_counts(en, k, n);
}

} // verus!
