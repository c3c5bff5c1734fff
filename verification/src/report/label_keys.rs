//! The keys of the labels are all different, and no label is empty.

use super::i18n::{
    cmp_metric_rows, cmp_rows, config_rows, dash_metric_rows, dash_more_rows, dash_rows, entries,
    keys, label_at, metric_rows, page_rows, rows, section_rows, translated, LabelText, Locale,
};
use vstd::prelude::*;

verus! {

/// The number of the character at `i`, or zero outside of the key.
pub open spec fn code_at(key: Seq<char>, i: int) -> int {
    if 0 <= i < key.len() {
        key[i] as int
    } else {
        0
    }
}

/// A number that tells the keys of the labels apart: a weighted sum of the length
/// and of a few characters.
pub open spec fn fingerprint(key: Seq<char>) -> int {
    5 * key.len() + 8 * code_at(key, 0) + 14 * code_at(key, 5) + 13 * code_at(key, 8)
        + 3 * code_at(key, 9) + 6 * code_at(key, key.len() - 1)
        + 4 * code_at(key, key.len() - 2) + 15 * code_at(key, key.len() - 7)
}

/// Where the key with a fingerprint stands among the labels.
#[verifier::opaque]
pub open spec fn place(print: int) -> int {
    if print == 6830 {
        0
    } else if print == 6823 {
        1
    } else if print == 6978 {
        2
    } else if print == 6683 {
        3
    } else if print == 7120 {
        4
    } else if print == 6844 {
        5
    } else if print == 6913 {
        6
    } else if print == 6734 {
        7
    } else if print == 6808 {
        8
    } else if print == 6760 {
        9
    } else if print == 6782 {
        10
    } else if print == 5903 {
        11
    } else if print == 6557 {
        12
    } else if print == 6725 {
        13
    } else if print == 6816 {
        14
    } else if print == 6811 {
        15
    } else if print == 6872 {
        16
    } else if print == 6765 {
        17
    } else if print == 6641 {
        18
    } else if print == 6526 {
        19
    } else if print == 6870 {
        20
    } else if print == 6586 {
        21
    } else if print == 6513 {
        22
    } else if print == 5860 {
        23
    } else if print == 6390 {
        24
    } else if print == 6832 {
        25
    } else if print == 5692 {
        26
    } else if print == 6663 {
        27
    } else if print == 6634 {
        28
    } else if print == 6709 {
        29
    } else if print == 6974 {
        30
    } else if print == 5881 {
        31
    } else if print == 6495 {
        32
    } else if print == 6599 {
        33
    } else if print == 5785 {
        34
    } else if print == 7037 {
        35
    } else if print == 6704 {
        36
    } else if print == 6550 {
        37
    } else if print == 6549 {
        38
    } else if print == 6679 {
        39
    } else if print == 6806 {
        40
    } else if print == 6962 {
        41
    } else if print == 6957 {
        42
    } else if print == 5571 {
        43
    } else if print == 6817 {
        44
    } else if print == 6661 {
        45
    } else if print == 6843 {
        46
    } else if print == 6890 {
        47
    } else if print == 6775 {
        48
    } else if print == 6856 {
        49
    } else if print == 6616 {
        50
    } else if print == 6676 {
        51
    } else if print == 5351 {
        52
    } else if print == 5419 {
        53
    } else if print == 5500 {
        54
    } else if print == 5370 {
        55
    } else if print == 6694 {
        56
    } else if print == 6054 {
        57
    } else if print == 4953 {
        58
    } else if print == 5569 {
        59
    } else if print == 6030 {
        60
    } else if print == 5950 {
        61
    } else if print == 6710 {
        62
    } else if print == 7002 {
        63
    } else if print == 5680 {
        64
    } else if print == 5944 {
        65
    } else if print == 5732 {
        66
    } else if print == 5901 {
        67
    } else if print == 5552 {
        68
    } else if print == 6191 {
        69
    } else if print == 5924 {
        70
    } else if print == 5590 {
        71
    } else if print == 6096 {
        72
    } else if print == 5963 {
        73
    } else if print == 6930 {
        74
    } else if print == 6779 {
        75
    } else if print == 7091 {
        76
    } else if print == 7086 {
        77
    } else if print == 6766 {
        78
    } else if print == 6494 {
        79
    } else if print == 6503 {
        80
    } else if print == 6540 {
        81
    } else if print == 6767 {
        82
    } else if print == 6701 {
        83
    } else if print == 7013 {
        84
    } else if print == 6879 {
        85
    } else if print == 6283 {
        86
    } else if print == 6541 {
        87
    } else if print == 6369 {
        88
    } else if print == 6446 {
        89
    } else if print == 6665 {
        90
    } else if print == 6517 {
        91
    } else if print == 6721 {
        92
    } else if print == 5802 {
        93
    } else if print == 5872 {
        94
    } else if print == 6452 {
        95
    } else if print == 6430 {
        96
    } else if print == 6424 {
        97
    } else if print == 6320 {
        98
    } else if print == 6480 {
        99
    } else if print == 6726 {
        100
    } else if print == 6514 {
        101
    } else if print == 6284 {
        102
    } else if print == 6293 {
        103
    } else if print == 6457 {
        104
    } else if print == 6394 {
        105
    } else if print == 7151 {
        106
    } else if print == 6922 {
        107
    } else if print == 7038 {
        108
    } else if print == 6388 {
        109
    } else if print == 6404 {
        110
    } else if print == 6458 {
        111
    } else if print == 6298 {
        112
    } else if print == 6463 {
        113
    } else if print == 6533 {
        114
    } else if print == 7011 {
        115
    } else if print == 6363 {
        116
    } else if print == 6951 {
        117
    } else if print == 6528 {
        118
    } else if print == 6798 {
        119
    } else if print == 7082 {
        120
    } else if print == 6898 {
        121
    } else if print == 6969 {
        122
    } else if print == 6502 {
        123
    } else if print == 6508 {
        124
    } else if print == 7025 {
        125
    } else if print == 7017 {
        126
    } else if print == 6833 {
        127
    } else if print == 6338 {
        128
    } else if print == 6698 {
        129
    } else if print == 6462 {
        130
    } else if print == 6459 {
        131
    } else if print == 6472 {
        132
    } else if print == 6727 {
        133
    } else if print == 5651 {
        134
    } else if print == 6527 {
        135
    } else if print == 6564 {
        136
    } else if print == 7172 {
        137
    } else if print == 6794 {
        138
    } else if print == 6963 {
        139
    } else if print == 6180 {
        140
    } else if print == 6507 {
        141
    } else if print == 6575 {
        142
    } else if print == 6294 {
        143
    } else if print == 6313 {
        144
    } else if print == 6680 {
        145
    } else if print == 6731 {
        146
    } else if print == 6590 {
        147
    } else if print == 6419 {
        148
    } else if print == 6425 {
        149
    } else if print == 6784 {
        150
    } else if print == 6891 {
        151
    } else if print == 6662 {
        152
    } else if print == 6778 {
        153
    } else if print == 6128 {
        154
    } else if print == 6144 {
        155
    } else if print == 6198 {
        156
    } else if print == 6038 {
        157
    } else if print == 6203 {
        158
    } else if print == 6273 {
        159
    } else if print == 6751 {
        160
    } else if print == 6103 {
        161
    } else if print == 6691 {
        162
    } else if print == 6268 {
        163
    } else if print == 6538 {
        164
    } else if print == 6822 {
        165
    } else {
        -1
    }
}

proof fn page_rows_in_place()
    ensures
        page_rows().len() == 19,
        forall|i: int|
            0 <= i < 19 ==> {
                &&& place(fingerprint((#[trigger] page_rows()[i]).key)) == i + 0
                &&& page_rows()[i].zh.len() > 0 && page_rows()[i].en.len() > 0
            },
{
    reveal(page_rows);
    reveal(place);
    reveal_strlit("page.title");
    reveal_strlit("power_test 报告");
    reveal_strlit("power_test report");
    reveal_strlit("page.run_label");
    reveal_strlit("运行 ID");
    reveal_strlit("run");
    reveal_strlit("page.started_label");
    reveal_strlit("开始时间");
    reveal_strlit("started");
    reveal_strlit("page.interrupted_label");
    reveal_strlit("（已中断）");
    reveal_strlit("(interrupted)");
    reveal_strlit("ui.compare_with");
    reveal_strlit("与历史报告对比");
    reveal_strlit("Compare with…");
    reveal_strlit("ui.compare");
    reveal_strlit("对比");
    reveal_strlit("Compare");
    reveal_strlit("ui.pick_run");
    reveal_strlit("— 请选择 —");
    reveal_strlit("— pick a run —");
    reveal_strlit("ui.pre_render_hint");
    reveal_strlit("预生成请运行 `power_test compare --html`");
    reveal_strlit("pre-render via `power_test compare --html`");
    reveal_strlit("ui.language_toggle_zh");
    reveal_strlit("中文");
    reveal_strlit("ui.language_toggle_en");
    reveal_strlit("English");
    reveal_strlit("ui.open_report");
    reveal_strlit("打开报告");
    reveal_strlit("Open report");
    reveal_strlit("card.target");
    reveal_strlit("目标");
    reveal_strlit("Target");
    reveal_strlit("card.model");
    reveal_strlit("模型");
    reveal_strlit("Model");
    reveal_strlit("card.duration");
    reveal_strlit("时长");
    reveal_strlit("Duration");
    reveal_strlit("card.target_rps");
    reveal_strlit("目标 RPS");
    reveal_strlit("Target RPS");
    reveal_strlit("card.achieved_rps");
    reveal_strlit("实际 RPS");
    reveal_strlit("Achieved RPS");
    reveal_strlit("card.success_rate");
    reveal_strlit("成功率");
    reveal_strlit("Success rate");
    reveal_strlit("card.total_requests");
    reveal_strlit("总请求数");
    reveal_strlit("Total requests");
    reveal_strlit("card.total_tokens");
    reveal_strlit("总 token 数");
    reveal_strlit("Total tokens");
    assert(fingerprint(page_rows()[0].key) == 6830);
    assert(fingerprint(page_rows()[1].key) == 6823);
    assert(fingerprint(page_rows()[2].key) == 6978);
    assert(fingerprint(page_rows()[3].key) == 6683);
    assert(fingerprint(page_rows()[4].key) == 7120);
    assert(fingerprint(page_rows()[5].key) == 6844);
    assert(fingerprint(page_rows()[6].key) == 6913);
    assert(fingerprint(page_rows()[7].key) == 6734);
    assert(fingerprint(page_rows()[8].key) == 6808);
    assert(fingerprint(page_rows()[9].key) == 6760);
    assert(fingerprint(page_rows()[10].key) == 6782);
    assert(fingerprint(page_rows()[11].key) == 5903);
    assert(fingerprint(page_rows()[12].key) == 6557);
    assert(fingerprint(page_rows()[13].key) == 6725);
    assert(fingerprint(page_rows()[14].key) == 6816);
    assert(fingerprint(page_rows()[15].key) == 6811);
    assert(fingerprint(page_rows()[16].key) == 6872);
    assert(fingerprint(page_rows()[17].key) == 6765);
    assert(fingerprint(page_rows()[18].key) == 6641);
}

proof fn config_rows_in_place()
    ensures
        config_rows().len() == 18,
        forall|i: int|
            0 <= i < 18 ==> {
                &&& place(fingerprint((#[trigger] config_rows()[i]).key)) == i + 19
                &&& config_rows()[i].zh.len() > 0 && config_rows()[i].en.len() > 0
            },
{
    reveal(config_rows);
    reveal(place);
    reveal_strlit("config.heading");
    reveal_strlit("运行配置");
    reveal_strlit("Configuration");
    reveal_strlit("config.run_identity");
    reveal_strlit("基本信息");
    reveal_strlit("Run identity");
    reveal_strlit("config.load");
    reveal_strlit("负载");
    reveal_strlit("Load");
    reveal_strlit("config.dataset");
    reveal_strlit("数据集");
    reveal_strlit("Dataset");
    reveal_strlit("config.run_id");
    reveal_strlit("运行 ID");
    reveal_strlit("Run id");
    reveal_strlit("config.tag");
    reveal_strlit("标签");
    reveal_strlit("Tag");
    reveal_strlit("config.started");
    reveal_strlit("开始时间");
    reveal_strlit("Started");
    reveal_strlit("config.target");
    reveal_strlit("目标");
    reveal_strlit("Target");
    reveal_strlit("config.api");
    reveal_strlit("API");
    reveal_strlit("config.model");
    reveal_strlit("模型");
    reveal_strlit("Model");
    reveal_strlit("config.pattern");
    reveal_strlit("模式");
    reveal_strlit("Pattern");
    reveal_strlit("config.concurrency");
    reveal_strlit("并发数");
    reveal_strlit("Concurrency");
    reveal_strlit("config.stream");
    reveal_strlit("流式");
    reveal_strlit("Stream");
    reveal_strlit("config.max_tokens");
    reveal_strlit("最大 token");
    reveal_strlit("Max tokens");
    reveal_strlit("config.kind");
    reveal_strlit("类型");
    reveal_strlit("Kind");
    reveal_strlit("config.source");
    reveal_strlit("来源");
    reveal_strlit("Source");
    reveal_strlit("config.strategy");
    reveal_strlit("策略");
    reveal_strlit("Strategy");
    reveal_strlit("config.prompt_tokens");
    reveal_strlit("Prompt token");
    reveal_strlit("Prompt tokens");
    assert(fingerprint(config_rows()[0].key) == 6526);
    assert(fingerprint(config_rows()[1].key) == 6870);
    assert(fingerprint(config_rows()[2].key) == 6586);
    assert(fingerprint(config_rows()[3].key) == 6513);
    assert(fingerprint(config_rows()[4].key) == 5860);
    assert(fingerprint(config_rows()[5].key) == 6390);
    assert(fingerprint(config_rows()[6].key) == 6832);
    assert(fingerprint(config_rows()[7].key) == 5692);
    assert(fingerprint(config_rows()[8].key) == 6663);
    assert(fingerprint(config_rows()[9].key) == 6634);
    assert(fingerprint(config_rows()[10].key) == 6709);
    assert(fingerprint(config_rows()[11].key) == 6974);
    assert(fingerprint(config_rows()[12].key) == 5881);
    assert(fingerprint(config_rows()[13].key) == 6495);
    assert(fingerprint(config_rows()[14].key) == 6599);
    assert(fingerprint(config_rows()[15].key) == 5785);
    assert(fingerprint(config_rows()[16].key) == 7037);
    assert(fingerprint(config_rows()[17].key) == 6704);
}

proof fn metric_rows_in_place()
    ensures
        metric_rows().len() == 19,
        forall|i: int|
            0 <= i < 19 ==> {
                &&& place(fingerprint((#[trigger] metric_rows()[i]).key)) == i + 37
                &&& metric_rows()[i].zh.len() > 0 && metric_rows()[i].en.len() > 0
            },
{
    reveal(metric_rows);
    reveal(place);
    reveal_strlit("metric.heading");
    reveal_strlit("摘要统计");
    reveal_strlit("Summary statistics");
    reveal_strlit("metric.col_metric");
    reveal_strlit("指标");
    reveal_strlit("Metric");
    reveal_strlit("metric.latency");
    reveal_strlit("延迟 (毫秒)");
    reveal_strlit("Latency (ms)");
    reveal_strlit("metric.ttft");
    reveal_strlit("首 token (毫秒)");
    reveal_strlit("TTFT (ms)");
    reveal_strlit("metric.itl");
    reveal_strlit("token 间隔 (毫秒)");
    reveal_strlit("ITL (ms)");
    reveal_strlit("metric.tps");
    reveal_strlit("TPS (token/秒)");
    reveal_strlit("TPS (tok/s)");
    reveal_strlit("metric.t8");
    reveal_strlit("高级指标");
    reveal_strlit("Advanced metrics");
    reveal_strlit("metric.tpot");
    reveal_strlit("TPOT (毫秒/token)");
    reveal_strlit("TPOT (ms/token)");
    reveal_strlit("metric.throughput_output");
    reveal_strlit("输出 token/秒");
    reveal_strlit("Output tok/s");
    reveal_strlit("metric.throughput_total");
    reveal_strlit("总 token/秒");
    reveal_strlit("Total tok/s");
    reveal_strlit("metric.avg_input");
    reveal_strlit("平均输入 token");
    reveal_strlit("Avg Input Tokens");
    reveal_strlit("metric.avg_output");
    reveal_strlit("平均输出 token");
    reveal_strlit("Avg Output Tokens");
    reveal_strlit("metric.avg_turns");
    reveal_strlit("平均轮次/请求");
    reveal_strlit("Avg Turns/Request");
    reveal_strlit("metric.spec_decoded");
    reveal_strlit("每轮解码 token");
    reveal_strlit("Decoded Tok/Iter");
    reveal_strlit("metric.spec_accept");
    reveal_strlit("投机接受率");
    reveal_strlit("Spec. Accept Rate");
    reveal_strlit("metric.p50");
    reveal_strlit("p50");
    reveal_strlit("metric.p90");
    reveal_strlit("p90");
    reveal_strlit("metric.p99");
    reveal_strlit("p99");
    reveal_strlit("metric.p999");
    reveal_strlit("p99.9");
    assert(fingerprint(metric_rows()[0].key) == 6550);
    assert(fingerprint(metric_rows()[1].key) == 6549);
    assert(fingerprint(metric_rows()[2].key) == 6679);
    assert(fingerprint(metric_rows()[3].key) == 6806);
    assert(fingerprint(metric_rows()[4].key) == 6962);
    assert(fingerprint(metric_rows()[5].key) == 6957);
    assert(fingerprint(metric_rows()[6].key) == 5571);
    assert(fingerprint(metric_rows()[7].key) == 6817);
    assert(fingerprint(metric_rows()[8].key) == 6661);
    assert(fingerprint(metric_rows()[9].key) == 6843);
    assert(fingerprint(metric_rows()[10].key) == 6890);
    assert(fingerprint(metric_rows()[11].key) == 6775);
    assert(fingerprint(metric_rows()[12].key) == 6856);
    assert(fingerprint(metric_rows()[13].key) == 6616);
    assert(fingerprint(metric_rows()[14].key) == 6676);
    assert(fingerprint(metric_rows()[15].key) == 5351);
    assert(fingerprint(metric_rows()[16].key) == 5419);
    assert(fingerprint(metric_rows()[17].key) == 5500);
    assert(fingerprint(metric_rows()[18].key) == 5370);
}

proof fn section_rows_in_place()
    ensures
        section_rows().len() == 19,
        forall|i: int|
            0 <= i < 19 ==> {
                &&& place(fingerprint((#[trigger] section_rows()[i]).key)) == i + 56
                &&& section_rows()[i].zh.len() > 0 && section_rows()[i].en.len() > 0
            },
{
    reveal(section_rows);
    reveal(place);
    reveal_strlit("charts.heading");
    reveal_strlit("图表");
    reveal_strlit("Charts");
    reveal_strlit("chart.latency");
    reveal_strlit("延迟分位数 (毫秒)");
    reveal_strlit("Latency percentiles (ms)");
    reveal_strlit("chart.status");
    reveal_strlit("状态码分布");
    reveal_strlit("Status code distribution");
    reveal_strlit("chart.rps");
    reveal_strlit("每秒 RPS");
    reveal_strlit("Per-second RPS");
    reveal_strlit("chart.rps_started");
    reveal_strlit("已发起");
    reveal_strlit("Started");
    reveal_strlit("chart.rps_completed");
    reveal_strlit("已完成");
    reveal_strlit("Completed");
    reveal_strlit("errors.heading");
    reveal_strlit("错误");
    reveal_strlit("Errors");
    reveal_strlit("errors.none");
    reveal_strlit("无错误。");
    reveal_strlit("No errors.");
    reveal_strlit("cache.heading");
    reveal_strlit("提示词缓存");
    reveal_strlit("Prompt cache");
    reveal_strlit("cache.hit_rate");
    reveal_strlit("缓存命中率");
    reveal_strlit("Cache hit rate");
    reveal_strlit("cache.no_data");
    reveal_strlit("无缓存命中");
    reveal_strlit("no cache observed");
    reveal_strlit("cache.overall");
    reveal_strlit("总体");
    reveal_strlit("Overall");
    reveal_strlit("cache.turn1");
    reveal_strlit("第 1 轮");
    reveal_strlit("Turn 1");
    reveal_strlit("cache.turn2plus");
    reveal_strlit("第 2 轮起");
    reveal_strlit("Turn 2+");
    reveal_strlit("cache.creation");
    reveal_strlit("写入缓存的 token");
    reveal_strlit("tokens written to cache");
    reveal_strlit("cache.hit");
    reveal_strlit("命中缓存的 prompt token");
    reveal_strlit("prompt tokens served from prefix cache");
    reveal_strlit("cache.denominator_zero");
    reveal_strlit("本轮 prompt token 总数为 0 — 命中率未定义");
    reveal_strlit("Run had 0 prompt tokens — rate undefined");
    reveal_strlit("cache.no_continuations");
    reveal_strlit("本轮无第 2 轮及之后的请求");
    reveal_strlit("No continuation turns were observed");
    reveal_strlit("footer.powered_by");
    reveal_strlit("由 power_test v{version} 驱动");
    reveal_strlit("powered by power_test v{version}");
    assert(fingerprint(section_rows()[0].key) == 6694);
    assert(fingerprint(section_rows()[1].key) == 6054);
    assert(fingerprint(section_rows()[2].key) == 4953);
    assert(fingerprint(section_rows()[3].key) == 5569);
    assert(fingerprint(section_rows()[4].key) == 6030);
    assert(fingerprint(section_rows()[5].key) == 5950);
    assert(fingerprint(section_rows()[6].key) == 6710);
    assert(fingerprint(section_rows()[7].key) == 7002);
    assert(fingerprint(section_rows()[8].key) == 5680);
    assert(fingerprint(section_rows()[9].key) == 5944);
    assert(fingerprint(section_rows()[10].key) == 5732);
    assert(fingerprint(section_rows()[11].key) == 5901);
    assert(fingerprint(section_rows()[12].key) == 5552);
    assert(fingerprint(section_rows()[13].key) == 6191);
    assert(fingerprint(section_rows()[14].key) == 5924);
    assert(fingerprint(section_rows()[15].key) == 5590);
    assert(fingerprint(section_rows()[16].key) == 6096);
    assert(fingerprint(section_rows()[17].key) == 5963);
    assert(fingerprint(section_rows()[18].key) == 6930);
}

proof fn dash_rows_in_place()
    ensures
        dash_rows().len() == 31,
        forall|i: int|
            0 <= i < 31 ==> {
                &&& place(fingerprint((#[trigger] dash_rows()[i]).key)) == i + 75
                &&& dash_rows()[i].zh.len() > 0 && dash_rows()[i].en.len() > 0
            },
{
    reveal(dash_rows);
    reveal(place);
    reveal_strlit("dash.title");
    reveal_strlit("power_test 模型报告");
    reveal_strlit("power_test model report");
    reveal_strlit("dash.subtitle");
    reveal_strlit("共 {n} 次测试 · alias = {alias}");
    reveal_strlit("{n} runs · alias = {alias}");
    reveal_strlit("dash.subtitle_no_alias");
    reveal_strlit("共 {n} 次测试");
    reveal_strlit("{n} runs");
    reveal_strlit("dash.compare_pick");
    reveal_strlit("选择 2 份报告对比");
    reveal_strlit("Pick 2 runs to compare");
    reveal_strlit("dash.run_a");
    reveal_strlit("A：{id}");
    reveal_strlit("A: {id}");
    reveal_strlit("dash.run_b");
    reveal_strlit("B：{id}");
    reveal_strlit("B: {id}");
    reveal_strlit("dash.compare");
    reveal_strlit("对比");
    reveal_strlit("Compare");
    reveal_strlit("dash.reset");
    reveal_strlit("重置");
    reveal_strlit("Reset");
    reveal_strlit("dash.open_compare");
    reveal_strlit("打开完整对比报告");
    reveal_strlit("Open full compare report");
    reveal_strlit("dash.no_runs");
    reveal_strlit("该模型下还没有任何测试结果。运行 power_test run 后会自动生成。");
    reveal_strlit("No runs yet for this model. Run power_test run to generate one.");
    reveal_strlit("dash.runs_heading");
    reveal_strlit("历史报告列表（新 → 旧）");
    reveal_strlit("History (newest first)");
    reveal_strlit("dash.col_run_id");
    reveal_strlit("运行 ID");
    reveal_strlit("run id");
    reveal_strlit("dash.col_time");
    reveal_strlit("时间");
    reveal_strlit("started");
    reveal_strlit("dash.col_target");
    reveal_strlit("目标");
    reveal_strlit("target");
    reveal_strlit("dash.col_rps");
    reveal_strlit("RPS");
    reveal_strlit("dash.col_duration");
    reveal_strlit("时长");
    reveal_strlit("duration");
    reveal_strlit("dash.col_requests");
    reveal_strlit("请求");
    reveal_strlit("requests");
    reveal_strlit("dash.col_success");
    reveal_strlit("成功率");
    reveal_strlit("success");
    reveal_strlit("dash.col_p50");
    reveal_strlit("p50");
    reveal_strlit("dash.col_p99");
    reveal_strlit("p99");
    reveal_strlit("dash.col_tps");
    reveal_strlit("TPS");
    reveal_strlit("dash.col_cache");
    reveal_strlit("缓存命中率");
    reveal_strlit("cache");
    reveal_strlit("dash.col_status");
    reveal_strlit("状态");
    reveal_strlit("status");
    reveal_strlit("dash.col_tag");
    reveal_strlit("标签");
    reveal_strlit("tag");
    reveal_strlit("dash.col_alias");
    reveal_strlit("alias");
    reveal_strlit("dash.open_report");
    reveal_strlit("打开报告");
    reveal_strlit("open report");
    reveal_strlit("dash.diff_heading");
    reveal_strlit("差异");
    reveal_strlit("Diff");
    reveal_strlit("dash.col_a");
    reveal_strlit("A");
    reveal_strlit("dash.col_b");
    reveal_strlit("B");
    reveal_strlit("dash.col_delta");
    reveal_strlit("差值");
    reveal_strlit("delta");
    reveal_strlit("dash.col_pct");
    reveal_strlit("%");
    assert(fingerprint(dash_rows()[0].key) == 6779);
    assert(fingerprint(dash_rows()[1].key) == 7091);
    assert(fingerprint(dash_rows()[2].key) == 7086);
    assert(fingerprint(dash_rows()[3].key) == 6766);
    assert(fingerprint(dash_rows()[4].key) == 6494);
    assert(fingerprint(dash_rows()[5].key) == 6503);
    assert(fingerprint(dash_rows()[6].key) == 6540);
    assert(fingerprint(dash_rows()[7].key) == 6767);
    assert(fingerprint(dash_rows()[8].key) == 6701);
    assert(fingerprint(dash_rows()[9].key) == 7013);
    assert(fingerprint(dash_rows()[10].key) == 6879);
    assert(fingerprint(dash_rows()[11].key) == 6283);
    assert(fingerprint(dash_rows()[12].key) == 6541);
    assert(fingerprint(dash_rows()[13].key) == 6369);
    assert(fingerprint(dash_rows()[14].key) == 6446);
    assert(fingerprint(dash_rows()[15].key) == 6665);
    assert(fingerprint(dash_rows()[16].key) == 6517);
    assert(fingerprint(dash_rows()[17].key) == 6721);
    assert(fingerprint(dash_rows()[18].key) == 5802);
    assert(fingerprint(dash_rows()[19].key) == 5872);
    assert(fingerprint(dash_rows()[20].key) == 6452);
    assert(fingerprint(dash_rows()[21].key) == 6430);
    assert(fingerprint(dash_rows()[22].key) == 6424);
    assert(fingerprint(dash_rows()[23].key) == 6320);
    assert(fingerprint(dash_rows()[24].key) == 6480);
    assert(fingerprint(dash_rows()[25].key) == 6726);
    assert(fingerprint(dash_rows()[26].key) == 6514);
    assert(fingerprint(dash_rows()[27].key) == 6284);
    assert(fingerprint(dash_rows()[28].key) == 6293);
    assert(fingerprint(dash_rows()[29].key) == 6457);
    assert(fingerprint(dash_rows()[30].key) == 6394);
}

proof fn dash_metric_rows_in_place()
    ensures
        dash_metric_rows().len() == 17,
        forall|i: int|
            0 <= i < 17 ==> {
                &&& place(fingerprint((#[trigger] dash_metric_rows()[i]).key)) == i + 106
                &&& dash_metric_rows()[i].zh.len() > 0 && dash_metric_rows()[i].en.len() > 0
            },
{
    reveal(dash_metric_rows);
    reveal(place);
    reveal_strlit("dash.metric.achieved_rps");
    reveal_strlit("实际 RPS");
    reveal_strlit("achieved RPS");
    reveal_strlit("dash.metric.total_requests");
    reveal_strlit("总请求数");
    reveal_strlit("total requests");
    reveal_strlit("dash.metric.success_rate");
    reveal_strlit("成功率");
    reveal_strlit("success rate %");
    reveal_strlit("dash.metric.latency_p50");
    reveal_strlit("延迟 p50 (毫秒)");
    reveal_strlit("latency p50 (ms)");
    reveal_strlit("dash.metric.latency_p90");
    reveal_strlit("延迟 p90 (毫秒)");
    reveal_strlit("latency p90 (ms)");
    reveal_strlit("dash.metric.latency_p99");
    reveal_strlit("延迟 p99 (毫秒)");
    reveal_strlit("latency p99 (ms)");
    reveal_strlit("dash.metric.latency_p999");
    reveal_strlit("延迟 p99.9 (毫秒)");
    reveal_strlit("latency p99.9 (ms)");
    reveal_strlit("dash.metric.ttft_p50");
    reveal_strlit("首 token p50 (毫秒)");
    reveal_strlit("TTFT p50 (ms)");
    reveal_strlit("dash.metric.ttft_p99");
    reveal_strlit("首 token p99 (毫秒)");
    reveal_strlit("TTFT p99 (ms)");
    reveal_strlit("dash.metric.itl_mean");
    reveal_strlit("token 间隔 mean (毫秒)");
    reveal_strlit("ITL mean (ms)");
    reveal_strlit("dash.metric.itl_p99");
    reveal_strlit("token 间隔 p99 (毫秒)");
    reveal_strlit("ITL p99 (ms)");
    reveal_strlit("dash.metric.tps_mean");
    reveal_strlit("TPS mean (token/秒)");
    reveal_strlit("TPS mean (tok/s)");
    reveal_strlit("dash.metric.tps_p99");
    reveal_strlit("TPS p99 (token/秒)");
    reveal_strlit("TPS p99 (tok/s)");
    reveal_strlit("dash.metric.total_tokens");
    reveal_strlit("总 token");
    reveal_strlit("total tokens");
    reveal_strlit("dash.metric.duration");
    reveal_strlit("时长 (秒)");
    reveal_strlit("duration (s)");
    reveal_strlit("dash.metric.cache_hit_rate");
    reveal_strlit("缓存命中率");
    reveal_strlit("cache hit rate");
    reveal_strlit("dash.metric.cache_creation_total");
    reveal_strlit("写入缓存的 token");
    reveal_strlit("cache creation tokens");
    assert(fingerprint(dash_metric_rows()[0].key) == 7151);
    assert(fingerprint(dash_metric_rows()[1].key) == 6922);
    assert(fingerprint(dash_metric_rows()[2].key) == 7038);
    assert(fingerprint(dash_metric_rows()[3].key) == 6388);
    assert(fingerprint(dash_metric_rows()[4].key) == 6404);
    assert(fingerprint(dash_metric_rows()[5].key) == 6458);
    assert(fingerprint(dash_metric_rows()[6].key) == 6298);
    assert(fingerprint(dash_metric_rows()[7].key) == 6463);
    assert(fingerprint(dash_metric_rows()[8].key) == 6533);
    assert(fingerprint(dash_metric_rows()[9].key) == 7011);
    assert(fingerprint(dash_metric_rows()[10].key) == 6363);
    assert(fingerprint(dash_metric_rows()[11].key) == 6951);
    assert(fingerprint(dash_metric_rows()[12].key) == 6528);
    assert(fingerprint(dash_metric_rows()[13].key) == 6798);
    assert(fingerprint(dash_metric_rows()[14].key) == 7082);
    assert(fingerprint(dash_metric_rows()[15].key) == 6898);
    assert(fingerprint(dash_metric_rows()[16].key) == 6969);
}

proof fn dash_more_rows_in_place()
    ensures
        dash_more_rows().len() == 5,
        forall|i: int|
            0 <= i < 5 ==> {
                &&& place(fingerprint((#[trigger] dash_more_rows()[i]).key)) == i + 123
                &&& dash_more_rows()[i].zh.len() > 0 && dash_more_rows()[i].en.len() > 0
            },
{
    reveal(dash_more_rows);
    reveal(place);
    reveal_strlit("dash.latency_chart_a");
    reveal_strlit("A 延迟 (毫秒)");
    reveal_strlit("A latency (ms)");
    reveal_strlit("dash.latency_chart_b");
    reveal_strlit("B 延迟 (毫秒)");
    reveal_strlit("B latency (ms)");
    reveal_strlit("dash.pick_run_hint");
    reveal_strlit("请在上方选择 A 和 B 后点击「对比」。");
    reveal_strlit("Pick run A and B above, then click Compare.");
    reveal_strlit("dash.pick_same_run_warning");
    reveal_strlit("提示：A 和 B 选了同一份报告，差异为 0。");
    reveal_strlit("Note: A and B are the same run — the diff is all zeros.");
    reveal_strlit("dash.warnings");
    reveal_strlit("警告");
    reveal_strlit("warnings");
    assert(fingerprint(dash_more_rows()[0].key) == 6502);
    assert(fingerprint(dash_more_rows()[1].key) == 6508);
    assert(fingerprint(dash_more_rows()[2].key) == 7025);
    assert(fingerprint(dash_more_rows()[3].key) == 7017);
    assert(fingerprint(dash_more_rows()[4].key) == 6833);
}

proof fn cmp_rows_in_place()
    ensures
        cmp_rows().len() == 23,
        forall|i: int|
            0 <= i < 23 ==> {
                &&& place(fingerprint((#[trigger] cmp_rows()[i]).key)) == i + 128
                &&& cmp_rows()[i].zh.len() > 0 && cmp_rows()[i].en.len() > 0
            },
{
    reveal(cmp_rows);
    reveal(place);
    reveal_strlit("cmp.title");
    reveal_strlit("power_test 对比报告");
    reveal_strlit("power_test compare");
    reveal_strlit("cmp.generated");
    reveal_strlit("生成于");
    reveal_strlit("generated");
    reveal_strlit("cmp.warnings");
    reveal_strlit("警告：");
    reveal_strlit("warnings:");
    reveal_strlit("cmp.run_a_head");
    reveal_strlit("A · {id}");
    reveal_strlit("a · {id}");
    reveal_strlit("cmp.run_b_head");
    reveal_strlit("B · {id}");
    reveal_strlit("b · {id}");
    reveal_strlit("cmp.run_id_label");
    reveal_strlit("运行 ID");
    reveal_strlit("run id");
    reveal_strlit("cmp.target");
    reveal_strlit("目标");
    reveal_strlit("target");
    reveal_strlit("cmp.model");
    reveal_strlit("模型");
    reveal_strlit("model");
    reveal_strlit("cmp.target_rps");
    reveal_strlit("目标 RPS");
    reveal_strlit("target RPS");
    reveal_strlit("cmp.duration");
    reveal_strlit("时长");
    reveal_strlit("duration");
    reveal_strlit("cmp.total_requests");
    reveal_strlit("总请求数");
    reveal_strlit("total requests");
    reveal_strlit("cmp.success_rate");
    reveal_strlit("成功率");
    reveal_strlit("success rate");
    reveal_strlit("cmp.status");
    reveal_strlit("状态");
    reveal_strlit("status");
    reveal_strlit("cmp.diff_heading");
    reveal_strlit("差异");
    reveal_strlit("Diff");
    reveal_strlit("cmp.col_metric");
    reveal_strlit("指标");
    reveal_strlit("metric");
    reveal_strlit("cmp.col_a");
    reveal_strlit("A");
    reveal_strlit("a");
    reveal_strlit("cmp.col_b");
    reveal_strlit("B");
    reveal_strlit("b");
    reveal_strlit("cmp.col_delta");
    reveal_strlit("差值");
    reveal_strlit("delta");
    reveal_strlit("cmp.col_pct");
    reveal_strlit("%");
    reveal_strlit("cmp.latency_heading");
    reveal_strlit("延迟分位数 (毫秒)");
    reveal_strlit("Latency percentiles (ms)");
    reveal_strlit("cmp.latency_chart_a");
    reveal_strlit("A 延迟 (毫秒)");
    reveal_strlit("A latency (ms)");
    reveal_strlit("cmp.latency_chart_b");
    reveal_strlit("B 延迟 (毫秒)");
    reveal_strlit("B latency (ms)");
    reveal_strlit("cmp.latency_chart_label");
    reveal_strlit("延迟 (毫秒)");
    reveal_strlit("Latency (ms)");
    assert(fingerprint(cmp_rows()[0].key) == 6338);
    assert(fingerprint(cmp_rows()[1].key) == 6698);
    assert(fingerprint(cmp_rows()[2].key) == 6462);
    assert(fingerprint(cmp_rows()[3].key) == 6459);
    assert(fingerprint(cmp_rows()[4].key) == 6472);
    assert(fingerprint(cmp_rows()[5].key) == 6727);
    assert(fingerprint(cmp_rows()[6].key) == 5651);
    assert(fingerprint(cmp_rows()[7].key) == 6527);
    assert(fingerprint(cmp_rows()[8].key) == 6564);
    assert(fingerprint(cmp_rows()[9].key) == 7172);
    assert(fingerprint(cmp_rows()[10].key) == 6794);
    assert(fingerprint(cmp_rows()[11].key) == 6963);
    assert(fingerprint(cmp_rows()[12].key) == 6180);
    assert(fingerprint(cmp_rows()[13].key) == 6507);
    assert(fingerprint(cmp_rows()[14].key) == 6575);
    assert(fingerprint(cmp_rows()[15].key) == 6294);
    assert(fingerprint(cmp_rows()[16].key) == 6313);
    assert(fingerprint(cmp_rows()[17].key) == 6680);
    assert(fingerprint(cmp_rows()[18].key) == 6731);
    assert(fingerprint(cmp_rows()[19].key) == 6590);
    assert(fingerprint(cmp_rows()[20].key) == 6419);
    assert(fingerprint(cmp_rows()[21].key) == 6425);
    assert(fingerprint(cmp_rows()[22].key) == 6784);
}

proof fn cmp_metric_rows_in_place()
    ensures
        cmp_metric_rows().len() == 15,
        forall|i: int|
            0 <= i < 15 ==> {
                &&& place(fingerprint((#[trigger] cmp_metric_rows()[i]).key)) == i + 151
                &&& cmp_metric_rows()[i].zh.len() > 0 && cmp_metric_rows()[i].en.len() > 0
            },
{
    reveal(cmp_metric_rows);
    reveal(place);
    reveal_strlit("cmp.metric.achieved_rps");
    reveal_strlit("实际 RPS");
    reveal_strlit("achieved RPS");
    reveal_strlit("cmp.metric.total_requests");
    reveal_strlit("总请求数");
    reveal_strlit("total requests");
    reveal_strlit("cmp.metric.success_rate");
    reveal_strlit("成功率");
    reveal_strlit("success rate %");
    reveal_strlit("cmp.metric.latency_p50");
    reveal_strlit("延迟 p50 (毫秒)");
    reveal_strlit("latency p50 (ms)");
    reveal_strlit("cmp.metric.latency_p90");
    reveal_strlit("延迟 p90 (毫秒)");
    reveal_strlit("latency p90 (ms)");
    reveal_strlit("cmp.metric.latency_p99");
    reveal_strlit("延迟 p99 (毫秒)");
    reveal_strlit("latency p99 (ms)");
    reveal_strlit("cmp.metric.latency_p999");
    reveal_strlit("延迟 p99.9 (毫秒)");
    reveal_strlit("latency p99.9 (ms)");
    reveal_strlit("cmp.metric.ttft_p50");
    reveal_strlit("首 token p50 (毫秒)");
    reveal_strlit("TTFT p50 (ms)");
    reveal_strlit("cmp.metric.ttft_p99");
    reveal_strlit("首 token p99 (毫秒)");
    reveal_strlit("TTFT p99 (ms)");
    reveal_strlit("cmp.metric.itl_mean");
    reveal_strlit("token 间隔 mean (毫秒)");
    reveal_strlit("ITL mean (ms)");
    reveal_strlit("cmp.metric.itl_p99");
    reveal_strlit("token 间隔 p99 (毫秒)");
    reveal_strlit("ITL p99 (ms)");
    reveal_strlit("cmp.metric.tps_mean");
    reveal_strlit("TPS mean (token/秒)");
    reveal_strlit("TPS mean (tok/s)");
    reveal_strlit("cmp.metric.tps_p99");
    reveal_strlit("TPS p99 (token/秒)");
    reveal_strlit("TPS p99 (tok/s)");
    reveal_strlit("cmp.metric.total_tokens");
    reveal_strlit("总 token");
    reveal_strlit("total tokens");
    reveal_strlit("cmp.metric.duration");
    reveal_strlit("时长 (秒)");
    reveal_strlit("duration (s)");
    assert(fingerprint(cmp_metric_rows()[0].key) == 6891);
    assert(fingerprint(cmp_metric_rows()[1].key) == 6662);
    assert(fingerprint(cmp_metric_rows()[2].key) == 6778);
    assert(fingerprint(cmp_metric_rows()[3].key) == 6128);
    assert(fingerprint(cmp_metric_rows()[4].key) == 6144);
    assert(fingerprint(cmp_metric_rows()[5].key) == 6198);
    assert(fingerprint(cmp_metric_rows()[6].key) == 6038);
    assert(fingerprint(cmp_metric_rows()[7].key) == 6203);
    assert(fingerprint(cmp_metric_rows()[8].key) == 6273);
    assert(fingerprint(cmp_metric_rows()[9].key) == 6751);
    assert(fingerprint(cmp_metric_rows()[10].key) == 6103);
    assert(fingerprint(cmp_metric_rows()[11].key) == 6691);
    assert(fingerprint(cmp_metric_rows()[12].key) == 6268);
    assert(fingerprint(cmp_metric_rows()[13].key) == 6538);
    assert(fingerprint(cmp_metric_rows()[14].key) == 6822);
}

proof fn labels_in_place()
    ensures
        rows().len() == 166,
        forall|i: int|
            0 <= i < rows().len() ==> {
                &&& place(fingerprint((#[trigger] rows()[i]).key)) == i
                &&& rows()[i].zh.len() > 0 && rows()[i].en.len() > 0
            },
{
    page_rows_in_place();
    config_rows_in_place();
    metric_rows_in_place();
    section_rows_in_place();
    dash_rows_in_place();
    dash_metric_rows_in_place();
    dash_more_rows_in_place();
    cmp_rows_in_place();
    cmp_metric_rows_in_place();
}

/// No key is repeated: there are as many keys as labels, in every language.
pub proof fn no_key_is_repeated(locale: Locale)
    ensures
        entries(locale).len() == rows().len(),
        forall|i: int, j: int|
            0 <= i < j < entries(locale).len() ==> (#[trigger] entries(locale)[i]).0 != (
            #[trigger] entries(locale)[j]).0,
        keys(locale).finite(),
        keys(locale).len() == rows().len(),
{
    labels_in_place();
    let all = entries(locale).map_values(|entry: (Seq<char>, Seq<char>)| entry.0);
    assert forall|i: int, j: int| 0 <= i < j < all.len() implies all[i] != all[j] by {
        assert(all[i] == rows()[i].key);
        assert(all[j] == rows()[j].key);
    }
    assert forall|i: int, j: int| 0 <= i < j < entries(locale).len() implies (
    #[trigger] entries(locale)[i]).0 != (#[trigger] entries(locale)[j]).0 by {
        assert(all[i] != all[j]);
    }
    assert(all.no_duplicates());
    all.unique_seq_to_set();
    assert(keys(locale) =~= all.to_set());
}

/// The dictionaries of all languages have the same keys.
pub proof fn languages_share_their_keys(a: Locale, b: Locale)
    ensures
        keys(a) == keys(b),
{
    assert(entries(a).map_values(|entry: (Seq<char>, Seq<char>)| entry.0) =~= entries(
        b,
    ).map_values(|entry: (Seq<char>, Seq<char>)| entry.0));
}

proof fn found_among(labels: Seq<LabelText>, key: Seq<char>, from: int)
    requires
        0 <= from,
    ensures
        label_at(labels, key, from) matches Some(text) ==> exists|i: int|
            from <= i < labels.len() && #[trigger] labels[i] == text,
    decreases labels.len() - from,
{
    if from < labels.len() && labels[from].key != key {
        found_among(labels, key, from + 1);
    }
}

/// What is shown for a key is never empty, unless the key is.
pub proof fn no_label_is_empty(locale: Locale, key: Seq<char>)
    requires
        key.len() > 0,
    ensures
        translated(locale, key).len() > 0,
{
    labels_in_place();
    found_among(rows(), key, 0);
}

} // verus!
