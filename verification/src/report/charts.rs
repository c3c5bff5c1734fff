//! The data of the charts.

use crate::runner::metrics::{
    count_in, n_status, HistKind, MetricsAggregator, Percentile, RequestRecord,
};
use crate::tables::{ascending, insert_all, keys_of};
use crate::text::{decimal, decimal_text, views};
use std::collections::HashMap;
use vstd::prelude::*;

verus! {

broadcast use vstd::std_specs::hash::group_hash_axioms;

/// Percentiles of the latency, in microseconds; zero where there is none.
#[derive(Debug)]
pub struct LatencyPercentiles {
    pub labels: Vec<String>,
    pub values_us: Vec<u64>,
}

/// How often each status came up.
#[derive(Debug)]
pub struct StatusBreakdown {
    pub labels: Vec<String>,
    pub counts: Vec<u64>,
}

/// Requests started and completed in each second in which there were any.
#[derive(Debug)]
pub struct RpsTimeline {
    pub seconds: Vec<u64>,
    pub started: Vec<u64>,
    pub completed: Vec<u64>,
}

/// The statuses from `code` on that came up, ascending, with counts.
pub open spec fn status_list(rs: Seq<RequestRecord>, code: int) -> Seq<(u16, nat)>
    decreases 0x10000 - code,
{
    if code >= 0x10000 {
        Seq::empty()
    } else {
        let rest = status_list(rs, code + 1);
        if n_status(rs, code as u16) > 0 {
            seq![(code as u16, n_status(rs, code as u16))] + rest
        } else {
            rest
        }
    }
}

/// A list that holds exactly the statuses from `code` on, ascending, is the
/// list.
proof fn status_list_is(rs: Seq<RequestRecord>, codes: Seq<u64>, code: int)
    requires
        0 <= code <= 0x10000,
        ascending(codes),
        forall|i: int| 0 <= i < codes.len() ==> code <= #[trigger] codes[i] < 0x10000,
        forall|c: u16| c >= code ==> (codes.contains(c as u64) <==> #[trigger] n_status(rs, c) > 0),
    ensures
        status_list(rs, code) == Seq::new(
            codes.len(),
            |i: int| (codes[i] as u16, n_status(rs, codes[i] as u16)),
        ),
    decreases 0x10000 - code,
{
    let all = Seq::new(codes.len(), |i: int| (codes[i] as u16, n_status(rs, codes[i] as u16)));
    if code == 0x10000 {
        if codes.len() > 0 {
            assert(codes[0] >= code);
        }
        assert(all =~= Seq::<(u16, nat)>::empty());
    } else {
        let c = code as u16;
        if n_status(rs, c) > 0 {
            assert(codes.contains(c as u64));
            let at = choose|i: int| 0 <= i < codes.len() && codes[i] == c as u64;
            assert(codes[0] <= codes[at]);
            assert(codes[0] == c as u64);
            let rest = codes.skip(1);
            assert forall|d: u16| d >= code + 1 implies (rest.contains(d as u64)
                <==> #[trigger] n_status(rs, d) > 0) by {
                if n_status(rs, d) > 0 {
                    assert(codes.contains(d as u64));
                    let j = choose|j: int| 0 <= j < codes.len() && codes[j] == d as u64;
                    assert(rest[j - 1] == d as u64);
                }
                if rest.contains(d as u64) {
                    let j = choose|j: int| 0 <= j < rest.len() && rest[j] == d as u64;
                    assert(codes[j + 1] == d as u64);
                }
            }
            assert forall|i: int| 0 <= i < rest.len() implies code + 1 <= #[trigger] rest[i]
                < 0x10000 by {
                assert(codes[0] < codes[i + 1]);
            }
            status_list_is(rs, rest, code + 1);
            assert(status_list(rs, code) =~= all);
        } else {
            assert forall|i: int| 0 <= i < codes.len() implies code + 1 <= #[trigger] codes[i]
                < 0x10000 by {
                if codes[i] == c as u64 {
                    assert(codes.contains(c as u64));
                }
            }
            status_list_is(rs, codes, code + 1);
        }
    }
}

/// The statuses that came up, ascending, with counts.
pub fn status_rows(agg: &MetricsAggregator) -> (r: Vec<(u16, u64)>)
    requires
        agg.wf(),
    ensures
        r@.len() == status_list(agg@.records, 0).len(),
        forall|i: int|
            0 <= i < r@.len() ==> {
                &&& (#[trigger] r@[i]).0 == status_list(agg@.records, 0)[i].0
                &&& r@[i].1 == status_list(agg@.records, 0)[i].1
            },
{
    let map = agg.status_codes();
    let found = keys_of(map);
    let mut wide: Vec<u64> = Vec::new();
    let mut i: usize = 0;
    while i < found.len()
        invariant
            i <= found@.len(),
            wide@ == Seq::new(i as nat, |j: int| found@[j] as u64),
        decreases found@.len() - i,
    {
        wide.push(found[i] as u64);
        proof {
            assert(wide@ =~= Seq::new((i + 1) as nat, |j: int| found@[j] as u64));
        }
        i += 1;
    }
    let mut codes: Vec<u64> = Vec::new();
    insert_all(&mut codes, &wide);
    let ghost rs = agg@.records;
    proof {
        assert forall|k: u64| codes@.contains(k) <==> wide@.contains(k) by {
            assert(codes@.to_set().contains(k) <==> codes@.contains(k));
            assert(wide@.to_set().contains(k) <==> wide@.contains(k));
            assert(!Seq::<u64>::empty().to_set().contains(k));
        }
        assert forall|k: int| 0 <= k < codes@.len() implies 0 <= #[trigger] codes@[k]
            < 0x10000 && map@.contains_key(codes@[k] as u16) by {
            assert(codes@.contains(codes@[k]));
            let j = choose|j: int| 0 <= j < wide@.len() && wide@[j] == codes@[k];
            assert(found@.to_set().contains(found@[j]));
        }
        assert forall|c: u16| c >= 0 implies (codes@.contains(c as u64) <==> #[trigger] n_status(
            rs,
            c,
        ) > 0) by {
            if n_status(rs, c) > 0 {
                assert(map@.contains_key(c));
                assert(found@.to_set().contains(c));
                let j = choose|j: int| 0 <= j < found@.len() && found@[j] == c;
                assert(wide@[j] == c as u64);
                assert(wide@.contains(c as u64));
            }
            if codes@.contains(c as u64) {
                assert(wide@.contains(c as u64));
                let j = choose|j: int| 0 <= j < wide@.len() && wide@[j] == c as u64;
                assert(found@.to_set().contains(found@[j]));
                assert(map@.contains_key(c));
            }
        }
        status_list_is(rs, codes@, 0);
    }
    let mut out: Vec<(u16, u64)> = Vec::new();
    let mut k: usize = 0;
    while k < codes.len()
        invariant
            k <= codes@.len(),
            out@.len() == k,
            status_list(rs, 0) == Seq::new(
                codes@.len(),
                |i: int| (codes@[i] as u16, n_status(rs, codes@[i] as u16)),
            ),
            forall|j: int|
                0 <= j < codes@.len() ==> #[trigger] codes@[j] < 0x10000 && map@.contains_key(
                    codes@[j] as u16,
                ),
            forall|code: u16| #[trigger] count_in(map@, code) == n_status(rs, code),
            forall|j: int|
                0 <= j < k ==> (#[trigger] out@[j]).0 == codes@[j] as u16 && out@[j].1 == n_status(
                    rs,
                    codes@[j] as u16,
                ),
        decreases codes@.len() - k,
    {
        let code = codes[k] as u16;
        proof {
            assert(map@.contains_key(codes@[k as int] as u16));
            assert(count_in(map@, code) == n_status(rs, code));
        }
        let count: u64 = match map.get(&code) {
            Some(n) => *n,
            None => 0,
        };
        out.push((code, count));
        k += 1;
    }
    out
}

pub fn latency_percentiles(agg: &MetricsAggregator) -> (r: LatencyPercentiles)
    requires
        agg.wf(),
    ensures
        views(r.labels@) == seq!["p50"@, "p90"@, "p99"@, "p99.9"@],
        r.values_us@ == seq![
            latency_at(agg@.records, Percentile::P50),
            latency_at(agg@.records, Percentile::P90),
            latency_at(agg@.records, Percentile::P99),
            latency_at(agg@.records, Percentile::P999),
        ],
{
    let mut labels: Vec<String> = Vec::new();
    labels.push("p50".to_owned());
    labels.push("p90".to_owned());
    labels.push("p99".to_owned());
    labels.push("p99.9".to_owned());
    let mut values_us: Vec<u64> = Vec::new();
    values_us.push(or_zero(agg.percentile(HistKind::Latency, Percentile::P50)));
    values_us.push(or_zero(agg.percentile(HistKind::Latency, Percentile::P90)));
    values_us.push(or_zero(agg.percentile(HistKind::Latency, Percentile::P99)));
    values_us.push(or_zero(agg.percentile(HistKind::Latency, Percentile::P999)));
    proof {
        assert(views(labels@) =~= seq!["p50"@, "p90"@, "p99"@, "p99.9"@]);
        assert(values_us@ =~= seq![
            latency_at(agg@.records, Percentile::P50),
            latency_at(agg@.records, Percentile::P90),
            latency_at(agg@.records, Percentile::P99),
            latency_at(agg@.records, Percentile::P999),
        ]);
    }
    LatencyPercentiles { labels, values_us }
}

/// A percentile of the latency, zero where nothing was recorded.
pub open spec fn latency_at(rs: Seq<RequestRecord>, p: Percentile) -> u64 {
    let values = crate::runner::metrics::recorded(rs, HistKind::Latency);
    if values.len() == 0 {
        0
    } else {
        crate::histogram::percentile_of(values, p.percent())
    }
}

fn or_zero(v: Option<u64>) -> (r: u64)
    ensures
        r == (match v {
            Some(n) => n,
            None => 0,
        }),
{
    match v {
        Some(n) => n,
        None => 0,
    }
}

pub fn status_breakdown(agg: &MetricsAggregator) -> (r: StatusBreakdown)
    requires
        agg.wf(),
    ensures
        views(r.labels@) == status_list(agg@.records, 0).map_values(
            |row: (u16, nat)| decimal(row.0 as nat),
        ),
        r.counts@.len() == status_list(agg@.records, 0).len(),
        forall|i: int|
            0 <= i < r.counts@.len() ==> #[trigger] r.counts@[i] == status_list(
                agg@.records,
                0,
            )[i].1,
{
    let rows = status_rows(agg);
    let mut labels: Vec<String> = Vec::new();
    let mut counts: Vec<u64> = Vec::new();
    let ghost list = status_list(agg@.records, 0);
    let mut i: usize = 0;
    while i < rows.len()
        invariant
            i <= rows@.len(),
            rows@.len() == list.len(),
            forall|j: int|
                0 <= j < rows@.len() ==> (#[trigger] rows@[j]).0 == list[j].0 && rows@[j].1
                    == list[j].1,
            labels@.len() == i,
            counts@.len() == i,
            forall|j: int| 0 <= j < i ==> (#[trigger] labels@[j])@ == decimal(list[j].0 as nat),
            forall|j: int| 0 <= j < i ==> #[trigger] counts@[j] == list[j].1,
        decreases rows@.len() - i,
    {
        labels.push(decimal_text(rows[i].0 as u128));
        counts.push(rows[i].1);
        i += 1;
    }
    proof {
        assert(views(labels@) =~= list.map_values(|row: (u16, nat)| decimal(row.0 as nat)));
    }
    StatusBreakdown { labels, counts }
}

/// The counts of the given seconds, zero where there is none.
fn counts_of(map: &HashMap<u64, u64>, seconds: &Vec<u64>) -> (r: Vec<u64>)
    ensures
        r@.len() == seconds@.len(),
        forall|i: int|
            0 <= i < r@.len() ==> #[trigger] r@[i] == count_in(map@, seconds@[i]),
{
    let mut out: Vec<u64> = Vec::new();
    let mut i: usize = 0;
    while i < seconds.len()
        invariant
            i <= seconds@.len(),
            out@.len() == i,
            forall|j: int| 0 <= j < i ==> #[trigger] out@[j] == count_in(map@, seconds@[j]),
        decreases seconds@.len() - i,
    {
        let count: u64 = match map.get(&seconds[i]) {
            Some(n) => *n,
            None => 0,
        };
        out.push(count);
        i += 1;
    }
    out
}

pub fn rps_timeline(agg: &MetricsAggregator) -> (r: RpsTimeline)
    ensures
        ascending(r.seconds@),
        r.seconds@.to_set() == agg@.started.dom().union(agg@.completed.dom()),
        r.started@.len() == r.seconds@.len(),
        r.completed@.len() == r.seconds@.len(),
        forall|i: int|
            0 <= i < r.seconds@.len() ==> {
                &&& #[trigger] r.started@[i] == count_in(agg@.started, r.seconds@[i])
                &&& #[trigger] r.completed@[i] == count_in(agg@.completed, r.seconds@[i])
            },
{
    let mut seconds: Vec<u64> = Vec::new();
    insert_all(&mut seconds, &keys_of(agg.per_second_started()));
    insert_all(&mut seconds, &keys_of(agg.per_second_completed()));
    proof {
        assert(Seq::<u64>::empty().to_set() =~= Set::<u64>::empty());
        assert(seconds@.to_set() =~= agg@.started.dom().union(agg@.completed.dom()));
    }
    let started = counts_of(agg.per_second_started(), &seconds);
    let completed = counts_of(agg.per_second_completed(), &seconds);
    RpsTimeline { seconds, started, completed }
}

} // verus!
