//! What the statistics of a run say of its requests.

use super::metrics::{
    cache_totals, counted, failures, kept, kept_all, n_failed, n_ok, n_status, rates, record_of,
    recorded, saturated, total, CompletionContext, HistKind, Percentile, Quantity, RequestRecord,
    TokenRate,
};
use crate::client::RequestMetrics;
use crate::text::{clipped, decimal};
use vstd::multiset::Multiset;
use vstd::prelude::*;

verus! {

/// The places of a gap in the requests: the number of the request, and the place
/// of the gap in it.
pub open spec fn gap_places(rs: Seq<RequestRecord>, gap: u64) -> Set<(int, int)> {
    Set::new(
        |p: (int, int)|
            0 <= p.0 < rs.len() && 0 <= p.1 < rs[p.0].itl_samples_us@.len()
                && rs[p.0].itl_samples_us@[p.1] == gap,
    )
}

/// The places of a value in a list, each paired with the same number.
spec fn places_in(values: Seq<u64>, value: u64, row: int) -> Set<(int, int)> {
    Set::new(|p: (int, int)| p.0 == row && 0 <= p.1 < values.len() && values[p.1] == value)
}

/// Recording a list adds each value as often as it stands in the list.
proof fn every_value_is_kept(before: Multiset<u64>, values: Seq<u64>, value: u64, row: int)
    ensures
        places_in(values, value, row).finite(),
        kept_all(before, values).count(value) == before.count(value) + (if value <= 67_108_863 {
            places_in(values, value, row).len()
        } else {
            0
        }),
    decreases values.len(),
{
    broadcast use vstd::multiset::group_multiset_axioms;

    if values.len() == 0 {
        assert(places_in(values, value, row) =~= Set::empty());
    } else {
        let rest = values.drop_last();
        every_value_is_kept(before, rest, value, row);
        let place = (row, values.len() - 1);
        if values.last() == value {
            assert(places_in(values, value, row) =~= places_in(rest, value, row).insert(place));
            assert(!places_in(rest, value, row).contains(place));
        } else {
            assert(places_in(values, value, row) =~= places_in(rest, value, row));
        }
    }
}

/// Every gap between tokens is recorded, as often as it occurs: a gap within the
/// limit of the histograms is in the recorded gaps once for each request and
/// each place in it where it stands. Larger gaps are not recorded.
pub proof fn every_gap_is_recorded(rs: Seq<RequestRecord>, gap: u64)
    ensures
        gap_places(rs, gap).finite(),
        gap <= 67_108_863 ==> recorded(rs, HistKind::Itl).count(gap) == gap_places(rs, gap).len(),
        gap > 67_108_863 ==> recorded(rs, HistKind::Itl).count(gap) == 0,
    decreases rs.len(),
{
    broadcast use vstd::multiset::group_multiset_axioms;

    if rs.len() == 0 {
        assert(gap_places(rs, gap) =~= Set::empty());
    } else {
        let rest = rs.drop_last();
        every_gap_is_recorded(rest, gap);
        let row = rs.len() - 1;
        let values = rs.last().itl_samples_us@;
        every_value_is_kept(recorded(rest, HistKind::Itl), values, gap, row);
        let old_places = gap_places(rest, gap);
        let new_places = places_in(values, gap, row);
        assert(gap_places(rs, gap) =~= old_places + new_places);
        assert(old_places.disjoint(new_places));
        vstd::set_lib::lemma_set_disjoint_lens(old_places, new_places);
    }
}

/// Where all gaps are within the limit, there are as many recorded gaps as there
/// are gaps.
pub proof fn no_gap_is_lost(rs: Seq<RequestRecord>)
    requires
        forall|i: int, j: int|
            0 <= i < rs.len() && 0 <= j < rs[i].itl_samples_us@.len()
                ==> #[trigger] rs[i].itl_samples_us@[j] <= 67_108_863,
    ensures
        recorded(rs, HistKind::Itl).len() == total(rs, Quantity::Gaps),
    decreases rs.len(),
{
    broadcast use vstd::multiset::group_multiset_axioms;

    if rs.len() > 0 {
        let rest = rs.drop_last();
        assert forall|i: int, j: int|
            0 <= i < rest.len() && 0 <= j < rest[i].itl_samples_us@.len()
                implies #[trigger] rest[i].itl_samples_us@[j] <= 67_108_863 by {
            assert(rest[i] == rs[i]);
            assert(rs[i].itl_samples_us@[j] <= 67_108_863);
        }
        no_gap_is_lost(rest);
        let n = rs.len() - 1;
        assert forall|j: int| 0 <= j < rs.last().itl_samples_us@.len() implies #[trigger] rs.last().itl_samples_us@[j]
            <= 67_108_863 by {
            assert(rs[n].itl_samples_us@[j] <= 67_108_863);
        }
        all_are_kept(recorded(rest, HistKind::Itl), rs.last().itl_samples_us@);
    }
}

/// All values of a list within the limit are kept.
proof fn all_are_kept(before: Multiset<u64>, values: Seq<u64>)
    requires
        forall|j: int| 0 <= j < values.len() ==> #[trigger] values[j] <= 67_108_863,
    ensures
        kept_all(before, values).len() == before.len() + values.len(),
    decreases values.len(),
{
    broadcast use vstd::multiset::group_multiset_axioms;

    if values.len() > 0 {
        assert(values[values.len() - 1] <= 67_108_863);
        all_are_kept(before, values.drop_last());
    }
}

/// Every duration and every time to the first token within the limit of the
/// histograms is recorded, once for each request that has it. Requests without a
/// first token add none, and larger times are not recorded.
pub proof fn every_time_is_recorded(rs: Seq<RequestRecord>, us: u64)
    ensures
        recorded(rs, HistKind::Latency).count(us) == (if us <= 67_108_863 {
            rs.filter(|r: RequestRecord| r.total_duration_us == us).len()
        } else {
            0
        }),
        recorded(rs, HistKind::Ttft).count(us) == (if us <= 67_108_863 {
            rs.filter(|r: RequestRecord| r.ttft_us == Some(us)).len()
        } else {
            0
        }),
    decreases rs.len(),
{
    broadcast use vstd::multiset::group_multiset_axioms;

    reveal(Seq::filter);
    if rs.len() > 0 {
        every_time_is_recorded(rs.drop_last(), us);
    }
}

/// Where no request took longer than the histograms can tell, there are as many
/// recorded durations as requests.
pub proof fn no_duration_is_lost(rs: Seq<RequestRecord>)
    requires
        forall|i: int| 0 <= i < rs.len() ==> (#[trigger] rs[i]).total_duration_us <= 67_108_863,
    ensures
        recorded(rs, HistKind::Latency).len() == rs.len(),
    decreases rs.len(),
{
    broadcast use vstd::multiset::group_multiset_axioms;

    if rs.len() > 0 {
        assert(rs[rs.len() - 1].total_duration_us <= 67_108_863);
        no_duration_is_lost(rs.drop_last());
    }
}

/// A request fails by an error, by a status from 400 on, or by having no status;
/// the others succeed. Statuses are counted one by one.
pub proof fn outcomes_are_counted(rs: Seq<RequestRecord>, code: u16)
    ensures
        n_failed(rs) == rs.filter(
            |r: RequestRecord| r.error is Some || r.status == 0 || r.status >= 400,
        ).len(),
        n_ok(rs) == rs.filter(
            |r: RequestRecord| r.error is None && r.status != 0 && r.status < 400,
        ).len(),
        n_status(rs, code) == rs.filter(|r: RequestRecord| r.status == code).len(),
    decreases rs.len(),
{
    reveal(Seq::filter);
    if rs.len() > 0 {
        outcomes_are_counted(rs.drop_last(), code);
    }
}

/// The sums over the requests of two runs are those of the first run and those
/// of the second one.
pub proof fn sums_add_up(a: Seq<RequestRecord>, b: Seq<RequestRecord>, q: Quantity)
    ensures
        total(a + b, q) == total(a, q) + total(b, q),
        total(Seq::<RequestRecord>::empty(), q) == 0,
    decreases b.len(),
{
    if b.len() == 0 {
        assert(a + b =~= a);
    } else {
        sums_add_up(a, b.drop_last(), q);
        assert((a + b).drop_last() =~= a + b.drop_last());
    }
}

/// What a single request adds to the sums. Tokens and cache tokens are added as
/// they are, and once more among those of first or of later turns where the
/// request had a prompt; requests outside of sessions count as first turns. The
/// time of a request counts as streaming where its status is 2xx. Of a request
/// with more than one token, whose first token did not come after its end, the
/// time behind the first token and the tokens behind it are the generation.
pub proof fn a_request_adds_its_own(r: RequestRecord)
    ensures
        total(seq![r], Quantity::Completion) == r.completion_tokens,
        total(seq![r], Quantity::Prompt) == r.prompt_tokens,
        total(seq![r], Quantity::CacheCreation) == r.cache_creation_input_tokens,
        total(seq![r], Quantity::CacheHit) == r.cache_hit_input_tokens,
        total(seq![r], Quantity::SpecDecoded) == r.spec_decoded_tok,
        total(seq![r], Quantity::SpecAccepted) == r.spec_accepted_tok,
        total(seq![r], Quantity::SpecIterations) == r.spec_iterations,
        total(seq![r], Quantity::Gaps) == r.itl_samples_us@.len(),
        r.session_turn is None || r.session_turn.unwrap() <= 1 ==> {
            &&& total(seq![r], Quantity::PromptFirst) == r.prompt_tokens
            &&& total(seq![r], Quantity::PromptLater) == 0
            &&& total(seq![r], Quantity::CacheHitLater) == 0
            &&& total(seq![r], Quantity::CacheCreationLater) == 0
            &&& r.prompt_tokens > 0 ==> total(seq![r], Quantity::CacheHitFirst)
                == r.cache_hit_input_tokens
            &&& r.prompt_tokens > 0 ==> total(seq![r], Quantity::CacheCreationFirst)
                == r.cache_creation_input_tokens
        },
        r.session_turn is Some && r.session_turn.unwrap() > 1 ==> {
            &&& total(seq![r], Quantity::PromptFirst) == 0
            &&& total(seq![r], Quantity::PromptLater) == r.prompt_tokens
            &&& total(seq![r], Quantity::CacheHitFirst) == 0
            &&& total(seq![r], Quantity::CacheCreationFirst) == 0
            &&& r.prompt_tokens > 0 ==> total(seq![r], Quantity::CacheHitLater)
                == r.cache_hit_input_tokens
            &&& r.prompt_tokens > 0 ==> total(seq![r], Quantity::CacheCreationLater)
                == r.cache_creation_input_tokens
        },
        r.prompt_tokens == 0 ==> {
            &&& total(seq![r], Quantity::CacheHitFirst) == 0
            &&& total(seq![r], Quantity::CacheHitLater) == 0
            &&& total(seq![r], Quantity::CacheCreationFirst) == 0
            &&& total(seq![r], Quantity::CacheCreationLater) == 0
        },
        200 <= r.status <= 299 ==> total(seq![r], Quantity::StreamingMicros) == r.total_duration_us,
        r.status < 200 || r.status > 299 ==> total(seq![r], Quantity::StreamingMicros) == 0,
        r.completion_tokens >= 2 ==> {
            &&& r.ttft_us is None ==> total(seq![r], Quantity::GenerationMicros)
                == r.total_duration_us
            &&& r.ttft_us matches Some(us) ==> (us <= r.total_duration_us ==> total(
                seq![r],
                Quantity::GenerationMicros,
            ) == r.total_duration_us - us)
            &&& (r.ttft_us is None || r.ttft_us.unwrap() <= r.total_duration_us) ==> total(
                seq![r],
                Quantity::GenerationTokens,
            ) == r.completion_tokens - 1
        },
        r.completion_tokens < 2 || (r.ttft_us is Some && r.ttft_us.unwrap() > r.total_duration_us)
            ==> {
            &&& total(seq![r], Quantity::GenerationMicros) == 0
            &&& total(seq![r], Quantity::GenerationTokens) == 0
        },
{
    assert(seq![r].drop_last() =~= Seq::empty());
    assert forall|q: Quantity| #[trigger] total(seq![r], q) == r.amount(q) by {
        assert(total(seq![r].drop_last(), q) == 0);
        assert(seq![r].last() == r);
    }
}

/// The totals of the prompt cache: each field is the sum that it is named after,
/// and a rate is the hits over the prompt tokens of the same turns.
pub proof fn cache_rates_are_hits_over_prompts(rs: Seq<RequestRecord>)
    ensures
        ({
            let c = cache_totals(rs);
            &&& c.rate_overall.num == c.cache_hit_total
            &&& c.rate_turn1.num == c.cache_hit_turn1
            &&& c.rate_turn2plus.num == c.cache_hit_turn2plus
            &&& c.rate_turn1.den == c.prompt_turn1
            &&& c.rate_turn2plus.den == c.prompt_turn2plus
            &&& total(rs, Quantity::Prompt) <= u64::MAX ==> c.rate_overall.den == c.prompt_turn1
                + c.prompt_turn2plus && c.rate_overall.den == total(rs, Quantity::Prompt)
            &&& total(rs, Quantity::CacheHit) <= u64::MAX ==> c.cache_hit_total == total(
                rs,
                Quantity::CacheHit,
            ) && c.cache_hit_turn1 == total(rs, Quantity::CacheHitFirst) && c.cache_hit_turn2plus
                == total(rs, Quantity::CacheHitLater)
            &&& total(rs, Quantity::CacheCreation) <= u64::MAX ==> c.cache_creation_total == total(
                rs,
                Quantity::CacheCreation,
            ) && c.cache_creation_turn1 == total(rs, Quantity::CacheCreationFirst)
                && c.cache_creation_turn2plus == total(rs, Quantity::CacheCreationLater)
        }),
{
    super::metrics::turns_partition(rs);
}

/// The rates of two runs are those of the first and then those of the second. A
/// request has a rate where it took time and produced tokens: its tokens over
/// its duration.
pub proof fn rates_follow_the_requests(a: Seq<RequestRecord>, b: Seq<RequestRecord>)
    ensures
        rates(a + b) == rates(a) + rates(b),
        b.len() == 1 ==> rates(b) == (if b[0].total_duration_us > 0 && b[0].completion_tokens > 0 {
            seq![
                TokenRate {
                    tokens: b[0].completion_tokens as u128,
                    micros: b[0].total_duration_us as u128,
                },
            ]
        } else {
            Seq::empty()
        }),
    decreases b.len(),
{
    if b.len() == 0 {
        assert(a + b =~= a);
        assert(rates(a) + rates(b) =~= rates(a));
    } else {
        rates_follow_the_requests(a, b.drop_last());
        assert((a + b).drop_last() =~= a + b.drop_last());
        assert(rates(a + b) =~= rates(a) + rates(b));
        if b.len() == 1 {
            assert(b.drop_last() =~= Seq::empty());
            assert(rates(b.drop_last()) =~= Seq::empty());
            assert(b.last() == b[0]);
        }
    }
}

/// Whether a request failed with this text: with the start of its error, or,
/// without one, with its status.
pub open spec fn fails_with(r: RequestRecord, text: Seq<char>) -> bool {
    match r.error {
        Some(error) => text == clipped(error@, 200),
        None => r.status >= 400 && text == "HTTP "@ + decimal(r.status as nat),
    }
}

/// Counting a text raises its count by one and leaves all others; a new text
/// comes last, with a count of one.
proof fn counting(table: Seq<(Seq<char>, nat)>, key: Seq<char>)
    ensures
        ({
            ||| exists|k: int|
                0 <= k < table.len() && table[k].0 == key && counted(table, key) == #[trigger] table.update(
                    k,
                    (key, table[k].1 + 1),
                )
            ||| (forall|i: int| 0 <= i < table.len() ==> (#[trigger] table[i]).0 != key) && counted(
                table,
                key,
            ) == table.push((key, 1nat))
        }),
    decreases table.len(),
{
    if table.len() == 0 {
        assert(counted(table, key) =~= table.push((key, 1nat)));
    } else if table[0].0 == key {
        assert(counted(table, key) =~= table.update(0, (key, table[0].1 + 1)));
    } else {
        let rest = table.skip(1);
        counting(rest, key);
        if exists|k: int|
            0 <= k < rest.len() && rest[k].0 == key && counted(rest, key) == #[trigger] rest.update(
                k,
                (key, rest[k].1 + 1),
            ) {
            let k = choose|k: int|
                0 <= k < rest.len() && rest[k].0 == key && counted(rest, key) == #[trigger] rest.update(
                    k,
                    (key, rest[k].1 + 1),
                );
            assert(table[k + 1] == rest[k]);
            assert(counted(table, key) =~= table.update(k + 1, (key, table[k + 1].1 + 1)));
        } else {
            assert forall|i: int| 0 <= i < table.len() implies (#[trigger] table[i]).0 != key by {
                if i > 0 {
                    assert(rest[i - 1].0 != key);
                }
            }
            assert(counted(table, key) =~= table.push((key, 1nat)));
        }
    }
}

/// The table of failures counts each text once, by the number of requests that
/// failed with it, and holds the text of every request that failed with one. The
/// texts stand in the order in which they came first.
#[verifier::rlimit(40)]
#[verifier::spinoff_prover]
pub proof fn failures_are_counted_by_their_text(rs: Seq<RequestRecord>)
    ensures
        forall|i: int, j: int|
            0 <= i < j < failures(rs).len() ==> (#[trigger] failures(rs)[i]).0 != (
            #[trigger] failures(rs)[j]).0,
        forall|i: int|
            0 <= i < failures(rs).len() ==> {
                &&& (#[trigger] failures(rs)[i]).1 > 0
                &&& failures(rs)[i].1 == rs.filter(
                    |r: RequestRecord| fails_with(r, failures(rs)[i].0),
                ).len()
            },
        forall|p: int, text: Seq<char>|
            0 <= p < rs.len() && #[trigger] fails_with(rs[p], text) ==> exists|i: int|
                0 <= i < failures(rs).len() && (#[trigger] failures(rs)[i]).0 == text,
        forall|i: int, j: int, q: int|
            0 <= i < j < failures(rs).len() && 0 <= q < rs.len() && fails_with(
                #[trigger] rs[q],
                (#[trigger] failures(rs)[j]).0,
            ) && (#[trigger] failures(rs)[i]).0.len() >= 0 ==> exists|p: int|
                0 <= p < q && #[trigger] fails_with(rs[p], failures(rs)[i].0),
    decreases rs.len(),
{
    reveal(Seq::filter);
    if rs.len() > 0 {
        let rest = rs.drop_last();
        let last = rs.last();
        let n = rest.len() as int;
        failures_are_counted_by_their_text(rest);
        let before = failures(rest);
        let after = failures(rs);
        let text = match last.error {
            Some(error) => clipped(error@, 200),
            None => "HTTP "@ + decimal(last.status as nat),
        };
        if fails_with(last, text) {
            counting(before, text);
            assert(after == counted(before, text));
        } else {
            assert(after == before);
        }
        assert forall|i: int| 0 <= i < after.len() implies {
            &&& (#[trigger] after[i]).1 > 0
            &&& after[i].1 == rs.filter(|r: RequestRecord| fails_with(r, after[i].0)).len()
        } by {
            let key = after[i].0;
            let by_key = |r: RequestRecord| fails_with(r, key);
            assert(rs.filter(|r: RequestRecord| fails_with(r, after[i].0)) == rs.filter(by_key));
            if i < before.len() {
                assert(before[i].0 == key);
                assert(rest.filter(|r: RequestRecord| fails_with(r, before[i].0)) == rest.filter(
                    by_key,
                ));
            } else {
                assert(key == text);
                no_match(rest, key);
            }
        }
        assert forall|p: int, t: Seq<char>|
            0 <= p < rs.len() && #[trigger] fails_with(rs[p], t) implies exists|i: int|
            0 <= i < after.len() && (#[trigger] after[i]).0 == t by {
            if p < n {
                assert(fails_with(rest[p], t));
                let i = choose|i: int| 0 <= i < before.len() && (#[trigger] before[i]).0 == t;
                assert(after[i].0 == t);
            } else {
                assert(t == text);
                if after.len() > before.len() {
                    assert(after[before.len() as int].0 == t);
                } else {
                    let k = choose|k: int|
                        0 <= k < before.len() && before[k].0 == text && after
                            == #[trigger] before.update(k, (text, before[k].1 + 1));
                    assert(after[k].0 == t);
                }
            }
        }
        assert forall|i: int, j: int, q: int|
            0 <= i < j < after.len() && 0 <= q < rs.len() && fails_with(
                #[trigger] rs[q],
                (#[trigger] after[j]).0,
            ) && (#[trigger] after[i]).0.len() >= 0 implies exists|p: int|
            0 <= p < q && #[trigger] fails_with(rs[p], after[i].0) by {
            assert(before[i].0 == after[i].0);
            if q < n {
                assert(rest[q] == rs[q]);
                if j < before.len() {
                    assert(before[j].0 == after[j].0);
                    assert(before[i].0.len() >= 0);
                    let p = choose|p: int|
                        0 <= p < q && #[trigger] fails_with(rest[p], before[i].0);
                    assert(fails_with(rs[p], after[i].0));
                } else {
                    let k = choose|k: int|
                        0 <= k < before.len() && (#[trigger] before[k]).0 == after[j].0;
                    assert(fails_with(rest[q], after[j].0));
                    assert(before[k].0 == after[j].0);
                }
            } else {
                some_match(rest, before[i].0);
                let p = choose|p: int| 0 <= p < rest.len() && #[trigger] fails_with(
                    rest[p],
                    before[i].0,
                );
                assert(fails_with(rs[p], after[i].0));
            }
        }
    }
}

/// A text that is not in the table of failures came of no request.
proof fn no_match(rs: Seq<RequestRecord>, text: Seq<char>)
    requires
        forall|p: int| 0 <= p < rs.len() ==> !#[trigger] fails_with(rs[p], text),
    ensures
        rs.filter(|r: RequestRecord| fails_with(r, text)).len() == 0,
    decreases rs.len(),
{
    reveal(Seq::filter);
    if rs.len() > 0 {
        assert(!fails_with(rs[rs.len() - 1], text));
        assert forall|p: int| 0 <= p < rs.len() - 1 implies !#[trigger] fails_with(
            rs.drop_last()[p],
            text,
        ) by {
            assert(!fails_with(rs[p], text));
        }
        no_match(rs.drop_last(), text);
    }
}

/// A text that was counted came of some request.
proof fn some_match(rs: Seq<RequestRecord>, text: Seq<char>)
    requires
        rs.filter(|r: RequestRecord| fails_with(r, text)).len() > 0,
    ensures
        exists|p: int| 0 <= p < rs.len() && #[trigger] fails_with(rs[p], text),
{
    if forall|p: int| 0 <= p < rs.len() ==> !#[trigger] fails_with(rs[p], text) {
        no_match(rs, text);
    }
}

/// A record keeps what was measured, with times in whole microseconds, and the
/// place of the request in its session.
pub proof fn a_record_keeps_what_was_measured(
    r: RequestRecord,
    m: RequestMetrics,
    ctx: CompletionContext,
)
    requires
        record_of(r, m, ctx),
    ensures
        r.status == m.status,
        r.error == m.error,
        m.total_duration < 0x1_0000_0000_0000_0000 ==> r.total_duration_us == m.total_duration
            / 1000,
        m.ttft is None <==> r.ttft_us is None,
        m.ttft matches Some(nanos) ==> (nanos < 0x1_0000_0000_0000_0000 ==> r.ttft_us.unwrap()
            == nanos / 1000),
        r.itl_samples_us@.len() == m.itl_samples@.len(),
        forall|i: int|
            0 <= i < m.itl_samples@.len() && m.itl_samples@[i] < 0x1_0000_0000_0000_0000
                ==> #[trigger] r.itl_samples_us@[i] == m.itl_samples@[i] / 1000,
        r.completion_tokens == m.completion_tokens,
        r.prompt_tokens == m.prompt_tokens,
        r.estimated == m.estimated,
        r.cache_creation_input_tokens == m.cache_creation_input_tokens,
        r.cache_hit_input_tokens == m.cache_hit_input_tokens,
        r.spec_decoded_tok == m.spec_decoded_tok,
        r.spec_accepted_tok == m.spec_accepted_tok,
        r.spec_iterations == m.spec_iterations,
        r.session_id == ctx.session_id,
        r.session_turn == ctx.session_turn,
        r.session_continuation == ctx.session_continuation,
        r.started_at == m.started_at,
        r.finished_at == m.finished_at,
{
}

/// The percentiles are asked for under the percentage that they are called by.
pub proof fn percentiles_are_named_by_their_percentage()
    ensures
        Percentile::P50.percent() == "50"@,
        Percentile::P90.percent() == "90"@,
        Percentile::P99.percent() == "99"@,
        Percentile::P999.percent() == "99.9"@,
{
}

/// Sums stop at the largest number that fits, and are exact below it.
pub proof fn sums_stop_at_the_largest_number(n: nat)
    ensures
        n <= u64::MAX ==> saturated(n) == n,
        n > u64::MAX ==> saturated(n) == u64::MAX,
{
}

} // verus!
