//! Walking hash maps in a fixed order.

use std::collections::HashMap;
use vstd::prelude::*;
use vstd::std_specs::hash::obeys_key_model;

verus! {

broadcast use vstd::std_specs::hash::group_hash_axioms;

/// The keys of a map, each once, in no particular order.
pub fn keys_of<K: Copy, V>(m: &HashMap<K, V>) -> (r: Vec<K>)
    requires
        obeys_key_model::<K>(),
    ensures
        r@.no_duplicates(),
        r@.to_set() == m@.dom(),
{
    let mut out: Vec<K> = Vec::new();
    for k in it: m.keys()
        invariant
            out@ == it.seq().unref().take(it.index()),
            it.index() == it.seq().len() ==> out@ == it.seq().unref(),
            it.seq().unref().no_duplicates(),
            it.seq().unref().to_set() == m@.dom(),
    {
        out.push(*k);
        proof {
            assert(it.seq().unref().take(it.index() + 1) =~= it.seq().unref().take(
                it.index(),
            ).push(*it.seq()[it.index()]));
            assert(it.seq().unref().take(it.seq().len() as int) =~= it.seq().unref());
        }
    }
    out
}

/// In strictly ascending order.
pub open spec fn ascending(s: Seq<u64>) -> bool {
    forall|i: int, j: int| 0 <= i < j < s.len() ==> s[i] < s[j]
}

/// A set of numbers has only one ascending list.
pub proof fn ascending_is_unique(a: Seq<u64>, b: Seq<u64>)
    requires
        ascending(a),
        ascending(b),
        a.to_set() == b.to_set(),
    ensures
        a == b,
    decreases a.len(),
{
    if a.len() == 0 {
        if b.len() > 0 {
            assert(b.to_set().contains(b[0]));
            assert(a.to_set().contains(b[0]));
        }
        assert(a =~= b);
    } else {
        assert(a.to_set().contains(a.last()));
        assert(b.contains(a.last()));
        let last_a = choose|i: int| 0 <= i < b.len() && b[i] == a.last();
        assert(b.to_set().contains(b.last()));
        assert(a.contains(b.last()));
        let last_b = choose|i: int| 0 <= i < a.len() && a[i] == b.last();
        assert(a.last() == b.last());
        let x = a.drop_last();
        let y = b.drop_last();
        assert forall|k: u64| x.to_set().contains(k) <==> y.to_set().contains(k) by {
            if x.contains(k) {
                let i = choose|i: int| 0 <= i < x.len() && x[i] == k;
                assert(a[i] == k);
                assert(a.to_set().contains(k));
                assert(b.contains(k));
                let j = choose|j: int| 0 <= j < b.len() && b[j] == k;
                assert(y[j] == k);
            }
            if y.contains(k) {
                let i = choose|i: int| 0 <= i < y.len() && y[i] == k;
                assert(b[i] == k);
                assert(b.to_set().contains(k));
                assert(a.contains(k));
                let j = choose|j: int| 0 <= j < a.len() && a[j] == k;
                assert(x[j] == k);
            }
        }
        assert(x.to_set() =~= y.to_set());
        ascending_is_unique(x, y);
        assert(a =~= x.push(a.last()));
        assert(b =~= y.push(b.last()));
    }
}

/// Adds `k` to an ascending list, where it is not in it yet.
pub fn insert_ascending(v: &mut Vec<u64>, k: u64)
    requires
        ascending(old(v)@),
    ensures
        ascending(final(v)@),
        final(v)@.to_set() == old(v)@.to_set().insert(k),
{
    let ghost before = v@;
    let mut lo: usize = 0;
    let mut hi: usize = v.len();
    while lo < hi
        invariant
            lo <= hi <= v@.len(),
            v@ == before,
            ascending(v@),
            forall|i: int| 0 <= i < lo ==> v@[i] < k,
            forall|i: int| hi <= i < v@.len() ==> v@[i] >= k,
        decreases hi - lo,
    {
        let mid = lo + (hi - lo) / 2;
        if v[mid] < k {
            lo = mid + 1;
        } else {
            hi = mid;
        }
    }
    if lo < v.len() && v[lo] == k {
        proof {
            assert(before.contains(k));
            assert(before.to_set().insert(k) =~= before.to_set());
        }
        return;
    }
    v.insert(lo, k);
    proof {
        let after = v@;
        assert forall|x: u64| after.to_set().contains(x) <==> before.to_set().insert(k).contains(
            x,
        ) by {
            if after.contains(x) {
                let i = choose|i: int| 0 <= i < after.len() && after[i] == x;
                if i < lo {
                    assert(before[i] == x);
                } else if i > lo {
                    assert(before[i - 1] == x);
                }
            }
            if before.contains(x) {
                let i = choose|i: int| 0 <= i < before.len() && before[i] == x;
                if i < lo {
                    assert(after[i] == x);
                } else {
                    assert(after[i + 1] == x);
                }
            }
            if x == k {
                assert(after[lo as int] == k);
            }
        }
        assert(after.to_set() =~= before.to_set().insert(k));
    }
}

/// Adds all keys to an ascending list.
pub fn insert_all(v: &mut Vec<u64>, keys: &Vec<u64>)
    requires
        ascending(old(v)@),
    ensures
        ascending(final(v)@),
        final(v)@.to_set() == old(v)@.to_set().union(keys@.to_set()),
{
    let mut i: usize = 0;
    proof {
        assert(keys@.take(0).to_set() =~= Set::<u64>::empty());
        assert(v@.to_set().union(Set::<u64>::empty()) =~= v@.to_set());
    }
    while i < keys.len()
        invariant
            i <= keys@.len(),
            ascending(v@),
            v@.to_set() == old(v)@.to_set().union(keys@.take(i as int).to_set()),
        decreases keys@.len() - i,
    {
        insert_ascending(v, keys[i]);
        proof {
            let a = keys@.take(i as int);
            let b = keys@.take(i + 1);
            assert(b =~= a.push(keys@[i as int]));
            assert forall|x: u64| b.to_set().contains(x) <==> a.to_set().insert(
                keys@[i as int],
            ).contains(x) by {
                if b.contains(x) {
                    let j = choose|j: int| 0 <= j < b.len() && b[j] == x;
                    if j < i {
                        assert(a[j] == x);
                    }
                }
                if a.contains(x) {
                    let j = choose|j: int| 0 <= j < a.len() && a[j] == x;
                    assert(b[j] == x);
                }
                if x == keys@[i as int] {
                    assert(b[i as int] == x);
                }
            }
            assert(v@.to_set() =~= old(v)@.to_set().union(b.to_set()));
        }
        i += 1;
    }
    proof {
        assert(keys@.take(i as int) =~= keys@);
    }
}

/// The counts of a table, as mathematical values.
pub open spec fn count_views(table: Seq<(String, u64)>) -> Seq<(Seq<char>, nat)> {
    Seq::new(table.len(), |i: int| (table[i].0@, table[i].1 as nat))
}

/// The first place from `from` on whose count is below `n`.
pub open spec fn place(table: Seq<(Seq<char>, nat)>, n: nat, from: int) -> int
    decreases table.len() - from,
{
    if from >= table.len() {
        table.len() as int
    } else if table[from].1 < n {
        from
    } else {
        place(table, n, from + 1)
    }
}

/// The entries by falling count; equal counts keep their order.
pub open spec fn ranked(table: Seq<(Seq<char>, nat)>) -> Seq<(Seq<char>, nat)>
    decreases table.len(),
{
    if table.len() == 0 {
        Seq::empty()
    } else {
        let before = ranked(table.drop_last());
        before.insert(place(before, table.last().1, 0), table.last())
    }
}

/// In falling order of the counts.
pub open spec fn falling(table: Seq<(Seq<char>, nat)>) -> bool {
    forall|i: int, j: int| 0 <= i < j < table.len() ==> table[i].1 >= table[j].1
}

proof fn place_splits(table: Seq<(Seq<char>, nat)>, n: nat, from: int)
    requires
        0 <= from <= table.len(),
    ensures
        from <= place(table, n, from) <= table.len(),
        forall|i: int| from <= i < place(table, n, from) ==> (#[trigger] table[i]).1 >= n,
        place(table, n, from) < table.len() ==> table[place(table, n, from)].1 < n,
    decreases table.len() - from,
{
    if from < table.len() && table[from].1 >= n {
        place_splits(table, n, from + 1);
    }
}

/// Ranking orders the entries by falling count, and neither adds nor loses one.
pub proof fn ranking_orders_the_entries(table: Seq<(Seq<char>, nat)>)
    ensures
        falling(ranked(table)),
        ranked(table).to_multiset() == table.to_multiset(),
        ranked(table).len() == table.len(),
    decreases table.len(),
{
    broadcast use vstd::seq_lib::group_to_multiset_ensures;

    if table.len() > 0 {
        let before = ranked(table.drop_last());
        ranking_orders_the_entries(table.drop_last());
        let at = place(before, table.last().1, 0);
        place_splits(before, table.last().1, 0);
        assert(table =~= table.drop_last().push(table.last()));
        assert(ranked(table) =~= before.insert(at, table.last()));
        vstd::seq_lib::to_multiset_insert(before, at, table.last());
        assert(falling(ranked(table))) by {
            let after = ranked(table);
            assert forall|i: int, j: int| 0 <= i < j < after.len() implies after[i].1
                >= after[j].1 by {
                if i > at {
                    assert(after[i] == before[i - 1]);
                } else if i < at {
                    assert(after[i] == before[i]);
                }
                if j > at {
                    assert(after[j] == before[j - 1]);
                } else if j < at {
                    assert(after[j] == before[j]);
                }
            }
        }
    }
}

/// The entries by falling count.
pub fn rank(table: &Vec<(String, u64)>) -> (r: Vec<(String, u64)>)
    ensures
        count_views(r@) == ranked(count_views(table@)),
{
    let mut out: Vec<(String, u64)> = Vec::new();
    let mut i: usize = 0;
    proof {
        assert(count_views(out@) =~= ranked(count_views(table@).take(0)));
    }
    while i < table.len()
        invariant
            i <= table@.len(),
            count_views(out@) == ranked(count_views(table@).take(i as int)),
        decreases table@.len() - i,
    {
        let n = table[i].1;
        let ghost before = out@;
        let mut at: usize = 0;
        while at < out.len() && out[at].1 >= n
            invariant
                at <= out@.len(),
                out@ == before,
                place(count_views(before), n as nat, 0) == place(
                    count_views(before),
                    n as nat,
                    at as int,
                ),
            decreases out@.len() - at,
        {
            proof {
                assert(count_views(before)[at as int].1 == out@[at as int].1);
            }
            at += 1;
        }
        proof {
            if at < before.len() {
                assert(count_views(before)[at as int].1 == before[at as int].1);
            }
        }
        out.insert(at, (table[i].0.clone(), n));
        proof {
            let views = count_views(table@);
            assert(views.take(i + 1).drop_last() =~= views.take(i as int));
            assert(count_views(out@) =~= count_views(before).insert(at as int, views[i as int]));
        }
        i += 1;
    }
    proof {
        assert(count_views(table@).take(i as int) =~= count_views(table@));
    }
    out
}

/// No entry of a ranking has a smaller count than one behind it, and entries
/// with the same count keep their order: a table in that order stays as it is.
pub proof fn the_most_frequent_come_first(table: Seq<(Seq<char>, nat)>, i: int, j: int)
    ensures
        0 <= i < j < ranked(table).len() ==> ranked(table)[i].1 >= ranked(table)[j].1,
        (forall|a: int, b: int|
            0 <= a < b < table.len() ==> (#[trigger] table[a]).1 >= (#[trigger] table[b]).1)
            ==> ranked(table) == table,
    decreases table.len(),
{
    ranking_orders_the_entries(table);
    if table.len() > 0 && (forall|a: int, b: int|
        0 <= a < b < table.len() ==> (#[trigger] table[a]).1 >= (#[trigger] table[b]).1) {
        let rest = table.drop_last();
        let last = table.last();
        assert forall|a: int, b: int| 0 <= a < b < rest.len() implies (#[trigger] rest[a]).1 >= (
        #[trigger] rest[b]).1 by {
            assert(table[a].1 >= table[b].1);
        }
        the_most_frequent_come_first(rest, 0, 0);
        place_splits(rest, last.1, 0);
        let at = place(rest, last.1, 0);
        if at < rest.len() {
            assert(table[at].1 >= table[table.len() - 1].1);
        }
        assert(ranked(table) =~= table);
    }
}

} // verus!
