//! The history of runs.
//!
//! A run is kept in `<root>/<group>/<run id>/`, where the group is the alias of
//! its model, or the model itself. An index lists all runs; older runs may lie
//! directly in `<root>/<run id>/`.

use crate::binary64::Real;
use crate::config::{opt_view, RunConfig, RunStatus};
use crate::error::Error;
use crate::json::{get, json_value, parse_json, value_tree, Json};
use crate::runner::metrics::{n_failed, MetricsAggregator};
use crate::text::{
    chars_of, insert_ordered, is_space, ordered, same_text, trim, trimmed, trimmed_end,
    trimmed_start, views,
};
use vstd::prelude::*;

verus! {

/// One run in the index.
#[derive(Debug)]
pub struct HistoryEntry {
    pub run_id: String,
    /// Local start time, in RFC 3339 notation.
    pub timestamp: String,
    /// The same instant, in nanoseconds since the Unix epoch.
    pub instant: i128,
    pub target: String,
    /// `None` in old indexes.
    pub model: Option<String>,
    pub model_alias: Option<String>,
    pub rps: Real,
    pub duration_secs: u64,
    pub status: RunStatus,
    pub tag: Option<String>,
    pub total_requests: u64,
    pub error_count: u64,
}

impl Clone for HistoryEntry {
    fn clone(&self) -> (r: Self)
        ensures
            r == *self,
    {
        HistoryEntry {
            run_id: self.run_id.clone(),
            timestamp: self.timestamp.clone(),
            instant: self.instant,
            target: self.target.clone(),
            model: self.model.clone(),
            model_alias: self.model_alias.clone(),
            rps: self.rps,
            duration_secs: self.duration_secs,
            status: self.status,
            tag: self.tag.clone(),
            total_requests: self.total_requests,
            error_count: self.error_count,
        }
    }
}

/// Characters that a directory name may hold.
pub open spec fn safe_char(c: char) -> bool {
    ||| 'a' <= c <= 'z'
    ||| 'A' <= c <= 'Z'
    ||| '0' <= c <= '9'
    ||| c == '.'
    ||| c == '_'
    ||| c == '-'
}

/// A name as a directory name: trimmed, with every other character replaced.
pub open spec fn sanitized(name: Seq<char>) -> Seq<char> {
    let text = trimmed(name);
    if text.len() == 0 {
        "_unnamed_"@
    } else {
        text.map_values(
            |c: char|
                if safe_char(c) {
                    c
                } else {
                    '_'
                },
        )
    }
}

fn is_safe(c: char) -> (r: bool)
    ensures
        r == safe_char(c),
{
    ('a' <= c && c <= 'z') || ('A' <= c && c <= 'Z') || ('0' <= c && c <= '9') || c == '.' || c
        == '_' || c == '-'
}

/// Makes a model name or an alias safe to use as a directory name.
pub fn sanitize_model_dir(model: &str) -> (r: String)
    ensures
        r@ == sanitized(model@),
{
    let text = trim(model);
    let chars = chars_of(text.as_str());
    if chars.len() == 0 {
        return "_unnamed_".to_owned();
    }
    let mut out = String::new();
    let mut i: usize = 0;
    while i < chars.len()
        invariant
            i <= chars@.len(),
            chars@ == trimmed(model@),
            chars@.len() > 0,
            out@ == sanitized(model@).take(i as int),
        decreases chars@.len() - i,
    {
        if is_safe(chars[i]) {
            out.push(chars[i]);
        } else {
            out.push('_');
        }
        proof {
            assert(out@ =~= sanitized(model@).take(i + 1));
        }
        i += 1;
    }
    proof {
        assert(out@ =~= sanitized(model@));
    }
    out
}

/// A directory name holds something, and only safe characters: no separator
/// among them.
pub proof fn sanitized_names_are_safe(name: Seq<char>)
    ensures
        sanitized(name).len() > 0,
        forall|i: int| 0 <= i < sanitized(name).len() ==> safe_char(#[trigger] sanitized(name)[i]),
{
    reveal_strlit("_unnamed_");
}

proof fn nothing_to_trim(s: Seq<char>)
    requires
        forall|i: int| 0 <= i < s.len() ==> safe_char(#[trigger] s[i]),
    ensures
        trimmed(s) == s,
{
    if s.len() > 0 {
        assert(safe_char(s[0]));
        assert(safe_char(s.last()));
        assert(!is_space(s[0]));
        assert(!is_space(s.last()));
        assert(trimmed_start(s) == s);
        assert(trimmed_end(s) == s);
    }
}

/// A directory name is its own directory name.
pub proof fn sanitizing_twice_changes_nothing(name: Seq<char>)
    ensures
        sanitized(sanitized(name)) == sanitized(name),
{
    let s = sanitized(name);
    sanitized_names_are_safe(name);
    nothing_to_trim(s);
    assert(sanitized(s) =~= s);
}

/// The directories under the root that lead to a run.
pub open spec fn run_path(group_key: Seq<char>, run_id: Seq<char>) -> Seq<Seq<char>> {
    seq![sanitized(group_key), run_id]
}

/// The directories under the root that lead to a run: its group and its id.
pub fn run_dir(group_key: &str, run_id: &str) -> (r: Vec<String>)
    ensures
        views(r@) == run_path(group_key@, run_id@),
{
    let mut out: Vec<String> = Vec::new();
    out.push(sanitize_model_dir(group_key));
    out.push(run_id.to_owned());
    proof {
        assert(views(out@) =~= run_path(group_key@, run_id@));
    }
    out
}

/// The group of a run: the alias where it holds something, else the model.
pub open spec fn group_key(model: Seq<char>, alias: Option<Seq<char>>) -> Seq<char> {
    match alias {
        Some(alias) if trimmed(alias).len() > 0 => alias,
        _ => model,
    }
}

/// The group of a run, which says where it is kept and what it is compared
/// with.
pub fn effective_group_key<'a>(model: &'a str, alias: Option<&'a str>) -> (r: &'a str)
    ensures
        r@ == group_key(
            model@,
            match alias {
                Some(a) => Some(a@),
                None => None,
            },
        ),
{
    match alias {
        Some(a) => if trim(a).as_str().is_empty() {
            model
        } else {
            a
        },
        None => model,
    }
}

impl HistoryEntry {
    /// The group of this run; empty where neither a model nor an alias is known.
    pub open spec fn group(self) -> Seq<char> {
        group_key(
            match self.model {
                Some(m) => m@,
                None => ""@,
            },
            opt_view(self.model_alias),
        )
    }

    /// The group of this run.
    pub fn group_key(&self) -> (r: String)
        ensures
            r@ == self.group(),
    {
        let model = match &self.model {
            Some(m) => m.as_str(),
            None => "",
        };
        match &self.model_alias {
            Some(a) => effective_group_key(model, Some(a.as_str())).to_owned(),
            None => effective_group_key(model, None).to_owned(),
        }
    }
}

/// The index entry of a finished run.
pub open spec fn describes_run(
    e: HistoryEntry,
    run_id: Seq<char>,
    cfg: RunConfig,
    instant: i128,
    status: RunStatus,
) -> bool {
    &&& e.run_id@ == run_id
    &&& e.timestamp@ == cfg.started_at@
    &&& e.instant == instant
    &&& e.target@ == cfg.target@
    &&& opt_view(e.model) == Some(cfg.model@)
    &&& opt_view(e.model_alias) == opt_view(cfg.model_alias)
    &&& e.rps == cfg.target_rps
    &&& e.duration_secs == cfg.duration_secs
    &&& e.status == status
    &&& opt_view(e.tag) == opt_view(cfg.tag)
}

/// Makes the index entry of a finished run, which started at `instant`.
pub fn history_entry(
    run_id: &str,
    config: &RunConfig,
    instant: i128,
    metrics: &MetricsAggregator,
    status: RunStatus,
) -> (r: HistoryEntry)
    requires
        metrics.wf(),
    ensures
        describes_run(r, run_id@, *config, instant, status),
        r.total_requests == metrics@.records.len(),
        r.error_count == n_failed(metrics@.records),
{
    HistoryEntry {
        run_id: run_id.to_owned(),
        timestamp: config.started_at.clone(),
        instant,
        target: config.target.clone(),
        model: Some(config.model.clone()),
        model_alias: config.model_alias.clone(),
        rps: config.target_rps,
        duration_secs: config.duration_secs,
        status,
        tag: config.tag.clone(),
        total_requests: metrics.total_requests(),
        error_count: metrics.error_count(),
    }
}

/// Makes an index entry of what a run's directory tells: its outcome and its
/// counts are not known. A configuration without a model takes the name of the
/// directory above.
pub fn scanned_entry(run_id: &str, model_dir: &str, config: &RunConfig, instant: i128) -> (r:
    HistoryEntry)
    ensures
        r.run_id@ == run_id@,
        r.timestamp@ == config.started_at@,
        r.instant == instant,
        r.target@ == config.target@,
        opt_view(r.model) == Some(
            if config.model@.len() == 0 {
                model_dir@
            } else {
                config.model@
            },
        ),
        opt_view(r.model_alias) == opt_view(config.model_alias),
        r.rps == config.target_rps,
        r.duration_secs == config.duration_secs,
        r.status == RunStatus::Completed,
        opt_view(r.tag) == opt_view(config.tag),
        r.total_requests == 0,
        r.error_count == 0,
{
    let model = if config.model.as_str().is_empty() {
        model_dir.to_owned()
    } else {
        config.model.clone()
    };
    HistoryEntry {
        run_id: run_id.to_owned(),
        timestamp: config.started_at.clone(),
        instant,
        target: config.target.clone(),
        model: Some(model),
        model_alias: config.model_alias.clone(),
        rps: config.target_rps,
        duration_secs: config.duration_secs,
        status: RunStatus::Completed,
        tag: config.tag.clone(),
        total_requests: 0,
        error_count: 0,
    }
}

/// The entry under `run_id` from `from` on: the first one.
pub open spec fn found(index: Seq<(String, HistoryEntry)>, run_id: Seq<char>, from: int) -> Option<
    HistoryEntry,
>
    decreases index.len() - from,
{
    if from >= index.len() {
        None
    } else if index[from].0@ == run_id {
        Some(index[from].1)
    } else {
        found(index, run_id, from + 1)
    }
}

/// Looks up a run in the index, where there is one.
pub fn lookup_index(index: &Option<Vec<(String, HistoryEntry)>>, run_id: &str) -> (r: Option<
    HistoryEntry,
>)
    ensures
        r == (match index {
            Some(index) => found(index@, run_id@, 0),
            None => None,
        }),
{
    if let Some(list) = index {
        let mut i: usize = 0;
        while i < list.len()
            invariant
                i <= list@.len(),
                *index == Some(*list),
                found(list@, run_id@, 0) == found(list@, run_id@, i as int),
            decreases list@.len() - i,
        {
            if same_text(list[i].0.as_str(), run_id) {
                return Some(list[i].1.clone());
            }
            i += 1;
        }
    }
    None
}

/// Two indexes that agree below `at` find the same there.
proof fn found_in_prefix(
    a: Seq<(String, HistoryEntry)>,
    b: Seq<(String, HistoryEntry)>,
    at: int,
    run_id: Seq<char>,
    from: int,
)
    requires
        0 <= from <= at <= a.len(),
        at <= b.len(),
        forall|i: int| 0 <= i < at ==> a[i] == b[i],
        found(a, run_id, at) == found(b, run_id, at),
    ensures
        found(a, run_id, from) == found(b, run_id, from),
    decreases at - from,
{
    if from < at {
        assert(a[from] == b[from]);
        found_in_prefix(a, b, at, run_id, from + 1);
    }
}

/// Puts a run into the index, in place of an earlier entry under its id. It is
/// found there afterwards, and every other run is found as before.
pub fn insert_entry(index: &mut Vec<(String, HistoryEntry)>, run_id: &str, entry: HistoryEntry)
    ensures
        found(final(index)@, run_id@, 0) == Some(entry),
        forall|other: Seq<char>|
            other != run_id@ ==> #[trigger] found(final(index)@, other, 0) == found(
                old(index)@,
                other,
                0,
            ),
{
    let ghost before = index@;
    let mut i: usize = 0;
    while i < index.len()
        invariant
            i <= index@.len(),
            index@ == before,
            before == old(index)@,
            forall|j: int| 0 <= j < i ==> (#[trigger] index@[j]).0@ != run_id@,
        decreases index@.len() - i,
    {
        if same_text(index[i].0.as_str(), run_id) {
            index.set(i, (run_id.to_owned(), entry));
            proof {
                let after = index@;
                first_is_found(after, run_id@, i as int, 0);
                assert forall|other: Seq<char>| other != run_id@ implies #[trigger] found(
                    after,
                    other,
                    0,
                ) == found(before, other, 0) by {
                    tails_agree(before, after, i + 1, other, i + 1);
                    found_in_prefix(before, after, i as int, other, 0);
                }
            }
            return;
        }
        i += 1;
    }
    index.push((run_id.to_owned(), entry));
    proof {
        let after = index@;
        first_is_found(after, run_id@, i as int, 0);
        assert forall|other: Seq<char>| other != run_id@ implies #[trigger] found(after, other, 0)
            == found(before, other, 0) by {
            assert(found(after, other, i + 1) is None);
            assert(found(after, other, i as int) is None);
            found_in_prefix(before, after, i as int, other, 0);
        }
    }
}

proof fn first_is_found(
    index: Seq<(String, HistoryEntry)>,
    run_id: Seq<char>,
    at: int,
    from: int,
)
    requires
        0 <= from <= at < index.len(),
        index[at].0@ == run_id,
        forall|j: int| 0 <= j < at ==> (#[trigger] index[j]).0@ != run_id,
    ensures
        found(index, run_id, from) == Some(index[at].1),
    decreases at - from,
{
    if from < at {
        assert(index[from].0@ != run_id);
        first_is_found(index, run_id, at, from + 1);
    }
}

proof fn tails_agree(
    a: Seq<(String, HistoryEntry)>,
    b: Seq<(String, HistoryEntry)>,
    at: int,
    run_id: Seq<char>,
    from: int,
)
    requires
        at <= from,
        a.len() == b.len(),
        forall|i: int| at <= i < a.len() ==> a[i] == b[i],
        0 <= at,
    ensures
        found(a, run_id, from) == found(b, run_id, from),
    decreases a.len() - from,
{
    if from < a.len() {
        tails_agree(a, b, at, run_id, from + 1);
    }
}

/// The first place from `from` on with an earlier instant.
pub open spec fn place(entries: Seq<HistoryEntry>, instant: i128, from: int) -> int
    decreases entries.len() - from,
{
    if from >= entries.len() {
        entries.len() as int
    } else if entries[from].instant < instant {
        from
    } else {
        place(entries, instant, from + 1)
    }
}

/// The entries by falling instant; equal ones keep their order.
pub open spec fn newest_first(entries: Seq<HistoryEntry>) -> Seq<HistoryEntry>
    decreases entries.len(),
{
    if entries.len() == 0 {
        Seq::empty()
    } else {
        let before = newest_first(entries.drop_last());
        before.insert(place(before, entries.last().instant, 0), entries.last())
    }
}

/// In falling order of the instants.
pub open spec fn falling(entries: Seq<HistoryEntry>) -> bool {
    forall|i: int, j: int| 0 <= i < j < entries.len() ==> entries[i].instant >= entries[j].instant
}

proof fn place_splits(entries: Seq<HistoryEntry>, instant: i128, from: int)
    requires
        0 <= from <= entries.len(),
    ensures
        from <= place(entries, instant, from) <= entries.len(),
        forall|i: int|
            from <= i < place(entries, instant, from) ==> (#[trigger] entries[i]).instant
                >= instant,
        place(entries, instant, from) < entries.len() ==> entries[place(
            entries,
            instant,
            from,
        )].instant < instant,
    decreases entries.len() - from,
{
    if from < entries.len() && entries[from].instant >= instant {
        place_splits(entries, instant, from + 1);
    }
}

/// Sorting neither adds nor loses a run, and the newest comes first.
pub proof fn sorting_orders_the_runs(entries: Seq<HistoryEntry>)
    ensures
        falling(newest_first(entries)),
        newest_first(entries).to_multiset() == entries.to_multiset(),
        newest_first(entries).len() == entries.len(),
    decreases entries.len(),
{
    broadcast use vstd::seq_lib::group_to_multiset_ensures;

    if entries.len() > 0 {
        let before = newest_first(entries.drop_last());
        let last = entries.last();
        sorting_orders_the_runs(entries.drop_last());
        let at = place(before, last.instant, 0);
        place_splits(before, last.instant, 0);
        assert(entries =~= entries.drop_last().push(last));
        let after = newest_first(entries);
        assert(after =~= before.insert(at, last));
        vstd::seq_lib::to_multiset_insert(before, at, last);
        assert forall|i: int, j: int| 0 <= i < j < after.len() implies after[i].instant
            >= after[j].instant by {
            if i > at {
                assert(after[i] == before[i - 1]);
            } else if i < at {
                assert(after[i] == before[i]);
            }
            if j > at {
                assert(after[j] == before[j - 1]);
            } else if j < at {
                assert(after[j] == before[j]);
            }
        }
    }
}

/// A sorted list stays as it is.
pub proof fn sorting_twice_changes_nothing(entries: Seq<HistoryEntry>)
    requires
        falling(entries),
    ensures
        newest_first(entries) == entries,
    decreases entries.len(),
{
    if entries.len() > 0 {
        let rest = entries.drop_last();
        let last = entries.last();
        sorting_twice_changes_nothing(rest);
        place_splits(rest, last.instant, 0);
        let at = place(rest, last.instant, 0);
        if at < rest.len() {
            assert(entries[at].instant >= entries[entries.len() - 1].instant);
        }
        assert(newest_first(entries) =~= entries);
    }
}

/// Lists the runs, the newest first.
pub fn list_runs(entries: &Vec<HistoryEntry>) -> (r: Vec<HistoryEntry>)
    ensures
        r@ == newest_first(entries@),
{
    let mut out: Vec<HistoryEntry> = Vec::new();
    let mut i: usize = 0;
    while i < entries.len()
        invariant
            i <= entries@.len(),
            out@ == newest_first(entries@.take(i as int)),
        decreases entries@.len() - i,
    {
        let ghost before = out@;
        let instant = entries[i].instant;
        let mut at: usize = 0;
        while at < out.len() && out[at].instant >= instant
            invariant
                at <= out@.len(),
                out@ == before,
                place(before, instant, 0) == place(before, instant, at as int),
            decreases out@.len() - at,
        {
            at += 1;
        }
        out.insert(at, entries[i].clone());
        proof {
            assert(entries@.take(i + 1).drop_last() =~= entries@.take(i as int));
        }
        i += 1;
    }
    proof {
        assert(entries@.take(i as int) =~= entries@);
    }
    out
}

/// What is asked of a run.
#[derive(Debug, Clone, Copy, PartialEq, Eq, Structural)]
pub enum Feature {
    /// The URL it ran against.
    Target,
    /// The model, whatever the alias.
    Model,
    /// The group.
    Group,
}

impl HistoryEntry {
    /// Whether a feature of this run is `wanted`.
    pub open spec fn has(self, what: Feature, wanted: Seq<char>) -> bool {
        match what {
            Feature::Target => self.target@ == wanted,
            Feature::Model => opt_view(self.model) == Some(wanted),
            Feature::Group => self.group() == wanted,
        }
    }

    fn is_wanted(&self, what: Feature, wanted: &str) -> (r: bool)
        ensures
            r == self.has(what, wanted@),
    {
        match what {
            Feature::Target => same_text(self.target.as_str(), wanted),
            Feature::Model => match &self.model {
                Some(m) => same_text(m.as_str(), wanted),
                None => false,
            },
            Feature::Group => same_text(self.group_key().as_str(), wanted),
        }
    }
}

/// The runs that have what is wanted, without an excluded one, in order.
pub open spec fn selected(
    entries: Seq<HistoryEntry>,
    what: Feature,
    wanted: Seq<char>,
    exclude: Option<Seq<char>>,
) -> Seq<HistoryEntry> {
    entries.filter(|e: HistoryEntry| e.has(what, wanted) && Some(e.run_id@) != exclude)
}

fn select(
    entries: &Vec<HistoryEntry>,
    what: Feature,
    wanted: &str,
    exclude_run_id: &Option<String>,
) -> (r: Vec<HistoryEntry>)
    ensures
        r@ == selected(newest_first(entries@), what, wanted@, opt_view(*exclude_run_id)),
{
    let all = list_runs(entries);
    let mut out: Vec<HistoryEntry> = Vec::new();
    let mut i: usize = 0;
    let ghost exclude = opt_view(*exclude_run_id);
    proof {
        reveal(Seq::filter);
    }
    while i < all.len()
        invariant
            i <= all@.len(),
            all@ == newest_first(entries@),
            exclude == opt_view(*exclude_run_id),
            out@ == selected(all@.take(i as int), what, wanted@, exclude),
        decreases all@.len() - i,
    {
        let excluded = match exclude_run_id {
            Some(id) => same_text(all[i].run_id.as_str(), id.as_str()),
            None => false,
        };
        proof {
            reveal(Seq::filter);
            assert(all@.take(i + 1).drop_last() =~= all@.take(i as int));
            assert(all@.take(i + 1).last() == all@[i as int]);
        }
        if all[i].is_wanted(what, wanted) && !excluded {
            out.push(all[i].clone());
        }
        i += 1;
    }
    proof {
        assert(all@.take(i as int) =~= all@);
    }
    out
}

/// Lists the runs against a URL, the newest first, without the excluded one.
pub fn list_runs_by_target(
    entries: &Vec<HistoryEntry>,
    target: &str,
    exclude_run_id: &Option<String>,
) -> (r: Vec<HistoryEntry>)
    ensures
        r@ == selected(
            newest_first(entries@),
            Feature::Target,
            target@,
            opt_view(*exclude_run_id),
        ),
{
    select(entries, Feature::Target, target, exclude_run_id)
}

/// Lists the runs of exactly one model, whatever their alias, the newest first,
/// without the excluded one.
pub fn list_runs_by_model(
    entries: &Vec<HistoryEntry>,
    model: &str,
    exclude_run_id: &Option<String>,
) -> (r: Vec<HistoryEntry>)
    ensures
        r@ == selected(
            newest_first(entries@),
            Feature::Model,
            model@,
            opt_view(*exclude_run_id),
        ),
{
    select(entries, Feature::Model, model, exclude_run_id)
}

/// Lists the runs of one group, the newest first, without the excluded one. A
/// run without an alias belongs to the group of its model.
pub fn list_runs_by_alias(
    entries: &Vec<HistoryEntry>,
    group_key: &str,
    exclude_run_id: &Option<String>,
) -> (r: Vec<HistoryEntry>)
    ensures
        r@ == selected(
            newest_first(entries@),
            Feature::Group,
            group_key@,
            opt_view(*exclude_run_id),
        ),
{
    select(entries, Feature::Group, group_key, exclude_run_id)
}

/// Whether some run of the list belongs to the group `key`.
pub open spec fn has_group(entries: Seq<HistoryEntry>, key: Seq<char>) -> bool {
    exists|i: int| 0 <= i < entries.len() && (#[trigger] entries[i]).group() == key
}

/// Lists the groups that have a run, in order, each once. Runs of which neither
/// a model nor an alias is known belong to none.
pub fn list_group_keys(entries: &Vec<HistoryEntry>) -> (r: Vec<String>)
    ensures
        ordered(views(r@)),
        forall|key: Seq<char>| #[trigger]
            views(r@).contains(key) <==> key.len() > 0 && has_group(entries@, key),
{
    let mut out: Vec<String> = Vec::new();
    let mut i: usize = 0;
    while i < entries.len()
        invariant
            i <= entries@.len(),
            ordered(views(out@)),
            forall|key: Seq<char>| #[trigger]
                views(out@).contains(key) <==> key.len() > 0 && has_group(
                    entries@.take(i as int),
                    key,
                ),
        decreases entries@.len() - i,
    {
        let ghost before = views(out@);
        let key = entries[i].group_key();
        let ghost k = key@;
        if !key.as_str().is_empty() {
            insert_ordered(&mut out, key);
        }
        proof {
            let a = entries@.take(i as int);
            let b = entries@.take(i + 1);
            assert forall|x: Seq<char>| #[trigger]
                has_group(b, x) <==> (has_group(a, x) || x == k) by {
                if has_group(b, x) {
                    let j = choose|j: int| 0 <= j < b.len() && (#[trigger] b[j]).group() == x;
                    if j < i {
                        assert(a[j].group() == x);
                    }
                }
                if has_group(a, x) {
                    let j = choose|j: int| 0 <= j < a.len() && (#[trigger] a[j]).group() == x;
                    assert(b[j].group() == x);
                }
                if x == k {
                    assert(b[i as int].group() == x);
                }
            }
        }
        i += 1;
    }
    proof {
        assert(entries@.take(i as int) =~= entries@);
    }
    out
}

/// Where a run is kept.
#[derive(Debug, Clone, Copy, PartialEq, Eq, Structural)]
pub enum RunPlace {
    /// In the directory of its group.
    Grouped,
    /// Directly under the root.
    Flat,
}

/// The group under which the index has a run; `None` where neither a model nor
/// an alias is known. A run without a name for its model has an empty group,
/// which has a directory like any other.
pub open spec fn listed_group(entry: Option<HistoryEntry>) -> Option<Seq<char>> {
    match entry {
        Some(e) if e.model is Some || e.model_alias is Some => Some(e.group()),
        _ => None,
    }
}

/// The group under which the index has a run.
pub fn indexed_group(entry: &Option<HistoryEntry>) -> (r: Option<String>)
    ensures
        opt_view(r) == listed_group(*entry),
{
    match entry {
        Some(e) => if e.model.is_some() || e.model_alias.is_some() {
            Some(e.group_key())
        } else {
            None
        },
        None => None,
    }
}

/// Decides where to load a run from: the directory of its group where the index
/// has one and it is there, else the flat one where that is there.
pub fn load_run(
    entry: &Option<HistoryEntry>,
    run_id: &str,
    grouped_exists: bool,
    flat_exists: bool,
) -> (r: Result<RunPlace, Error>)
    ensures
        match r {
            Ok(RunPlace::Grouped) => listed_group(*entry) is Some && grouped_exists,
            Ok(RunPlace::Flat) => !(listed_group(*entry) is Some && grouped_exists) && flat_exists,
            Err(e) => {
                &&& !(listed_group(*entry) is Some && grouped_exists)
                &&& !flat_exists
                &&& e matches Error::RunNotFound(id) && id@ == run_id@
            },
        },
{
    if indexed_group(entry).is_some() && grouped_exists {
        Ok(RunPlace::Grouped)
    } else if flat_exists {
        Ok(RunPlace::Flat)
    } else {
        Err(Error::RunNotFound(run_id.to_owned()))
    }
}

/// Reads the metrics of a saved run from the text of its file.
pub fn read_metrics(text: &str) -> (r: Result<serde_json::Value, Error>)
    ensures
        match r {
            Ok(v) => json_value(text@) == Ok::<Json, Seq<char>>(value_tree(v)),
            Err(e) => e matches Error::Json(msg) && json_value(text@) == Err::<Json, Seq<char>>(
                msg@,
            ),
        },
{
    match parse_json(text) {
        Ok(v) => Ok(v),
        Err(msg) => Err(Error::Json(msg)),
    }
}

/// The requests in the metrics of a saved run; `None` where it kept none.
pub fn saved_requests<'a>(metrics: &'a serde_json::Value) -> (r: Option<&'a serde_json::Value>)
    ensures
        match r {
            Some(v) => value_tree(*metrics).field("per_request"@) == Some(value_tree(*v)),
            None => value_tree(*metrics).field("per_request"@) is None,
        },
{
    get(metrics, "per_request")
}

/// The outcome of a run that is compared: that of the index, and completed
/// where the index does not say.
pub fn lookup_status(index: &Option<Vec<(String, HistoryEntry)>>, run_id: &str) -> (r: RunStatus)
    ensures
        r == (match index {
            Some(index) => match found(index@, run_id@, 0) {
                Some(e) => e.status,
                None => RunStatus::Completed,
            },
            None => RunStatus::Completed,
        }),
{
    match lookup_index(index, run_id) {
        Some(e) => e.status,
        None => RunStatus::Completed,
    }
}

/// A saved run is found where it was put: it lies in its group's directory, and
/// the index leads there.
pub proof fn a_saved_run_is_found(
    index: Seq<(String, HistoryEntry)>,
    e: HistoryEntry,
    cfg: RunConfig,
    run_id: Seq<char>,
    instant: i128,
    status: RunStatus,
)
    requires
        describes_run(e, run_id, cfg, instant, status),
        found(index, run_id, 0) == Some(e),
    ensures
        listed_group(found(index, run_id, 0)) == Some(
            group_key(cfg.model@, opt_view(cfg.model_alias)),
        ),
        run_path(listed_group(found(index, run_id, 0)).unwrap(), run_id) == run_path(
            group_key(cfg.model@, opt_view(cfg.model_alias)),
            run_id,
        ),
{
}

/// Runs that share an alias share a directory, whatever their models.
pub proof fn an_alias_groups_models(a: RunConfig, b: RunConfig, run_id: Seq<char>)
    requires
        opt_view(a.model_alias) == opt_view(b.model_alias),
        opt_view(a.model_alias) is Some,
        trimmed(opt_view(a.model_alias).unwrap()).len() > 0,
    ensures
        run_path(group_key(a.model@, opt_view(a.model_alias)), run_id) == run_path(
            group_key(b.model@, opt_view(b.model_alias)),
            run_id,
        ),
{
}

/// Rendering the dashboard of a group is left to an explicit request, so this
/// does nothing, and never stands in the way of saving a run.
pub fn regenerate_dashboard_for_group(_root: &str, _group_key: &str) -> (r: Result<(), Error>)
    ensures
        r is Ok,
{
    Ok(())
}

/// No run in the list is older than one behind it.
pub proof fn newer_runs_come_first(entries: Seq<HistoryEntry>, i: int, j: int)
    requires
        0 <= i < j < newest_first(entries).len(),
    ensures
        newest_first(entries)[i].instant >= newest_first(entries)[j].instant,
        newest_first(entries).len() == entries.len(),
        entries.contains(newest_first(entries)[i]),
{
    sorting_orders_the_runs(entries);
    let sorted = newest_first(entries);
    entries.to_multiset_ensures();
    sorted.to_multiset_ensures();
    assert(sorted.contains(sorted[i]));
    assert(sorted.to_multiset().count(sorted[i]) > 0);
}

/// A run is found by its id: the first entry under it is the one, and without
/// such an entry there is none.
pub proof fn the_first_entry_under_an_id_is_found(
    index: Seq<(String, HistoryEntry)>,
    run_id: Seq<char>,
    k: int,
)
    requires
        0 <= k <= index.len(),
        forall|i: int| 0 <= i < k ==> (#[trigger] index[i]).0@ != run_id,
        k < index.len() ==> index[k].0@ == run_id,
    ensures
        k < index.len() ==> found(index, run_id, 0) == Some(index[k].1),
        k == index.len() ==> found(index, run_id, 0) is None,
{
    other_ids_are_passed(index, run_id, 0, k);
}

proof fn other_ids_are_passed(
    index: Seq<(String, HistoryEntry)>,
    run_id: Seq<char>,
    from: int,
    k: int,
)
    requires
        0 <= from <= k <= index.len(),
        forall|i: int| from <= i < k ==> (#[trigger] index[i]).0@ != run_id,
    ensures
        found(index, run_id, from) == found(index, run_id, k),
    decreases k - from,
{
    if from < k {
        assert(index[from].0@ != run_id);
        other_ids_are_passed(index, run_id, from + 1, k);
    }
}

/// Runs are selected by their target, by their model or by the group they are
/// kept in: exactly those that have it, without the one that is left out.
pub proof fn runs_are_selected_by_what_they_have(
    entries: Seq<HistoryEntry>,
    wanted: Seq<char>,
    exclude: Option<Seq<char>>,
    e: HistoryEntry,
)
    requires
        entries.contains(e),
    ensures
        selected(entries, Feature::Target, wanted, exclude).contains(e) <==> e.target@ == wanted
            && Some(e.run_id@) != exclude,
        selected(entries, Feature::Model, wanted, exclude).contains(e) <==> e.model is Some
            && e.model.unwrap()@ == wanted && Some(e.run_id@) != exclude,
        selected(entries, Feature::Group, wanted, exclude).contains(e) <==> (match e.model_alias {
            Some(alias) if trimmed(alias@).len() > 0 => alias@ == wanted,
            _ => match e.model {
                Some(model) => model@ == wanted,
                None => wanted == ""@,
            },
        }) && Some(e.run_id@) != exclude,
{
    let k = entries.index_of(e);
    selection(entries, Feature::Target, wanted, exclude, e, k);
    selection(entries, Feature::Model, wanted, exclude, e, k);
    selection(entries, Feature::Group, wanted, exclude, e, k);
}

proof fn selection(
    entries: Seq<HistoryEntry>,
    what: Feature,
    wanted: Seq<char>,
    exclude: Option<Seq<char>>,
    e: HistoryEntry,
    k: int,
)
    requires
        0 <= k < entries.len(),
        entries[k] == e,
    ensures
        selected(entries, what, wanted, exclude).contains(e) <==> e.has(what, wanted) && Some(
            e.run_id@,
        ) != exclude,
{
    let wants = |x: HistoryEntry| x.has(what, wanted) && Some(x.run_id@) != exclude;
    if wants(e) {
        entries.lemma_filter_contains(wants, k);
    }
    if entries.filter(wants).contains(e) {
        let i = entries.filter(wants).index_of(e);
        entries.lemma_filter_pred(wants, i);
    }
}

/// Runs are grouped under their alias, or, where it is missing or blank, under
/// their model; the group names the directory of the run.
pub proof fn runs_are_grouped_by_alias_or_model(
    model: Seq<char>,
    alias: Option<Seq<char>>,
    run_id: Seq<char>,
)
    ensures
        alias matches Some(name) ==> (trimmed(name).len() > 0 ==> group_key(model, alias) == name),
        alias matches Some(name) ==> (trimmed(name).len() == 0 ==> group_key(model, alias)
            == model),
        alias is None ==> group_key(model, alias) == model,
        run_path(group_key(model, alias), run_id).len() == 2,
        run_path(group_key(model, alias), run_id)[0] == sanitized(group_key(model, alias)),
        run_path(group_key(model, alias), run_id)[1] == run_id,
{
}

/// A name for a directory keeps letters, digits, dots, underscores and dashes
/// where they stand, and has an underscore in every other place.
pub proof fn safe_characters_keep_their_place(name: Seq<char>, i: int)
    requires
        0 <= i < trimmed(name).len(),
    ensures
        sanitized(name).len() == trimmed(name).len(),
        ({
            let c = trimmed(name)[i];
            let kept = 'a' <= c <= 'z' || 'A' <= c <= 'Z' || '0' <= c <= '9' || c == '.' || c == '_'
                || c == '-';
            &&& kept ==> sanitized(name)[i] == c
            &&& !kept ==> sanitized(name)[i] == '_'
        }),
{
}

/// An entry of the history says of a run what its configuration says.
pub proof fn an_entry_describes_its_run(
    e: HistoryEntry,
    run_id: Seq<char>,
    cfg: RunConfig,
    instant: i128,
    status: RunStatus,
)
    requires
        describes_run(e, run_id, cfg, instant, status),
    ensures
        e.run_id@ == run_id,
        e.timestamp@ == cfg.started_at@,
        e.instant == instant,
        e.target@ == cfg.target@,
        e.model is Some && e.model.unwrap()@ == cfg.model@,
        cfg.model_alias matches Some(alias) ==> e.model_alias is Some && e.model_alias.unwrap()@
            == alias@,
        cfg.model_alias is None ==> e.model_alias is None,
        e.rps == cfg.target_rps,
        e.duration_secs == cfg.duration_secs,
        e.status == status,
        cfg.tag matches Some(tag) ==> e.tag is Some && e.tag.unwrap()@ == tag@,
{
}

/// A group has runs where some run is kept in it. An entry without a model and
/// without an alias belongs to none.
pub proof fn a_group_is_that_of_its_runs(entries: Seq<HistoryEntry>, i: int, key: Seq<char>)
    ensures
        0 <= i < entries.len() ==> has_group(entries, entries[i].group()),
        (forall|k: int| 0 <= k < entries.len() ==> (#[trigger] entries[k]).group() != key)
            ==> !has_group(entries, key),
        listed_group(None) is None,
        0 <= i < entries.len() ==> {
            let e = entries[i];
            &&& e.model is None && e.model_alias is None ==> listed_group(Some(e)) is None
            &&& e.model is Some || e.model_alias is Some ==> listed_group(Some(e)) == Some(
                e.group(),
            )
            &&& e.model_alias matches Some(alias) ==> (trimmed(alias@).len() > 0 ==> e.group()
                == alias@)
            &&& e.model_alias is None ==> (e.model matches Some(model) ==> e.group() == model@)
        },
{
}

/// Runs that were selected from a list with the newest first stay in that order.
pub proof fn selected_runs_stay_in_order(
    entries: Seq<HistoryEntry>,
    what: Feature,
    wanted: Seq<char>,
    exclude: Option<Seq<char>>,
    i: int,
    j: int,
)
    requires
        forall|a: int, b: int|
            0 <= a < b < entries.len() ==> (#[trigger] entries[a]).instant >= (
            #[trigger] entries[b]).instant,
        0 <= i < j < selected(entries, what, wanted, exclude).len(),
    ensures
        selected(entries, what, wanted, exclude)[i].instant >= selected(
            entries,
            what,
            wanted,
            exclude,
        )[j].instant,
    decreases entries.len(),
{
    reveal(Seq::filter);
    let wants = |e: HistoryEntry| e.has(what, wanted) && Some(e.run_id@) != exclude;
    if entries.len() > 0 {
        let rest = entries.drop_last();
        let last = entries.last();
        assert forall|a: int, b: int| 0 <= a < b < rest.len() implies (#[trigger] rest[a]).instant
            >= (#[trigger] rest[b]).instant by {
            assert(entries[a].instant >= entries[b].instant);
        }
        let before = rest.filter(wants);
        assert(selected(rest, what, wanted, exclude) == before);
        if j < before.len() {
            selected_runs_stay_in_order(rest, what, wanted, exclude, i, j);
        } else {
            rest.lemma_filter_contains_rev(wants, before[i]);
            let a = rest.index_of(before[i]);
            assert(entries[a] == rest[a]);
            assert(entries[a].instant >= entries[entries.len() - 1].instant);
        }
    }
}

} // verus!
