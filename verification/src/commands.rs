//! What the commands print, and the names of the files they write.

use crate::cli::DashboardArgs;
use crate::compare::{align_left, left_aligned};
use crate::config::{RunConfig, RunStatus};
use crate::report::summary::{align_right, right_aligned};
use crate::shown::{group_shown, shown_within, shows};
use crate::storage::history::{describes_run, has_group, list_group_keys, HistoryEntry};
use crate::text::{chars_of, decimal, decimal_text, ordered, views};
use crate::tui::{shorten, shortened};
use vstd::prelude::*;

verus! {

/// Letters, digits, dashes and underscores.
pub open spec fn plain_char(c: char) -> bool {
    ||| 'a' <= c <= 'z'
    ||| 'A' <= c <= 'Z'
    ||| '0' <= c <= '9'
    ||| c == '-'
    ||| c == '_'
}

/// A run id as a part of a file name: at most twelve characters, all of them
/// plain.
pub open spec fn short(id: Seq<char>) -> Seq<char> {
    if id.len() == 0 {
        "run"@
    } else {
        Seq::new(
            (if id.len() > 12 {
                12
            } else {
                id.len() as int
            }) as nat,
            |i: int|
                if plain_char(id[i]) {
                    id[i]
                } else {
                    '_'
                },
        )
    }
}

/// Makes a short, filesystem-friendly name of a run id.
pub fn short_id(s: &str) -> (r: String)
    ensures
        r@ == short(s@),
{
    let chars = chars_of(s);
    if chars.len() == 0 {
        return "run".to_owned();
    }
    let n: usize = if chars.len() > 12 {
        12
    } else {
        chars.len()
    };
    let mut out = String::new();
    let mut i: usize = 0;
    while i < n
        invariant
            i <= n <= chars@.len(),
            chars@ == s@,
            n == short(s@).len(),
            s@.len() > 0,
            out@ == short(s@).take(i as int),
        decreases n - i,
    {
        let c = chars[i];
        if ('a' <= c && c <= 'z') || ('A' <= c && c <= 'Z') || ('0' <= c && c <= '9') || c == '-'
            || c == '_' {
            out.push(c);
        } else {
            out.push('_');
        }
        proof {
            assert(out@ =~= short(s@).take(i + 1));
        }
        i += 1;
    }
    proof {
        assert(out@ =~= short(s@));
    }
    out
}

/// A short name holds something, at most twelve characters, and only plain ones.
pub proof fn short_names_are_plain(id: Seq<char>)
    ensures
        0 < short(id).len() <= 12,
        forall|i: int| 0 <= i < short(id).len() ==> plain_char(#[trigger] short(id)[i]),
{
    reveal_strlit("run");
}

/// The letters and digits among the first `n` characters.
pub open spec fn letters_and_digits(s: Seq<char>, n: int) -> Seq<char>
    decreases n,
{
    if n <= 0 {
        Seq::empty()
    } else {
        let before = letters_and_digits(s, n - 1);
        let c = s[n - 1];
        if 'a' <= c <= 'z' || 'A' <= c <= 'Z' || '0' <= c <= '9' {
            before.push(c)
        } else {
            before
        }
    }
}

/// A time in RFC 3339 notation without its punctuation, down to the second.
pub open spec fn compact(time: Seq<char>) -> Seq<char> {
    letters_and_digits(
        time,
        if time.len() < 19 {
            time.len() as int
        } else {
            19
        },
    )
}

fn compact_time(time: &str) -> (r: String)
    ensures
        r@ == compact(time@),
{
    let chars = chars_of(time);
    let n: usize = if chars.len() < 19 {
        chars.len()
    } else {
        19
    };
    let mut out = String::new();
    let mut i: usize = 0;
    while i < n
        invariant
            i <= n <= chars@.len(),
            chars@ == time@,
            out@ == letters_and_digits(time@, i as int),
        decreases n - i,
    {
        let c = chars[i];
        if ('a' <= c && c <= 'z') || ('A' <= c && c <= 'Z') || ('0' <= c && c <= '9') {
            out.push(c);
        }
        i += 1;
    }
    out
}

/// The name of the page that compares run `a` with run `b`, which started at
/// `started_at`.
pub open spec fn compare_page(a: Seq<char>, b: Seq<char>, started_at: Seq<char>) -> Seq<char> {
    "compare-"@ + short(a) + "-vs-"@ + short(b) + "-"@ + compact(started_at) + ".html"@
}

/// The name of the page that compares run `a` with run `b`, which started at
/// `started_at`. A comparison is written under this name, and links lead to it.
pub fn compare_filename(a: &str, b: &str, started_at: &str) -> (r: String)
    ensures
        r@ == compare_page(a@, b@, started_at@),
{
    let mut out = "compare-".to_owned();
    out.push_str(short_id(a).as_str());
    out.push_str("-vs-");
    out.push_str(short_id(b).as_str());
    out.push_str("-");
    out.push_str(compact_time(started_at).as_str());
    out.push_str(".html");
    out
}

/// The run ids and page names of at most ten other runs, in order.
pub open spec fn links_to(
    links: Seq<(String, String)>,
    self_id: Seq<char>,
    others: Seq<HistoryEntry>,
) -> bool {
    &&& links.len() == (if others.len() > 10 {
        10
    } else {
        others.len() as int
    })
    &&& forall|i: int|
        0 <= i < links.len() ==> (#[trigger] links[i]).0@ == others[i].run_id@ && links[i].1@
            == compare_page(self_id, others[i].run_id@, others[i].timestamp@)
}

/// Leads from a run to the pages that compare it with others, whether they were
/// written or not: the first ten.
pub fn discover_compare_links(self_id: &str, others: &Vec<HistoryEntry>) -> (r: Vec<
    (String, String),
>)
    ensures
        links_to(r@, self_id@, others@),
{
    let mut out: Vec<(String, String)> = Vec::new();
    let mut i: usize = 0;
    while i < others.len() && i < 10
        invariant
            i <= others@.len(),
            i <= 10,
            out@.len() == i,
            forall|j: int|
                0 <= j < i ==> (#[trigger] out@[j]).0@ == others@[j].run_id@ && out@[j].1@
                    == compare_page(self_id@, others@[j].run_id@, others@[j].timestamp@),
        decreases others@.len() - i,
    {
        let page = compare_filename(
            self_id,
            others[i].run_id.as_str(),
            others[i].timestamp.as_str(),
        );
        out.push((others[i].run_id.clone(), page));
        i += 1;
    }
    out
}

/// A link leads to the page that comparing the two runs writes: its name follows
/// from the configuration of the other run as it does from its index entry.
pub proof fn a_link_leads_to_the_written_page(
    links: Seq<(String, String)>,
    self_id: Seq<char>,
    others: Seq<HistoryEntry>,
    i: int,
    other: RunConfig,
    instant: i128,
    status: RunStatus,
)
    requires
        links_to(links, self_id, others),
        0 <= i < links.len(),
        describes_run(others[i], others[i].run_id@, other, instant, status),
    ensures
        links[i].1@ == compare_page(self_id, links[i].0@, other.started_at@),
{
}

/// One run with the numbers of its line written out.
#[derive(Debug)]
pub struct ListedRun {
    pub entry: HistoryEntry,
    /// As `YYYY-MM-DDTHH:MM:SSZ`.
    pub time: String,
    /// With two decimals.
    pub rps: String,
}

/// One line of a table with fixed columns.
pub open spec fn columns(
    id: Seq<char>,
    time: Seq<char>,
    rps: Seq<char>,
    status: Seq<char>,
    requests: Seq<char>,
    target: Seq<char>,
) -> Seq<char> {
    left_aligned(id, 36) + "  "@ + left_aligned(time, 23) + "  "@ + right_aligned(rps, 6) + "  "@
        + left_aligned(status, 11) + "  "@ + right_aligned(requests, 8) + "  "@ + target + "\n"@
}

fn columns_text(
    id: &str,
    time: &str,
    rps: &str,
    status: &str,
    requests: &str,
    target: &str,
) -> (r: String)
    ensures
        r@ == columns(id@, time@, rps@, status@, requests@, target@),
{
    let mut out = align_left(id, 36);
    out.push_str("  ");
    out.push_str(align_left(time, 23).as_str());
    out.push_str("  ");
    out.push_str(align_right(rps, 6).as_str());
    out.push_str("  ");
    out.push_str(align_left(status, 11).as_str());
    out.push_str("  ");
    out.push_str(align_right(requests, 8).as_str());
    out.push_str("  ");
    out.push_str(target);
    out.push_str("\n");
    out
}

/// The line of one run; a long target is shortened.
pub open spec fn run_line(run: ListedRun) -> Seq<char> {
    columns(
        run.entry.run_id@,
        run.time@,
        run.rps@,
        run.entry.status.label(),
        decimal(run.entry.total_requests as nat),
        shortened(run.entry.target@, 60),
    )
}

/// The lines of all runs.
pub open spec fn run_lines(runs: Seq<ListedRun>) -> Seq<char>
    decreases runs.len(),
{
    if runs.len() == 0 {
        Seq::empty()
    } else {
        run_lines(runs.drop_last()) + run_line(runs.last())
    }
}

/// The table of all runs, or a note that there is none.
pub open spec fn list_text(runs: Seq<ListedRun>) -> Seq<char> {
    if runs.len() == 0 {
        "(no runs)\n"@
    } else {
        columns("RUN ID"@, "TIMESTAMP"@, "RPS"@, "STATUS"@, "REQUESTS"@, "TARGET"@) + run_lines(
            runs,
        )
    }
}

/// Writes the table of all runs.
pub fn list_table(runs: &Vec<ListedRun>) -> (r: String)
    ensures
        r@ == list_text(runs@),
{
    if runs.len() == 0 {
        return "(no runs)\n".to_owned();
    }
    let mut lines = String::new();
    let mut i: usize = 0;
    proof {
        assert(lines@ =~= run_lines(runs@.take(0)));
    }
    while i < runs.len()
        invariant
            i <= runs@.len(),
            lines@ == run_lines(runs@.take(i as int)),
        decreases runs@.len() - i,
    {
        let run = &runs[i];
        lines.push_str(
            columns_text(
                run.entry.run_id.as_str(),
                run.time.as_str(),
                run.rps.as_str(),
                run.entry.status.as_str(),
                decimal_text(run.entry.total_requests as u128).as_str(),
                shorten(run.entry.target.as_str(), 60).as_str(),
            ).as_str(),
        );
        proof {
            assert(runs@.take(i + 1).drop_last() =~= runs@.take(i as int));
        }
        i += 1;
    }
    proof {
        assert(runs@.take(i as int) =~= runs@);
    }
    let mut out = columns_text("RUN ID", "TIMESTAMP", "RPS", "STATUS", "REQUESTS", "TARGET");
    out.push_str(lines.as_str());
    out
}

/// Picks the groups that get a dashboard: the one that was asked for, or all that
/// have a saved run.
pub fn dashboard_groups(args: &DashboardArgs, entries: &Vec<HistoryEntry>) -> (r: Vec<String>)
    ensures
        args.name matches Some(name) ==> views(r@) == seq![name@],
        args.name is None ==> ordered(views(r@)) && forall|key: Seq<char>| #[trigger]
            views(r@).contains(key) <==> key.len() > 0 && has_group(entries@, key),
{
    match &args.name {
        Some(name) => {
            let mut out: Vec<String> = Vec::new();
            out.push(name.clone());
            proof {
                assert(views(out@) =~= seq![name@]);
            }
            out
        },
        None => list_group_keys(entries),
    }
}

/// Where the artifacts of a run are.
pub fn artifacts_text(run_id: &str, dir: &str) -> (r: String)
    ensures
        r@ == "artifacts\n---------\n  run id:      "@ + run_id@ + "\n  history dir: "@ + dir@
            + "\n  report:      "@ + dir@ + "/report.html\n  summary:     "@ + dir@
            + "/summary.txt\n"@,
{
    let mut out = "artifacts\n---------\n  run id:      ".to_owned();
    out.push_str(run_id);
    out.push_str("\n  history dir: ");
    out.push_str(dir);
    out.push_str("\n  report:      ");
    out.push_str(dir);
    out.push_str("/report.html\n  summary:     ");
    out.push_str(dir);
    out.push_str("/summary.txt\n");
    out
}

/// What is said after a report was rendered again.
pub fn rerendered_text(run_id: &str, dir: &str, records: usize) -> (r: String)
    ensures
        r@ == "re-rendered report for run "@ + run_id@ + "\n  report.html: "@ + dir@
            + "/report.html\n  summary.txt: "@ + dir@ + "/summary.txt\n  records:     "@ + decimal(
            records as nat,
        ) + "\n"@,
{
    let mut out = "re-rendered report for run ".to_owned();
    out.push_str(run_id);
    out.push_str("\n  report.html: ");
    out.push_str(dir);
    out.push_str("/report.html\n  summary.txt: ");
    out.push_str(dir);
    out.push_str("/summary.txt\n  records:     ");
    out.push_str(decimal_text(records as u128).as_str());
    out.push_str("\n");
    out
}

/// The level of the log: only warnings where quiet is asked for.
pub fn log_filter<'a>(log_level: &'a str, quiet: bool) -> (r: &'a str)
    ensures
        r@ == (if quiet {
            "warn"@
        } else {
            log_level@
        }),
{
    if quiet {
        "warn"
    } else {
        log_level
    }
}

/// The columns of a line, each in its place.
pub proof fn columns_stand_in_order(run: ListedRun)
    ensures
        shows(
            run_line(run),
            left_aligned(run.entry.run_id@, 36) + "  "@ + left_aligned(run.time@, 23) + "  "@
                + right_aligned(run.rps@, 6) + "  "@ + left_aligned(run.entry.status.label(), 11)
                + "  "@ + right_aligned(decimal(run.entry.total_requests as nat), 8) + "  "@
                + shortened(run.entry.target@, 60) + "\n"@,
        ),
{
    broadcast use group_shown;

}

/// Every run has a line in the list, in the order of the runs.
pub proof fn every_run_is_listed(runs: Seq<ListedRun>, i: int, j: int)
    requires
        0 <= i <= j < runs.len(),
    ensures
        shows(list_text(runs), run_line(runs[i])),
        j == i + 1 ==> shows(list_text(runs), run_line(runs[i]) + run_line(runs[j])),
{
    broadcast use group_shown;

    a_line_is_listed(runs, i, j);
    assert(shows(list_text(runs), run_lines(runs)));
    shown_within(list_text(runs), run_lines(runs), run_line(runs[i]));
    if j == i + 1 {
        shown_within(list_text(runs), run_lines(runs), run_line(runs[i]) + run_line(runs[j]));
    }
}

proof fn a_line_is_listed(runs: Seq<ListedRun>, i: int, j: int)
    requires
        0 <= i <= j < runs.len(),
    ensures
        shows(run_lines(runs), run_line(runs[i])),
        j == i + 1 ==> shows(run_lines(runs), run_line(runs[i]) + run_line(runs[j])),
    decreases runs.len(),
{
    broadcast use group_shown;

    let rest = runs.drop_last();
    if j < runs.len() - 1 {
        a_line_is_listed(rest, i, j);
    } else {
        assert(runs.last() == runs[j]);
        if i < j {
            a_line_is_listed(rest, i, i);
            if j == i + 1 {
                assert(rest.last() == runs[i]);
                assert(run_lines(rest) == run_lines(rest.drop_last()) + run_line(runs[i]));
            }
        }
    }
}

/// The page of a comparison is named after both runs, the first one first, and
/// after the time at which the other run started.
pub proof fn a_page_is_named_after_both_runs(a: Seq<char>, b: Seq<char>, started_at: Seq<char>)
    ensures
        compare_page(a, b, started_at) == "compare-"@ + short(a) + "-vs-"@ + short(b) + "-"@
            + compact(started_at) + ".html"@,
        a.len() == 0 ==> short(a) == "run"@,
        0 < a.len() <= 12 ==> short(a).len() == a.len(),
        a.len() > 12 ==> short(a).len() == 12,
        forall|i: int|
            a.len() > 0 && 0 <= i < short(a).len() ==> {
                let c = a[i];
                let kept = 'a' <= c <= 'z' || 'A' <= c <= 'Z' || '0' <= c <= '9' || c == '-' || c
                    == '_';
                &&& kept ==> #[trigger] short(a)[i] == c
                &&& !kept ==> short(a)[i] == '_'
            },
{
}

/// A time is written compactly by the letters and digits of its first nineteen
/// characters, in order.
pub proof fn a_compact_time_keeps_letters_and_digits(time: Seq<char>)
    ensures
        compact(time) == time.take(
            if time.len() < 19 {
                time.len() as int
            } else {
                19
            },
        ).filter(|c: char| 'a' <= c <= 'z' || 'A' <= c <= 'Z' || '0' <= c <= '9'),
{
    letters_and_digits_filter(
        time,
        if time.len() < 19 {
            time.len() as int
        } else {
            19
        },
    );
}

proof fn letters_and_digits_filter(s: Seq<char>, n: int)
    requires
        0 <= n <= s.len(),
    ensures
        letters_and_digits(s, n) == s.take(n).filter(
            |c: char| 'a' <= c <= 'z' || 'A' <= c <= 'Z' || '0' <= c <= '9',
        ),
    decreases n,
{
    reveal(Seq::filter);
    if n > 0 {
        letters_and_digits_filter(s, n - 1);
        assert(s.take(n).drop_last() =~= s.take(n - 1));
    }
}

/// A report links to the first ten of the other runs, in their order, each by its
/// id and by the page of the comparison with it.
pub proof fn the_first_runs_are_linked(
    links: Seq<(String, String)>,
    self_id: Seq<char>,
    others: Seq<HistoryEntry>,
    i: int,
)
    requires
        links_to(links, self_id, others),
    ensures
        others.len() <= 10 ==> links.len() == others.len(),
        others.len() > 10 ==> links.len() == 10,
        0 <= i < links.len() ==> links[i].0@ == others[i].run_id@ && links[i].1@ == compare_page(
            self_id,
            others[i].run_id@,
            others[i].timestamp@,
        ),
{
}

} // verus!
