//! Text building blocks: decimal numbers, HTML escaping, trimming, line
//! splitting, substitution and truncation on byte limits.

use vstd::prelude::*;
use vstd::utf8::*;

verus! {

/// `String::push` appends one character.
pub assume_specification[ String::push ](s: &mut String, c: char)
    ensures
        final(s)@ == old(s)@.push(c),
;

/// `String::push_str` appends a whole string slice.
pub assume_specification[ String::push_str ](s: &mut String, tail: &str)
    ensures
        final(s)@ == old(s)@ + tail@,
;

/// The characters of `s` as a vector.
pub fn chars_of(s: &str) -> (r: Vec<char>)
    ensures
        r@ == s@,
{
    let mut out: Vec<char> = Vec::new();
    for c in it: s.chars()
        invariant
            out@ == s@.take(it.index()),
            it.seq() == s@,
    {
        proof {
            assert(s@.take(it.index() + 1) =~= s@.take(it.index()).push(s@[it.index()]));
        }
        out.push(c);
    }
    proof {
        assert(s@.take(s@.len() as int) =~= s@);
    }
    out
}

/// The characters `from..to` of `chars` as a string.
pub fn text_between(chars: &Vec<char>, from: usize, to: usize) -> (r: String)
    requires
        from <= to <= chars@.len(),
    ensures
        r@ == chars@.subrange(from as int, to as int),
{
    let mut out = String::new();
    let mut i: usize = from;
    while i < to
        invariant
            from <= i <= to <= chars@.len(),
            out@ == chars@.subrange(from as int, i as int),
        decreases to - i,
    {
        out.push(chars[i]);
        i += 1;
        proof {
            assert(chars@.subrange(from as int, i as int) =~= chars@.subrange(
                from as int,
                i - 1,
            ).push(chars@[i - 1]));
        }
    }
    out
}

/// Whether two texts hold the same characters.
pub fn same_text(a: &str, b: &str) -> (r: bool)
    ensures
        r == (a@ == b@),
{
    let x = a.as_bytes();
    let y = b.as_bytes();
    if x.len() != y.len() {
        return false;
    }
    let mut i: usize = 0;
    while i < x.len()
        invariant
            i <= x@.len(),
            x@.len() == y@.len(),
            x@.take(i as int) == y@.take(i as int),
            x@ == encode_utf8(a@),
            y@ == encode_utf8(b@),
        decreases x@.len() - i,
    {
        if x[i] != y[i] {
            proof {
                assert(x@[i as int] != y@[i as int]);
            }
            return false;
        }
        proof {
            assert(x@.take(i + 1) =~= x@.take(i as int).push(x@[i as int]));
            assert(y@.take(i + 1) =~= y@.take(i as int).push(y@[i as int]));
        }
        i += 1;
    }
    proof {
        assert(x@.take(i as int) =~= x@);
        assert(y@.take(i as int) =~= y@);
        encode_utf8_decode_utf8(a@);
        encode_utf8_decode_utf8(b@);
    }
    true
}

/// `s` without `prefix`, where it starts with it.
pub open spec fn after_prefix(s: Seq<char>, prefix: Seq<char>) -> Option<Seq<char>> {
    if prefix.len() <= s.len() && s.take(prefix.len() as int) == prefix {
        Some(s.skip(prefix.len() as int))
    } else {
        None
    }
}

/// The rest of `chars[from..to]` behind `prefix`, as the position where it
/// starts, or `None` where the range does not start with `prefix`.
pub fn skip_prefix(chars: &Vec<char>, from: usize, to: usize, prefix: &str) -> (r: Option<usize>)
    requires
        from <= to <= chars@.len(),
    ensures
        match r {
            Some(at) => from <= at <= to && after_prefix(
                chars@.subrange(from as int, to as int),
                prefix@,
            ) == Some(chars@.subrange(at as int, to as int)),
            None => after_prefix(chars@.subrange(from as int, to as int), prefix@) is None,
        },
{
    let ghost range = chars@.subrange(from as int, to as int);
    let mut at: usize = from;
    for c in it: prefix.chars()
        invariant
            from <= at <= to <= chars@.len(),
            at - from == it.index(),
            it.seq() == prefix@,
            range == chars@.subrange(from as int, to as int),
            range.take(at - from) == prefix@.take(it.index()),
    {
        if at == to || chars[at] != c {
            proof {
                if prefix@.len() <= range.len() {
                    assert(range.take(prefix@.len() as int)[at - from] == range[at - from]);
                    assert(prefix@[at - from] == c);
                }
            }
            return None;
        }
        proof {
            assert(range.take(at - from + 1) =~= range.take(at - from).push(c));
            assert(prefix@.take(it.index() + 1) =~= prefix@.take(it.index()).push(c));
        }
        at += 1;
    }
    proof {
        assert(prefix@.take(prefix@.len() as int) =~= prefix@);
        assert(range.skip(prefix@.len() as int) =~= chars@.subrange(at as int, to as int));
    }
    Some(at)
}

/// The rest of `s` behind `prefix`, where `s` starts with it.
pub fn strip_prefix(s: &str, prefix: &str) -> (r: Option<String>)
    ensures
        match r {
            Some(rest) => after_prefix(s@, prefix@) == Some(rest@),
            None => after_prefix(s@, prefix@) is None,
        },
{
    let chars = chars_of(s);
    let len = chars.len();
    proof {
        assert(chars@.subrange(0, len as int) =~= s@);
    }
    match skip_prefix(&chars, 0, len, prefix) {
        Some(at) => Some(text_between(&chars, at, len)),
        None => None,
    }
}

/// The texts of `parts`, one after the other, with `sep` between them.
pub open spec fn joined(parts: Seq<Seq<char>>, sep: Seq<char>) -> Seq<char>
    decreases parts.len(),
{
    if parts.len() == 0 {
        Seq::empty()
    } else if parts.len() == 1 {
        parts[0]
    } else {
        joined(parts.drop_last(), sep) + sep + parts.last()
    }
}

/// Joined texts begin as the first of them does.
pub proof fn joined_opens(parts: Seq<Seq<char>>, sep: Seq<char>)
    requires
        parts.len() > 0,
        parts[0].len() > 0,
    ensures
        joined(parts, sep).len() > 0,
        joined(parts, sep)[0] == parts[0][0],
    decreases parts.len(),
{
    if parts.len() > 1 {
        joined_opens(parts.drop_last(), sep);
    }
}

/// Joins `parts` with `sep`.
pub fn join(parts: &Vec<String>, sep: &str) -> (r: String)
    ensures
        r@ == joined(views(parts@), sep@),
{
    let mut out = String::new();
    let mut i: usize = 0;
    while i < parts.len()
        invariant
            i <= parts@.len(),
            out@ == joined(views(parts@).take(i as int), sep@),
        decreases parts@.len() - i,
    {
        let ghost before = out@;
        let ghost next = views(parts@).take(i + 1);
        proof {
            assert(next.drop_last() =~= views(parts@).take(i as int));
        }
        if i > 0 {
            out.push_str(sep);
        }
        out.push_str(parts[i].as_str());
        proof {
            if i == 0 {
                assert(before =~= Seq::<char>::empty());
                assert(out@ =~= next[0]);
            } else {
                assert(out@ =~= before + sep@ + next.last());
            }
        }
        i += 1;
    }
    proof {
        assert(views(parts@).take(i as int) =~= views(parts@));
    }
    out
}

/// The decimal digit of a value below ten.
pub open spec fn digit_char(d: int) -> char {
    if d == 0 {
        '0'
    } else if d == 1 {
        '1'
    } else if d == 2 {
        '2'
    } else if d == 3 {
        '3'
    } else if d == 4 {
        '4'
    } else if d == 5 {
        '5'
    } else if d == 6 {
        '6'
    } else if d == 7 {
        '7'
    } else if d == 8 {
        '8'
    } else {
        '9'
    }
}

/// The decimal notation of `n`, without leading zeros.
pub open spec fn decimal(n: nat) -> Seq<char>
    decreases n,
{
    if n < 10 {
        seq![digit_char(n as int)]
    } else {
        decimal(n / 10).push(digit_char((n % 10) as int))
    }
}

proof fn decimal_is_short(n: nat)
    ensures
        decimal(n).len() > 0,
        n >= 10 <==> decimal(n).len() > 1,
    decreases n,
{
    if n >= 10 {
        decimal_is_short(n / 10);
    }
}

/// Different numbers have different decimal notations.
pub proof fn decimals_differ(a: nat, b: nat)
    requires
        a != b,
    ensures
        decimal(a) != decimal(b),
    decreases a,
{
    decimal_is_short(a);
    decimal_is_short(b);
    assert(decimal(a).last() == digit_char((a % 10) as int));
    assert(decimal(b).last() == digit_char((b % 10) as int));
    if a >= 10 && b >= 10 && a % 10 == b % 10 {
        decimals_differ(a / 10, b / 10);
        assert(decimal(a).drop_last() =~= decimal(a / 10));
        assert(decimal(b).drop_last() =~= decimal(b / 10));
    }
}

fn digit(d: u128) -> (r: char)
    requires
        d < 10,
    ensures
        r == digit_char(d as int),
{
    match d {
        0 => '0',
        1 => '1',
        2 => '2',
        3 => '3',
        4 => '4',
        5 => '5',
        6 => '6',
        7 => '7',
        8 => '8',
        _ => '9',
    }
}

/// Writes `n` in decimal notation.
pub fn decimal_text(n: u128) -> (r: String)
    ensures
        r@ == decimal(n as nat),
    decreases n,
{
    if n < 10 {
        let mut out = String::new();
        out.push(digit(n));
        proof {
            assert(out@ =~= seq![digit_char(n as int)]);
        }
        out
    } else {
        let mut out = decimal_text(n / 10);
        out.push(digit(n % 10));
        out
    }
}

/// What one character becomes in HTML text.
pub open spec fn escaped_char(c: char) -> Seq<char> {
    if c == '&' {
        "&amp;"@
    } else if c == '<' {
        "&lt;"@
    } else if c == '>' {
        "&gt;"@
    } else if c == '"' {
        "&quot;"@
    } else if c == '\'' {
        "&#39;"@
    } else {
        seq![c]
    }
}

/// `s` with every character that HTML gives a meaning replaced by its entity.
pub open spec fn escaped(s: Seq<char>) -> Seq<char>
    decreases s.len(),
{
    if s.len() == 0 {
        Seq::empty()
    } else {
        escaped(s.drop_last()) + escaped_char(s.last())
    }
}

/// Escapes `& < > " '` so that `s` can stand in HTML text and attributes.
pub fn html_escape(s: &str) -> (r: String)
    ensures
        r@ == escaped(s@),
{
    let mut out = String::new();
    for c in it: s.chars()
        invariant
            out@ == escaped(s@.take(it.index())),
            it.seq() == s@,
    {
        proof {
            let next = s@.take(it.index() + 1);
            assert(next.drop_last() =~= s@.take(it.index()));
            assert(next.last() == c);
        }
        match c {
            '&' => out.push_str("&amp;"),
            '<' => out.push_str("&lt;"),
            '>' => out.push_str("&gt;"),
            '"' => out.push_str("&quot;"),
            '\'' => out.push_str("&#39;"),
            _ => {
                let ghost before = out@;
                out.push(c);
                proof {
                    assert(out@ =~= before + seq![c]);
                }
            },
        }
    }
    proof {
        assert(s@.take(s@.len() as int) =~= s@);
    }
    out
}

/// Escaped text holds none of the five characters that HTML gives a meaning,
/// but for the `&` that opens an entity.
pub proof fn escaped_text_is_inert(s: Seq<char>)
    ensures
        forall|i: int|
            0 <= i < escaped(s).len() ==> escaped(s)[i] != '<' && escaped(s)[i] != '>' && escaped(
                s,
            )[i] != '"' && #[trigger] escaped(s)[i] != '\'',
    decreases s.len(),
{
    if s.len() > 0 {
        escaped_text_is_inert(s.drop_last());
        reveal_strlit("&amp;");
        reveal_strlit("&lt;");
        reveal_strlit("&gt;");
        reveal_strlit("&quot;");
        reveal_strlit("&#39;");
        let head = escaped(s.drop_last());
        let tail = escaped_char(s.last());
        assert forall|i: int| 0 <= i < escaped(s).len() implies escaped(s)[i] != '<' && escaped(
            s,
        )[i] != '>' && escaped(s)[i] != '"' && #[trigger] escaped(s)[i] != '\'' by {
            if i < head.len() {
                assert(escaped(s)[i] == head[i]);
            } else {
                assert(escaped(s)[i] == tail[i - head.len()]);
            }
        }
    }
}

/// Whether `s` begins with `head`.
pub open spec fn begins(s: Seq<char>, head: Seq<char>) -> bool {
    s.len() >= head.len() && s.take(head.len() as int) == head
}

/// The character of the entity that `s` begins with, and the entity's length.
pub open spec fn opening_entity(s: Seq<char>) -> Option<(char, int)> {
    if begins(s, "&amp;"@) {
        Some(('&', 5))
    } else if begins(s, "&lt;"@) {
        Some(('<', 4))
    } else if begins(s, "&gt;"@) {
        Some(('>', 4))
    } else if begins(s, "&quot;"@) {
        Some(('"', 6))
    } else if begins(s, "&#39;"@) {
        Some(('\'', 5))
    } else {
        None
    }
}

/// `s` with each of the five entities replaced by its character, once, from left
/// to right.
pub open spec fn unescaped(s: Seq<char>) -> Seq<char>
    decreases s.len(),
{
    if s.len() == 0 {
        Seq::empty()
    } else {
        proof {
            reveal_strlit("&amp;");
            reveal_strlit("&lt;");
            reveal_strlit("&gt;");
            reveal_strlit("&quot;");
            reveal_strlit("&#39;");
        }
        match opening_entity(s) {
            Some((c, n)) => seq![c] + unescaped(s.skip(n)),
            None => seq![s[0]] + unescaped(s.skip(1)),
        }
    }
}

proof fn escaped_from_the_front(s: Seq<char>)
    requires
        s.len() > 0,
    ensures
        escaped(s) == escaped_char(s[0]) + escaped(s.skip(1)),
    decreases s.len(),
{
    if s.len() == 1 {
        assert(s.drop_last() =~= Seq::empty());
        assert(s.skip(1) =~= Seq::empty());
        assert(escaped(s) =~= escaped_char(s[0]) + escaped(s.skip(1)));
    } else {
        escaped_from_the_front(s.drop_last());
        assert(s.drop_last().skip(1) =~= s.skip(1).drop_last());
        assert(s.skip(1).last() == s.last());
        assert(escaped(s) =~= escaped_char(s[0]) + escaped(s.skip(1)));
    }
}

proof fn entity_of_a_char(c: char, rest: Seq<char>)
    ensures
        opening_entity(escaped_char(c) + rest) == (if escaped_char(c).len() > 1 {
            Some((c, escaped_char(c).len() as int))
        } else {
            None
        }),
        escaped_char(c).len() > 0,
        escaped_char(c).len() == 1 ==> escaped_char(c) == seq![c] && c != '&',
        forall|i: int| 0 < i < escaped_char(c).len() ==> #[trigger] escaped_char(c)[i] != '&',
{
    reveal_strlit("&amp;");
    reveal_strlit("&lt;");
    reveal_strlit("&gt;");
    reveal_strlit("&quot;");
    reveal_strlit("&#39;");
    let s = escaped_char(c) + rest;
    assert(s.take(escaped_char(c).len() as int) =~= escaped_char(c));
    assert(begins(s, "&amp;"@) ==> s[0] == s.take(5)[0] && s[1] == s.take(5)[1]);
    assert(begins(s, "&lt;"@) ==> s[0] == s.take(4)[0] && s[1] == s.take(4)[1]);
    assert(begins(s, "&gt;"@) ==> s[0] == s.take(4)[0] && s[1] == s.take(4)[1]);
    assert(begins(s, "&quot;"@) ==> s[0] == s.take(6)[0] && s[1] == s.take(6)[1]);
    assert(begins(s, "&#39;"@) ==> s[0] == s.take(5)[0] && s[1] == s.take(5)[1]);
}

/// Decoding the entities of an escaped text gives the text back, and every `&`
/// in it opens an entity.
pub proof fn escaping_can_be_undone(s: Seq<char>)
    ensures
        unescaped(escaped(s)) == s,
        forall|i: int|
            0 <= i < escaped(s).len() && #[trigger] escaped(s)[i] == '&' ==> opening_entity(
                escaped(s).skip(i),
            ) is Some,
    decreases s.len(),
{
    if s.len() > 0 {
        let head = escaped_char(s[0]);
        let rest = escaped(s.skip(1));
        escaped_from_the_front(s);
        escaping_can_be_undone(s.skip(1));
        entity_of_a_char(s[0], rest);
        assert(escaped(s).skip(head.len() as int) =~= rest);
        assert(unescaped(escaped(s)) =~= seq![s[0]] + s.skip(1));
        assert(seq![s[0]] + s.skip(1) =~= s);
        assert forall|i: int|
            0 <= i < escaped(s).len() && #[trigger] escaped(s)[i] == '&' implies opening_entity(
            escaped(s).skip(i),
        ) is Some by {
            if i < head.len() {
                assert(head[i] == '&');
                assert(escaped(s).skip(0) =~= escaped(s));
            } else {
                assert(rest[i - head.len()] == '&');
                assert(escaped(s).skip(i) =~= rest.skip(i - head.len()));
            }
        }
    }
}

/// The texts of a sequence of strings.
pub open spec fn views(v: Seq<String>) -> Seq<Seq<char>> {
    Seq::new(v.len(), |i: int| v[i]@)
}

pub proof fn views_push(v: Seq<String>, s: String)
    ensures
        views(v.push(s)) == views(v).push(s@),
{
    assert(views(v.push(s)) =~= views(v).push(s@));
}

/// `s` without one carriage return at its end.
pub open spec fn without_cr(s: Seq<char>) -> Seq<char> {
    if s.len() > 0 && s.last() == '\r' {
        s.drop_last()
    } else {
        s
    }
}

/// The lines of `s`: each ends in `\n` or `\r\n`, the last may end with the
/// text.
pub open spec fn text_lines(s: Seq<char>) -> Seq<Seq<char>>
    decreases s.len(),
{
    if s.len() == 0 {
        Seq::empty()
    } else {
        proof {
            s.index_of_first_ensures('\n');
        }
        match s.index_of_first('\n') {
            None => seq![s],
            Some(i) => seq![without_cr(s.take(i))] + text_lines(s.skip(i + 1)),
        }
    }
}

/// Splits `s` into its lines.
pub fn lines(s: &str) -> (r: Vec<String>)
    ensures
        views(r@) == text_lines(s@),
{
    let chars = chars_of(s);
    let mut out: Vec<String> = Vec::new();
    let mut start: usize = 0;
    let mut i: usize = 0;
    proof {
        assert(s@.skip(0) =~= s@);
        assert(views(out@) =~= Seq::<Seq<char>>::empty());
        assert(Seq::<Seq<char>>::empty() + text_lines(s@) =~= text_lines(s@));
    }
    while i < chars.len()
        invariant
            start <= i <= chars@.len(),
            chars@ == s@,
            forall|j: int| start <= j < i ==> chars@[j] != '\n',
            views(out@) + text_lines(s@.skip(start as int)) == text_lines(s@),
        decreases chars@.len() - i,
    {
        if chars[i] == '\n' {
            let end = if i > start && chars[i - 1] == '\r' {
                i - 1
            } else {
                i
            };
            let ghost before = out@;
            let ghost rest = s@.skip(start as int);
            let line = text_between(&chars, start, end);
            proof {
                rest.index_of_first_ensures('\n');
                assert(rest[i - start] == '\n');
                let k = rest.index_of_first('\n').unwrap();
                if k < i - start {
                    assert(rest[k] == chars@[start + k]);
                }
                assert(k == i - start);
                assert(rest.take(k) =~= s@.subrange(start as int, i as int));
                assert(without_cr(rest.take(k)) =~= line@);
                assert(rest.skip(k + 1) =~= s@.skip(i + 1));
                views_push(before, line);
                assert(views(before.push(line)) + text_lines(s@.skip(i + 1)) =~= views(before) + (
                seq![line@] + text_lines(s@.skip(i + 1))));
            }
            out.push(line);
            start = i + 1;
        }
        i += 1;
    }
    let ghost rest = s@.skip(start as int);
    if start < chars.len() {
        let ghost before = out@;
        let line = text_between(&chars, start, chars.len());
        proof {
            rest.index_of_first_ensures('\n');
            if rest.index_of_first('\n') is Some {
                let k = rest.index_of_first('\n').unwrap();
                assert(rest[k] == chars@[start + k]);
            }
            assert(line@ =~= rest);
            views_push(before, line);
            assert(views(before).push(line@) =~= views(before) + seq![rest]);
        }
        out.push(line);
    } else {
        proof {
            assert(rest.len() == 0);
            assert(views(out@) + Seq::<Seq<char>>::empty() =~= views(out@));
        }
    }
    out
}

/// The characters with the Unicode property `White_Space`.
pub open spec fn is_space(c: char) -> bool {
    ||| '\u{9}' <= c <= '\u{d}'
    ||| c == ' '
    ||| c == '\u{85}'
    ||| c == '\u{a0}'
    ||| c == '\u{1680}'
    ||| '\u{2000}' <= c <= '\u{200a}'
    ||| c == '\u{2028}'
    ||| c == '\u{2029}'
    ||| c == '\u{202f}'
    ||| c == '\u{205f}'
    ||| c == '\u{3000}'
}

pub fn is_whitespace(c: char) -> (r: bool)
    ensures
        r == is_space(c),
{
    ('\u{9}' <= c && c <= '\u{d}') || c == ' ' || c == '\u{85}' || c == '\u{a0}' || c == '\u{1680}'
        || ('\u{2000}' <= c && c <= '\u{200a}') || c == '\u{2028}' || c == '\u{2029}' || c
        == '\u{202f}' || c == '\u{205f}' || c == '\u{3000}'
}

pub open spec fn trimmed_start(s: Seq<char>) -> Seq<char>
    decreases s.len(),
{
    if s.len() > 0 && is_space(s[0]) {
        trimmed_start(s.skip(1))
    } else {
        s
    }
}

pub open spec fn trimmed_end(s: Seq<char>) -> Seq<char>
    decreases s.len(),
{
    if s.len() > 0 && is_space(s.last()) {
        trimmed_end(s.drop_last())
    } else {
        s
    }
}

/// `s` without whitespace at either end.
pub open spec fn trimmed(s: Seq<char>) -> Seq<char> {
    trimmed_end(trimmed_start(s))
}

proof fn trimmed_start_opens(s: Seq<char>)
    ensures
        trimmed_start(s).len() > 0 ==> !is_space(trimmed_start(s)[0]),
    decreases s.len(),
{
    if s.len() > 0 && is_space(s[0]) {
        trimmed_start_opens(s.skip(1));
    }
}

proof fn trimmed_end_keeps_the_opening(s: Seq<char>)
    requires
        s.len() > 0,
        !is_space(s[0]),
    ensures
        trimmed_end(s).len() > 0,
        trimmed_end(s)[0] == s[0],
    decreases s.len(),
{
    if is_space(s.last()) {
        trimmed_end_keeps_the_opening(s.drop_last());
    }
}

proof fn trimmed_end_closes(s: Seq<char>)
    ensures
        trimmed_end(s).len() > 0 ==> !is_space(trimmed_end(s).last()),
    decreases s.len(),
{
    if s.len() > 0 && is_space(s.last()) {
        trimmed_end_closes(s.drop_last());
    }
}

/// A text that begins with no whitespace is not blank.
pub proof fn opening_shows(s: Seq<char>)
    requires
        s.len() > 0,
        !is_space(s[0]),
    ensures
        trimmed(s).len() > 0,
{
    trimmed_end_keeps_the_opening(s);
}

/// Trimming a trimmed text changes nothing.
pub proof fn trimming_twice_changes_nothing(s: Seq<char>)
    ensures
        trimmed(trimmed(s)) == trimmed(s),
{
    let start = trimmed_start(s);
    trimmed_start_opens(s);
    trimmed_end_closes(start);
    if start.len() > 0 {
        trimmed_end_keeps_the_opening(start);
    }
}

/// Removes whitespace at both ends of `s`.
pub fn trim(s: &str) -> (r: String)
    ensures
        r@ == trimmed(s@),
{
    let chars = chars_of(s);
    let mut from: usize = 0;
    proof {
        assert(s@.skip(0) =~= s@);
    }
    while from < chars.len() && is_whitespace(chars[from])
        invariant
            from <= chars@.len(),
            chars@ == s@,
            trimmed_start(s@) == trimmed_start(s@.skip(from as int)),
        decreases chars@.len() - from,
    {
        proof {
            assert(s@.skip(from as int).skip(1) =~= s@.skip(from + 1));
        }
        from += 1;
    }
    let mut to: usize = chars.len();
    proof {
        assert(s@.subrange(from as int, to as int) =~= s@.skip(from as int));
        assert(trimmed_start(s@) == s@.skip(from as int));
    }
    while from < to && is_whitespace(chars[to - 1])
        invariant
            from <= to <= chars@.len(),
            chars@ == s@,
            trimmed(s@) == trimmed_end(s@.subrange(from as int, to as int)),
        decreases to,
    {
        proof {
            assert(s@.subrange(from as int, to as int).drop_last() =~= s@.subrange(
                from as int,
                to - 1,
            ));
        }
        to -= 1;
    }
    text_between(&chars, from, to)
}

/// An ASCII letter in lower case; any other character as it is.
pub open spec fn lower_char(c: char) -> char {
    if 'A' <= c <= 'Z' {
        ((c as u8) + 32) as char
    } else {
        c
    }
}

/// `s` with its ASCII letters in lower case.
pub open spec fn lowered(s: Seq<char>) -> Seq<char> {
    Seq::new(s.len(), |i: int| lower_char(s[i]))
}

/// Puts the ASCII letters of `s` in lower case.
pub fn ascii_lowercase(s: &str) -> (r: String)
    ensures
        r@ == lowered(s@),
{
    let mut out = String::new();
    for c in it: s.chars()
        invariant
            out@ == lowered(s@.take(it.index())),
            it.seq() == s@,
    {
        let ghost before = out@;
        if 'A' <= c && c <= 'Z' {
            out.push(((c as u8) + 32) as char);
        } else {
            out.push(c);
        }
        proof {
            assert(lowered(s@.take(it.index() + 1)) =~= before.push(lower_char(c)));
        }
    }
    proof {
        assert(s@.take(s@.len() as int) =~= s@);
    }
    out
}

/// The longest prefix of `s` whose UTF-8 encoding is at most `max` bytes long.
pub open spec fn fitting_prefix(s: Seq<char>, max: nat) -> Seq<char>
    decreases s.len(),
{
    if s.len() == 0 || encode_utf8(s).len() <= max {
        s
    } else {
        fitting_prefix(s.drop_last(), max)
    }
}

/// `s` cut to at most `max` bytes, with an ellipsis where something was cut.
pub open spec fn clipped(s: Seq<char>, max: nat) -> Seq<char> {
    if encode_utf8(s).len() <= max {
        s
    } else {
        fitting_prefix(s, max).push('\u{2026}')
    }
}

/// Encoding distributes over appending one character.
pub proof fn encode_push(s: Seq<char>, c: char)
    ensures
        encode_utf8(s.push(c)) == encode_utf8(s) + encode_scalar(c as u32),
    decreases s.len(),
{
    if s.len() == 0 {
        assert(s.push(c).drop_first() =~= s);
        assert(encode_utf8(s) =~= Seq::<u8>::empty());
        assert(encode_utf8(s.push(c)) =~= encode_scalar(c as u32));
    } else {
        encode_push(s.drop_first(), c);
        assert(s.push(c).drop_first() =~= s.drop_first().push(c));
        assert(encode_utf8(s.push(c)) =~= encode_utf8(s) + encode_scalar(c as u32));
    }
}

/// A longer text never has a shorter encoding.
proof fn encode_prefix_len(s: Seq<char>, n: int)
    requires
        0 <= n <= s.len(),
    ensures
        encode_utf8(s.take(n)).len() <= encode_utf8(s).len(),
    decreases s.len() - n,
{
    if n < s.len() {
        encode_prefix_len(s, n + 1);
        encode_push(s.take(n), s[n]);
        assert(s.take(n).push(s[n]) =~= s.take(n + 1));
    } else {
        assert(s.take(n) =~= s);
    }
}

/// The longest fitting prefix is the prefix behind which nothing more fits.
proof fn fitting_prefix_is(s: Seq<char>, n: int, max: nat)
    requires
        0 <= n < s.len(),
        n == 0 || encode_utf8(s.take(n)).len() <= max,
        encode_utf8(s.take(n + 1)).len() > max,
    ensures
        fitting_prefix(s, max) == s.take(n),
    decreases s.len(),
{
    encode_prefix_len(s, n + 1);
    let shorter = s.drop_last();
    if n + 1 == s.len() {
        assert(shorter =~= s.take(n));
        assert(fitting_prefix(shorter, max) == shorter);
    } else {
        assert(shorter.take(n) =~= s.take(n));
        assert(shorter.take(n + 1) =~= s.take(n + 1));
        fitting_prefix_is(shorter, n, max);
    }
}

fn encoded_len(c: char) -> (r: usize)
    ensures
        r == encode_scalar(c as u32).len(),
        1 <= r <= 4,
{
    let code = c as u32;
    if code < 0x80 {
        1
    } else if code < 0x800 {
        2
    } else if code < 0x10000 {
        3
    } else {
        4
    }
}

/// Cuts `s` to at most `max` bytes on a character boundary and marks the cut
/// with an ellipsis.
pub fn truncate(s: &str, max: usize) -> (r: String)
    ensures
        r@ == clipped(s@, max as nat),
{
    if s.as_bytes().len() <= max {
        return s.to_owned();
    }
    let mut out = String::new();
    let mut used: usize = 0;
    for c in it: s.chars()
        invariant
            out@ == s@.take(it.index()),
            it.seq() == s@,
            used == encode_utf8(out@).len(),
            used <= max,
            encode_utf8(s@).len() > max,
    {
        proof {
            encode_push(out@, c);
            assert(s@.take(it.index() + 1) =~= s@.take(it.index()).push(c));
        }
        if encoded_len(c) > max - used {
            proof {
                fitting_prefix_is(s@, it.index(), max as nat);
            }
            out.push('\u{2026}');
            return out;
        }
        used += encoded_len(c);
        out.push(c);
    }
    proof {
        assert(s@.take(s@.len() as int) =~= s@);
    }
    out
}

/// Whether `pat` stands in `s` at position `i`.
pub open spec fn stands_at(s: Seq<char>, pat: Seq<char>, i: int) -> bool {
    0 <= i <= s.len() - pat.len() && s.subrange(i, i + pat.len()) == pat
}

/// Whether `pat` stands anywhere in `s`.
pub open spec fn occurs(s: Seq<char>, pat: Seq<char>) -> bool {
    exists|i: int| #[trigger] stands_at(s, pat, i)
}

/// `s` with every `pat` replaced by `with`, from left to right.
pub open spec fn replaced(s: Seq<char>, pat: Seq<char>, with: Seq<char>) -> Seq<char>
    decreases s.len(),
{
    if s.len() == 0 || pat.len() == 0 {
        s
    } else if stands_at(s, pat, 0) {
        with + replaced(s.skip(pat.len() as int), pat, with)
    } else {
        seq![s[0]] + replaced(s.skip(1), pat, with)
    }
}

/// Replaces every `pat` in `s` by `with`, from left to right.
pub fn replace(s: &str, pat: &str, with: &str) -> (r: String)
    requires
        pat@.len() > 0,
    ensures
        r@ == replaced(s@, pat@, with@),
{
    let chars = chars_of(s);
    let pattern = chars_of(pat);
    let mut out = String::new();
    let mut i: usize = 0;
    proof {
        assert(s@.skip(0) =~= s@);
        assert(out@ + replaced(s@, pat@, with@) =~= replaced(s@, pat@, with@));
    }
    while i < chars.len()
        invariant
            i <= chars@.len(),
            chars@ == s@,
            pattern@ == pat@,
            pat@.len() > 0,
            out@ + replaced(s@.skip(i as int), pat@, with@) == replaced(s@, pat@, with@),
        decreases chars@.len() - i,
    {
        let ghost rest = s@.skip(i as int);
        let ghost before = out@;
        if pattern.len() <= chars.len() - i && same_chars(&chars, i, &pattern) {
            proof {
                assert(rest.subrange(0, pat@.len() as int) =~= s@.subrange(
                    i as int,
                    i + pat@.len(),
                ));
                assert(stands_at(rest, pat@, 0));
                assert(rest.skip(pat@.len() as int) =~= s@.skip(i + pat@.len()));
            }
            out.push_str(with);
            i += pattern.len();
            proof {
                let tail = replaced(s@.skip(i as int), pat@, with@);
                assert(before + (with@ + tail) =~= (before + with@) + tail);
            }
        } else {
            proof {
                if stands_at(rest, pat@, 0) {
                    assert(rest.subrange(0, pat@.len() as int) =~= s@.subrange(
                        i as int,
                        i + pat@.len(),
                    ));
                }
                assert(rest.skip(1) =~= s@.skip(i + 1));
            }
            out.push(chars[i]);
            i += 1;
            proof {
                let tail = replaced(s@.skip(i as int), pat@, with@);
                assert(before + (seq![s@[i - 1]] + tail) =~= before.push(s@[i - 1]) + tail);
            }
        }
    }
    proof {
        assert(s@.skip(i as int) =~= Seq::<char>::empty());
        assert(out@ =~= out@ + replaced(s@.skip(i as int), pat@, with@));
    }
    out
}

/// Whether the characters of `pattern` stand in `chars` from `from` on.
fn same_chars(chars: &Vec<char>, from: usize, pattern: &Vec<char>) -> (r: bool)
    requires
        from + pattern@.len() <= chars@.len(),
    ensures
        r == (chars@.subrange(from as int, from + pattern@.len()) == pattern@),
{
    let n = chars.len();
    let mut k: usize = 0;
    while k < pattern.len()
        invariant
            k <= pattern@.len(),
            n == chars@.len(),
            from + pattern@.len() <= n,
            forall|j: int| 0 <= j < k ==> chars@[from + j] == #[trigger] pattern@[j],
        decreases pattern@.len() - k,
    {
        if chars[from + k] != pattern[k] {
            proof {
                assert(chars@.subrange(from as int, from + pattern@.len())[k as int]
                    != pattern@[k as int]);
            }
            return false;
        }
        k += 1;
    }
    proof {
        assert(chars@.subrange(from as int, from + pattern@.len()) =~= pattern@);
    }
    true
}

/// A prefix without the first character of the pattern is there before the
/// replacement too, where the replacement starts with that character.
proof fn prefix_was_there(s: Seq<char>, pat: Seq<char>, with: Seq<char>, t: Seq<char>)
    requires
        pat.len() > 0,
        with.len() > 0,
        with[0] == pat[0],
        forall|j: int| 0 <= j < t.len() ==> #[trigger] t[j] != pat[0],
        t.is_prefix_of(replaced(s, pat, with)),
    ensures
        t.is_prefix_of(s),
    decreases t.len(),
{
    let r = replaced(s, pat, with);
    if t.len() > 0 {
        assert(t[0] == r[0]);
        if s.len() > 0 {
            if stands_at(s, pat, 0) {
                assert(r[0] == with[0]);
            } else {
                let tail = replaced(s.skip(1), pat, with);
                assert(r =~= seq![s[0]] + tail);
                assert(t.skip(1).is_prefix_of(tail)) by {
                    assert(tail =~= r.skip(1));
                    assert(t.skip(1) =~= r.skip(1).take(t.len() - 1));
                }
                assert forall|j: int| 0 <= j < t.skip(1).len() implies #[trigger] t.skip(1)[j]
                    != pat[0] by {
                    assert(t.skip(1)[j] == t[j + 1]);
                }
                prefix_was_there(s.skip(1), pat, with, t.skip(1));
                assert forall|j: int| 0 <= j < t.len() implies t[j] == s[j] by {
                    if j > 0 {
                        assert(t.skip(1)[j - 1] == s.skip(1)[j - 1]);
                    }
                }
                assert(t =~= s.take(t.len() as int));
            }
        }
    } else {
        assert(t =~= s.take(0));
    }
}

/// Replacing leaves no pattern behind, where the pattern's first character
/// comes up only once in it, and the replacement starts like the pattern, goes
/// on otherwise, and holds that character no more.
pub proof fn nothing_left_to_replace(s: Seq<char>, pat: Seq<char>, with: Seq<char>)
    requires
        pat.len() > 1,
        with.len() > 1,
        with[0] == pat[0],
        with[1] != pat[1],
        forall|j: int| 0 < j < pat.len() ==> #[trigger] pat[j] != pat[0],
        forall|j: int| 0 < j < with.len() ==> #[trigger] with[j] != pat[0],
    ensures
        !occurs(replaced(s, pat, with), pat),
    decreases s.len(),
{
    let r = replaced(s, pat, with);
    if s.len() > 0 {
        let stands = stands_at(s, pat, 0);
        let head = if stands {
            with
        } else {
            seq![s[0]]
        };
        let rest = if stands {
            s.skip(pat.len() as int)
        } else {
            s.skip(1)
        };
        let tail = replaced(rest, pat, with);
        nothing_left_to_replace(rest, pat, with);
        assert(r =~= head + tail);
        assert forall|i: int| !(#[trigger] stands_at(r, pat, i)) by {
            if stands_at(r, pat, i) {
                let here = r.subrange(i, i + pat.len());
                assert(here[0] == pat[0]);
                assert(here[1] == pat[1]);
                if i >= head.len() {
                    assert(tail.subrange(i - head.len(), i - head.len() + pat.len()) =~= here);
                    assert(stands_at(tail, pat, i - head.len()));
                } else if i > 0 {
                    assert(r[i] == with[i]);
                } else if stands {
                    assert(r[1] == with[1]);
                } else {
                    let t = pat.skip(1);
                    assert(t =~= tail.take(t.len() as int)) by {
                        assert forall|j: int| 0 <= j < t.len() implies t[j] == tail[j] by {
                            assert(here[j + 1] == pat[j + 1]);
                        }
                    }
                    prefix_was_there(rest, pat, with, t);
                    assert(s.subrange(0, pat.len() as int) =~= pat) by {
                        assert forall|j: int| 0 <= j < pat.len() implies s[j] == pat[j] by {
                            if j > 0 {
                                assert(t[j - 1] == rest[j - 1]);
                            }
                        }
                    }
                }
            }
        }
    }
}

/// A text as it may stand inside a `script` element: the closing tag is broken
/// up by a backslash.
pub open spec fn script_safe(s: Seq<char>) -> Seq<char> {
    replaced(s, "</script>"@, "<\\/script>"@)
}

/// Breaks up closing `script` tags.
pub fn escape_script(s: &str) -> (r: String)
    ensures
        r@ == script_safe(s@),
        !occurs(r@, "</script>"@),
{
    proof {
        reveal_strlit("</script>");
        reveal_strlit("<\\/script>");
        nothing_left_to_replace(s@, "</script>"@, "<\\/script>"@);
    }
    replace(s, "</script>", "<\\/script>")
}

/// Embedded as a `script`, a text cannot end the element.
pub proof fn script_safe_text_stays_inside(s: Seq<char>)
    ensures
        !occurs(script_safe(s), "</script>"@),
{
    reveal_strlit("</script>");
    reveal_strlit("<\\/script>");
    nothing_left_to_replace(s, "</script>"@, "<\\/script>"@);
}

/// Whether `a` comes before `b`, character by character. This is the order of
/// the UTF-8 bytes as well.
pub open spec fn before(a: Seq<char>, b: Seq<char>) -> bool
    decreases a.len(),
{
    if b.len() == 0 {
        false
    } else if a.len() == 0 {
        true
    } else if a[0] == b[0] {
        before(a.skip(1), b.skip(1))
    } else {
        a[0] < b[0]
    }
}

/// The order is transitive.
pub proof fn before_is_transitive(a: Seq<char>, b: Seq<char>, c: Seq<char>)
    requires
        before(a, b),
        before(b, c),
    ensures
        before(a, c),
    decreases a.len(),
{
    if a.len() > 0 && a[0] == b[0] && b[0] == c[0] {
        before_is_transitive(a.skip(1), b.skip(1), c.skip(1));
    }
}

/// No text comes before itself.
pub proof fn before_is_strict(a: Seq<char>)
    ensures
        !before(a, a),
    decreases a.len(),
{
    if a.len() > 0 {
        before_is_strict(a.skip(1));
    }
}

/// Of two texts, exactly one comes before the other, or they are equal.
pub proof fn before_is_total(a: Seq<char>, b: Seq<char>)
    ensures
        before(a, b) || before(b, a) || a == b,
        !(before(a, b) && before(b, a)),
    decreases a.len(),
{
    if a.len() > 0 && b.len() > 0 {
        before_is_total(a.skip(1), b.skip(1));
        if a[0] == b[0] && a.skip(1) == b.skip(1) {
            assert(a =~= seq![a[0]] + a.skip(1));
            assert(b =~= seq![b[0]] + b.skip(1));
            assert(a == b);
        }
    } else if a.len() == 0 && b.len() == 0 {
        assert(a =~= b);
    }
}

/// Whether `a` comes before `b`.
pub fn comes_before(a: &str, b: &str) -> (r: bool)
    ensures
        r == before(a@, b@),
{
    let x = chars_of(a);
    let y = chars_of(b);
    let mut i: usize = 0;
    proof {
        assert(a@.skip(0) =~= a@);
        assert(b@.skip(0) =~= b@);
    }
    while i < x.len() && i < y.len()
        invariant
            i <= x@.len(),
            i <= y@.len(),
            x@ == a@,
            y@ == b@,
            before(a@, b@) == before(a@.skip(i as int), b@.skip(i as int)),
        decreases x@.len() - i,
    {
        proof {
            assert(a@.skip(i as int)[0] == a@[i as int]);
            assert(b@.skip(i as int)[0] == b@[i as int]);
            assert(a@.skip(i as int).skip(1) =~= a@.skip(i + 1));
            assert(b@.skip(i as int).skip(1) =~= b@.skip(i + 1));
        }
        if x[i] != y[i] {
            return x[i] < y[i];
        }
        i += 1;
    }
    i < y.len()
}

/// In ascending order, each text once.
pub open spec fn ordered(texts: Seq<Seq<char>>) -> bool {
    forall|i: int, j: int| 0 <= i < j < texts.len() ==> before(texts[i], texts[j])
}

/// Adds a text to an ordered list, where it is not in it yet.
pub fn insert_ordered(list: &mut Vec<String>, text: String)
    requires
        ordered(views(old(list)@)),
    ensures
        ordered(views(final(list)@)),
        forall|t: Seq<char>| #[trigger]
            views(final(list)@).contains(t) <==> (t == text@ || views(old(list)@).contains(t)),
{
    let ghost old_list = list@;
    let mut at: usize = 0;
    while at < list.len() && comes_before(list[at].as_str(), text.as_str())
        invariant
            at <= list@.len(),
            list@ == old_list,
            forall|j: int| 0 <= j < at ==> before((#[trigger] list@[j])@, text@),
        decreases list@.len() - at,
    {
        at += 1;
    }
    if at < list.len() && same_text(list[at].as_str(), text.as_str()) {
        proof {
            assert(views(old_list)[at as int] == text@);
            assert(views(old_list).contains(text@));
        }
        return;
    }
    let ghost t = text@;
    list.insert(at, text);
    proof {
        let new_list = list@;
        if at < old_list.len() {
            before_is_total(old_list[at as int]@, t);
        }
        assert(new_list == old_list.insert(at as int, new_list[at as int]));
        assert forall|i: int, j: int| 0 <= i < j < new_list.len() implies before(
            views(new_list)[i],
            views(new_list)[j],
        ) by {
            if i == at {
                assert(new_list[j] == old_list[j - 1]);
                if j - 1 > at {
                    assert(before(views(old_list)[at as int], views(old_list)[j - 1]));
                    before_is_transitive(t, old_list[at as int]@, old_list[j - 1]@);
                }
            } else if j == at {
                assert(new_list[i] == old_list[i]);
            } else if i < at && j < at {
                assert(before(views(old_list)[i], views(old_list)[j]));
            } else if i < at {
                assert(before(views(old_list)[i], views(old_list)[j - 1]));
            } else {
                assert(before(views(old_list)[i - 1], views(old_list)[j - 1]));
            }
        }
        assert forall|x: Seq<char>| #[trigger]
            views(new_list).contains(x) <==> (x == t || views(old_list).contains(x)) by {
            if views(new_list).contains(x) {
                let i = choose|i: int| 0 <= i < new_list.len() && views(new_list)[i] == x;
                if i < at {
                    assert(views(old_list)[i] == x);
                } else if i > at {
                    assert(views(old_list)[i - 1] == x);
                }
            }
            if views(old_list).contains(x) {
                let i = choose|i: int| 0 <= i < old_list.len() && views(old_list)[i] == x;
                if i < at {
                    assert(views(new_list)[i] == x);
                } else {
                    assert(views(new_list)[i + 1] == x);
                }
            }
            if x == t {
                assert(views(new_list)[at as int] == x);
            }
        }
    }
}

/// Lower case changes the letters `A` to `Z` into those 32 places on, and
/// nothing else.
pub proof fn only_letters_are_lowered(s: Seq<char>, i: int)
    requires
        0 <= i < s.len(),
    ensures
        lowered(s).len() == s.len(),
        'A' <= s[i] <= 'Z' ==> lowered(s)[i] as int == s[i] as int + 32,
        s[i] < 'A' || s[i] > 'Z' ==> lowered(s)[i] == s[i],
        lowered(lowered(s)) == lowered(s),
{
    let c = s[i];
    if 'A' <= c <= 'Z' {
        assert(c as u8 as int == c as int);
    }
    assert(lowered(lowered(s)) =~= lowered(s));
}

/// Trimming takes the space off both ends and nothing else: what is left neither
/// starts nor ends with space, and what was taken is space throughout.
pub proof fn trimming_takes_the_space_around(s: Seq<char>)
    ensures
        exists|a: int, b: int|
            0 <= a <= b <= s.len() && trimmed(s) == #[trigger] s.subrange(a, b) && (forall|i: int|
                0 <= i < a ==> is_space(#[trigger] s[i])) && (forall|i: int|
                b <= i < s.len() ==> is_space(#[trigger] s[i])),
        trimmed(s).len() > 0 ==> !is_space(trimmed(s)[0]) && !is_space(trimmed(s).last()),
{
    start_is_cut(s);
    let a = choose|a: int|
        0 <= a <= s.len() && trimmed_start(s) == #[trigger] s.subrange(a, s.len() as int) && (
        forall|i: int| 0 <= i < a ==> is_space(#[trigger] s[i])) && (a < s.len() ==> !is_space(
            s[a],
        ));
    let t = trimmed_start(s);
    end_is_cut(t);
    let n = trimmed_end(t).len() as int;
    let b = a + n;
    assert(trimmed(s) =~= s.subrange(a, b));
    assert forall|i: int| b <= i < s.len() implies is_space(#[trigger] s[i]) by {
        assert(t[i - a] == s[i]);
    }
    if n > 0 {
        assert(trimmed(s)[0] == s[a]);
    }
}

proof fn start_is_cut(s: Seq<char>)
    ensures
        exists|a: int|
            0 <= a <= s.len() && trimmed_start(s) == #[trigger] s.subrange(a, s.len() as int) && (
            forall|i: int| 0 <= i < a ==> is_space(#[trigger] s[i])) && (a < s.len() ==> !is_space(
                s[a],
            )),
    decreases s.len(),
{
    if s.len() > 0 && is_space(s[0]) {
        let rest = s.skip(1);
        start_is_cut(rest);
        let a = choose|a: int|
            0 <= a <= rest.len() && trimmed_start(rest) == #[trigger] rest.subrange(
                a,
                rest.len() as int,
            ) && (forall|i: int| 0 <= i < a ==> is_space(#[trigger] rest[i])) && (a < rest.len()
                ==> !is_space(rest[a]));
        assert(rest.subrange(a, rest.len() as int) =~= s.subrange(a + 1, s.len() as int));
        assert forall|i: int| 0 <= i < a + 1 implies is_space(#[trigger] s[i]) by {
            if i > 0 {
                assert(rest[i - 1] == s[i]);
            }
        }
    } else {
        assert(s =~= s.subrange(0, s.len() as int));
    }
}

proof fn end_is_cut(s: Seq<char>)
    ensures
        trimmed_end(s).len() <= s.len(),
        trimmed_end(s) == s.take(trimmed_end(s).len() as int),
        forall|i: int| trimmed_end(s).len() <= i < s.len() ==> is_space(#[trigger] s[i]),
        trimmed_end(s).len() > 0 ==> !is_space(trimmed_end(s).last()),
    decreases s.len(),
{
    if s.len() > 0 && is_space(s.last()) {
        let rest = s.drop_last();
        end_is_cut(rest);
        assert(rest.take(trimmed_end(rest).len() as int) =~= s.take(
            trimmed_end(rest).len() as int,
        ));
        assert forall|i: int| trimmed_end(s).len() <= i < s.len() implies is_space(
            #[trigger] s[i],
        ) by {
            if i < rest.len() {
                assert(rest[i] == s[i]);
            }
        }
    } else {
        assert(s =~= s.take(s.len() as int));
    }
}

/// A text that fits stays as it is; a longer one is cut to the most characters
/// that fit, and marked with an ellipsis.
pub proof fn clipping_keeps_what_fits(s: Seq<char>, max: nat)
    ensures
        encode_utf8(s).len() <= max ==> clipped(s, max) == s,
        encode_utf8(s).len() > max ==> exists|n: int|
            0 <= n < s.len() && clipped(s, max) == #[trigger] s.take(n).push('\u{2026}')
                && encode_utf8(s.take(n)).len() <= max && encode_utf8(s.take(n + 1)).len() > max,
{
    if encode_utf8(s).len() > max {
        longest_prefix(s, max);
        let n = fitting_prefix(s, max).len() as int;
        assert(s.take(s.len() as int) =~= s);
        assert(clipped(s, max) == s.take(n).push('\u{2026}'));
    }
}

proof fn longest_prefix(s: Seq<char>, max: nat)
    ensures
        ({
            let n = fitting_prefix(s, max).len() as int;
            &&& n <= s.len()
            &&& fitting_prefix(s, max) == s.take(n)
            &&& encode_utf8(s.take(n)).len() <= max
            &&& n < s.len() ==> encode_utf8(s.take(n + 1)).len() > max
        }),
    decreases s.len(),
{
    let n = fitting_prefix(s, max).len() as int;
    if s.len() == 0 || encode_utf8(s).len() <= max {
        assert(s.take(s.len() as int) =~= s);
        if s.len() == 0 {
            assert(encode_utf8(s).len() == 0) by {
                reveal_with_fuel(encode_utf8, 1);
            }
        }
    } else {
        let rest = s.drop_last();
        longest_prefix(rest, max);
        assert(rest.take(n) =~= s.take(n));
        if n < rest.len() {
            assert(rest.take(n + 1) =~= s.take(n + 1));
        } else {
            assert(s.take(n + 1) =~= s);
        }
    }
}

/// A number is written with its tens before its ones, and the digits are those
/// from `0` to `9`.
pub proof fn decimals_are_written_in_tens(n: nat, d: nat)
    requires
        d < 10,
    ensures
        decimal(d).len() == 1,
        decimal(d)[0] as int == '0' as int + d,
        n > 0 ==> decimal(10 * n + d) == decimal(n) + decimal(d),
{
    if n > 0 {
        assert((10 * n + d) / 10 == n && (10 * n + d) % 10 == d);
        assert(decimal(10 * n + d) =~= decimal(n) + decimal(d));
    }
}

/// Escaping treats each character by itself.
pub proof fn escaping_goes_by_characters(a: Seq<char>, b: Seq<char>, c: char)
    ensures
        escaped(a + b) == escaped(a) + escaped(b),
        escaped(seq!['<']) == "&lt;"@,
        escaped(seq!['>']) == "&gt;"@,
        escaped(seq!['&']) == "&amp;"@,
        escaped(seq!['"']) == "&quot;"@,
        c != '<' && c != '>' && c != '&' && c != '"' && c != '\'' ==> escaped(seq![c]) == seq![c],
    decreases b.len(),
{
    assert forall|x: char| #[trigger] escaped(seq![x]) == escaped_char(x) by {
        assert(seq![x].drop_last() =~= Seq::empty());
        assert(escaped(seq![x].drop_last()) =~= Seq::empty());
        assert(escaped(seq![x]) =~= escaped_char(x));
    }
    if b.len() == 0 {
        assert(a + b =~= a);
        assert(escaped(a) + escaped(b) =~= escaped(a));
    } else {
        escaping_goes_by_characters(a, b.drop_last(), c);
        assert((a + b).drop_last() =~= a + b.drop_last());
        assert(escaped(a + b) =~= escaped(a) + escaped(b));
    }
}

/// A text is cut into lines at its line feeds, which the lines do not hold; a
/// carriage return before one is not part of the line either. Nothing follows
/// the last line feed where the text ends with it.
pub proof fn lines_end_at_line_feeds(line: Seq<char>, rest: Seq<char>)
    requires
        forall|i: int| 0 <= i < line.len() ==> #[trigger] line[i] != '\n' && line[i] != '\r',
    ensures
        text_lines(line + seq!['\n'] + rest) == seq![line] + text_lines(rest),
        text_lines(line + seq!['\r', '\n'] + rest) == seq![line] + text_lines(rest),
        line.len() > 0 ==> text_lines(line) == seq![line],
        text_lines(Seq::<char>::empty()).len() == 0,
{
    let n = line.len() as int;
    let one = line + seq!['\n'] + rest;
    one.index_of_first_ensures('\n');
    assert(one[n] == '\n');
    assert(one.contains('\n'));
    assert forall|i: int| 0 <= i < n implies one[i] != '\n' by {
        assert(one[i] == line[i]);
    }
    assert(one.index_of_first('\n') == Some(n));
    assert(one.take(n) =~= line);
    assert(without_cr(line) == line);
    assert(one.skip(n + 1) =~= rest);
    let two = line + seq!['\r', '\n'] + rest;
    two.index_of_first_ensures('\n');
    assert(two[n] == '\r' && two[n + 1] == '\n');
    assert(two.contains('\n'));
    assert forall|i: int| 0 <= i < n + 1 implies two[i] != '\n' by {
        if i < n {
            assert(two[i] == line[i]);
        }
    }
    assert(two.index_of_first('\n') == Some(n + 1));
    assert(two.take(n + 1) =~= line.push('\r'));
    assert(without_cr(line.push('\r')) =~= line);
    assert(two.skip(n + 2) =~= rest);
    line.index_of_first_ensures('\n');
    if line.len() > 0 {
        assert(!line.contains('\n'));
    }
}

/// Replacing puts the new text in the place of the old one and keeps what stands
/// before it; a text in which the old one does not stand stays as it is.
pub proof fn replacing_keeps_the_rest(
    head: Seq<char>,
    pat: Seq<char>,
    tail: Seq<char>,
    with: Seq<char>,
)
    requires
        pat.len() > 0,
        forall|i: int| 0 <= i < head.len() ==> !#[trigger] stands_at(head + pat + tail, pat, i),
    ensures
        replaced(head + pat + tail, pat, with) == head + with + replaced(tail, pat, with),
    decreases head.len(),
{
    let s = head + pat + tail;
    if head.len() == 0 {
        assert(s.subrange(0, pat.len() as int) =~= pat);
        assert(s.skip(pat.len() as int) =~= tail);
        assert(head + with =~= with);
    } else {
        assert(!stands_at(s, pat, 0));
        let rest = head.skip(1);
        assert(s.skip(1) =~= rest + pat + tail);
        assert forall|i: int| 0 <= i < rest.len() implies !#[trigger] stands_at(
            rest + pat + tail,
            pat,
            i,
        ) by {
            assert(!stands_at(s, pat, i + 1));
            let t = rest + pat + tail;
            if stands_at(t, pat, i) {
                assert(s.subrange(i + 1, i + 1 + pat.len()) =~= t.subrange(i, i + pat.len()));
            }
        }
        replacing_keeps_the_rest(rest, pat, tail, with);
        assert(s[0] == head[0]);
        assert(seq![head[0]] + (rest + with + replaced(tail, pat, with)) =~= head + with
            + replaced(tail, pat, with));
    }
}

/// Joining puts the separator between two texts, and nowhere else.
pub proof fn joining_separates(parts: Seq<Seq<char>>, last: Seq<char>, sep: Seq<char>)
    ensures
        joined(Seq::<Seq<char>>::empty(), sep).len() == 0,
        joined(seq![last], sep) == last,
        parts.len() > 0 ==> joined(parts.push(last), sep) == joined(parts, sep) + sep + last,
{
    assert(parts.push(last).drop_last() =~= parts);
}

/// Of two texts the one comes before the other that has the smaller character
/// where they first differ, or that ends there.
pub proof fn the_first_difference_orders(a: Seq<char>, b: Seq<char>, k: int)
    requires
        0 <= k < b.len(),
        k <= a.len(),
        forall|i: int| 0 <= i < k ==> a[i] == b[i],
    ensures
        k == a.len() ==> before(a, b),
        k < a.len() && a[k] < b[k] ==> before(a, b),
        k < a.len() && a[k] > b[k] ==> !before(a, b),
    decreases k,
{
    if k > 0 {
        assert(a[0] == b[0]);
        assert forall|i: int| 0 <= i < k - 1 implies a.skip(1)[i] == b.skip(1)[i] by {
            assert(a[i + 1] == b[i + 1]);
        }
        the_first_difference_orders(a.skip(1), b.skip(1), k - 1);
    }
}

/// In a list in order every text comes before those behind it, so that none is
/// there twice.
pub proof fn a_list_in_order_rises(texts: Seq<Seq<char>>, i: int, j: int)
    requires
        ordered(texts),
        0 <= i < j < texts.len(),
    ensures
        before(texts[i], texts[j]),
        texts[i] != texts[j],
{
    before_is_strict(texts[i]);
}

} // verus!
