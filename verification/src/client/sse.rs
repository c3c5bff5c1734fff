//! Framing of server-sent events: cutting a byte stream into events at blank
//! lines, independent of how the stream arrives in chunks.

use vstd::prelude::*;
use vstd::utf8::*;

verus! {

/// What `String::from_utf8_lossy` makes of a byte string.
pub uninterp spec fn lossy_text(bytes: Seq<u8>) -> Seq<char>;

/// `String::from_utf8_lossy`: bytes that are valid UTF-8 come out as the text
/// that they encode. How invalid bytes are replaced is only named.
#[verifier::external_body]
pub(crate) fn utf8_lossy(bytes: &[u8]) -> (r: String)
    ensures
        r@ == lossy_text(bytes@),
        valid_utf8(bytes@) ==> r@ == decode_utf8(bytes@),
{
    String::from_utf8_lossy(bytes).into_owned()
}

/// The length of the event separator that starts at `i`: two line feeds, or
/// two pairs of carriage return and line feed. Zero where none starts.
pub open spec fn separator_at(buf: Seq<u8>, i: int) -> int {
    if 0 <= i && i + 1 < buf.len() && buf[i] == 10 && buf[i + 1] == 10 {
        2
    } else if 0 <= i && i + 3 < buf.len() && buf[i] == 13 && buf[i + 1] == 10 && buf[i + 2] == 13
        && buf[i + 3] == 10 {
        4
    } else {
        0
    }
}

/// The first separator at or behind `from`: where it starts and its length.
pub open spec fn boundary_from(buf: Seq<u8>, from: int) -> Option<(int, int)>
    decreases buf.len() - from,
{
    if from >= buf.len() {
        None
    } else if separator_at(buf, from) > 0 {
        Some((from, separator_at(buf, from)))
    } else {
        boundary_from(buf, from + 1)
    }
}

/// The first separator of a buffer.
pub open spec fn boundary(buf: Seq<u8>) -> Option<(int, int)> {
    boundary_from(buf, 0)
}

/// What the first separator is: it stands whole in the buffer, and none starts
/// before it.
pub proof fn boundary_from_ensures(buf: Seq<u8>, from: int)
    requires
        0 <= from,
    ensures
        match boundary_from(buf, from) {
            Some((i, n)) => {
                &&& from <= i
                &&& n == separator_at(buf, i)
                &&& 2 <= n <= 4
                &&& i + n <= buf.len()
                &&& forall|j: int| from <= j < i ==> separator_at(buf, j) == 0
            },
            None => forall|j: int| from <= j < buf.len() ==> separator_at(buf, j) == 0,
        },
    decreases buf.len() - from,
{
    if from < buf.len() && separator_at(buf, from) == 0 {
        boundary_from_ensures(buf, from + 1);
    }
}

/// The complete events of a buffer, in order, without their separators.
pub open spec fn raw_events(buf: Seq<u8>) -> Seq<Seq<u8>>
    decreases buf.len(),
{
    proof {
        boundary_from_ensures(buf, 0);
    }
    match boundary(buf) {
        Some((i, n)) => seq![buf.take(i)] + raw_events(buf.skip(i + n)),
        None => Seq::empty(),
    }
}

/// What a buffer holds behind its last complete event.
pub open spec fn unfinished(buf: Seq<u8>) -> Seq<u8>
    decreases buf.len(),
{
    proof {
        boundary_from_ensures(buf, 0);
    }
    match boundary(buf) {
        Some((i, n)) => unfinished(buf.skip(i + n)),
        None => buf,
    }
}

/// A separator that was found stays the first one when more bytes arrive.
proof fn boundary_is_stable(a: Seq<u8>, b: Seq<u8>)
    requires
        boundary(a) is Some,
    ensures
        boundary(a + b) == boundary(a),
{
    boundary_from_ensures(a, 0);
    boundary_from_ensures(a + b, 0);
    let (i, n) = boundary(a).unwrap();
    let all = a + b;
    assert(separator_at(all, i) == n);
    assert forall|j: int| 0 <= j < i implies separator_at(all, j) == 0 by {
        assert(separator_at(a, j) == 0);
        if j + 3 >= a.len() {
            assert(all[j + 1] == a[j + 1]);
        }
    }
    let (k, m) = boundary(all).unwrap();
    assert(k == i);
}

/// Where the chunks of a stream were cut does not matter: the events of
/// `a + b` are those of `a`, followed by those that `b` completes, and the same
/// bytes stay unfinished.
pub proof fn chunking_is_irrelevant(a: Seq<u8>, b: Seq<u8>)
    ensures
        raw_events(a + b) == raw_events(a) + raw_events(unfinished(a) + b),
        unfinished(a + b) == unfinished(unfinished(a) + b),
    decreases a.len(),
{
    boundary_from_ensures(a, 0);
    match boundary(a) {
        Some((i, n)) => {
            boundary_is_stable(a, b);
            let rest = a.skip(i + n);
            assert((a + b).take(i) =~= a.take(i));
            assert((a + b).skip(i + n) =~= rest + b);
            chunking_is_irrelevant(rest, b);
            assert(raw_events(a + b) =~= raw_events(a) + raw_events(unfinished(a) + b));
        },
        None => {
            assert(raw_events(a + b) =~= raw_events(a) + raw_events(unfinished(a) + b));
        },
    }
}

/// Nothing complete stays behind: what is unfinished holds no separator.
pub proof fn unfinished_holds_no_event(buf: Seq<u8>)
    ensures
        raw_events(unfinished(buf)).len() == 0,
        unfinished(unfinished(buf)) == unfinished(buf),
    decreases buf.len(),
{
    boundary_from_ensures(buf, 0);
    match boundary(buf) {
        Some((i, n)) => unfinished_holds_no_event(buf.skip(i + n)),
        None => {},
    }
}

/// The bytes of all chunks.
pub open spec fn whole(chunks: Seq<Seq<u8>>) -> Seq<u8>
    decreases chunks.len(),
{
    if chunks.len() == 0 {
        Seq::empty()
    } else {
        whole(chunks.drop_last()) + chunks.last()
    }
}

/// The events of a stream that is read chunk by chunk, and what is left over.
pub open spec fn read_in_chunks(chunks: Seq<Seq<u8>>) -> (Seq<Seq<u8>>, Seq<u8>)
    decreases chunks.len(),
{
    if chunks.len() == 0 {
        (Seq::empty(), Seq::empty())
    } else {
        let (events, rest) = read_in_chunks(chunks.drop_last());
        let all = rest + chunks.last();
        (events + raw_events(all), unfinished(all))
    }
}

/// A stream has the same events, however it was cut into chunks.
pub proof fn cuts_do_not_matter(chunks: Seq<Seq<u8>>)
    ensures
        read_in_chunks(chunks) == (raw_events(whole(chunks)), unfinished(whole(chunks))),
    decreases chunks.len(),
{
    if chunks.len() == 0 {
        assert(raw_events(whole(chunks)) =~= Seq::<Seq<u8>>::empty());
        assert(unfinished(whole(chunks)) =~= Seq::<u8>::empty());
    } else {
        let before = chunks.drop_last();
        cuts_do_not_matter(before);
        chunking_is_irrelevant(whole(before), chunks.last());
    }
}

/// Finds the first event separator: where the event ends, and how long the
/// separator is.
pub fn find_event_boundary(buf: &[u8]) -> (r: Option<(usize, usize)>)
    ensures
        match r {
            Some((i, n)) => boundary(buf@) == Some((i as int, n as int)) && 2 <= n <= 4 && i + n
                <= buf@.len(),
            None => boundary(buf@) is None,
        },
{
    let mut i: usize = 0;
    while i < buf.len()
        invariant
            i <= buf@.len(),
            boundary(buf@) == boundary_from(buf@, i as int),
        decreases buf@.len() - i,
    {
        let left = buf.len() - i;
        if left >= 2 && buf[i] == 10 && buf[i + 1] == 10 {
            return Some((i, 2));
        }
        if left >= 4 && buf[i] == 13 && buf[i + 1] == 10 && buf[i + 2] == 13 && buf[i + 3] == 10 {
            return Some((i, 4));
        }
        i += 1;
    }
    None
}

/// Takes the first event off a buffer, with its separator.
pub(crate) fn take_event(buffer: &mut Vec<u8>) -> (r: Option<Vec<u8>>)
    ensures
        match boundary(old(buffer)@) {
            Some((i, n)) => r is Some && r.unwrap()@ == old(buffer)@.take(i) && final(buffer)@ == old(
                buffer,
            )@.skip(i + n) && final(buffer)@.len() < old(buffer)@.len(),
            None => r is None && final(buffer)@ == old(buffer)@,
        },
{
    match find_event_boundary(buffer.as_slice()) {
        Some((end, sep_len)) => {
            let mut tail = buffer.split_off(end);
            let rest = tail.split_off(sep_len);
            let mut event: Vec<u8> = Vec::new();
            event.append(buffer);
            let ghost whole = old(buffer)@;
            proof {
                assert(event@ =~= whole.take(end as int));
                assert(rest@ =~= whole.skip(end + sep_len));
            }
            *buffer = rest;
            Some(event)
        },
        None => None,
    }
}

/// The length of the line break that starts at `i`: a line feed, or a carriage
/// return with a line feed. Zero where none starts.
pub open spec fn break_at(buf: Seq<u8>, i: int) -> int {
    if 0 <= i < buf.len() && buf[i] == 10 {
        1
    } else if 0 <= i && i + 1 < buf.len() && buf[i] == 13 && buf[i + 1] == 10 {
        2
    } else {
        0
    }
}

/// The first line break at or behind `from`: where it starts and its length.
pub open spec fn break_from(buf: Seq<u8>, from: int) -> Option<(int, int)>
    decreases buf.len() - from,
{
    if from >= buf.len() {
        None
    } else if break_at(buf, from) > 0 {
        Some((from, break_at(buf, from)))
    } else {
        break_from(buf, from + 1)
    }
}

/// What the first line break is: it stands whole in the buffer, and none starts
/// before it.
pub proof fn break_from_ensures(buf: Seq<u8>, from: int)
    requires
        0 <= from,
    ensures
        match break_from(buf, from) {
            Some((i, n)) => {
                &&& from <= i
                &&& n == break_at(buf, i)
                &&& 1 <= n <= 2
                &&& i + n <= buf.len()
                &&& forall|j: int| from <= j < i ==> break_at(buf, j) == 0
            },
            None => forall|j: int| from <= j < buf.len() ==> break_at(buf, j) == 0,
        },
    decreases buf.len() - from,
{
    if from < buf.len() && break_at(buf, from) == 0 {
        break_from_ensures(buf, from + 1);
    }
}

/// The complete lines of a buffer, in order, without their breaks.
pub open spec fn raw_lines(buf: Seq<u8>) -> Seq<Seq<u8>>
    decreases buf.len(),
{
    proof {
        break_from_ensures(buf, 0);
    }
    match break_from(buf, 0) {
        Some((i, n)) => seq![buf.take(i)] + raw_lines(buf.skip(i + n)),
        None => Seq::empty(),
    }
}

/// What a buffer holds behind its last complete line.
pub open spec fn unfinished_line(buf: Seq<u8>) -> Seq<u8>
    decreases buf.len(),
{
    proof {
        break_from_ensures(buf, 0);
    }
    match break_from(buf, 0) {
        Some((i, n)) => unfinished_line(buf.skip(i + n)),
        None => buf,
    }
}

/// Where the chunks of a stream were cut does not matter for its lines.
pub proof fn line_chunking_is_irrelevant(a: Seq<u8>, b: Seq<u8>)
    ensures
        raw_lines(a + b) == raw_lines(a) + raw_lines(unfinished_line(a) + b),
        unfinished_line(a + b) == unfinished_line(unfinished_line(a) + b),
    decreases a.len(),
{
    break_from_ensures(a, 0);
    break_from_ensures(a + b, 0);
    match break_from(a, 0) {
        Some((i, n)) => {
            let all = a + b;
            assert(break_at(all, i) == n);
            assert forall|j: int| 0 <= j < i implies break_at(all, j) == 0 by {
                assert(break_at(a, j) == 0);
                assert(all[j + 1] == a[j + 1]);
            }
            assert(break_from(all, 0) == Some((i, n)));
            let rest = a.skip(i + n);
            assert(all.take(i) =~= a.take(i));
            assert(all.skip(i + n) =~= rest + b);
            line_chunking_is_irrelevant(rest, b);
            assert(raw_lines(a + b) =~= raw_lines(a) + raw_lines(unfinished_line(a) + b));
        },
        None => {
            assert(raw_lines(a + b) =~= raw_lines(a) + raw_lines(unfinished_line(a) + b));
        },
    }
}

/// Finds the first line break: where the line ends, and how long the break is.
pub fn find_line(buf: &[u8]) -> (r: Option<(usize, usize)>)
    ensures
        match r {
            Some((i, n)) => break_from(buf@, 0) == Some((i as int, n as int)) && 1 <= n <= 2 && i
                + n <= buf@.len(),
            None => break_from(buf@, 0) is None,
        },
{
    let mut i: usize = 0;
    while i < buf.len()
        invariant
            i <= buf@.len(),
            break_from(buf@, 0) == break_from(buf@, i as int),
        decreases buf@.len() - i,
    {
        if buf[i] == 10 {
            return Some((i, 1));
        }
        if buf[i] == 13 && buf.len() - i >= 2 && buf[i + 1] == 10 {
            return Some((i, 2));
        }
        i += 1;
    }
    None
}

/// Takes the first line off a buffer, with its break.
pub(crate) fn take_line(buffer: &mut Vec<u8>) -> (r: Option<Vec<u8>>)
    ensures
        match break_from(old(buffer)@, 0) {
            Some((i, n)) => r is Some && r.unwrap()@ == old(buffer)@.take(i) && final(buffer)@ == old(
                buffer,
            )@.skip(i + n) && final(buffer)@.len() < old(buffer)@.len(),
            None => r is None && final(buffer)@ == old(buffer)@,
        },
{
    match find_line(buffer.as_slice()) {
        Some((end, sep_len)) => {
            let mut tail = buffer.split_off(end);
            let rest = tail.split_off(sep_len);
            let mut line: Vec<u8> = Vec::new();
            line.append(buffer);
            let ghost whole = old(buffer)@;
            proof {
                assert(line@ =~= whole.take(end as int));
                assert(rest@ =~= whole.skip(end + sep_len));
            }
            *buffer = rest;
            Some(line)
        },
        None => None,
    }
}

/// An event ends at the blank line behind it, whichever line breaks there are,
/// and what follows is read by itself: the event comes first, and then the
/// events of the rest. A blank line may also end with carriage returns.
pub proof fn an_event_ends_at_its_blank_line(event: Seq<u8>, rest: Seq<u8>)
    requires
        forall|i: int| 0 <= i < event.len() ==> #[trigger] event[i] != 13,
        forall|i: int, j: int|
            0 <= i && j == i + 1 && j < event.len() ==> (#[trigger] event[i]) != 10 || (
            #[trigger] event[j]) != 10,
        event.len() > 0 ==> event.last() != 10,
    ensures
        raw_events(event + seq![10u8, 10u8] + rest) == seq![event] + raw_events(rest),
        raw_events(event + seq![13u8, 10u8, 13u8, 10u8] + rest) == seq![event] + raw_events(rest),
        unfinished(event + seq![10u8, 10u8] + rest) == unfinished(rest),
        raw_events(event).len() == 0,
{
    let n = event.len() as int;
    let one = event + seq![10u8, 10u8] + rest;
    boundary_from_ensures(one, 0);
    assert(one[n] == 10 && one[n + 1] == 10);
    assert(separator_at(one, n) == 2);
    assert forall|j: int| 0 <= j < n implies separator_at(one, j) == 0 by {
        assert(one[j] == event[j]);
        if j + 1 < n {
            assert(one[j + 1] == event[j + 1]);
        }
    }
    assert(boundary(one) == Some((n, 2int)));
    assert(one.take(n) =~= event);
    assert(one.skip(n + 2) =~= rest);
    let two = event + seq![13u8, 10u8, 13u8, 10u8] + rest;
    boundary_from_ensures(two, 0);
    assert(two[n] == 13 && two[n + 1] == 10 && two[n + 2] == 13 && two[n + 3] == 10);
    assert(separator_at(two, n) == 4);
    assert forall|j: int| 0 <= j < n implies separator_at(two, j) == 0 by {
        assert(two[j] == event[j]);
        if j + 1 < n {
            assert(two[j + 1] == event[j + 1]);
        }
    }
    assert(boundary(two) == Some((n, 4int)));
    assert(two.take(n) =~= event);
    assert(two.skip(n + 4) =~= rest);
    boundary_from_ensures(event, 0);
    assert forall|j: int| 0 <= j < n implies separator_at(event, j) == 0 by {
        if j + 1 < n {
            assert(event[j + 1] != 10 || event[j] != 10);
        }
    }
}

/// A line ends at its line feed, with or without a carriage return before it,
/// and what follows is read by itself.
pub proof fn a_line_ends_at_its_break(line: Seq<u8>, rest: Seq<u8>)
    requires
        forall|i: int| 0 <= i < line.len() ==> #[trigger] line[i] != 10 && line[i] != 13,
    ensures
        raw_lines(line + seq![10u8] + rest) == seq![line] + raw_lines(rest),
        raw_lines(line + seq![13u8, 10u8] + rest) == seq![line] + raw_lines(rest),
        raw_lines(line).len() == 0,
{
    let n = line.len() as int;
    let one = line + seq![10u8] + rest;
    break_from_ensures(one, 0);
    assert(one[n] == 10);
    assert(break_at(one, n) == 1);
    assert forall|j: int| 0 <= j < n implies break_at(one, j) == 0 by {
        assert(one[j] == line[j]);
    }
    assert(break_from(one, 0) == Some((n, 1int)));
    assert(one.take(n) =~= line);
    assert(one.skip(n + 1) =~= rest);
    let two = line + seq![13u8, 10u8] + rest;
    break_from_ensures(two, 0);
    assert(two[n] == 13 && two[n + 1] == 10);
    assert(break_at(two, n) == 2);
    assert forall|j: int| 0 <= j < n implies break_at(two, j) == 0 by {
        assert(two[j] == line[j]);
    }
    assert(break_from(two, 0) == Some((n, 2int)));
    assert(two.take(n) =~= line);
    assert(two.skip(n + 2) =~= rest);
    break_from_ensures(line, 0);
    assert forall|j: int| 0 <= j < n implies break_at(line, j) == 0 by {
        assert(line[j] != 10);
    }
}

} // verus!
