//! What stands in a text that is put together from parts.

use vstd::prelude::*;

verus! {

/// Whether `part` stands somewhere in `text`.
#[verifier::opaque]
pub open spec fn shows(text: Seq<char>, part: Seq<char>) -> bool {
    exists|before: Seq<char>, after: Seq<char>| text == #[trigger] (before + part + after)
}

/// Whether `text` ends with `part`.
#[verifier::opaque]
pub open spec fn ends(text: Seq<char>, part: Seq<char>) -> bool {
    exists|before: Seq<char>| text == #[trigger] (before + part)
}

/// Whether two texts are the same but for one place, where `x` has `p` and `y`
/// has `q`.
#[verifier::opaque]
pub open spec fn differ_in(x: Seq<char>, y: Seq<char>, p: Seq<char>, q: Seq<char>) -> bool {
    exists|before: Seq<char>, after: Seq<char>|
        x == #[trigger] (before + p + after) && y == before + q + after
}

/// A text ends with its last part.
pub broadcast proof fn ends_with_the_last_part(before: Seq<char>, part: Seq<char>)
    ensures
        #[trigger] ends(before + part, part),
{
    reveal(ends);
}

/// A text ends with itself.
pub broadcast proof fn ends_with_itself(text: Seq<char>)
    ensures
        #[trigger] ends(text, text),
{
    reveal(ends);
    assert(text =~= Seq::<char>::empty() + text);
}

/// A part that ends a text ends it together with what comes next.
pub broadcast proof fn ends_grow(text: Seq<char>, part: Seq<char>, next: Seq<char>)
    requires
        ends(text, part),
    ensures
        #[trigger] ends(text + next, part + next),
{
    reveal(ends);
    let before = choose|before: Seq<char>| text == #[trigger] (before + part);
    assert(text + next =~= before + (part + next));
}

/// What ends a text stands in it.
pub broadcast proof fn an_end_is_shown(text: Seq<char>, part: Seq<char>)
    requires
        ends(text, part),
    ensures
        #[trigger] shows(text, part),
{
    reveal(ends);
    reveal(shows);
    let before = choose|before: Seq<char>| text == #[trigger] (before + part);
    assert(text =~= before + part + Seq::<char>::empty());
}

/// What stands in a text stands in it still when more is added.
pub broadcast proof fn shown_before_more(text: Seq<char>, next: Seq<char>, part: Seq<char>)
    requires
        shows(text, part),
    ensures
        #[trigger] shows(text + next, part),
{
    reveal(shows);
    let (before, after) = choose|before: Seq<char>, after: Seq<char>|
        text == #[trigger] (before + part + after);
    assert(text + next =~= before + part + (after + next));
}

/// What stands in a part stands in the whole.
pub proof fn shown_within(whole: Seq<char>, text: Seq<char>, part: Seq<char>)
    requires
        shows(whole, text),
        shows(text, part),
    ensures
        shows(whole, part),
{
    reveal(shows);
    let (b, a) = choose|b: Seq<char>, a: Seq<char>| whole == #[trigger] (b + text + a);
    let (d, c) = choose|d: Seq<char>, c: Seq<char>| text == #[trigger] (d + part + c);
    assert(whole =~= (b + d) + part + (c + a));
}

/// A text that ends with one part or with another differs there alone.
pub broadcast proof fn differs_in_the_last_part(before: Seq<char>, p: Seq<char>, q: Seq<char>)
    ensures
        #[trigger] differ_in(before + p, before + q, p, q),
{
    reveal(differ_in);
    assert(before + p =~= before + p + Seq::<char>::empty());
    assert(before + q =~= before + q + Seq::<char>::empty());
}

/// The first part of a text may be the one that differs.
pub broadcast proof fn differs_alone(p: Seq<char>, q: Seq<char>)
    ensures
        #[trigger] differ_in(p, q, p, q),
{
    reveal(differ_in);
    assert(p =~= Seq::<char>::empty() + p + Seq::<char>::empty());
    assert(q =~= Seq::<char>::empty() + q + Seq::<char>::empty());
}

/// Texts that differ in one place differ there alone when the same is added to
/// both.
pub broadcast proof fn differ_before_more(
    x: Seq<char>,
    y: Seq<char>,
    next: Seq<char>,
    p: Seq<char>,
    q: Seq<char>,
)
    requires
        differ_in(x, y, p, q),
    ensures
        #[trigger] differ_in(x + next, y + next, p, q),
{
    reveal(differ_in);
    let (before, after) = choose|before: Seq<char>, after: Seq<char>|
        x == #[trigger] (before + p + after) && y == before + q + after;
    assert(x + next =~= before + p + (after + next));
    assert(y + next =~= before + q + (after + next));
}

/// Whether two texts differ in one place alone, where the same is put before
/// both.
pub proof fn differ_behind(
    before: Seq<char>,
    x: Seq<char>,
    y: Seq<char>,
    p: Seq<char>,
    q: Seq<char>,
)
    requires
        differ_in(x, y, p, q),
    ensures
        differ_in(before + x, before + y, p, q),
{
    reveal(differ_in);
    let (b, a) = choose|b: Seq<char>, a: Seq<char>|
        x == #[trigger] (b + p + a) && y == b + q + a;
    assert(before + x =~= (before + b) + p + a);
    assert(before + y =~= (before + b) + q + a);
}

pub broadcast group group_shown {
    ends_with_itself,
    ends_with_the_last_part,
    ends_grow,
    an_end_is_shown,
    shown_before_more,
}

pub broadcast group group_differ {
    differs_in_the_last_part,
    differs_alone,
    differ_before_more,
}

} // verus!
