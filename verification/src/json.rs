//! JSON values: what they hold, and how they are read, built and written.

use crate::binary64::{Real, SIGN};
use crate::text::{decimal, decimal_text, decimals_differ};
use vstd::prelude::*;

verus! {

#[verifier::external_type_specification]
#[verifier::external_body]
pub struct ExValue(serde_json::Value);

#[verifier::external_type_specification]
#[verifier::external_body]
#[verifier::reject_recursive_types(K)]
#[verifier::reject_recursive_types(V)]
pub struct ExMap<K, V>(serde_json::Map<K, V>);

/// What a JSON value holds.
pub enum Json {
    Null,
    Bool(bool),
    /// An integer that is not negative.
    Count(u64),
    /// A negative integer.
    Negative(i64),
    /// Any other number.
    Real(Real),
    Str(Seq<char>),
    Array(Seq<Json>),
    Object(Map<Seq<char>, Json>),
}

impl Json {
    /// The value under `key`, where this is an object that has one.
    pub open spec fn field(self, key: Seq<char>) -> Option<Json> {
        match self {
            Json::Object(members) => if members.dom().contains(key) {
                Some(members[key])
            } else {
                None
            },
            _ => None,
        }
    }

    /// The text, where this is a string.
    pub open spec fn text(self) -> Option<Seq<char>> {
        match self {
            Json::Str(s) => Some(s),
            _ => None,
        }
    }

    /// The number, where this is an integer that is not negative.
    pub open spec fn count(self) -> Option<u64> {
        match self {
            Json::Count(n) => Some(n),
            _ => None,
        }
    }

    /// The items, where this is an array.
    pub open spec fn items(self) -> Option<Seq<Json>> {
        match self {
            Json::Array(items) => Some(items),
            _ => None,
        }
    }
}

/// What `serde_json::from_str` makes of a text: the value it holds, or the
/// message of the error.
pub uninterp spec fn json_value(text: Seq<char>) -> Result<Json, Seq<char>>;

/// What a `serde_json::Value` holds.
pub uninterp spec fn value_tree(value: serde_json::Value) -> Json;

/// The members of a JSON object.
pub uninterp spec fn members(
    object: serde_json::Map<String, serde_json::Value>,
) -> Map<Seq<char>, Json>;

/// The compact text of a value.
pub uninterp spec fn compact_text(value: Json) -> Seq<char>;

/// The indented text of a value.
pub uninterp spec fn pretty_text(value: Json) -> Seq<char>;

/// What each of several values holds.
pub open spec fn trees(values: Seq<serde_json::Value>) -> Seq<Json> {
    Seq::new(values.len(), |i: int| value_tree(values[i]))
}

/// `serde_json::from_str` into a `Value`. The result is named, nothing more is
/// claimed of the grammar: equal texts give equal values or equal messages.
#[verifier::external_body]
pub(crate) fn parse_json(text: &str) -> (r: Result<serde_json::Value, String>)
    ensures
        match r {
            Ok(v) => json_value(text@) == Ok::<Json, Seq<char>>(value_tree(v)),
            Err(e) => json_value(text@) == Err::<Json, Seq<char>>(e@),
        },
{
    serde_json::from_str(text).map_err(|e| e.to_string())
}

/// `serde_json::Value::get` by a name: the value under it, where this is an
/// object that has one.
#[verifier::external_body]
pub(crate) fn get<'a>(value: &'a serde_json::Value, key: &str) -> (r: Option<
    &'a serde_json::Value,
>)
    ensures
        match r {
            Some(v) => value_tree(*value).field(key@) == Some(value_tree(*v)),
            None => value_tree(*value).field(key@) is None,
        },
{
    value.get(key)
}

/// `serde_json::Value::as_str`: the text of a string, and `None` of anything else.
pub assume_specification[ serde_json::Value::as_str ](value: &serde_json::Value) -> (r: Option<&str>)
    ensures
        match r {
            Some(s) => value_tree(*value).text() == Some(s@),
            None => value_tree(*value).text() is None,
        },
;

/// `serde_json::Value::as_u64`: the number, where it is an integer that is not
/// negative, and `None` of anything else.
pub assume_specification[ serde_json::Value::as_u64 ](value: &serde_json::Value) -> (r: Option<u64>)
    ensures
        r == value_tree(*value).count(),
;

/// `serde_json::Value::as_array`: the items of an array, and `None` of anything
/// else.
pub assume_specification[ serde_json::Value::as_array ](value: &serde_json::Value) -> (r: Option<
    &Vec<serde_json::Value>,
>)
    ensures
        match r {
            Some(items) => value_tree(*value).items() == Some(trees(items@)),
            None => value_tree(*value).items() is None,
        },
;

/// Whether a value can be read back from its text: it is nested at most `levels`
/// deep, and no number in it comes near the largest that there is.
pub open spec fn storable(value: Json, levels: nat) -> bool
    decreases levels,
{
    match value {
        Json::Array(items) => levels > 0 && forall|i: int|
            0 <= i < items.len() ==> storable(#[trigger] items[i], (levels - 1) as nat),
        Json::Object(members) => levels > 0 && forall|key: Seq<char>| #[trigger]
            members.contains_key(key) ==> storable(members[key], (levels - 1) as nat),
        Json::Real(x) => x.bits % SIGN < 0x7e70_0000_0000_0000,
        _ => true,
    }
}

/// Two values that agree in everything but the last digits of real numbers.
pub open spec fn alike(a: Json, b: Json, levels: nat) -> bool
    decreases levels,
{
    match (a, b) {
        (Json::Array(x), Json::Array(y)) => levels > 0 && x.len() == y.len() && forall|i: int|
            0 <= i < x.len() ==> alike(#[trigger] x[i], y[i], (levels - 1) as nat),
        (Json::Object(x), Json::Object(y)) => levels > 0 && x.dom() == y.dom() && forall|
            key: Seq<char>,
        | #[trigger]
            x.contains_key(key) ==> alike(x[key], y[key], (levels - 1) as nat),
        (Json::Real(_), Json::Real(_)) => true,
        _ => a == b,
    }
}

/// How deep a value may be nested to be read back.
pub open spec fn max_levels() -> nat {
    100
}

/// Whether a value that can be stored is read back from a text.
pub open spec fn reads_back(text: Seq<char>, value: Json) -> bool {
    storable(value, max_levels()) ==> match json_value(text) {
        Ok(back) => alike(back, value, max_levels()),
        Err(_) => false,
    }
}

/// The members of an empty object.
pub open spec fn no_members() -> Map<Seq<char>, Json> {
    Map::empty()
}

/// `serde_json::Map::new`: an object without members.
#[verifier::external_body]
pub(crate) fn new_object() -> (r: serde_json::Map<String, serde_json::Value>)
    ensures
        members(r) == no_members(),
{
    serde_json::Map::new()
}

/// `serde_json::Map::insert`: the key then holds that value, and no other key
/// changes.
#[verifier::external_body]
pub(crate) fn put_member(
    object: &mut serde_json::Map<String, serde_json::Value>,
    key: &str,
    value: serde_json::Value,
)
    ensures
        members(*final(object)) == members(*old(object)).insert(key@, value_tree(value)),
{
    object.insert(key.to_string(), value);
}

/// `serde_json::Value::Object`: the object with these members.
#[verifier::external_body]
pub(crate) fn object_value(object: serde_json::Map<String, serde_json::Value>) -> (r:
    serde_json::Value)
    ensures
        value_tree(r) == Json::Object(members(object)),
{
    serde_json::Value::Object(object)
}

/// `serde_json::Value::Array`: the array of these values.
#[verifier::external_body]
pub(crate) fn array_value(items: Vec<serde_json::Value>) -> (r: serde_json::Value)
    ensures
        value_tree(r) == Json::Array(trees(items@)),
{
    serde_json::Value::Array(items)
}

/// `serde_json::Value::String`: the string of this text.
#[verifier::external_body]
pub(crate) fn text_value(text: &str) -> (r: serde_json::Value)
    ensures
        value_tree(r) == Json::Str(text@),
{
    serde_json::Value::String(text.to_string())
}

/// `serde_json::Value::from` an unsigned integer.
#[verifier::external_body]
pub(crate) fn count_value(n: u64) -> (r: serde_json::Value)
    ensures
        value_tree(r) == Json::Count(n),
{
    serde_json::Value::from(n)
}

/// `serde_json::Value::Bool`.
#[verifier::external_body]
pub(crate) fn bool_value(b: bool) -> (r: serde_json::Value)
    ensures
        value_tree(r) == Json::Bool(b),
{
    serde_json::Value::Bool(b)
}

/// `serde_json::Value::Null`.
#[verifier::external_body]
pub(crate) fn null_value() -> (r: serde_json::Value)
    ensures
        value_tree(r) == Json::Null,
{
    serde_json::Value::Null
}

/// The `clone` of a `serde_json::Value` holds the same.
#[verifier::external_body]
pub(crate) fn copy_value(value: &serde_json::Value) -> (r: serde_json::Value)
    ensures
        value_tree(r) == value_tree(*value),
{
    value.clone()
}

/// `serde_json::Value::to_string`: the compact text. It depends on what the value
/// holds alone and is named; `serde_json::from_str` reads the value back from it,
/// but for the last digits of real numbers.
#[verifier::external_body]
pub(crate) fn write_compact(value: &serde_json::Value) -> (r: String)
    ensures
        r@ == compact_text(value_tree(*value)),
        reads_back(r@, value_tree(*value)),
{
    value.to_string()
}

/// `serde_json::to_string_pretty` of a value, which does not fail: the indented
/// text. It depends on what the value holds alone and is named;
/// `serde_json::from_str` reads the value back from it, but for the last digits
/// of real numbers.
#[verifier::external_body]
pub(crate) fn write_pretty(value: &serde_json::Value) -> (r: Result<String, String>)
    ensures
        r is Ok,
        r.unwrap()@ == pretty_text(value_tree(*value)),
        reads_back(r.unwrap()@, value_tree(*value)),
{
    serde_json::to_string_pretty(value).map_err(|e| e.to_string())
}

/// A text, or null.
pub open spec fn text_or_null(text: Option<Seq<char>>) -> Json {
    match text {
        Some(t) => Json::Str(t),
        None => Json::Null,
    }
}

pub(crate) fn opt_text_value(text: &Option<String>) -> (r: serde_json::Value)
    ensures
        value_tree(r) == text_or_null(crate::config::opt_view(*text)),
{
    match text {
        Some(t) => text_value(t.as_str()),
        None => null_value(),
    }
}

/// An array of texts.
pub open spec fn texts_json(texts: Seq<Seq<char>>) -> Json {
    Json::Array(texts.map_values(|t: Seq<char>| Json::Str(t)))
}

pub(crate) fn texts_value(texts: &Vec<String>) -> (r: serde_json::Value)
    ensures
        value_tree(r) == texts_json(crate::text::views(texts@)),
{
    let mut out: Vec<serde_json::Value> = Vec::new();
    let mut i: usize = 0;
    while i < texts.len()
        invariant
            i <= texts@.len(),
            out@.len() == i,
            forall|j: int| 0 <= j < i ==> value_tree(#[trigger] out@[j]) == Json::Str(texts@[j]@),
        decreases texts@.len() - i,
    {
        out.push(text_value(texts[i].as_str()));
        i += 1;
    }
    proof {
        assert(trees(out@) =~= crate::text::views(texts@).map_values(
            |t: Seq<char>| Json::Str(t),
        ));
    }
    array_value(out)
}

/// An array of counts.
pub open spec fn counts_json(counts: Seq<u64>) -> Json {
    Json::Array(counts.map_values(|n: u64| Json::Count(n)))
}

pub(crate) fn counts_value(counts: &Vec<u64>) -> (r: serde_json::Value)
    ensures
        value_tree(r) == counts_json(counts@),
{
    let mut out: Vec<serde_json::Value> = Vec::new();
    let mut i: usize = 0;
    while i < counts.len()
        invariant
            i <= counts@.len(),
            out@.len() == i,
            forall|j: int| 0 <= j < i ==> value_tree(#[trigger] out@[j]) == Json::Count(counts@[j]),
        decreases counts@.len() - i,
    {
        out.push(count_value(counts[i]));
        i += 1;
    }
    proof {
        assert(trees(out@) =~= counts@.map_values(|n: u64| Json::Count(n)));
    }
    array_value(out)
}

/// The members that the first `n` entries make: a later entry replaces an
/// earlier one under the same key.
pub open spec fn folded(entries: Seq<(Seq<char>, Json)>, n: int) -> Map<Seq<char>, Json>
    decreases n,
{
    if n <= 0 {
        Map::empty()
    } else {
        folded(entries, n - 1).insert(entries[n - 1].0, entries[n - 1].1)
    }
}

/// An object that counts texts.
pub open spec fn text_counts_json(table: Seq<(Seq<char>, nat)>) -> Json {
    Json::Object(
        folded(
            table.map_values(|row: (Seq<char>, nat)| (row.0, Json::Count(row.1 as u64))),
            table.len() as int,
        ),
    )
}

pub(crate) fn text_counts_value(table: &Vec<(String, u64)>) -> (r: serde_json::Value)
    ensures
        value_tree(r) == text_counts_json(crate::tables::count_views(table@)),
{
    let ghost rows = crate::tables::count_views(table@).map_values(
        |row: (Seq<char>, nat)| (row.0, Json::Count(row.1 as u64)),
    );
    let mut object = new_object();
    let mut i: usize = 0;
    while i < table.len()
        invariant
            i <= table@.len(),
            rows.len() == table@.len(),
            forall|j: int|
                0 <= j < rows.len() ==> #[trigger] rows[j] == (
                    table@[j].0@,
                    Json::Count(table@[j].1),
                ),
            members(object) == folded(rows, i as int),
        decreases table@.len() - i,
    {
        put_member(&mut object, table[i].0.as_str(), count_value(table[i].1));
        proof {
            assert(rows[i as int].0 == table@[i as int].0@);
        }
        i += 1;
    }
    object_value(object)
}

/// An object that counts numbers, each under its decimal notation.
pub open spec fn number_counts_json(counts: Map<u64, u64>) -> Json {
    Json::Object(
        Map::new(
            |key: Seq<char>|
                exists|n: u64| #[trigger] counts.contains_key(n) && decimal(n as nat) == key,
            |key: Seq<char>|
                Json::Count(
                    counts[choose|n: u64| #[trigger]
                        counts.contains_key(n) && decimal(n as nat) == key],
                ),
        ),
    )
}

/// Writes counts into an object; `counts` has exactly these numbers.
pub(crate) fn number_counts_value(
    numbers: &Vec<u64>,
    values: &Vec<u64>,
    Ghost(counts): Ghost<Map<u64, u64>>,
) -> (r: serde_json::Value)
    requires
        numbers@.len() == values@.len(),
        numbers@.to_set() == counts.dom(),
        forall|i: int| 0 <= i < numbers@.len() ==> counts[#[trigger] numbers@[i]] == values@[i],
    ensures
        value_tree(r) == number_counts_json(counts),
{
    let mut object = new_object();
    let mut i: usize = 0;
    while i < numbers.len()
        invariant
            i <= numbers@.len(),
            numbers@.len() == values@.len(),
            forall|j: int|
                0 <= j < numbers@.len() ==> counts[#[trigger] numbers@[j]] == values@[j],
            forall|key: Seq<char>| #[trigger]
                members(object).contains_key(key) <==> exists|j: int|
                    0 <= j < i && decimal(#[trigger] numbers@[j] as nat) == key,
            forall|j: int|
                0 <= j < i ==> members(object)[decimal(#[trigger] numbers@[j] as nat)]
                    == Json::Count(counts[numbers@[j]]),
        decreases numbers@.len() - i,
    {
        let ghost before = members(object);
        put_member(&mut object, decimal_text(numbers[i] as u128).as_str(), count_value(values[i]));
        proof {
            assert forall|key: Seq<char>| #[trigger]
                members(object).contains_key(key) <==> exists|j: int|
                    0 <= j < i + 1 && decimal(#[trigger] numbers@[j] as nat) == key by {
                if before.contains_key(key) {
                    let j = choose|j: int|
                        0 <= j < i && decimal(#[trigger] numbers@[j] as nat) == key;
                    assert(0 <= j < i + 1 && decimal(numbers@[j] as nat) == key);
                }
                if key == decimal(numbers@[i as int] as nat) {
                    assert(0 <= i < i + 1);
                }
            }
            assert forall|j: int| 0 <= j < i + 1 implies members(object)[decimal(
                #[trigger] numbers@[j] as nat,
            )] == Json::Count(counts[numbers@[j]]) by {
                if numbers@[j] != numbers@[i as int] {
                    decimals_differ(numbers@[j] as nat, numbers@[i as int] as nat);
                }
            }
        }
        i += 1;
    }
    proof {
        let want = number_counts_json(counts)->Object_0;
        assert forall|key: Seq<char>|
            members(object).contains_key(key) <==> want.contains_key(key) by {
            if members(object).contains_key(key) {
                let j = choose|j: int|
                    0 <= j < numbers@.len() && decimal(#[trigger] numbers@[j] as nat) == key;
                assert(numbers@.to_set().contains(numbers@[j]));
                assert(counts.contains_key(numbers@[j]));
            }
            if want.contains_key(key) {
                let n = choose|n: u64| #[trigger]
                    counts.contains_key(n) && decimal(n as nat) == key;
                assert(numbers@.to_set().contains(n));
                let j = choose|j: int| 0 <= j < numbers@.len() && numbers@[j] == n;
                assert(decimal(numbers@[j] as nat) == key);
            }
        }
        assert forall|key: Seq<char>| want.contains_key(key) implies members(object)[key]
            == want[key] by {
            let n = choose|n: u64| #[trigger] counts.contains_key(n) && decimal(n as nat) == key;
            assert(numbers@.to_set().contains(n));
            let j = choose|j: int| 0 <= j < numbers@.len() && numbers@[j] == n;
            assert(decimal(numbers@[j] as nat) == key);
        }
        assert(members(object) =~= want);
    }
    object_value(object)
}

/// The text under `key`, where `v` is an object that holds one there.
pub open spec fn text_at(v: Json, key: Seq<char>) -> Option<Seq<char>> {
    match v.field(key) {
        Some(x) => x.text(),
        None => None,
    }
}

/// The unsigned integer under `key`, where `v` is an object that holds one
/// there.
pub open spec fn count_at(v: Json, key: Seq<char>) -> Option<u64> {
    match v.field(key) {
        Some(x) => x.count(),
        None => None,
    }
}

/// The items of the array under `key`, where `v` is an object that holds one
/// there.
pub open spec fn items_at(v: Json, key: Seq<char>) -> Option<Seq<Json>> {
    match v.field(key) {
        Some(x) => x.items(),
        None => None,
    }
}

pub fn get_str<'a>(v: &'a serde_json::Value, key: &str) -> (r: Option<&'a str>)
    ensures
        match r {
            Some(s) => text_at(value_tree(*v), key@) == Some(s@),
            None => text_at(value_tree(*v), key@) is None,
        },
{
    match get(v, key) {
        Some(x) => x.as_str(),
        None => None,
    }
}

pub fn get_u64(v: &serde_json::Value, key: &str) -> (r: Option<u64>)
    ensures
        r == count_at(value_tree(*v), key@),
{
    match get(v, key) {
        Some(x) => x.as_u64(),
        None => None,
    }
}

pub fn get_array<'a>(v: &'a serde_json::Value, key: &str) -> (r: Option<&'a Vec<serde_json::Value>>)
    ensures
        match r {
            Some(a) => items_at(value_tree(*v), key@) == Some(trees(a@)),
            None => items_at(value_tree(*v), key@) is None,
        },
{
    match get(v, key) {
        Some(x) => x.as_array(),
        None => None,
    }
}

/// Of the entries under one key the last one counts.
pub proof fn the_last_entry_counts(entries: Seq<(Seq<char>, Json)>, k: int, n: int)
    requires
        0 <= k < n <= entries.len(),
        forall|i: int| k < i < n ==> (#[trigger] entries[i]).0 != entries[k].0,
    ensures
        folded(entries, n).contains_key(entries[k].0),
        folded(entries, n)[entries[k].0] == entries[k].1,
    decreases n,
{
    if k < n - 1 {
        assert(entries[n - 1].0 != entries[k].0);
        the_last_entry_counts(entries, k, n - 1);
    }
}

/// No key comes from elsewhere.
pub proof fn no_key_is_made_up(entries: Seq<(Seq<char>, Json)>, key: Seq<char>, n: int)
    requires
        0 <= n <= entries.len(),
        forall|i: int| 0 <= i < n ==> (#[trigger] entries[i]).0 != key,
    ensures
        !folded(entries, n).contains_key(key),
    decreases n,
{
    if n > 0 {
        assert(entries[n - 1].0 != key);
        no_key_is_made_up(entries, key, n - 1);
    }
}

/// A table of counts holds each count under its text, and nothing else.
pub proof fn counts_stand_under_their_texts(
    table: Seq<(Seq<char>, nat)>,
    k: int,
    other: Seq<char>,
)
    requires
        forall|i: int, j: int|
            0 <= i < j < table.len() ==> (#[trigger] table[i]).0 != (#[trigger] table[j]).0,
    ensures
        0 <= k < table.len() ==> text_counts_json(table).field(table[k].0) == Some(
            Json::Count(table[k].1 as u64),
        ),
        (forall|i: int| 0 <= i < table.len() ==> (#[trigger] table[i]).0 != other)
            ==> text_counts_json(table).field(other) is None,
{
    let n = table.len() as int;
    let entries = table.map_values(
        |row: (Seq<char>, nat)| (row.0, Json::Count(row.1 as u64)),
    );
    if 0 <= k < n {
        assert forall|i: int| k < i < n implies (#[trigger] entries[i]).0 != entries[k].0 by {
            assert(table[k].0 != table[i].0);
        }
        the_last_entry_counts(entries, k, n);
    }
    if forall|i: int| 0 <= i < n ==> (#[trigger] table[i]).0 != other {
        assert forall|i: int| 0 <= i < n implies (#[trigger] entries[i]).0 != other by {
            assert(table[i].0 != other);
        }
        no_key_is_made_up(entries, other, n);
    }
}

/// Numbers that are counted stand under their decimal notation, each with its
/// count.
pub proof fn counts_stand_under_their_numbers(counts: Map<u64, u64>, n: u64)
    ensures
        counts.contains_key(n) ==> number_counts_json(counts).field(decimal(n as nat)) == Some(
            Json::Count(counts[n]),
        ),
        !counts.contains_key(n) ==> number_counts_json(counts).field(decimal(n as nat)) is None,
{
    let key = decimal(n as nat);
    assert forall|m: u64| #[trigger] counts.contains_key(m) && decimal(m as nat) == key implies m
        == n by {
        if m != n {
            decimals_differ(m as nat, n as nat);
        }
    }
    if counts.contains_key(n) {
        let m = choose|m: u64| #[trigger] counts.contains_key(m) && decimal(m as nat) == key;
        assert(m == n);
    }
}

/// A list is written item by item, in order.
pub proof fn lists_are_written_in_order(texts: Seq<Seq<char>>, counts: Seq<u64>, i: int)
    ensures
        texts_json(texts) matches Json::Array(items) && items.len() == texts.len() && (0 <= i
            < texts.len() ==> items[i] == Json::Str(texts[i])),
        counts_json(counts) matches Json::Array(items) && items.len() == counts.len() && (0 <= i
            < counts.len() ==> items[i] == Json::Count(counts[i])),
        text_or_null(None) == Json::Null,
        0 <= i < texts.len() ==> text_or_null(Some(texts[i])) == Json::Str(texts[i]),
{
}

} // verus!
