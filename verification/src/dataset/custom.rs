//! Custom datasets: a JSON array, JSON lines, or a TOML profile.
//!
//! A file has one mode; mixing modes is an error.

use super::{DatasetItem, DatasetMode, OwnedChatMessage};
use crate::binary64::Real;
use crate::client::{conversation_text, join_messages, message_line};
use crate::config::{estimate_tokens, estimated_tokens, opt_view};
use crate::error::Error;
use crate::text::{
    ascii_lowercase, chars_of, decimal, decimal_text, is_space, is_whitespace, joined_opens, lines,
    lowered, opening_shows, same_text, text_lines, trim, trimmed, trimming_twice_changes_nothing,
    views,
};
use vstd::prelude::*;

verus! {

/// How a file is written.
#[derive(Debug, Clone, Copy, PartialEq, Eq, Structural)]
pub enum CustomFormat {
    Toml,
    JsonArray,
    JsonLines,
}

/// The position of the first character that is no whitespace.
pub open spec fn first_visible(s: Seq<char>) -> Option<char>
    decreases s.len(),
{
    if s.len() == 0 {
        None
    } else if is_space(s[0]) {
        first_visible(s.skip(1))
    } else {
        Some(s[0])
    }
}

/// A `.toml` file is a profile; otherwise the first visible character decides.
pub open spec fn format_of(extension: Option<Seq<char>>, text: Seq<char>) -> CustomFormat {
    if extension is Some && lowered(extension.unwrap()) == "toml"@ {
        CustomFormat::Toml
    } else if first_visible(text) == Some('[') {
        CustomFormat::JsonArray
    } else {
        CustomFormat::JsonLines
    }
}

/// Tells how a file is written, from its extension and its text.
pub fn detect_format(extension: &Option<String>, text: &str) -> (r: CustomFormat)
    ensures
        r == format_of(opt_view(*extension), text@),
{
    if let Some(ext) = extension {
        if same_text(ascii_lowercase(ext.as_str()).as_str(), "toml") {
            return CustomFormat::Toml;
        }
    }
    let chars = chars_of(text);
    let mut i: usize = 0;
    proof {
        assert(text@.skip(0) =~= text@);
    }
    while i < chars.len()
        invariant
            i <= chars@.len(),
            chars@ == text@,
            first_visible(text@) == first_visible(text@.skip(i as int)),
            !(opt_view(*extension) is Some && lowered(opt_view(*extension).unwrap()) == "toml"@),
        decreases chars@.len() - i,
    {
        proof {
            assert(text@.skip(i as int).skip(1) =~= text@.skip(i + 1));
        }
        if !is_whitespace(chars[i]) {
            return if chars[i] == '[' {
                CustomFormat::JsonArray
            } else {
                CustomFormat::JsonLines
            };
        }
        i += 1;
    }
    CustomFormat::JsonLines
}

/// The lines of a JSON lines file that hold something, trimmed, with their
/// numbers counted from 1.
pub open spec fn visible_rows(rows: Seq<Seq<char>>) -> Seq<(int, Seq<char>)>
    decreases rows.len(),
{
    if rows.len() == 0 {
        Seq::empty()
    } else {
        let before = visible_rows(rows.drop_last());
        if trimmed(rows.last()).len() == 0 {
            before
        } else {
            before.push((rows.len() as int, trimmed(rows.last())))
        }
    }
}

pub open spec fn row_views(rows: Seq<(usize, String)>) -> Seq<(int, Seq<char>)> {
    Seq::new(rows.len(), |i: int| (rows[i].0 as int, rows[i].1@))
}

/// Splits a JSON lines file into the lines to parse. Blank lines are skipped.
pub fn jsonl_rows(text: &str) -> (r: Vec<(usize, String)>)
    ensures
        row_views(r@) == visible_rows(text_lines(text@)),
{
    let rows = lines(text);
    let mut out: Vec<(usize, String)> = Vec::new();
    let mut i: usize = 0;
    proof {
        assert(row_views(out@) =~= Seq::empty());
    }
    while i < rows.len()
        invariant
            i <= rows@.len(),
            row_views(out@) == visible_rows(views(rows@).take(i as int)),
        decreases rows@.len() - i,
    {
        let ghost next = views(rows@).take(i + 1);
        proof {
            assert(next.drop_last() =~= views(rows@).take(i as int));
        }
        let row = trim(rows[i].as_str());
        if !row.as_str().is_empty() {
            let ghost before = out@;
            out.push((i + 1, row));
            proof {
                assert(row_views(out@) =~= row_views(before).push((i + 1, row@)));
            }
        }
        i += 1;
    }
    proof {
        assert(views(rows@).take(i as int) =~= views(rows@));
    }
    out
}

/// One message of a profile item.
#[derive(Debug)]
pub struct ProfileMessage {
    pub role: String,
    pub content: String,
}

/// One item of a TOML profile.
#[derive(Debug)]
pub struct ProfileItem {
    pub name: Option<String>,
    /// The prompt of a single-turn item.
    pub text: Option<String>,
    /// The seed of a multi-turn item.
    pub messages: Option<Vec<ProfileMessage>>,
    /// User messages of later turns.
    pub follow_ups: Vec<String>,
    /// Items with weight zero are skipped.
    pub weight: Option<Real>,
    pub tags: Vec<String>,
}

/// What a custom file held, as far as it could be parsed; otherwise the parse
/// error. A line of a JSON lines file counts for itself.
#[derive(Debug)]
pub enum CustomFile {
    Toml(Result<Vec<ProfileItem>, String>),
    JsonArray(Result<Vec<String>, String>),
    JsonLines(Vec<Result<String, String>>),
}

pub open spec fn known_role(role: Seq<char>) -> bool {
    role == "system"@ || role == "user"@ || role == "assistant"@
}

/// What is wrong with the role of message `i`.
pub open spec fn role_fault(role: Seq<char>, i: int) -> Option<Seq<char>> {
    if trimmed(role).len() == 0 {
        Some("messages["@ + decimal(i as nat) + "].role is empty"@)
    } else if !known_role(trimmed(role)) {
        Some(
            "messages["@ + decimal(i as nat) + "].role `"@ + trimmed(role)
                + "` is not one of system/user/assistant"@,
        )
    } else {
        None
    }
}

/// The first thing that is wrong with the roles from message `from` on.
pub open spec fn roles_fault(messages: Seq<ProfileMessage>, from: int) -> Option<Seq<char>>
    decreases messages.len() - from,
{
    if from >= messages.len() {
        None
    } else {
        match role_fault(messages[from].role@, from) {
            Some(fault) => Some(fault),
            None => roles_fault(messages, from + 1),
        }
    }
}

/// The first blank follow-up from `from` on.
pub open spec fn follow_ups_fault(follow_ups: Seq<Seq<char>>, from: int) -> Option<Seq<char>>
    decreases follow_ups.len() - from,
{
    if from >= follow_ups.len() {
        None
    } else if trimmed(follow_ups[from]).len() == 0 {
        Some("follow_ups["@ + decimal(from as nat) + "] is empty"@)
    } else {
        follow_ups_fault(follow_ups, from + 1)
    }
}

/// What is wrong with an item. It has a text or messages, but not both; only
/// messages have follow-ups; and nothing in it is blank.
pub open spec fn item_fault(raw: ProfileItem) -> Option<Seq<char>> {
    match (raw.text, raw.messages) {
        (Some(text), None) => if raw.follow_ups@.len() > 0 {
            Some("follow_ups is only valid on multi-turn items (with messages[])"@)
        } else if trimmed(text@).len() == 0 {
            Some("text is empty"@)
        } else {
            None
        },
        (None, Some(messages)) => if messages@.len() == 0 {
            Some("messages[] is empty"@)
        } else {
            match roles_fault(messages@, 0) {
                Some(fault) => Some(fault),
                None => follow_ups_fault(views(raw.follow_ups@), 0),
            }
        },
        (Some(_), Some(_)) => Some("an item cannot have both `text` and `messages[]`; pick one"@),
        (None, None) => Some("an item must have either `text` or `messages[]`"@),
    }
}

/// The message that is sent for a profile message: its role is trimmed.
pub open spec fn message_of(owned: OwnedChatMessage, raw: ProfileMessage) -> bool {
    owned.role@ == trimmed(raw.role@) && owned.content@ == raw.content@
}

/// The dataset item of a faultless profile item.
pub open spec fn item_of(item: DatasetItem, raw: ProfileItem, name: Seq<char>) -> bool {
    &&& item.weight == raw.weight
    &&& item.tags@ == raw.tags@
    &&& opt_view(item.name) == Some(name)
    &&& item.estimated_prompt_tokens == estimated_tokens(item.prompt@)
    &&& match (raw.text, raw.messages) {
        (Some(text), None) => {
            &&& item.prompt@ == trimmed(text@)
            &&& item.messages is None
            &&& item.follow_ups@.len() == 0
        },
        (None, Some(messages)) => {
            &&& item.messages matches Some(owned) && {
                &&& owned@.len() == messages@.len()
                &&& forall|i: int|
                    0 <= i < owned@.len() ==> message_of(#[trigger] owned@[i], messages@[i])
                &&& item.prompt@ == conversation_text(owned@)
            }
            &&& item.follow_ups@ == raw.follow_ups@
        },
        _ => false,
    }
}

fn role_error(role: &str, i: usize) -> (r: Option<String>)
    ensures
        match r {
            Some(msg) => role_fault(role@, i as int) == Some(msg@),
            None => role_fault(role@, i as int) is None,
        },
{
    let role = trim(role);
    if role.as_str().is_empty() {
        let mut msg = String::new();
        msg.push_str("messages[");
        msg.push_str(decimal_text(i as u128).as_str());
        msg.push_str("].role is empty");
        proof {
            assert(msg@ =~= "messages["@ + decimal(i as nat) + "].role is empty"@);
        }
        return Some(msg);
    }
    if same_text(role.as_str(), "system") || same_text(role.as_str(), "user") || same_text(
        role.as_str(),
        "assistant",
    ) {
        return None;
    }
    let mut msg = String::new();
    msg.push_str("messages[");
    msg.push_str(decimal_text(i as u128).as_str());
    msg.push_str("].role `");
    msg.push_str(role.as_str());
    msg.push_str("` is not one of system/user/assistant");
    proof {
        assert(msg@ =~= "messages["@ + decimal(i as nat) + "].role `"@ + role@
            + "` is not one of system/user/assistant"@);
    }
    Some(msg)
}

fn follow_ups_error(follow_ups: &Vec<String>) -> (r: Option<String>)
    ensures
        match r {
            Some(msg) => follow_ups_fault(views(follow_ups@), 0) == Some(msg@),
            None => follow_ups_fault(views(follow_ups@), 0) is None,
        },
{
    let mut i: usize = 0;
    while i < follow_ups.len()
        invariant
            i <= follow_ups@.len(),
            follow_ups_fault(views(follow_ups@), 0) == follow_ups_fault(
                views(follow_ups@),
                i as int,
            ),
        decreases follow_ups@.len() - i,
    {
        if trim(follow_ups[i].as_str()).as_str().is_empty() {
            let mut msg = String::new();
            msg.push_str("follow_ups[");
            msg.push_str(decimal_text(i as u128).as_str());
            msg.push_str("] is empty");
            proof {
                assert(msg@ =~= "follow_ups["@ + decimal(i as nat) + "] is empty"@);
            }
            return Some(msg);
        }
        i += 1;
    }
    None
}

/// Validates a profile item and turns it into a dataset item.
pub fn build_item(raw: &ProfileItem, name: String) -> (r: Result<DatasetItem, Error>)
    ensures
        match r {
            Ok(item) => item_fault(*raw) is None && item_of(item, *raw, name@),
            Err(e) => e matches Error::InvalidConfig(msg) && item_fault(*raw) == Some(msg@),
        },
{
    match (&raw.text, &raw.messages) {
        (Some(text), None) => {
            if !raw.follow_ups.is_empty() {
                return Err(
                    Error::InvalidConfig(
                        "follow_ups is only valid on multi-turn items (with messages[])".to_owned(),
                    ),
                );
            }
            let prompt = trim(text.as_str());
            if prompt.as_str().is_empty() {
                return Err(Error::InvalidConfig("text is empty".to_owned()));
            }
            let tokens = estimate_tokens(prompt.as_str());
            Ok(
                DatasetItem {
                    prompt,
                    estimated_prompt_tokens: tokens,
                    weight: raw.weight,
                    tags: raw.tags.clone(),
                    name: Some(name),
                    messages: None,
                    follow_ups: Vec::new(),
                },
            )
        },
        (None, Some(messages)) => {
            if messages.is_empty() {
                return Err(Error::InvalidConfig("messages[] is empty".to_owned()));
            }
            let mut owned: Vec<OwnedChatMessage> = Vec::new();
            let mut i: usize = 0;
            while i < messages.len()
                invariant
                    i <= messages@.len(),
                    raw.messages == Some(*messages),
                    raw.text is None,
                    messages@.len() > 0,
                    owned@.len() == i,
                    forall|j: int|
                        0 <= j < i ==> message_of(#[trigger] owned@[j], messages@[j]),
                    roles_fault(messages@, 0) == roles_fault(messages@, i as int),
                decreases messages@.len() - i,
            {
                if let Some(msg) = role_error(messages[i].role.as_str(), i) {
                    return Err(Error::InvalidConfig(msg));
                }
                let role = trim(messages[i].role.as_str());
                owned.push(
                    OwnedChatMessage::new(role.as_str(), messages[i].content.as_str()),
                );
                i += 1;
            }
            let joined = join_messages(&owned);
            let tokens = estimate_tokens(joined.as_str());
            if let Some(msg) = follow_ups_error(&raw.follow_ups) {
                return Err(Error::InvalidConfig(msg));
            }
            Ok(
                DatasetItem {
                    prompt: joined,
                    estimated_prompt_tokens: tokens,
                    weight: raw.weight,
                    tags: raw.tags.clone(),
                    name: Some(name),
                    messages: Some(owned),
                    follow_ups: raw.follow_ups.clone(),
                },
            )
        },
        (Some(_), Some(_)) => Err(
            Error::InvalidConfig(
                "an item cannot have both `text` and `messages[]`; pick one".to_owned(),
            ),
        ),
        (None, None) => Err(
            Error::InvalidConfig("an item must have either `text` or `messages[]`".to_owned()),
        ),
    }
}

/// Whether an item is left out: its weight is zero.
pub open spec fn skipped(raw: ProfileItem) -> bool {
    raw.weight matches Some(w) && !w.nan() && w.rank() == 0
}

fn is_skipped(raw: &ProfileItem) -> (r: bool)
    ensures
        r == skipped(*raw),
{
    match raw.weight {
        Some(w) => w.bits == 0 || w.bits == crate::binary64::SIGN,
        None => false,
    }
}

/// The name of item `i`: its own, or one made from its position.
pub open spec fn name_of(raw: ProfileItem, i: int) -> Seq<char> {
    match raw.name {
        Some(n) => n@,
        None => "item-"@ + decimal(i as nat),
    }
}

fn item_name(raw: &ProfileItem, i: usize) -> (r: String)
    ensures
        r@ == name_of(*raw, i as int),
{
    match &raw.name {
        Some(n) => n.clone(),
        None => {
            let mut name = String::new();
            name.push_str("item-");
            name.push_str(decimal_text(i as u128).as_str());
            proof {
                assert(name@ =~= "item-"@ + decimal(i as nat));
            }
            name
        },
    }
}

/// The positions of the first `n` items that are not left out.
pub open spec fn kept_positions(items: Seq<ProfileItem>, n: int) -> Seq<int>
    decreases n,
{
    if n <= 0 {
        Seq::empty()
    } else if skipped(items[n - 1]) {
        kept_positions(items, n - 1)
    } else {
        kept_positions(items, n - 1).push(n - 1)
    }
}

/// The first faulty item from `from` on.
pub open spec fn first_faulty(items: Seq<ProfileItem>, from: int) -> Option<int>
    decreases items.len() - from,
{
    if from >= items.len() {
        None
    } else if !skipped(items[from]) && item_fault(items[from]) is Some {
        Some(from)
    } else {
        first_faulty(items, from + 1)
    }
}

/// How a faulty item of a profile is reported.
pub open spec fn profile_error(raw: ProfileItem, i: int, path: Seq<char>) -> Seq<char> {
    "custom: "@ + (if i == 0 {
        "first"@
    } else {
        "later"@
    }) + " item `"@ + name_of(raw, i) + "` in "@ + path + ": "@ + item_fault(raw).unwrap()
}

/// The items of a profile: those that are not left out, each under its name.
pub open spec fn profile_items(out: Seq<DatasetItem>, items: Seq<ProfileItem>) -> bool {
    let kept = kept_positions(items, items.len() as int);
    &&& out.len() == kept.len()
    &&& forall|j: int|
        0 <= j < out.len() ==> item_of(
            #[trigger] out[j],
            items[kept[j]],
            name_of(items[kept[j]], kept[j]),
        )
}

/// Turns the items of a TOML profile into dataset items. The first faulty item
/// is an error.
pub fn parse_toml_profile(items: &Vec<ProfileItem>, path: &str) -> (r: Result<
    Vec<DatasetItem>,
    Error,
>)
    ensures
        match r {
            Ok(out) => first_faulty(items@, 0) is None && profile_items(out@, items@),
            Err(e) => e matches Error::InvalidConfig(msg) && first_faulty(items@, 0) matches Some(
                i,
            ) && msg@ == profile_error(items@[i], i, path@),
        },
{
    let mut out: Vec<DatasetItem> = Vec::new();
    let mut i: usize = 0;
    while i < items.len()
        invariant
            i <= items@.len(),
            first_faulty(items@, 0) == first_faulty(items@, i as int),
            out@.len() == kept_positions(items@, i as int).len(),
            forall|j: int|
                0 <= j < out@.len() ==> item_of(
                    #[trigger] out@[j],
                    items@[kept_positions(items@, i as int)[j]],
                    name_of(
                        items@[kept_positions(items@, i as int)[j]],
                        kept_positions(items@, i as int)[j],
                    ),
                ),
        decreases items@.len() - i,
    {
        if !is_skipped(&items[i]) {
            let name = item_name(&items[i], i);
            match build_item(&items[i], item_name(&items[i], i)) {
                Ok(item) => {
                    out.push(item);
                },
                Err(e) => {
                    if let Error::InvalidConfig(fault) = e {
                        let mut msg = String::new();
                        msg.push_str("custom: ");
                        msg.push_str(
                            if i == 0 {
                                "first"
                            } else {
                                "later"
                            },
                        );
                        msg.push_str(" item `");
                        msg.push_str(name.as_str());
                        msg.push_str("` in ");
                        msg.push_str(path);
                        msg.push_str(": ");
                        msg.push_str(fault.as_str());
                        proof {
                            assert(msg@ =~= profile_error(items@[i as int], i as int, path@));
                        }
                        return Err(Error::InvalidConfig(msg));
                    }
                },
            }
        }
        i += 1;
    }
    Ok(out)
}

/// The prompts that hold something.
pub open spec fn visible_prompts(prompts: Seq<Seq<char>>) -> Seq<Seq<char>>
    decreases prompts.len(),
{
    if prompts.len() == 0 {
        Seq::empty()
    } else {
        let before = visible_prompts(prompts.drop_last());
        if trimmed(prompts.last()).len() == 0 {
            before
        } else {
            before.push(prompts.last())
        }
    }
}

/// One plain item per prompt, in order.
pub open spec fn plain_items(out: Seq<DatasetItem>, prompts: Seq<Seq<char>>) -> bool {
    &&& out.len() == prompts.len()
    &&& forall|i: int| 0 <= i < out.len() ==> (#[trigger] out[i]).plain(prompts[i])
}

/// Turns the prompts of a JSON array into dataset items. Blank prompts are left
/// out.
pub fn parse_json_array(prompts: &Vec<String>) -> (r: Vec<DatasetItem>)
    ensures
        plain_items(r@, visible_prompts(views(prompts@))),
{
    let mut out: Vec<DatasetItem> = Vec::new();
    let mut i: usize = 0;
    while i < prompts.len()
        invariant
            i <= prompts@.len(),
            plain_items(out@, visible_prompts(views(prompts@).take(i as int))),
        decreases prompts@.len() - i,
    {
        proof {
            assert(views(prompts@).take(i + 1).drop_last() =~= views(prompts@).take(i as int));
        }
        if !trim(prompts[i].as_str()).as_str().is_empty() {
            out.push(DatasetItem::from_prompt(prompts[i].clone()));
        }
        i += 1;
    }
    proof {
        assert(views(prompts@).take(i as int) =~= views(prompts@));
    }
    out
}

/// The prompts of the lines that could be parsed.
pub open spec fn parsed_lines(rows: Seq<Result<String, String>>) -> Seq<Seq<char>>
    decreases rows.len(),
{
    if rows.len() == 0 {
        Seq::empty()
    } else {
        let before = parsed_lines(rows.drop_last());
        match rows.last() {
            Ok(prompt) => before.push(prompt@),
            Err(_) => before,
        }
    }
}

/// Nothing usable was in the file at `path`.
pub open spec fn nothing_parsed(path: Seq<char>) -> Seq<char> {
    "custom: no valid prompts parsed from "@ + path
}

fn nothing_parsed_error(path: &str) -> (r: Error)
    ensures
        r matches Error::InvalidConfig(msg) && msg@ == nothing_parsed(path@),
{
    let mut msg = String::new();
    msg.push_str("custom: no valid prompts parsed from ");
    msg.push_str(path);
    proof {
        assert(msg@ =~= nothing_parsed(path@));
    }
    Error::InvalidConfig(msg)
}

/// Turns the lines of a JSON lines file into dataset items. Lines that could not
/// be parsed and blank prompts are left out; a file without any other is an
/// error.
pub fn parse_jsonl(rows: &Vec<Result<String, String>>, path: &str) -> (r: Result<
    Vec<DatasetItem>,
    Error,
>)
    ensures
        match r {
            Ok(out) => out@.len() > 0 && plain_items(
                out@,
                visible_prompts(parsed_lines(rows@)),
            ),
            Err(e) => e matches Error::InvalidConfig(msg) && msg@ == nothing_parsed(path@)
                && visible_prompts(parsed_lines(rows@)).len() == 0,
        },
{
    let mut out: Vec<DatasetItem> = Vec::new();
    let mut i: usize = 0;
    while i < rows.len()
        invariant
            i <= rows@.len(),
            plain_items(out@, visible_prompts(parsed_lines(rows@.take(i as int)))),
        decreases rows@.len() - i,
    {
        let ghost before = parsed_lines(rows@.take(i as int));
        proof {
            assert(rows@.take(i + 1).drop_last() =~= rows@.take(i as int));
        }
        if let Ok(prompt) = &rows[i] {
            proof {
                assert(before.push(prompt@).drop_last() =~= before);
            }
            if !trim(prompt.as_str()).as_str().is_empty() {
                out.push(DatasetItem::from_prompt(prompt.clone()));
            }
        }
        i += 1;
    }
    proof {
        assert(rows@.take(i as int) =~= rows@);
    }
    if out.is_empty() {
        return Err(nothing_parsed_error(path));
    }
    Ok(out)
}

/// The mode of one item.
pub open spec fn mode_of(item: DatasetItem) -> DatasetMode {
    if item.messages is None {
        DatasetMode::Single
    } else if item.follow_ups@.len() == 0 {
        DatasetMode::StaticMulti
    } else {
        DatasetMode::DynamicMulti
    }
}

fn item_mode(item: &DatasetItem) -> (r: DatasetMode)
    ensures
        r == mode_of(*item),
{
    if item.messages.is_none() {
        DatasetMode::Single
    } else if item.follow_ups.is_empty() {
        DatasetMode::StaticMulti
    } else {
        DatasetMode::DynamicMulti
    }
}

pub open spec fn mode_name(mode: DatasetMode) -> Seq<char> {
    match mode {
        DatasetMode::Single => "Single"@,
        DatasetMode::StaticMulti => "StaticMulti"@,
        DatasetMode::DynamicMulti => "DynamicMulti"@,
    }
}

fn mode_text(mode: DatasetMode) -> (r: &'static str)
    ensures
        r@ == mode_name(mode),
{
    match mode {
        DatasetMode::Single => "Single",
        DatasetMode::StaticMulti => "StaticMulti",
        DatasetMode::DynamicMulti => "DynamicMulti",
    }
}

/// The first item from `from` on whose mode is not `mode`.
pub open spec fn first_other(items: Seq<DatasetItem>, mode: DatasetMode, from: int) -> Option<int>
    decreases items.len() - from,
{
    if from >= items.len() {
        None
    } else if mode_of(items[from]) != mode {
        Some(from)
    } else {
        first_other(items, mode, from + 1)
    }
}

/// What item `i` is called in a message: its name, or one made from its
/// position.
pub open spec fn label_of(item: DatasetItem, i: int) -> Seq<char> {
    match item.name {
        Some(n) => n@,
        None => "item-"@ + decimal(i as nat),
    }
}

/// How a file with two modes is reported: item `i` is the first one whose mode is
/// not that of the items before it. Positions are counted from 1.
pub open spec fn mixed_modes(items: Seq<DatasetItem>, i: int, path: Seq<char>) -> Seq<char> {
    "custom: dataset "@ + path + " mixes modes ("@ + mode_name(mode_of(items[0])) + " and "@
        + mode_name(mode_of(items[i])) + " at item `"@ + label_of(items[i], i) + "`, number "@
        + decimal((i + 1) as nat)
        + "). One file = one mode. Either all items are `text` (single), all have `messages[]` with no `follow_ups` (static_multi), or all have `messages[]` + `follow_ups` (dynamic_multi)."@
}

/// The mode of a file: that of its items, which all agree. An empty file counts
/// as single-turn.
pub fn detect_mode(items: &Vec<DatasetItem>, path: &str) -> (r: Result<DatasetMode, Error>)
    ensures
        match r {
            Ok(mode) => {
                &&& items@.len() == 0 ==> mode == DatasetMode::Single
                &&& forall|i: int| 0 <= i < items@.len() ==> mode_of(#[trigger] items@[i]) == mode
            },
            Err(e) => {
                &&& items@.len() > 0
                &&& first_other(items@, mode_of(items@[0]), 0) matches Some(i) && {
                    &&& 0 < i < items@.len()
                    &&& mode_of(items@[i]) != mode_of(items@[0])
                    &&& e matches Error::InvalidConfig(msg) && msg@ == mixed_modes(
                        items@,
                        i,
                        path@,
                    )
                }
            },
        },
{
    if items.is_empty() {
        return Ok(DatasetMode::Single);
    }
    let mode = item_mode(&items[0]);
    let mut i: usize = 0;
    while i < items.len()
        invariant
            i <= items@.len(),
            items@.len() > 0,
            mode == mode_of(items@[0]),
            forall|j: int| 0 <= j < i ==> mode_of(#[trigger] items@[j]) == mode,
            first_other(items@, mode, 0) == first_other(items@, mode, i as int),
        decreases items@.len() - i,
    {
        let other = item_mode(&items[i]);
        if other != mode {
            return Err(mixed_modes_error(items, i, path));
        }
        i += 1;
    }
    Ok(mode)
}

fn mixed_modes_error(items: &Vec<DatasetItem>, i: usize, path: &str) -> (r: Error)
    requires
        0 < i < items@.len(),
    ensures
        r matches Error::InvalidConfig(msg) && msg@ == mixed_modes(items@, i as int, path@),
{
    let mut msg = String::new();
    msg.push_str("custom: dataset ");
    msg.push_str(path);
    msg.push_str(" mixes modes (");
    msg.push_str(mode_text(item_mode(&items[0])));
    msg.push_str(" and ");
    msg.push_str(mode_text(item_mode(&items[i])));
    msg.push_str(" at item `");
    match &items[i].name {
        Some(n) => {
            msg.push_str(n.as_str());
        },
        None => {
            msg.push_str("item-");
            msg.push_str(decimal_text(i as u128).as_str());
        },
    }
    msg.push_str("`, number ");
    msg.push_str(decimal_text(i as u128 + 1).as_str());
    msg.push_str(
        "). One file = one mode. Either all items are `text` (single), all have `messages[]` with no `follow_ups` (static_multi), or all have `messages[]` + `follow_ups` (dynamic_multi).",
    );
    proof {
        assert(msg@ =~= mixed_modes(items@, i as int, path@));
    }
    Error::InvalidConfig(msg)
}

/// How a file that could not be parsed as a whole is reported.
pub open spec fn parse_failed(path: Seq<char>, what: Seq<char>, cause: Seq<char>) -> Seq<char> {
    "custom: failed to parse "@ + path + " as "@ + what + ": "@ + cause
}

fn parse_failed_error(path: &str, what: &str, cause: &str) -> (r: Error)
    ensures
        r matches Error::InvalidConfig(msg) && msg@ == parse_failed(path@, what@, cause@),
{
    let mut msg = String::new();
    msg.push_str("custom: failed to parse ");
    msg.push_str(path);
    msg.push_str(" as ");
    msg.push_str(what);
    msg.push_str(": ");
    msg.push_str(cause);
    proof {
        assert(msg@ =~= parse_failed(path@, what@, cause@));
    }
    Error::InvalidConfig(msg)
}

/// Why a file gives no items, where it does not.
pub open spec fn file_fault(file: CustomFile, path: Seq<char>) -> Option<Seq<char>> {
    match file {
        CustomFile::Toml(Err(cause)) => Some(parse_failed(path, "TOML profile"@, cause@)),
        CustomFile::Toml(Ok(items)) => match first_faulty(items@, 0) {
            Some(i) => Some(profile_error(items@[i], i, path)),
            None => if kept_positions(items@, items@.len() as int).len() == 0 {
                Some(nothing_parsed(path))
            } else {
                None
            },
        },
        CustomFile::JsonArray(Err(cause)) => Some(parse_failed(path, "JSON array"@, cause@)),
        CustomFile::JsonArray(Ok(prompts)) => if visible_prompts(views(prompts@)).len() == 0 {
            Some(nothing_parsed(path))
        } else {
            None
        },
        CustomFile::JsonLines(rows) => if visible_prompts(parsed_lines(rows@)).len() == 0 {
            Some(nothing_parsed(path))
        } else {
            None
        },
    }
}

/// The items that a faultless file gives.
pub open spec fn file_items(out: Seq<DatasetItem>, file: CustomFile) -> bool {
    match file {
        CustomFile::Toml(Ok(items)) => profile_items(out, items@),
        CustomFile::JsonArray(Ok(prompts)) => plain_items(out, visible_prompts(views(prompts@))),
        CustomFile::JsonLines(rows) => plain_items(out, visible_prompts(parsed_lines(rows@))),
        _ => false,
    }
}

fn file_to_items(file: &CustomFile, path: &str) -> (r: Result<Vec<DatasetItem>, Error>)
    ensures
        match r {
            Ok(out) => file_fault(*file, path@) is None && out@.len() > 0 && file_items(
                out@,
                *file,
            ),
            Err(e) => e matches Error::InvalidConfig(msg) && file_fault(*file, path@) == Some(msg@),
        },
{
    let items = match file {
        CustomFile::Toml(Ok(raw)) => match parse_toml_profile(raw, path) {
            Ok(items) => items,
            Err(e) => {
                return Err(e);
            },
        },
        CustomFile::Toml(Err(cause)) => {
            return Err(parse_failed_error(path, "TOML profile", cause.as_str()));
        },
        CustomFile::JsonArray(Ok(prompts)) => parse_json_array(prompts),
        CustomFile::JsonArray(Err(cause)) => {
            return Err(parse_failed_error(path, "JSON array", cause.as_str()));
        },
        CustomFile::JsonLines(rows) => match parse_jsonl(rows, path) {
            Ok(items) => items,
            Err(e) => {
                return Err(e);
            },
        },
    };
    if items.is_empty() {
        return Err(nothing_parsed_error(path));
    }
    Ok(items)
}

/// The message for a file that gives no dataset: it does not exist, it is
/// faulty, or its items have two modes.
pub open spec fn load_fault(msg: Seq<char>, path: Seq<char>, file: Option<CustomFile>) -> bool {
    match file {
        None => msg == "custom dataset file not found: "@ + path,
        Some(f) => match file_fault(f, path) {
            Some(fault) => msg == fault,
            None => exists|items: Seq<DatasetItem>|
                {
                    &&& #[trigger] file_items(items, f)
                    &&& items.len() > 0
                    &&& first_other(items, mode_of(items[0]), 0) matches Some(i) && msg
                        == mixed_modes(items, i, path)
                },
        },
    }
}

/// The mode of a profile item.
pub open spec fn raw_mode(raw: ProfileItem) -> DatasetMode {
    if raw.messages is None {
        DatasetMode::Single
    } else if raw.follow_ups@.len() == 0 {
        DatasetMode::StaticMulti
    } else {
        DatasetMode::DynamicMulti
    }
}

/// The modes of the items that a faultless file gives. Only a profile has other
/// items than single-turn ones.
pub open spec fn file_modes(file: CustomFile) -> Seq<DatasetMode> {
    match file {
        CustomFile::Toml(Ok(items)) => kept_positions(items@, items@.len() as int).map_values(
            |i: int| raw_mode(items@[i]),
        ),
        CustomFile::JsonArray(Ok(prompts)) => visible_prompts(views(prompts@)).map_values(
            |p: Seq<char>| DatasetMode::Single,
        ),
        CustomFile::JsonLines(rows) => visible_prompts(parsed_lines(rows@)).map_values(
            |p: Seq<char>| DatasetMode::Single,
        ),
        _ => Seq::empty(),
    }
}

/// Whether a file gives a dataset: it exists, nothing in it is faulty, and its
/// items have one mode.
pub open spec fn loadable(path: Seq<char>, file: Option<CustomFile>) -> bool {
    file matches Some(f) && file_fault(f, path) is None && forall|i: int|
        0 <= i < file_modes(f).len() ==> #[trigger] file_modes(f)[i] == file_modes(f)[0]
}

proof fn modes_follow(items: Seq<DatasetItem>, file: CustomFile, path: Seq<char>)
    requires
        file_items(items, file),
        file_fault(file, path) is None,
    ensures
        items.len() == file_modes(file).len(),
        forall|i: int|
            0 <= i < items.len() ==> mode_of(#[trigger] items[i]) == file_modes(file)[i],
{
}

/// Whatever is loaded from one file has the same prompts, estimates and modes,
/// in the same order.
pub proof fn a_file_fixes_its_items(a: Seq<DatasetItem>, b: Seq<DatasetItem>, file: CustomFile)
    requires
        file_items(a, file),
        file_items(b, file),
    ensures
        a.len() == b.len(),
        forall|i: int|
            0 <= i < a.len() ==> {
                &&& (#[trigger] a[i]).prompt@ == b[i].prompt@
                &&& a[i].estimated_prompt_tokens == b[i].estimated_prompt_tokens
                &&& mode_of(a[i]) == mode_of(b[i])
            },
{
    assert forall|i: int| 0 <= i < a.len() implies {
        &&& (#[trigger] a[i]).prompt@ == b[i].prompt@
        &&& a[i].estimated_prompt_tokens == b[i].estimated_prompt_tokens
        &&& mode_of(a[i]) == mode_of(b[i])
    } by {
        if let CustomFile::Toml(Ok(items)) = file {
            let raw = items@[kept_positions(items@, items@.len() as int)[i]];
            let kept = kept_positions(items@, items@.len() as int);
            assert(item_of(a[i], raw, name_of(raw, kept[i])));
            assert(item_of(b[i], raw, name_of(raw, kept[i])));
            if raw.messages is Some {
                let x = a[i].messages.unwrap()@;
                let y = b[i].messages.unwrap()@;
                assert forall|j: int| 0 <= j < x.len() implies #[trigger] message_line(x[j])
                    == message_line(y[j]) by {
                    assert(message_of(x[j], raw.messages.unwrap()@[j]));
                    assert(message_of(y[j], raw.messages.unwrap()@[j]));
                }
                assert(Seq::new(x.len(), |j: int| message_line(x[j])) =~= Seq::new(
                    y.len(),
                    |j: int| message_line(y[j]),
                ));
            }
        } else {
            assert(b[i].prompt@ == a[i].prompt@);
        }
    }
}

/// Every prompt that a file gives shows something, and its estimate is that of
/// its text.
pub proof fn loaded_prompts_are_visible(items: Seq<DatasetItem>, file: CustomFile, path: Seq<char>)
    requires
        file_items(items, file),
        file_fault(file, path) is None,
    ensures
        forall|i: int|
            0 <= i < items.len() ==> {
                &&& trimmed((#[trigger] items[i]).prompt@).len() > 0
                &&& items[i].estimated_prompt_tokens == estimated_tokens(items[i].prompt@)
            },
{
    assert forall|i: int| 0 <= i < items.len() implies {
        &&& trimmed((#[trigger] items[i]).prompt@).len() > 0
        &&& items[i].estimated_prompt_tokens == estimated_tokens(items[i].prompt@)
    } by {
        match file {
            CustomFile::Toml(Ok(raws)) => {
                let kept = kept_positions(raws@, raws@.len() as int);
                kept_are_inside(raws@, raws@.len() as int);
                let raw = raws@[kept[i]];
                assert(item_of(items[i], raw, name_of(raw, kept[i])));
                no_fault_kept(raws@, 0, kept[i]);
                assert(item_fault(raw) is None);
                if raw.messages is None {
                    trimming_twice_changes_nothing(raw.text.unwrap()@);
                } else {
                    let owned = items[i].messages.unwrap()@;
                    conversation_opens(owned);
                    opening_shows(items[i].prompt@);
                }
            },
            CustomFile::JsonArray(Ok(prompts)) => {
                visible_prompts_show(views(prompts@));
            },
            CustomFile::JsonLines(rows) => {
                visible_prompts_show(parsed_lines(rows@));
            },
            _ => {},
        }
    }
}

proof fn kept_are_inside(items: Seq<ProfileItem>, n: int)
    requires
        0 <= n <= items.len(),
    ensures
        forall|j: int|
            0 <= j < kept_positions(items, n).len() ==> {
                &&& 0 <= #[trigger] kept_positions(items, n)[j] < n
                &&& !skipped(items[kept_positions(items, n)[j]])
            },
    decreases n,
{
    if n > 0 {
        kept_are_inside(items, n - 1);
        let before = kept_positions(items, n - 1);
        let kept = kept_positions(items, n);
        assert forall|j: int| 0 <= j < kept.len() implies {
            &&& 0 <= #[trigger] kept[j] < n
            &&& !skipped(items[kept[j]])
        } by {
            if j < before.len() {
                assert(kept[j] == before[j]);
            }
        }
    }
}

proof fn no_fault_kept(items: Seq<ProfileItem>, from: int, i: int)
    requires
        0 <= from <= i < items.len(),
        first_faulty(items, from) is None,
        !skipped(items[i]),
    ensures
        item_fault(items[i]) is None,
    decreases i - from,
{
    if from < i {
        no_fault_kept(items, from + 1, i);
    }
}

proof fn visible_prompts_show(prompts: Seq<Seq<char>>)
    ensures
        forall|i: int|
            0 <= i < visible_prompts(prompts).len() ==> trimmed(
                #[trigger] visible_prompts(prompts)[i],
            ).len() > 0,
    decreases prompts.len(),
{
    if prompts.len() > 0 {
        visible_prompts_show(prompts.drop_last());
        let before = visible_prompts(prompts.drop_last());
        let shown = visible_prompts(prompts);
        assert forall|i: int| 0 <= i < shown.len() implies trimmed(#[trigger] shown[i]).len()
            > 0 by {
            if i < before.len() {
                assert(shown[i] == before[i]);
            }
        }
    }
}

proof fn conversation_opens(messages: Seq<OwnedChatMessage>)
    requires
        messages.len() > 0,
    ensures
        conversation_text(messages).len() > 0,
        conversation_text(messages)[0] == '[',
{
    reveal_strlit("[");
    let rows = Seq::new(messages.len(), |i: int| message_line(messages[i]));
    assert(rows[0][0] == '[');
    joined_opens(rows, "\n"@);
}

/// Makes a dataset of a custom file: `None` where the file does not exist.
/// Returns the items and the mode that they all have.
pub fn load_with_mode(path: &str, file: &Option<CustomFile>) -> (r: Result<
    (Vec<DatasetItem>, DatasetMode),
    Error,
>)
    ensures
        match r {
            Ok((items, mode)) => {
                &&& file matches Some(f) && file_fault(*f, path@) is None && file_items(items@, *f)
                &&& items@.len() > 0
                &&& forall|i: int| 0 <= i < items@.len() ==> mode_of(#[trigger] items@[i]) == mode
            },
            Err(e) => e matches Error::InvalidConfig(msg) && load_fault(msg@, path@, *file),
        },
        r is Ok <==> loadable(path@, *file),
{
    match file {
        None => {
            let mut msg = String::new();
            msg.push_str("custom dataset file not found: ");
            msg.push_str(path);
            proof {
                assert(msg@ =~= "custom dataset file not found: "@ + path@);
            }
            Err(Error::InvalidConfig(msg))
        },
        Some(f) => match file_to_items(f, path) {
            Ok(items) => match detect_mode(&items, path) {
                Ok(mode) => {
                    proof {
                        modes_follow(items@, *f, path@);
                        assert forall|i: int| 0 <= i < file_modes(*f).len() implies #[trigger]
                            file_modes(*f)[i] == file_modes(*f)[0] by {
                            assert(mode_of(items@[i]) == mode_of(items@[0]));
                        }
                    }
                    Ok((items, mode))
                },
                Err(e) => {
                    proof {
                        modes_follow(items@, *f, path@);
                        let i = first_other(items@, mode_of(items@[0]), 0).unwrap();
                        assert(file_items(items@, *f));
                        assert(file_modes(*f)[i] != file_modes(*f)[0]);
                    }
                    Err(e)
                },
            },
            Err(e) => Err(e),
        },
    }
}

/// Makes a dataset of a custom file, without its mode.
pub fn load(path: &str, file: &Option<CustomFile>) -> (r: Result<Vec<DatasetItem>, Error>)
    ensures
        match r {
            Ok(items) => {
                &&& file matches Some(f) && file_fault(*f, path@) is None && file_items(items@, *f)
                &&& items@.len() > 0
                &&& forall|i: int|
                    0 <= i < items@.len() ==> mode_of(#[trigger] items@[i]) == mode_of(items@[0])
            },
            Err(e) => e matches Error::InvalidConfig(msg) && load_fault(msg@, path@, *file),
        },
        r is Ok <==> loadable(path@, *file),
{
    match load_with_mode(path, file) {
        Ok((items, _mode)) => Ok(items),
        Err(e) => Err(e),
    }
}

/// The format of a file follows its extension where that is `toml`, in any case;
/// else a file whose first visible character is a bracket is an array, and any
/// other file holds a value in each line.
pub proof fn the_format_follows_extension_and_text(
    extension: Option<Seq<char>>,
    text: Seq<char>,
    k: int,
)
    requires
        0 <= k <= text.len(),
        forall|i: int| 0 <= i < k ==> is_space(#[trigger] text[i]),
        k < text.len() ==> !is_space(text[k]),
    ensures
        extension is Some && lowered(extension.unwrap()) == "toml"@ ==> format_of(extension, text)
            == CustomFormat::Toml,
        !(extension is Some && lowered(extension.unwrap()) == "toml"@) ==> format_of(
            extension,
            text,
        ) == (if k < text.len() && text[k] == '[' {
            CustomFormat::JsonArray
        } else {
            CustomFormat::JsonLines
        }),
    decreases k,
{
    if k > 0 {
        let rest = text.skip(1);
        assert forall|i: int| 0 <= i < k - 1 implies is_space(#[trigger] rest[i]) by {
            assert(text[i + 1] == rest[i]);
        }
        assert(is_space(text[0]));
        the_format_follows_extension_and_text(extension, rest, k - 1);
    }
}

/// Prompts that hold nothing but space are left out; the others stay as they
/// are, in order.
pub proof fn blank_prompts_are_left_out(prompts: Seq<Seq<char>>)
    ensures
        visible_prompts(prompts) == prompts.filter(|p: Seq<char>| trimmed(p).len() > 0),
    decreases prompts.len(),
{
    reveal(Seq::filter);
    if prompts.len() > 0 {
        blank_prompts_are_left_out(prompts.drop_last());
    }
}

/// Lines that hold no prompt are left out; the others give their prompts, in
/// order: those of two files read after each other are those of the first and
/// then those of the second.
pub proof fn unreadable_lines_are_left_out(
    a: Seq<Result<String, String>>,
    b: Seq<Result<String, String>>,
)
    ensures
        parsed_lines(a + b) == parsed_lines(a) + parsed_lines(b),
        b.len() == 1 ==> parsed_lines(b) == (match b[0] {
            Ok(prompt) => seq![prompt@],
            Err(_) => Seq::empty(),
        }),
    decreases b.len(),
{
    if b.len() == 0 {
        assert(a + b =~= a);
        assert(parsed_lines(a) + parsed_lines(b) =~= parsed_lines(a));
    } else {
        unreadable_lines_are_left_out(a, b.drop_last());
        assert((a + b).drop_last() =~= a + b.drop_last());
        assert(parsed_lines(a + b) =~= parsed_lines(a) + parsed_lines(b));
        if b.len() == 1 {
            assert(b.drop_last() =~= Seq::empty());
            assert(b.last() == b[0]);
            assert(parsed_lines(b.drop_last()) =~= Seq::empty());
        }
    }
}

/// Lines are numbered from one on; blank ones keep their number but give no row.
pub proof fn visible_rows_keep_their_number(rows: Seq<Seq<char>>, i: int)
    requires
        0 <= i < rows.len(),
    ensures
        trimmed(rows[i]).len() > 0 ==> visible_rows(rows).contains((i + 1, trimmed(rows[i]))),
        forall|k: int|
            0 <= k < visible_rows(rows).len() ==> {
                let row = #[trigger] visible_rows(rows)[k];
                &&& 1 <= row.0 <= rows.len()
                &&& row.1 == trimmed(rows[row.0 - 1])
                &&& row.1.len() > 0
            },
        forall|k: int, l: int|
            0 <= k < l < visible_rows(rows).len() ==> (#[trigger] visible_rows(rows)[k]).0 < (
            #[trigger] visible_rows(rows)[l]).0,
    decreases rows.len(),
{
    let rest = rows.drop_last();
    let before = visible_rows(rest);
    let all = visible_rows(rows);
    if rest.len() > 0 {
        visible_rows_keep_their_number(
            rest,
            if i < rest.len() {
                i
            } else {
                0
            },
        );
    }
    assert forall|k: int| 0 <= k < before.len() implies all[k] == before[k] by {}
    assert forall|k: int| 0 <= k < all.len() implies {
        let row = #[trigger] all[k];
        &&& 1 <= row.0 <= rows.len()
        &&& row.1 == trimmed(rows[row.0 - 1])
        &&& row.1.len() > 0
    } by {
        if k < before.len() {
            assert(all[k] == before[k]);
            assert(rest[before[k].0 - 1] == rows[before[k].0 - 1]);
        }
    }
    assert forall|k: int, l: int| 0 <= k < l < all.len() implies (#[trigger] all[k]).0 < (
    #[trigger] all[l]).0 by {
        assert(all[k] == before[k]);
        assert(1 <= before[k].0 <= rest.len());
        if l < before.len() {
            assert(all[l] == before[l]);
        }
    }
    if trimmed(rows[i]).len() > 0 {
        let row = (i + 1, trimmed(rows[i]));
        if i < rest.len() {
            assert(rest[i] == rows[i]);
            let k = before.index_of(row);
            assert(before.contains(row));
            assert(all[k] == row);
        } else {
            assert(all[before.len() as int] == row);
        }
    }
}

/// The items of a profile that are used are those whose weight is not zero, in
/// their order.
pub proof fn items_without_weight_are_skipped(items: Seq<ProfileItem>, i: int)
    requires
        0 <= i < items.len(),
    ensures
        kept_positions(items, items.len() as int).contains(i) <==> match items[i].weight {
            Some(w) => w.nan() || w.rank() != 0,
            None => true,
        },
        forall|k: int, l: int|
            0 <= k < l < kept_positions(items, items.len() as int).len() ==> (
            #[trigger] kept_positions(items, items.len() as int)[k]) < (
            #[trigger] kept_positions(items, items.len() as int)[l]),
{
    positions_are_kept(items, items.len() as int, i);
}

proof fn positions_are_kept(items: Seq<ProfileItem>, n: int, i: int)
    requires
        0 <= n <= items.len(),
    ensures
        kept_positions(items, n).contains(i) <==> 0 <= i < n && !skipped(items[i]),
        forall|k: int|
            0 <= k < kept_positions(items, n).len() ==> 0 <= #[trigger] kept_positions(items, n)[k]
                < n,
        forall|k: int, l: int|
            0 <= k < l < kept_positions(items, n).len() ==> (#[trigger] kept_positions(
                items,
                n,
            )[k]) < (#[trigger] kept_positions(items, n)[l]),
    decreases n,
{
    if n > 0 {
        positions_are_kept(items, n - 1, i);
        let before = kept_positions(items, n - 1);
        if !skipped(items[n - 1]) {
            let all = before.push(n - 1);
            assert(all[before.len() as int] == n - 1);
            if before.contains(i) {
                let k = before.index_of(i);
                assert(all[k] == i);
            }
            assert forall|k: int, l: int| 0 <= k < l < all.len() implies (#[trigger] all[k]) < (
            #[trigger] all[l]) by {
                assert(0 <= before[k] < n - 1);
            }
            assert forall|k: int| 0 <= k < all.len() implies 0 <= #[trigger] all[k] < n by {
                if k < before.len() {
                    assert(0 <= before[k] < n - 1);
                }
            }
        }
    }
}

/// The first item of a profile that is used and faulty is the one that is
/// reported; without such an item none is.
pub proof fn the_first_faulty_item_is_reported(items: Seq<ProfileItem>, k: int)
    requires
        0 <= k <= items.len(),
        forall|i: int|
            0 <= i < k ==> skipped(#[trigger] items[i]) || item_fault(items[i]) is None,
        k < items.len() ==> !skipped(items[k]) && item_fault(items[k]) is Some,
    ensures
        k < items.len() ==> first_faulty(items, 0) == Some(k),
        k == items.len() ==> first_faulty(items, 0) is None,
{
    sound_items_are_passed(items, 0, k);
}

proof fn sound_items_are_passed(items: Seq<ProfileItem>, from: int, k: int)
    requires
        0 <= from <= k <= items.len(),
        forall|i: int|
            from <= i < k ==> skipped(#[trigger] items[i]) || item_fault(items[i]) is None,
    ensures
        first_faulty(items, from) == first_faulty(items, k),
    decreases k - from,
{
    if from < k {
        assert(skipped(items[from]) || item_fault(items[from]) is None);
        sound_items_are_passed(items, from + 1, k);
    }
}

/// An item is sound that has either a text that is not blank and nothing to
/// follow it, or messages of known roles with follow-ups that are not blank; any
/// other is faulty.
pub proof fn sound_items_have_a_text_or_messages(raw: ProfileItem)
    ensures
        item_fault(raw) is None <==> {
            ||| raw.messages is None && (raw.text matches Some(text) && trimmed(text@).len() > 0)
                && raw.follow_ups@.len() == 0
            ||| raw.text is None && (raw.messages matches Some(messages) && messages@.len() > 0
                && (forall|i: int|
                0 <= i < messages@.len() ==> {
                    let role = trimmed((#[trigger] messages@[i]).role@);
                    role == "system"@ || role == "user"@ || role == "assistant"@
                })) && (forall|i: int|
                0 <= i < raw.follow_ups@.len() ==> trimmed((#[trigger] raw.follow_ups@[i])@).len()
                    > 0)
        },
{
    reveal_strlit("system");
    reveal_strlit("user");
    reveal_strlit("assistant");
    if let Some(messages) = raw.messages {
        roles_are_checked(messages@, 0);
    }
    follow_ups_are_checked(views(raw.follow_ups@), 0);
    let follow = views(raw.follow_ups@);
    assert forall|i: int| 0 <= i < raw.follow_ups@.len() implies #[trigger] follow[i]
        == raw.follow_ups@[i]@ by {}
    if forall|i: int| 0 <= i < follow.len() ==> trimmed(#[trigger] follow[i]).len() > 0 {
        assert forall|i: int| 0 <= i < raw.follow_ups@.len() implies trimmed(
            (#[trigger] raw.follow_ups@[i])@,
        ).len() > 0 by {
            assert(follow[i] == raw.follow_ups@[i]@);
        }
    }
}

proof fn roles_are_checked(messages: Seq<ProfileMessage>, from: int)
    requires
        0 <= from <= messages.len(),
        "system"@.len() > 0,
        "user"@.len() > 0,
        "assistant"@.len() > 0,
    ensures
        roles_fault(messages, from) is None <==> forall|i: int|
            from <= i < messages.len() ==> {
                let role = trimmed((#[trigger] messages[i]).role@);
                role == "system"@ || role == "user"@ || role == "assistant"@
            },
    decreases messages.len() - from,
{
    if from < messages.len() {
        roles_are_checked(messages, from + 1);
        let role = trimmed(messages[from].role@);
        assert(role_fault(messages[from].role@, from) is None <==> known_role(role));
    }
}

proof fn follow_ups_are_checked(follow_ups: Seq<Seq<char>>, from: int)
    requires
        0 <= from <= follow_ups.len(),
    ensures
        follow_ups_fault(follow_ups, from) is None <==> forall|i: int|
            from <= i < follow_ups.len() ==> trimmed(#[trigger] follow_ups[i]).len() > 0,
    decreases follow_ups.len() - from,
{
    if from < follow_ups.len() {
        follow_ups_are_checked(follow_ups, from + 1);
    }
}

/// What an item of a profile becomes: the name it has, or one by its place; its
/// text without the space around it, or its messages in order, with their roles
/// trimmed and their contents as they are; its follow-ups, its tags and its
/// weight.
pub proof fn an_item_keeps_what_it_was_given(
    item: DatasetItem,
    raw: ProfileItem,
    i: int,
)
    requires
        item_of(item, raw, name_of(raw, i)),
    ensures
        raw.name matches Some(name) ==> item.name is Some && item.name.unwrap()@ == name@,
        raw.name is None ==> item.name is Some && item.name.unwrap()@ == "item-"@ + decimal(
            i as nat,
        ),
        item.weight == raw.weight,
        item.tags@ == raw.tags@,
        raw.text matches Some(text) ==> item.prompt@ == trimmed(text@) && item.messages is None,
        raw.messages matches Some(messages) ==> {
            &&& item.messages is Some && item.messages.unwrap()@.len() == messages@.len()
            &&& forall|k: int|
                0 <= k < messages@.len() ==> {
                    &&& (#[trigger] item.messages.unwrap()@[k]).role@ == trimmed(
                        messages@[k].role@,
                    )
                    &&& item.messages.unwrap()@[k].content@ == messages@[k].content@
                }
            &&& item.follow_ups@ == raw.follow_ups@
        },
        mode_of(item) == (match raw.messages {
            None => DatasetMode::Single,
            Some(_) => if raw.follow_ups@.len() == 0 {
                DatasetMode::StaticMulti
            } else {
                DatasetMode::DynamicMulti
            },
        }),
{
}

/// The first item of another mode than wanted is the one that is reported;
/// without one none is.
pub proof fn the_first_item_of_another_mode_is_reported(
    items: Seq<DatasetItem>,
    mode: DatasetMode,
    k: int,
)
    requires
        0 <= k <= items.len(),
        forall|i: int| 0 <= i < k ==> mode_of(#[trigger] items[i]) == mode,
        k < items.len() ==> mode_of(items[k]) != mode,
    ensures
        k < items.len() ==> first_other(items, mode, 0) == Some(k),
        k == items.len() ==> first_other(items, mode, 0) is None,
{
    same_modes_are_passed(items, mode, 0, k);
}

proof fn same_modes_are_passed(items: Seq<DatasetItem>, mode: DatasetMode, from: int, k: int)
    requires
        0 <= from <= k <= items.len(),
        forall|i: int| from <= i < k ==> mode_of(#[trigger] items[i]) == mode,
    ensures
        first_other(items, mode, from) == first_other(items, mode, k),
    decreases k - from,
{
    if from < k {
        assert(mode_of(items[from]) == mode);
        same_modes_are_passed(items, mode, from + 1, k);
    }
}

/// What a file becomes. Of an array, or of the lines of a file, each prompt that
/// is not blank is an item, in order; of a profile each item with a weight is
/// one, in order.
pub proof fn a_file_becomes_its_prompts(out: Seq<DatasetItem>, file: CustomFile, j: int)
    requires
        file_items(out, file),
    ensures
        file matches CustomFile::JsonArray(Ok(prompts)) ==> {
            let kept = views(prompts@).filter(|p: Seq<char>| trimmed(p).len() > 0);
            &&& out.len() == kept.len()
            &&& 0 <= j < out.len() ==> out[j].prompt@ == kept[j] && out[j].messages is None
        },
        file matches CustomFile::JsonLines(rows) ==> {
            let kept = parsed_lines(rows@).filter(|p: Seq<char>| trimmed(p).len() > 0);
            &&& out.len() == kept.len()
            &&& 0 <= j < out.len() ==> out[j].prompt@ == kept[j] && out[j].messages is None
        },
        file matches CustomFile::Toml(Ok(items)) ==> {
            let kept = kept_positions(items@, items@.len() as int);
            &&& out.len() == kept.len()
            &&& 0 <= j < out.len() ==> item_of(
                out[j],
                items@[kept[j]],
                name_of(items@[kept[j]], kept[j]),
            )
        },
        file matches CustomFile::JsonArray(Err(_)) ==> false,
        file matches CustomFile::Toml(Err(_)) ==> false,
{
    match file {
        CustomFile::JsonArray(Ok(prompts)) => {
            blank_prompts_are_left_out(views(prompts@));
        },
        CustomFile::JsonLines(rows) => {
            blank_prompts_are_left_out(parsed_lines(rows@));
        },
        _ => {},
    }
}

/// How a faulty item is reported: by its place, its name, the file and the fault.
pub proof fn a_faulty_item_is_named(raw: ProfileItem, i: int, path: Seq<char>)
    requires
        i >= 0,
        item_fault(raw) is Some,
    ensures
        i == 0 ==> profile_error(raw, i, path) == "custom: "@ + "first"@ + " item `"@ + name_of(
            raw,
            i,
        ) + "` in "@ + path + ": "@ + item_fault(raw).unwrap(),
        i > 0 ==> profile_error(raw, i, path) == "custom: "@ + "later"@ + " item `"@ + name_of(
            raw,
            i,
        ) + "` in "@ + path + ": "@ + item_fault(raw).unwrap(),
        raw.name is None ==> name_of(raw, i) == "item-"@ + decimal(i as nat),
        raw.name matches Some(name) ==> name_of(raw, i) == name@,
{
}

/// A file is refused by its first fault: one that is missing, one that could not
/// be parsed, a faulty item, or no prompt at all.
pub proof fn a_file_is_refused_by_its_fault(
    msg: Seq<char>,
    path: Seq<char>,
    file: Option<CustomFile>,
)
    requires
        load_fault(msg, path, file),
    ensures
        file is None ==> msg == "custom dataset file not found: "@ + path,
        file matches Some(CustomFile::Toml(Err(cause))) ==> msg == "custom: failed to parse "@ + path
            + " as "@ + "TOML profile"@ + ": "@ + cause@,
        file matches Some(CustomFile::JsonArray(Err(cause))) ==> msg == "custom: failed to parse "@
            + path + " as "@ + "JSON array"@ + ": "@ + cause@,
        file matches Some(CustomFile::JsonArray(Ok(prompts))) ==> (views(prompts@).filter(
            |p: Seq<char>| trimmed(p).len() > 0,
        ).len() == 0 ==> msg == "custom: no valid prompts parsed from "@ + path),
        file matches Some(CustomFile::Toml(Ok(items))) ==> (first_faulty(items@, 0) matches Some(i)
            ==> msg == profile_error(items@[i], i, path)),
{
    if let Some(CustomFile::JsonArray(Ok(prompts))) = file {
        blank_prompts_are_left_out(views(prompts@));
    }
}

} // verus!
