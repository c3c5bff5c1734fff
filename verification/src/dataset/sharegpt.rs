//! ShareGPT conversations: the first human turn of each is a prompt.

use super::DatasetItem;
use crate::error::Error;
use crate::text::{ascii_lowercase, lowered, same_text, trim, trimmed};
use vstd::prelude::*;

verus! {

/// The largest number of prompts that are kept.
pub const MAX_PROMPTS: usize = 1000;

/// One turn of a conversation, as the file has it.
#[derive(Debug)]
pub struct Turn {
    pub from: Option<String>,
    pub value: Option<String>,
}

/// One conversation of the file.
#[derive(Debug)]
pub struct Conversation {
    pub conversations: Vec<Turn>,
}

/// Whether a turn comes from the human side: dumps name it `human` or `user`.
pub open spec fn human(turn: Turn) -> bool {
    turn.from matches Some(from) && (lowered(from@) == "human"@ || lowered(from@) == "user"@)
}

fn is_human(turn: &Turn) -> (r: bool)
    ensures
        r == human(*turn),
{
    match &turn.from {
        Some(from) => {
            let low = ascii_lowercase(from.as_str());
            same_text(low.as_str(), "human") || same_text(low.as_str(), "user")
        },
        None => false,
    }
}

/// The first human turn from `from` on.
pub open spec fn first_human(turns: Seq<Turn>, from: int) -> Option<Turn>
    decreases turns.len() - from,
{
    if from >= turns.len() {
        None
    } else if human(turns[from]) {
        Some(turns[from])
    } else {
        first_human(turns, from + 1)
    }
}

/// The prompt of a conversation: the trimmed text of its first human turn,
/// where there is one that holds something.
pub open spec fn prompt_of(conversation: Conversation) -> Option<Seq<char>> {
    match first_human(conversation.conversations@, 0) {
        Some(turn) => match turn.value {
            Some(value) => if trimmed(value@).len() == 0 {
                None
            } else {
                Some(trimmed(value@))
            },
            None => None,
        },
        None => None,
    }
}

fn conversation_prompt(conversation: &Conversation) -> (r: Option<String>)
    ensures
        match r {
            Some(p) => prompt_of(*conversation) == Some(p@),
            None => prompt_of(*conversation) is None,
        },
{
    let turns = &conversation.conversations;
    let mut i: usize = 0;
    while i < turns.len()
        invariant
            turns == conversation.conversations,
            i <= turns@.len(),
            first_human(turns@, 0) == first_human(turns@, i as int),
        decreases turns@.len() - i,
    {
        if is_human(&turns[i]) {
            return match &turns[i].value {
                Some(value) => {
                    let text = trim(value.as_str());
                    if text.as_str().is_empty() {
                        None
                    } else {
                        Some(text)
                    }
                },
                None => None,
            };
        }
        i += 1;
    }
    None
}

/// The prompts of the first `n` conversations, in order.
pub open spec fn prompts_of(file: Seq<Conversation>, n: int) -> Seq<Seq<char>>
    decreases n,
{
    if n <= 0 {
        Seq::empty()
    } else {
        let before = prompts_of(file, n - 1);
        match prompt_of(file[n - 1]) {
            Some(p) => before.push(p),
            None => before,
        }
    }
}

/// The prompts that are kept of a file: the first ones, up to the limit.
pub open spec fn kept_prompts(file: Seq<Conversation>) -> Seq<Seq<char>> {
    let all = prompts_of(file, file.len() as int);
    if all.len() > MAX_PROMPTS {
        all.take(MAX_PROMPTS as int)
    } else {
        all
    }
}

/// Later conversations only add prompts at the end.
proof fn prompts_grow(file: Seq<Conversation>, m: int, n: int)
    requires
        0 <= m <= n <= file.len(),
    ensures
        prompts_of(file, m).is_prefix_of(prompts_of(file, n)),
    decreases n - m,
{
    if m < n {
        prompts_grow(file, m, n - 1);
    }
}

/// Why a file gives no prompts, where it does not. `None` stands for a file
/// that does not exist, an error for one that could not be parsed.
pub open spec fn load_fault(
    path: Seq<char>,
    file: Option<Result<Vec<Conversation>, String>>,
) -> Option<Seq<char>> {
    match file {
        None => Some("sharegpt file not found: "@ + path),
        Some(Err(cause)) => Some("sharegpt: failed to parse "@ + path + ": "@ + cause@),
        Some(Ok(conversations)) => if kept_prompts(conversations@).len() == 0 {
            Some("sharegpt: no human turns found in "@ + path)
        } else {
            None
        },
    }
}

/// Makes dataset items of a ShareGPT file: `None` where the file does not exist.
pub fn load(path: &str, file: &Option<Result<Vec<Conversation>, String>>) -> (r: Result<
    Vec<DatasetItem>,
    Error,
>)
    ensures
        match r {
            Ok(items) => {
                &&& load_fault(path@, *file) is None
                &&& 0 < items@.len() <= MAX_PROMPTS
                &&& items@.len() == kept_prompts(file.unwrap()->Ok_0@).len()
                &&& forall|i: int|
                    0 <= i < items@.len() ==> (#[trigger] items@[i]).plain(
                        kept_prompts(file.unwrap()->Ok_0@)[i],
                    )
            },
            Err(e) => e matches Error::InvalidConfig(msg) && load_fault(path@, *file) == Some(msg@),
        },
{
    match file {
        None => {
            let mut msg = String::new();
            msg.push_str("sharegpt file not found: ");
            msg.push_str(path);
            proof {
                assert(msg@ =~= "sharegpt file not found: "@ + path@);
            }
            Err(Error::InvalidConfig(msg))
        },
        Some(Err(cause)) => {
            let mut msg = String::new();
            msg.push_str("sharegpt: failed to parse ");
            msg.push_str(path);
            msg.push_str(": ");
            msg.push_str(cause.as_str());
            proof {
                assert(msg@ =~= "sharegpt: failed to parse "@ + path@ + ": "@ + cause@);
            }
            Err(Error::InvalidConfig(msg))
        },
        Some(Ok(conversations)) => {
            let mut out: Vec<DatasetItem> = Vec::new();
            let mut i: usize = 0;
            while i < conversations.len() && out.len() < MAX_PROMPTS
                invariant
                    i <= conversations@.len(),
                    out@.len() <= MAX_PROMPTS,
                    out@.len() == prompts_of(conversations@, i as int).len(),
                    forall|j: int|
                        0 <= j < out@.len() ==> (#[trigger] out@[j]).plain(
                            prompts_of(conversations@, i as int)[j],
                        ),
                decreases conversations@.len() - i,
            {
                if let Some(prompt) = conversation_prompt(&conversations[i]) {
                    out.push(DatasetItem::from_prompt(prompt));
                }
                i += 1;
            }
            proof {
                let n = conversations@.len() as int;
                prompts_grow(conversations@, i as int, n);
                assert(prompts_of(conversations@, i as int) =~= kept_prompts(conversations@));
            }
            if out.is_empty() {
                let mut msg = String::new();
                msg.push_str("sharegpt: no human turns found in ");
                msg.push_str(path);
                proof {
                    assert(msg@ =~= "sharegpt: no human turns found in "@ + path@);
                }
                return Err(Error::InvalidConfig(msg));
            }
            Ok(out)
        },
    }
}

/// The prompt of a conversation is the text of its first human turn without the
/// space around it: of the turn that is human while none before it is. Dumps
/// name the human side `human` or `user`, in any case. There is no prompt where
/// that turn has no text, or nothing but space.
pub proof fn the_first_human_turn_is_the_prompt(conversation: Conversation, k: int)
    requires
        0 <= k < conversation.conversations@.len(),
        conversation.conversations@[k].from is Some,
        lowered(conversation.conversations@[k].from.unwrap()@) == "human"@ || lowered(
            conversation.conversations@[k].from.unwrap()@,
        ) == "user"@,
        forall|i: int|
            0 <= i < k ==> match (#[trigger] conversation.conversations@[i]).from {
                Some(from) => lowered(from@) != "human"@ && lowered(from@) != "user"@,
                None => true,
            },
    ensures
        match conversation.conversations@[k].value {
            Some(value) => prompt_of(conversation) == (if trimmed(value@).len() == 0 {
                None
            } else {
                Some(trimmed(value@))
            }),
            None => prompt_of(conversation) is None,
        },
{
    let turns = conversation.conversations@;
    search_skips(turns, 0, k);
}

/// Turns that are not human are passed over.
proof fn search_skips(turns: Seq<Turn>, from: int, k: int)
    requires
        0 <= from <= k <= turns.len(),
        forall|i: int|
            from <= i < k ==> match (#[trigger] turns[i]).from {
                Some(from) => lowered(from@) != "human"@ && lowered(from@) != "user"@,
                None => true,
            },
    ensures
        first_human(turns, from) == first_human(turns, k),
    decreases k - from,
{
    if from < k {
        assert(!human(turns[from]));
        search_skips(turns, from + 1, k);
    }
}

/// A conversation in which no turn is human has no prompt.
pub proof fn without_a_human_turn_there_is_no_prompt(conversation: Conversation)
    requires
        forall|i: int|
            0 <= i < conversation.conversations@.len() ==> match (
                #[trigger] conversation.conversations@[i]
            ).from {
                Some(from) => lowered(from@) != "human"@ && lowered(from@) != "user"@,
                None => true,
            },
    ensures
        prompt_of(conversation) is None,
{
    search_skips(conversation.conversations@, 0, conversation.conversations@.len() as int);
}

/// The prompts of a file are those of its conversations, one after the other:
/// those of two files read after each other are those of the first, and then
/// those of the second, and a conversation gives its own prompt or nothing.
pub proof fn prompts_follow_the_conversations(a: Seq<Conversation>, b: Seq<Conversation>)
    ensures
        prompts_of(a + b, (a + b).len() as int) == prompts_of(a, a.len() as int) + prompts_of(
            b,
            b.len() as int,
        ),
        b.len() == 1 ==> prompts_of(b, 1) == (match prompt_of(b[0]) {
            Some(p) => seq![p],
            None => Seq::empty(),
        }),
    decreases b.len(),
{
    if b.len() == 0 {
        assert(a + b =~= a);
    } else {
        prompts_follow_the_conversations(a, b.drop_last());
        let n = b.len() as int;
        let m = (a + b).len() as int;
        prompts_of_a_part(a + b, a + b.drop_last(), m - 1);
        prompts_of_a_part(b, b.drop_last(), n - 1);
        assert((a + b)[m - 1] == b[n - 1]);
        assert(prompts_of(a + b, m) =~= prompts_of(a, a.len() as int) + prompts_of(b, n));
        if n == 1 {
            assert(prompts_of(b, 0) =~= Seq::empty());
            if prompt_of(b[0]) is Some {
                assert(prompts_of(b, 1) =~= seq![prompt_of(b[0]).unwrap()]);
            }
        }
    }
}

/// The first conversations alone decide the first prompts.
proof fn prompts_of_a_part(file: Seq<Conversation>, part: Seq<Conversation>, n: int)
    requires
        0 <= n <= part.len() <= file.len(),
        forall|i: int| 0 <= i < n ==> file[i] == part[i],
    ensures
        prompts_of(file, n) == prompts_of(part, n),
    decreases n,
{
    if n > 0 {
        prompts_of_a_part(file, part, n - 1);
        assert(file[n - 1] == part[n - 1]);
    }
}

/// Of the prompts of a file the first thousand are kept, all where there are no
/// more.
pub proof fn the_first_prompts_are_kept(file: Seq<Conversation>)
    ensures
        ({
            let all = prompts_of(file, file.len() as int);
            &&& kept_prompts(file).len() == (if all.len() < 1000 {
                all.len()
            } else {
                1000
            })
            &&& forall|i: int|
                0 <= i < kept_prompts(file).len() ==> #[trigger] kept_prompts(file)[i] == all[i]
        }),
{
}

/// Why a file gives no prompts: it is missing, it could not be parsed, or no
/// conversation of it has a prompt. A file in which one has a prompt is taken.
pub proof fn a_file_with_a_prompt_is_taken(
    path: Seq<char>,
    file: Option<Result<Vec<Conversation>, String>>,
    k: int,
)
    ensures
        file is None ==> load_fault(path, file) == Some("sharegpt file not found: "@ + path),
        file matches Some(Err(cause)) ==> load_fault(path, file) == Some(
            "sharegpt: failed to parse "@ + path + ": "@ + cause@,
        ),
        file matches Some(Ok(conversations)) ==> {
            &&& 0 <= k < conversations@.len() && prompt_of(conversations@[k]) is Some ==> load_fault(
                path,
                file,
            ) is None
            &&& (forall|i: int|
                0 <= i < conversations@.len() ==> prompt_of(#[trigger] conversations@[i]) is None)
                ==> load_fault(path, file) == Some("sharegpt: no human turns found in "@ + path)
        },
{
    if let Some(Ok(conversations)) = file {
        let n = conversations@.len() as int;
        if 0 <= k < n && prompt_of(conversations@[k]) is Some {
            assert(prompts_of(conversations@, k + 1).len() > 0);
            prompts_grow(conversations@, k + 1, n);
        }
        if forall|i: int| 0 <= i < n ==> prompt_of(#[trigger] conversations@[i]) is None {
            no_prompts(conversations@, n);
        }
    }
}

proof fn no_prompts(file: Seq<Conversation>, n: int)
    requires
        0 <= n <= file.len(),
        forall|i: int| 0 <= i < file.len() ==> prompt_of(#[trigger] file[i]) is None,
    ensures
        prompts_of(file, n).len() == 0,
    decreases n,
{
    if n > 0 {
        assert(prompt_of(file[n - 1]) is None);
        no_prompts(file, n - 1);
    }
}

} // verus!
