//! Datasets: where the prompts of a run come from.

pub mod builtin;
pub mod custom;
pub mod pool;
pub mod sharegpt;
pub mod simple;

use vstd::prelude::*;

use crate::binary64::Real;
use crate::config::{DatasetSpec, PromptDistribution, PromptSource, RequestStrategy};
use crate::error::Error;
use custom::CustomFile;
use pool::PoolDataset;
use sharegpt::Conversation;
use simple::SimpleDataset;

verus! {

/// One message of a conversation.
#[derive(Debug)]
pub struct OwnedChatMessage {
    pub role: String,
    pub content: String,
}

impl Clone for OwnedChatMessage {
    fn clone(&self) -> (r: Self)
        ensures
            r == *self,
    {
        OwnedChatMessage { role: self.role.clone(), content: self.content.clone() }
    }
}

impl OwnedChatMessage {
    pub fn new(role: &str, content: &str) -> (r: Self)
        ensures
            r.role@ == role@,
            r.content@ == content@,
    {
        OwnedChatMessage { role: role.to_owned(), content: content.to_owned() }
    }
}

/// A single request ready to fire.
///
/// Without `messages` the item is single-turn and `prompt` is what is sent.
/// With `messages` they are the body, and `prompt` is a preview for reports.
/// `follow_ups` are the user messages of later turns.
#[derive(Debug)]
pub struct DatasetItem {
    pub prompt: String,
    /// Estimate of the prompt's token count.
    pub estimated_prompt_tokens: u32,
    /// Optional sampling weight.
    pub weight: Option<Real>,
    pub tags: Vec<String>,
    pub name: Option<String>,
    pub messages: Option<Vec<OwnedChatMessage>>,
    pub follow_ups: Vec<String>,
}

impl DatasetItem {
    /// Both hold the same.
    pub open spec fn same(self, other: DatasetItem) -> bool {
        &&& self.prompt@ == other.prompt@
        &&& self.estimated_prompt_tokens == other.estimated_prompt_tokens
        &&& self.weight == other.weight
        &&& self.tags@ == other.tags@
        &&& self.name == other.name
        &&& match (self.messages, other.messages) {
            (Some(a), Some(b)) => a@ == b@,
            (None, None) => true,
            _ => false,
        }
        &&& self.follow_ups@ == other.follow_ups@
    }

    /// A single-turn item with nothing but a prompt and its estimate.
    pub open spec fn plain(self, prompt: Seq<char>) -> bool {
        &&& self.prompt@ == prompt
        &&& self.estimated_prompt_tokens == crate::config::estimated_tokens(prompt)
        &&& self.weight is None
        &&& self.tags@.len() == 0
        &&& self.name is None
        &&& self.messages is None
        &&& self.follow_ups@.len() == 0
    }

    /// Makes a single-turn item of a prompt.
    pub fn from_prompt(prompt: String) -> (r: DatasetItem)
        ensures
            r.plain(prompt@),
    {
        let tokens = crate::config::estimate_tokens(prompt.as_str());
        DatasetItem {
            prompt,
            estimated_prompt_tokens: tokens,
            weight: None,
            tags: Vec::new(),
            name: None,
            messages: None,
            follow_ups: Vec::new(),
        }
    }
}

impl Clone for DatasetItem {
    fn clone(&self) -> (r: Self)
        ensures
            r.same(*self),
    {
        DatasetItem {
            prompt: self.prompt.clone(),
            estimated_prompt_tokens: self.estimated_prompt_tokens,
            weight: self.weight,
            tags: self.tags.clone(),
            name: self.name.clone(),
            messages: match &self.messages {
                Some(m) => Some(m.clone()),
                None => None,
            },
            follow_ups: self.follow_ups.clone(),
        }
    }
}

/// How the items of a dataset are run. One dataset has one mode.
#[derive(Debug, Clone, Copy, PartialEq, Eq, Structural)]
pub enum DatasetMode {
    /// One request per item, one answer, no session.
    Single,
    /// One request per item with the full `messages`.
    StaticMulti,
    /// Each item is a chain of turns inside its own session.
    DynamicMulti,
}

/// Anything that can produce a sequence of prompts for a load test.
pub trait Dataset {
    spec fn kind(&self) -> DatasetMode;

    /// Whether `item` may come next.
    spec fn offers(&self, item: DatasetItem) -> bool;

    /// Whether handing out one item leads to `later`.
    spec fn moves_to(&self, later: &Self) -> bool;

    /// The next item.
    fn next(&mut self) -> (r: DatasetItem)
        ensures
            old(self).offers(r),
            old(self).moves_to(final(self)),
            final(self).kind() == old(self).kind(),
    ;

    /// The execution mode of this dataset.
    fn mode(&self) -> (r: DatasetMode)
        ensures
            r == self.kind(),
    ;
}

/// A dataset that was built from a specification.
#[derive(Debug)]
pub enum BuiltDataset {
    Simple(SimpleDataset),
    Pool(PoolDataset),
}

impl Dataset for BuiltDataset {
    open spec fn kind(&self) -> DatasetMode {
        match self {
            BuiltDataset::Simple(d) => d.kind(),
            BuiltDataset::Pool(d) => d.kind(),
        }
    }

    open spec fn offers(&self, item: DatasetItem) -> bool {
        match self {
            BuiltDataset::Simple(d) => d.offers(item),
            BuiltDataset::Pool(d) => d.offers(item),
        }
    }

    open spec fn moves_to(&self, later: &Self) -> bool {
        match (self, later) {
            (BuiltDataset::Simple(a), BuiltDataset::Simple(b)) => a.moves_to(b),
            (BuiltDataset::Pool(a), BuiltDataset::Pool(b)) => a.moves_to(b),
            _ => false,
        }
    }

    fn next(&mut self) -> (r: DatasetItem) {
        match self {
            BuiltDataset::Simple(d) => d.next(),
            BuiltDataset::Pool(d) => d.next(),
        }
    }

    fn mode(&self) -> (r: DatasetMode) {
        match self {
            BuiltDataset::Simple(d) => d.mode(),
            BuiltDataset::Pool(d) => d.mode(),
        }
    }
}

/// The estimates of a sequence of items.
pub open spec fn estimates(items: Seq<DatasetItem>) -> Seq<u32> {
    items.map_values(|item: DatasetItem| item.estimated_prompt_tokens)
}

pub fn distribution_of(items: &Vec<DatasetItem>) -> (r: PromptDistribution)
    ensures
        r.describes(estimates(items@)),
{
    let mut tokens: Vec<u32> = Vec::new();
    let mut i: usize = 0;
    while i < items.len()
        invariant
            i <= items@.len(),
            tokens@ == estimates(items@).take(i as int),
        decreases items@.len() - i,
    {
        tokens.push(items[i].estimated_prompt_tokens);
        proof {
            assert(tokens@ =~= estimates(items@).take(i + 1));
        }
        i += 1;
    }
    proof {
        assert(tokens@ =~= estimates(items@));
    }
    PromptDistribution::from_slice(tokens.as_slice())
}

/// The files that a specification may name, parsed: `None` where the file does
/// not exist.
#[derive(Debug)]
pub struct DatasetFiles {
    pub sharegpt: Option<Result<Vec<Conversation>, String>>,
    pub custom: Option<CustomFile>,
}

/// The dataset that a specification asks for.
pub open spec fn built_from(
    built: BuiltDataset,
    spec: DatasetSpec,
    strategy: RequestStrategy,
    files: DatasetFiles,
) -> bool {
    match spec {
        DatasetSpec::Literal { text } => built matches BuiltDataset::Simple(d) && d.item.plain(
            text@,
        ),
        DatasetSpec::TokenBudget { target_tokens } => {
            &&& built matches BuiltDataset::Simple(d)
            &&& d.item.plain(d.item.prompt@)
            &&& d.item.prompt@.len() == crate::config::filler_len(target_tokens)
            &&& crate::config::repeats_filler(d.item.prompt@)
        },
        DatasetSpec::Builtin => {
            &&& built matches BuiltDataset::Pool(d)
            &&& d.wf() && d.counter == 0 && d.strategy == strategy
            &&& d.pool_mode == DatasetMode::Single
            &&& custom::plain_items(d.items@, builtin::pool_texts())
        },
        DatasetSpec::ShareGpt { .. } => {
            &&& built matches BuiltDataset::Pool(d)
            &&& d.wf() && d.counter == 0 && d.strategy == strategy
            &&& d.pool_mode == DatasetMode::Single
            &&& files.sharegpt matches Some(Ok(file))
            &&& custom::plain_items(d.items@, sharegpt::kept_prompts(file@))
        },
        DatasetSpec::Custom { .. } => {
            &&& built matches BuiltDataset::Pool(d)
            &&& d.wf() && d.counter == 0 && d.strategy == strategy
            &&& files.custom matches Some(file)
            &&& custom::file_items(d.items@, file)
            &&& forall|i: int|
                0 <= i < d.items@.len() ==> custom::mode_of(#[trigger] d.items@[i]) == d.pool_mode
        },
    }
}

/// The items that a dataset draws from.
pub open spec fn items_of(built: BuiltDataset) -> Seq<DatasetItem> {
    match built {
        BuiltDataset::Simple(d) => seq![d.item],
        BuiltDataset::Pool(d) => d.items@,
    }
}

/// Builds a dataset and the distribution of its estimated prompt lengths. Only
/// a named file can make this fail.
pub fn build_with_distribution(
    spec: &DatasetSpec,
    strategy: RequestStrategy,
    files: &DatasetFiles,
) -> (r: Result<(BuiltDataset, PromptDistribution), Error>)
    ensures
        match r {
            Ok((built, distribution)) => {
                &&& built_from(built, *spec, strategy, *files)
                &&& distribution.describes(estimates(items_of(built)))
                &&& items_of(built).len() > 0
            },
            Err(e) => build_fault(e, *spec, *files),
        },
{
    match spec {
        DatasetSpec::Literal { text } => {
            let ds = SimpleDataset::new_literal(text.clone());
            let distribution = PromptDistribution::from_single(ds.item.estimated_prompt_tokens);
            proof {
                describes_single(ds.item, distribution);
            }
            Ok((BuiltDataset::Simple(ds), distribution))
        },
        DatasetSpec::TokenBudget { target_tokens } => {
            let (text, tokens) = (PromptSource::TokenBudget {
                target_tokens: *target_tokens,
            }).resolve();
            let ds = SimpleDataset::new_literal(text);
            let distribution = PromptDistribution::from_single(tokens);
            proof {
                describes_single(ds.item, distribution);
            }
            Ok((BuiltDataset::Simple(ds), distribution))
        },
        DatasetSpec::Builtin => {
            let items = builtin::builtin_pool();
            let distribution = distribution_of(&items);
            let ds = PoolDataset::new(items, strategy, DatasetMode::Single);
            Ok((BuiltDataset::Pool(ds), distribution))
        },
        DatasetSpec::ShareGpt { path } => match sharegpt::load(path.as_str(), &files.sharegpt) {
            Ok(items) => {
                let distribution = distribution_of(&items);
                let ds = PoolDataset::new(items, strategy, DatasetMode::Single);
                Ok((BuiltDataset::Pool(ds), distribution))
            },
            Err(e) => Err(e),
        },
        DatasetSpec::Custom { path } => match custom::load_with_mode(path.as_str(), &files.custom) {
            Ok((items, mode)) => {
                let distribution = distribution_of(&items);
                let ds = PoolDataset::new(items, strategy, mode);
                Ok((BuiltDataset::Pool(ds), distribution))
            },
            Err(e) => Err(e),
        },
    }
}

/// Builds a dataset without its distribution.
pub fn build(spec: &DatasetSpec, strategy: RequestStrategy, files: &DatasetFiles) -> (r: Result<
    BuiltDataset,
    Error,
>)
    ensures
        match r {
            Ok(built) => built_from(built, *spec, strategy, *files),
            Err(e) => build_fault(e, *spec, *files),
        },
{
    match build_with_distribution(spec, strategy, files) {
        Ok((built, _distribution)) => Ok(built),
        Err(e) => Err(e),
    }
}

/// The error of a specification that cannot be built.
pub open spec fn build_fault(e: Error, spec: DatasetSpec, files: DatasetFiles) -> bool {
    match spec {
        DatasetSpec::ShareGpt { path } => e matches Error::InvalidConfig(msg)
            && sharegpt::load_fault(path@, files.sharegpt) == Some(msg@),
        DatasetSpec::Custom { path } => e matches Error::InvalidConfig(msg)
            && custom::load_fault(msg@, path@, files.custom),
        _ => false,
    }
}

proof fn describes_single(item: DatasetItem, distribution: PromptDistribution)
    requires
        distribution == (PromptDistribution {
            count: 1,
            min: item.estimated_prompt_tokens,
            max: item.estimated_prompt_tokens,
            total: item.estimated_prompt_tokens as u128,
        }),
    ensures
        distribution.describes(estimates(seq![item])),
{
    let tokens = estimates(seq![item]);
    assert(tokens =~= seq![item.estimated_prompt_tokens]);
    assert(tokens[0] == item.estimated_prompt_tokens);
    assert(tokens.drop_last() =~= Seq::<u32>::empty());
    reveal_with_fuel(crate::config::token_sum, 2);
}

/// Reports a dataset file that does not exist.
pub fn ensure_exists(path: &str, exists: bool) -> (r: Result<(), Error>)
    ensures
        r is Ok <==> exists,
        r matches Err(e) ==> e matches Error::InvalidConfig(msg) && msg@
            == "dataset file not found: "@ + path@,
{
    if !exists {
        let mut msg = String::new();
        msg.push_str("dataset file not found: ");
        msg.push_str(path);
        proof {
            assert(msg@ =~= "dataset file not found: "@ + path@);
        }
        return Err(Error::InvalidConfig(msg));
    }
    Ok(())
}

/// What a dataset is made of. A literal is always offered as it is; a budget is
/// filled with the same words over and over; a pool starts at its first prompt
/// and picks in the given way.
pub proof fn a_dataset_is_made_of_what_was_asked_for(
    built: BuiltDataset,
    spec: DatasetSpec,
    strategy: RequestStrategy,
    files: DatasetFiles,
)
    requires
        built_from(built, spec, strategy, files),
    ensures
        match spec {
            DatasetSpec::Literal { text } => {
                &&& items_of(built).len() == 1
                &&& items_of(built)[0].prompt@ == text@
                &&& items_of(built)[0].messages is None
            },
            DatasetSpec::TokenBudget { target_tokens } => {
                &&& items_of(built).len() == 1
                &&& target_tokens * 4 <= usize::MAX ==> items_of(built)[0].prompt@.len()
                    == target_tokens * 4
            },
            _ => match built {
                BuiltDataset::Pool(d) => d.counter == 0 && d.strategy == strategy,
                BuiltDataset::Simple(_) => false,
            },
        },
        spec matches DatasetSpec::ShareGpt { .. } ==> (files.sharegpt matches Some(Ok(file)) && {
            &&& items_of(built).len() == sharegpt::kept_prompts(file@).len()
            &&& forall|i: int|
                0 <= i < items_of(built).len() ==> (#[trigger] items_of(built)[i]).prompt@
                    == sharegpt::kept_prompts(file@)[i]
        }),
{
}

/// An item of a prompt alone holds that prompt and its estimate, and nothing
/// else.
pub proof fn a_plain_item_holds_its_prompt(item: DatasetItem, prompt: Seq<char>)
    requires
        item.plain(prompt),
    ensures
        item.prompt@ == prompt,
        item.estimated_prompt_tokens == crate::config::estimated_tokens(prompt),
        item.messages is None,
        item.follow_ups@.len() == 0,
        item.weight is None,
{
}

} // verus!
