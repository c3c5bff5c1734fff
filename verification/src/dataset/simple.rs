//! A dataset that always returns the same prompt.

use super::{Dataset, DatasetItem, DatasetMode};
use vstd::prelude::*;

verus! {

#[derive(Debug)]
pub struct SimpleDataset {
    pub item: DatasetItem,
}

impl SimpleDataset {
    pub fn new_literal(text: String) -> (r: Self)
        ensures
            r.item.plain(text@),
    {
        SimpleDataset { item: DatasetItem::from_prompt(text) }
    }
}

impl Dataset for SimpleDataset {
    open spec fn kind(&self) -> DatasetMode {
        DatasetMode::Single
    }

    open spec fn offers(&self, item: DatasetItem) -> bool {
        item.same(self.item)
    }

    open spec fn moves_to(&self, later: &Self) -> bool {
        *later == *self
    }

    fn next(&mut self) -> (r: DatasetItem) {
        self.item.clone()
    }

    fn mode(&self) -> (r: DatasetMode) {
        DatasetMode::Single
    }
}

} // verus!
