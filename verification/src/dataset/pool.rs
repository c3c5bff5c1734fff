//! A dataset over several items, picked at random or in turn.

use super::{Dataset, DatasetItem, DatasetMode};
use crate::config::RequestStrategy;
use vstd::prelude::*;

verus! {

/// One step of the xorshift generator.
pub open spec fn xorshift(x: u64) -> u64 {
    let a = x ^ (x << 13);
    let b = a ^ (a >> 7);
    b ^ (b << 17)
}

/// The generator never falls into its fixed point zero.
pub proof fn xorshift_stays_nonzero(x: u64)
    requires
        x != 0,
    ensures
        xorshift(x) != 0,
{
    let a = x ^ (x << 13);
    let b = a ^ (a >> 7);
    assert(x != 0 ==> x ^ (x << 13) != 0) by (bit_vector);
    assert(a != 0 ==> a ^ (a >> 7) != 0) by (bit_vector);
    assert(b != 0 ==> b ^ (b << 17) != 0) by (bit_vector);
}

/// Equal values come only from equal states: no two states share a successor.
pub proof fn xorshift_is_injective(x: u64, y: u64)
    requires
        xorshift(x) == xorshift(y),
    ensures
        x == y,
{
    let a = x ^ (x << 13);
    let b = a ^ (a >> 7);
    let c = y ^ (y << 13);
    let d = c ^ (c >> 7);
    assert(b ^ (b << 17) == d ^ (d << 17) ==> b == d) by (bit_vector);
    assert(a ^ (a >> 7) == c ^ (c >> 7) ==> a == c) by (bit_vector);
    assert(x ^ (x << 13) == y ^ (y << 13) ==> x == y) by (bit_vector);
}

/// A xorshift generator over 64 bits. Its state is never zero.
#[derive(Debug)]
pub struct XorShift64 {
    pub state: u64,
}

impl XorShift64 {
    pub open spec fn wf(self) -> bool {
        self.state != 0
    }

    /// Starts at `seed`, or at a fixed value where the seed is zero.
    pub fn new(seed: u64) -> (r: Self)
        ensures
            r.wf(),
            r.state == (if seed == 0 {
                0x9E37_79B9_7F4A_7C15u64
            } else {
                seed
            }),
    {
        if seed == 0 {
            XorShift64 { state: 0x9E37_79B9_7F4A_7C15 }
        } else {
            XorShift64 { state: seed }
        }
    }

    pub fn next_u64(&mut self) -> (r: u64)
        ensures
            old(self).wf() ==> final(self).wf(),
            r == xorshift(old(self).state),
            final(self).state == r,
    {
        let mut x: u64 = self.state;
        x = x ^ (x << 13);
        x = x ^ (x >> 7);
        x = x ^ (x << 17);
        proof {
            if self.wf() {
                xorshift_stays_nonzero(self.state);
            }
        }
        self.state = x;
        x
    }

    /// A value below `n`.
    pub fn next_below(&mut self, n: usize) -> (r: usize)
        requires
            n > 0,
        ensures
            old(self).wf() ==> final(self).wf(),
            final(self).state == xorshift(old(self).state),
            r == (xorshift(old(self).state) as usize) % n,
            r < n,
    {
        (self.next_u64() as usize) % n
    }
}

/// The nanoseconds of `std::time::SystemTime::now()` since the Unix epoch, cut
/// to 64 bits; `None` where the clock stands before the epoch. Nothing is
/// claimed of the value.
#[verifier::external_body]
fn clock_nanos() -> (r: Option<u64>) {
    std::time::SystemTime::now().duration_since(std::time::UNIX_EPOCH).ok().map(
        |d| d.as_nanos() as u64,
    )
}

#[derive(Debug)]
pub struct PoolDataset {
    pub items: Vec<DatasetItem>,
    pub strategy: RequestStrategy,
    pub pool_mode: DatasetMode,
    /// How many items were handed out in turn, modulo the word size.
    pub counter: usize,
    pub rng: XorShift64,
}

/// What an empty pool hands out.
pub open spec fn placeholder(item: DatasetItem) -> bool {
    &&& item.prompt@ == "hello"@
    &&& item.estimated_prompt_tokens == 1
    &&& item.weight is None
    &&& item.tags@.len() == 0
    &&& item.name is None
    &&& item.messages is None
    &&& item.follow_ups@.len() == 0
}

impl PoolDataset {
    /// The position of the item that comes next.
    pub open spec fn position(self) -> int {
        match self.strategy {
            RequestStrategy::RoundRobin => self.counter as int % self.items@.len() as int,
            RequestStrategy::Random => (xorshift(self.rng.state) as usize) as int
                % self.items@.len() as int,
        }
    }

    /// The pool after one pick: the items stay, and the counter or the
    /// generator moves on by one. An empty pool stays as it is.
    pub open spec fn picked(self, later: PoolDataset) -> bool {
        if self.items@.len() == 0 {
            later == self
        } else {
            &&& later.items == self.items
            &&& later.strategy == self.strategy
            &&& later.pool_mode == self.pool_mode
            &&& match self.strategy {
                RequestStrategy::RoundRobin => {
                    &&& later.counter == self.counter.wrapping_add(1)
                    &&& later.rng == self.rng
                },
                RequestStrategy::Random => {
                    &&& later.counter == self.counter
                    &&& later.rng.state == xorshift(self.rng.state)
                },
            }
        }
    }

    pub open spec fn wf(self) -> bool {
        self.rng.wf()
    }

    /// A pool whose random choices follow from `seed`.
    pub fn with_seed(
        items: Vec<DatasetItem>,
        strategy: RequestStrategy,
        mode: DatasetMode,
        seed: u64,
    ) -> (r: Self)
        ensures
            r.wf(),
            r.items == items,
            r.strategy == strategy,
            r.pool_mode == mode,
            r.counter == 0,
            r.rng.state == (if seed == 0 {
                0x9E37_79B9_7F4A_7C15u64
            } else {
                seed
            }),
    {
        PoolDataset { items, strategy, pool_mode: mode, counter: 0, rng: XorShift64::new(seed) }
    }

    /// A pool that is seeded from the clock, so that runs vary.
    pub fn new(items: Vec<DatasetItem>, strategy: RequestStrategy, mode: DatasetMode) -> (r: Self)
        ensures
            r.wf(),
            r.items == items,
            r.strategy == strategy,
            r.pool_mode == mode,
            r.counter == 0,
    {
        let seed: u64 = match clock_nanos() {
            Some(n) => n,
            None => 0xDEAD_BEEF,
        };
        PoolDataset::with_seed(items, strategy, mode, seed)
    }

    /// Picks the next item: the items in order, over and over, or a random one.
    /// An empty pool hands out a placeholder and does not change.
    pub fn pick(&mut self) -> (r: DatasetItem)
        ensures
            old(self).wf() ==> final(self).wf(),
            old(self).items@.len() == 0 ==> placeholder(r),
            old(self).items@.len() > 0 ==> r.same(old(self).items@[old(self).position()]),
            old(self).picked(*final(self)),
    {
        let n = self.items.len();
        if n == 0 {
            return DatasetItem {
                prompt: "hello".to_owned(),
                estimated_prompt_tokens: 1,
                weight: None,
                tags: Vec::new(),
                name: None,
                messages: None,
                follow_ups: Vec::new(),
            };
        }
        let idx: usize = match self.strategy {
            RequestStrategy::RoundRobin => {
                let i = self.counter % n;
                self.counter = self.counter.wrapping_add(1);
                i
            },
            RequestStrategy::Random => self.rng.next_below(n),
        };
        self.items[idx].clone()
    }
}

/// The states of a pool, each one pick after the one before it.
pub open spec fn picks(states: Seq<PoolDataset>) -> bool {
    forall|i: int, j: int|
        0 <= i && j == i + 1 && j < states.len() ==> (#[trigger] states[i]).picked(
            #[trigger] states[j],
        )
}

/// Picking in turn walks the list in order and starts over at its end: `k`
/// picks later the position is `k` further on, modulo the length, as long as the
/// counter does not wrap around.
pub proof fn round_robin_walks_the_list(states: Seq<PoolDataset>, k: int)
    requires
        0 <= k < states.len(),
        picks(states),
        states[0].strategy == RequestStrategy::RoundRobin,
        states[0].items@.len() > 0,
        states[0].counter + k <= usize::MAX,
    ensures
        states[k].items == states[0].items,
        states[k].position() == (states[0].position() + k) % (states[0].items@.len() as int),
{
    let n = states[0].items@.len() as int;
    counting_up(states, k);
    vstd::arithmetic::div_mod::lemma_add_mod_noop(states[0].counter as int, k, n);
    vstd::arithmetic::div_mod::lemma_add_mod_noop(states[0].position(), k, n);
    vstd::arithmetic::div_mod::lemma_mod_twice(states[0].counter as int, n);
}

proof fn counting_up(states: Seq<PoolDataset>, k: int)
    requires
        0 <= k < states.len(),
        picks(states),
        states[0].strategy == RequestStrategy::RoundRobin,
        states[0].items@.len() > 0,
        states[0].counter + k <= usize::MAX,
    ensures
        states[k].items == states[0].items,
        states[k].strategy == states[0].strategy,
        states[k].counter == states[0].counter + k,
    decreases k,
{
    if k > 0 {
        counting_up(states, k - 1);
        assert(states[k - 1].picked(states[k]));
    }
}

/// Both ways of picking stay inside the pool.
pub proof fn position_is_inside(pool: PoolDataset)
    requires
        pool.items@.len() > 0,
    ensures
        0 <= pool.position() < pool.items@.len(),
{
}

impl Dataset for PoolDataset {
    open spec fn kind(&self) -> DatasetMode {
        self.pool_mode
    }

    open spec fn offers(&self, item: DatasetItem) -> bool {
        if self.items@.len() == 0 {
            placeholder(item)
        } else {
            item.same(self.items@[self.position()])
        }
    }

    open spec fn moves_to(&self, later: &Self) -> bool {
        self.picked(*later)
    }

    fn next(&mut self) -> (r: DatasetItem) {
        self.pick()
    }

    fn mode(&self) -> (r: DatasetMode) {
        self.pool_mode
    }
}

/// A pool offers the prompt at its place, which stays inside of the list; picking
/// in turn moves one place on, and an empty pool offers a greeting.
pub proof fn a_pool_offers_the_prompt_at_its_place(
    pool: PoolDataset,
    later: PoolDataset,
    item: DatasetItem,
)
    requires
        pool.offers(item),
        pool.moves_to(&later),
    ensures
        pool.items@.len() == 0 ==> item.prompt@ == "hello"@ && item.messages is None,
        pool.items@.len() > 0 && pool.strategy == RequestStrategy::RoundRobin && pool.counter
            < pool.items@.len() ==> {
            &&& item.prompt@ == pool.items@[pool.counter as int].prompt@
            &&& item.weight == pool.items@[pool.counter as int].weight
            &&& pool.counter < 0xffff_ffff ==> later.counter == pool.counter + 1
        },
        pool.items@.len() > 0 ==> exists|i: int|
            0 <= i < pool.items@.len() && item.prompt@ == (#[trigger] pool.items@[i]).prompt@,
        later.items == pool.items,
        later.strategy == pool.strategy,
{
    if pool.items@.len() > 0 {
        let n = pool.items@.len() as int;
        let at = pool.position();
        assert(0 <= at < n);
        if pool.strategy == RequestStrategy::RoundRobin && pool.counter < n {
            vstd::arithmetic::div_mod::lemma_small_mod(pool.counter as nat, n as nat);
        }
        assert(item.prompt@ == pool.items@[at].prompt@);
    }
}

} // verus!
