//! The pool of conversations that are under way.
//!
//! A session keeps its messages across turns: turn 1 sends the seed, each later
//! turn sends what has grown plus the next follow-up. Turns of one session are
//! serial; at most `max_sessions` sessions exist at once.

use crate::config::opt_view;
use crate::dataset::{DatasetItem, OwnedChatMessage};
use crate::ids::{dashed_text, random_id, uuid_string};
use crate::tables::keys_of;
use std::collections::HashMap;
use vstd::prelude::*;

verus! {

broadcast use vstd::std_specs::hash::group_hash_axioms;

/// One conversation.
#[derive(Debug)]
pub struct Session {
    pub item_name: String,
    /// The number of completed turns.
    pub turn: u32,
    pub messages: Vec<OwnedChatMessage>,
    /// When the session was made or last completed a turn.
    pub last_used: u64,
    /// The id of the last response, where the server keeps the conversation.
    pub response_id: Option<String>,
}

/// What a session holds.
#[verifier::ext_equal]
pub struct SessionView {
    pub item_name: Seq<char>,
    pub turn: u32,
    pub messages: Seq<OwnedChatMessage>,
    pub last_used: u64,
    pub response_id: Option<Seq<char>>,
}

impl View for Session {
    type V = SessionView;

    open spec fn view(&self) -> SessionView {
        SessionView {
            item_name: self.item_name@,
            turn: self.turn,
            messages: self.messages@,
            last_used: self.last_used,
            response_id: opt_view(self.response_id),
        }
    }
}

/// A session before its first turn.
pub open spec fn fresh_session(item: DatasetItem, now: u64) -> SessionView {
    SessionView {
        item_name: match item.name {
            Some(n) => n@,
            None => "item"@,
        },
        turn: 0,
        messages: item.messages.unwrap()@,
        last_used: now,
        response_id: None,
    }
}

impl SessionView {
    /// The session after an answer.
    pub open spec fn answered(self, assistant: OwnedChatMessage, now: u64) -> SessionView {
        SessionView {
            turn: (self.turn + 1) as u32,
            messages: self.messages.push(assistant),
            last_used: now,
            ..self
        }
    }
}

impl Session {
    pub fn new(item_name: String, seed: Vec<OwnedChatMessage>, now: u64) -> (r: Self)
        ensures
            r@ == (SessionView {
                item_name: item_name@,
                turn: 0,
                messages: seed@,
                last_used: now,
                response_id: None,
            }),
    {
        Session { item_name, turn: 0, messages: seed, last_used: now, response_id: None }
    }

    /// Adds the answer to the conversation and counts the turn. Returns whether
    /// there are more turns to run.
    pub fn complete_turn(&mut self, assistant: String, has_more_follow_ups: bool, now: u64) -> (r:
        bool)
        requires
            old(self).turn < u32::MAX,
        ensures
            r == has_more_follow_ups,
            final(self)@.messages.len() == old(self)@.messages.len() + 1,
            final(self)@.messages.last().role@ == "assistant"@,
            final(self)@.messages.last().content@ == assistant@,
            final(self)@ == old(self)@.answered(final(self)@.messages.last(), now),
    {
        self.messages.push(OwnedChatMessage::new("assistant", assistant.as_str()));
        self.turn += 1;
        self.last_used = now;
        proof {
            assert(self@ =~= old(self)@.answered(self@.messages.last(), now));
        }
        has_more_follow_ups
    }
}

/// What to do after a turn: send the next one, or destroy the session.
#[derive(Debug, Clone, Copy, PartialEq, Eq, Structural)]
pub enum TurnAction {
    Continue,
    Done,
}

/// The outcome of a turn.
#[derive(Debug, Clone, Copy, PartialEq, Eq, Structural)]
pub struct TurnResult {
    pub action: TurnAction,
    /// The number of completed turns.
    pub turns_completed: u32,
    /// Whether the session was destroyed because the turn failed.
    pub dropped: bool,
}

/// A session that the caller owns, by its id.
#[derive(Debug, Clone, Copy, PartialEq, Eq, Structural)]
pub struct PoolHandle {
    pub id: u128,
}

/// What is shown of a session.
#[derive(Debug)]
pub struct SessionInfo {
    pub id: String,
    pub item_name: String,
    pub turn: u32,
    pub message_count: usize,
}

pub open spec fn info_of(info: SessionInfo, id: u128, s: SessionView) -> bool {
    &&& info.id@ == dashed_text(id)
    &&& info.item_name@ == s.item_name
    &&& info.turn == s.turn
    &&& info.message_count == s.messages.len()
}

/// The sessions by id, how many there may be, and how many were ever made.
#[verifier::ext_equal]
pub struct PoolView {
    pub sessions: Map<u128, SessionView>,
    pub max_sessions: usize,
    pub created: u64,
}

impl PoolView {
    /// A session is put under `id`.
    pub open spec fn with_session(self, id: u128, s: SessionView) -> PoolView {
        PoolView {
            sessions: self.sessions.insert(id, s),
            created: (self.created + 1) as u64,
            ..self
        }
    }

    /// The session under `id` leaves.
    pub open spec fn without(self, id: u128) -> PoolView {
        PoolView { sessions: self.sessions.remove(id), ..self }
    }

    pub open spec fn full(self) -> bool {
        self.sessions.dom().len() >= self.max_sessions
    }

    /// No session was used longer ago than the one under `id`.
    pub open spec fn least_recent(self, id: u128) -> bool {
        &&& self.sessions.contains_key(id)
        &&& forall|k: u128| #[trigger]
            self.sessions.contains_key(k) ==> self.sessions[id].last_used
                <= self.sessions[k].last_used
    }
}

/// The id that comes `k` steps after `from`.
pub open spec fn id_after(from: u128, k: int) -> int {
    if from + k <= u128::MAX {
        from + k
    } else {
        from + k - u128::MAX - 1
    }
}

/// A session `s` was put under `id`, after the one that was used longest ago has
/// left where the pool was full. The one that left is gone.
pub open spec fn acquired(before: PoolView, after: PoolView, id: u128, s: SessionView) -> bool {
    if before.full() {
        exists|evicted: u128|
            {
                &&& #[trigger] before.least_recent(evicted)
                &&& after == before.without(evicted).with_session(id, s)
                &&& !after.sessions.contains_key(evicted)
            }
    } else {
        after == before.with_session(id, s)
    }
}

/// The pool.
#[derive(Debug)]
pub struct SessionPool {
    pub sessions: HashMap<u128, Session>,
    pub max_sessions: usize,
    pub total_created: u64,
}

impl View for SessionPool {
    type V = PoolView;

    open spec fn view(&self) -> PoolView {
        PoolView {
            sessions: self.sessions@.map_values(|s: Session| s@),
            max_sessions: self.max_sessions,
            created: self.total_created,
        }
    }
}

impl SessionPool {
    /// Never more sessions than allowed.
    pub open spec fn wf(self) -> bool {
        &&& self@.sessions.dom().finite()
        &&& self@.sessions.dom().len() <= self@.max_sessions
    }

    pub fn new(max_sessions: usize) -> (r: Self)
        ensures
            r.wf(),
            r@ == (PoolView { sessions: Map::empty(), max_sessions, created: 0 }),
    {
        let r = SessionPool { sessions: HashMap::new(), max_sessions, total_created: 0 };
        proof {
            assert(r@.sessions =~= Map::<u128, SessionView>::empty());
        }
        r
    }

    /// The number of sessions ever made.
    pub fn total_created(&self) -> (r: u64)
        ensures
            r == self@.created,
    {
        self.total_created
    }

    /// Puts a fresh session of `item` under `id`.
    fn put(&mut self, id: u128, item: &DatasetItem, now: u64) -> (r: PoolHandle)
        requires
            item.messages is Some,
            old(self)@.created < u64::MAX,
        ensures
            r.id == id,
            final(self)@ == old(self)@.with_session(id, fresh_session(*item, now)),
    {
        let seed = match &item.messages {
            Some(m) => m.clone(),
            None => Vec::new(),
        };
        let name = match &item.name {
            Some(n) => n.clone(),
            None => "item".to_owned(),
        };
        let session = Session::new(name, seed, now);
        proof {
            assert(session@ =~= fresh_session(*item, now));
        }
        let ghost s = session@;
        self.sessions.insert(id, session);
        self.total_created += 1;
        proof {
            assert(self@.sessions =~= old(self)@.sessions.insert(id, s));
        }
        PoolHandle { id }
    }

    /// An id that no session has: `drawn`, or else the next one above it that is
    /// free. Ids start over at zero behind the largest.
    fn free_id(&self, drawn: u128) -> (r: u128)
        requires
            self.wf(),
        ensures
            !self@.sessions.contains_key(r),
            !self@.sessions.contains_key(drawn) ==> r == drawn,
    {
        let ghost taken = self.sessions@.dom();
        let ghost mut tried: Set<u128> = Set::empty();
        let ghost mut k: int = 0;
        let mut id: u128 = drawn;
        proof {
            self.len_agrees();
        }
        while self.sessions.contains_key(&id)
            invariant
                self.wf(),
                taken == self.sessions@.dom(),
                taken == self@.sessions.dom(),
                taken.finite(),
                taken.len() <= usize::MAX,
                tried.finite(),
                tried.subset_of(taken),
                0 <= k == tried.len(),
                k <= taken.len(),
                id == id_after(drawn, k),
                k > 0 ==> taken.contains(drawn),
                forall|x: u128| #[trigger]
                    tried.contains(x) ==> exists|j: int|
                        0 <= j < k && x == #[trigger] id_after(drawn, j),
            decreases taken.len() - k,
        {
            proof {
                let more = tried.insert(id);
                assert(!tried.contains(id));
                vstd::set_lib::lemma_len_subset(more, taken);
                assert forall|x: u128| #[trigger] more.contains(x) implies exists|j: int|
                    0 <= j < k + 1 && x == #[trigger] id_after(drawn, j) by {
                    if x == id {
                        assert(x == id_after(drawn, k));
                    } else {
                        assert(tried.contains(x));
                    }
                }
                tried = more;
                k = k + 1;
            }
            id = id.wrapping_add(1);
        }
        id
    }

    /// Reserves a session for `item` under `id`, or under the next free id where a
    /// session has that one. `None` where the item has no conversation, or the
    /// pool is full; then nothing changes.
    pub fn acquire_as(&mut self, id: u128, item: &DatasetItem, now: u64) -> (r: Option<PoolHandle>)
        requires
            old(self).wf(),
            old(self)@.created < u64::MAX,
        ensures
            final(self).wf(),
            r is None <==> (item.messages is None || old(self)@.full()),
            r is None ==> final(self)@ == old(self)@,
            r matches Some(h) ==> {
                &&& !old(self)@.sessions.contains_key(h.id)
                &&& !old(self)@.sessions.contains_key(id) ==> h.id == id
                &&& final(self)@ == old(self)@.with_session(h.id, fresh_session(*item, now))
            },
    {
        if item.messages.is_none() {
            return None;
        }
        proof {
            self.len_agrees();
        }
        if self.sessions.len() < self.max_sessions {
            let id = self.free_id(id);
            Some(self.put(id, item, now))
        } else {
            None
        }
    }

    /// Reserves a session for `item` under an id that no session has. `None`
    /// where the item has no conversation, or the pool is full.
    pub fn acquire(&mut self, item: &DatasetItem, now: u64) -> (r: Option<PoolHandle>)
        requires
            old(self).wf(),
            old(self)@.created < u64::MAX,
        ensures
            final(self).wf(),
            r is None <==> (item.messages is None || old(self)@.full()),
            r is None ==> final(self)@ == old(self)@,
            r matches Some(h) ==> {
                &&& !old(self)@.sessions.contains_key(h.id)
                &&& final(self)@ == old(self)@.with_session(h.id, fresh_session(*item, now))
            },
    {
        let id = random_id();
        self.acquire_as(id, item, now)
    }

    /// Reserves a session for `item` under `id`, or under the next free id where a
    /// session has that one. Where the pool is full, the session that was used
    /// longest ago makes room: it leaves, and handles to it are stale. `None`
    /// where the item has no conversation, or no session may exist at all.
    pub fn acquire_evict_lru_as(&mut self, id: u128, item: &DatasetItem, now: u64) -> (r: Option<
        PoolHandle,
    >)
        requires
            old(self).wf(),
            old(self)@.created < u64::MAX,
        ensures
            final(self).wf(),
            r is None <==> (item.messages is None || old(self)@.max_sessions == 0),
            r is None ==> final(self)@ == old(self)@,
            r matches Some(h) ==> {
                &&& !old(self)@.sessions.contains_key(h.id)
                &&& !old(self)@.sessions.contains_key(id) ==> h.id == id
                &&& acquired(old(self)@, final(self)@, h.id, fresh_session(*item, now))
            },
    {
        if item.messages.is_none() {
            return None;
        }
        proof {
            self.len_agrees();
        }
        let id = self.free_id(id);
        if self.sessions.len() < self.max_sessions {
            return Some(self.put(id, item, now));
        }
        match self.find_lru() {
            Some(lru) => {
                self.sessions.remove(&lru);
                proof {
                    assert(self@.sessions =~= old(self)@.sessions.remove(lru));
                    assert(self@ =~= old(self)@.without(lru));
                    assert(self@.sessions.dom() =~= old(self)@.sessions.dom().remove(lru));
                }
                let h = self.put(id, item, now);
                proof {
                    assert(!self@.sessions.contains_key(lru));
                    assert(old(self)@.least_recent(lru));
                    assert(self@.sessions.dom() =~= old(self)@.sessions.dom().remove(lru).insert(
                        id,
                    ));
                }
                Some(h)
            },
            None => {
                proof {
                    assert(self@.sessions.dom() =~= Set::empty());
                }
                None
            },
        }
    }

    /// Reserves a session for `item` under an id that no session has, evicting the
    /// session that was used longest ago where the pool is full.
    pub fn acquire_evict_lru(&mut self, item: &DatasetItem, now: u64) -> (r: Option<PoolHandle>)
        requires
            old(self).wf(),
            old(self)@.created < u64::MAX,
        ensures
            final(self).wf(),
            r is None <==> (item.messages is None || old(self)@.max_sessions == 0),
            r is None ==> final(self)@ == old(self)@,
            r matches Some(h) ==> {
                &&& !old(self)@.sessions.contains_key(h.id)
                &&& acquired(old(self)@, final(self)@, h.id, fresh_session(*item, now))
            },
    {
        let id = random_id();
        self.acquire_evict_lru_as(id, item, now)
    }

    /// The map and its view have as many sessions.
    proof fn len_agrees(&self)
        ensures
            self.sessions@.dom() == self@.sessions.dom(),
            self.sessions@.dom().len() == self@.sessions.dom().len(),
    {
        assert(self.sessions@.dom() =~= self@.sessions.dom());
    }

    fn find_lru(&self) -> (r: Option<u128>)
        ensures
            match r {
                Some(id) => self@.least_recent(id),
                None => forall|k: u128| !self@.sessions.contains_key(k),
            },
    {
        let keys = keys_of(&self.sessions);
        let mut best: Option<u128> = None;
        let mut oldest: u64 = 0;
        let mut i: usize = 0;
        while i < keys.len()
            invariant
                i <= keys@.len(),
                keys@.to_set() == self.sessions@.dom(),
                best is None ==> i == 0,
                best matches Some(id) ==> {
                    &&& self.sessions@.contains_key(id)
                    &&& self.sessions@[id].last_used == oldest
                    &&& forall|j: int|
                        0 <= j < i ==> oldest <= self.sessions@[#[trigger] keys@[j]].last_used
                },
            decreases keys@.len() - i,
        {
            let k = keys[i];
            proof {
                assert(keys@.contains(k));
                assert(keys@.to_set().contains(k));
            }
            if let Some(s) = self.sessions.get(&k) {
                if best.is_none() || s.last_used < oldest {
                    best = Some(k);
                    oldest = s.last_used;
                }
            }
            i += 1;
        }
        proof {
            assert forall|k: u128| #[trigger] self@.sessions.contains_key(k) implies best is Some
                && oldest <= self@.sessions[k].last_used by {
                assert(keys@.to_set().contains(k));
                let j = choose|j: int| 0 <= j < keys@.len() && keys@[j] == k;
                assert(keys@[j] == k);
            }
        }
        best
    }

    /// What the pool holds, in no particular order.
    pub fn snapshot(&self) -> (r: Vec<SessionInfo>)
        ensures
            exists|ids: Seq<u128>|
                {
                    &&& ids.no_duplicates()
                    &&& ids.to_set() == self@.sessions.dom()
                    &&& r@.len() == ids.len()
                    &&& forall|i: int|
                        0 <= i < ids.len() ==> info_of(
                            r@[i],
                            #[trigger] ids[i],
                            self@.sessions[ids[i]],
                        )
                },
    {
        let keys = keys_of(&self.sessions);
        let mut out: Vec<SessionInfo> = Vec::new();
        let mut i: usize = 0;
        while i < keys.len()
            invariant
                i <= keys@.len(),
                keys@.to_set() == self.sessions@.dom(),
                out@.len() == i,
                forall|j: int|
                    0 <= j < i ==> info_of(
                        out@[j],
                        #[trigger] keys@[j],
                        self@.sessions[keys@[j]],
                    ),
            decreases keys@.len() - i,
        {
            let k = keys[i];
            proof {
                assert(keys@.contains(k));
                assert(keys@.to_set().contains(k));
            }
            if let Some(s) = self.sessions.get(&k) {
                out.push(
                    SessionInfo {
                        id: uuid_string(k),
                        item_name: s.item_name.clone(),
                        turn: s.turn,
                        message_count: s.messages.len(),
                    },
                );
            }
            i += 1;
        }
        proof {
            self.len_agrees();
            assert(keys@.no_duplicates() && keys@.to_set() == self@.sessions.dom());
        }
        out
    }
}

impl PoolHandle {
    /// The session is still in the pool. It leaves by being dropped or evicted.
    pub open spec fn live(self, pool: SessionPool) -> bool {
        pool@.sessions.contains_key(self.id)
    }

    /// Whether the session is still in the pool.
    pub fn is_live(&self, pool: &SessionPool) -> (r: bool)
        ensures
            r == self.live(*pool),
    {
        pool.sessions.contains_key(&self.id)
    }

    /// The conversation so far.
    pub fn messages(&self, pool: &SessionPool) -> (r: Vec<OwnedChatMessage>)
        requires
            self.live(*pool),
        ensures
            r@ == pool@.sessions[self.id].messages,
    {
        pool.sessions.get(&self.id).unwrap().messages.clone()
    }

    /// The id of the last response.
    pub fn response_id(&self, pool: &SessionPool) -> (r: Option<String>)
        requires
            self.live(*pool),
        ensures
            opt_view(r) == pool@.sessions[self.id].response_id,
    {
        pool.sessions.get(&self.id).unwrap().response_id.clone()
    }

    /// Keeps the id of a response for the next turn.
    pub fn set_response_id(&self, pool: &mut SessionPool, id: Option<String>)
        requires
            self.live(*old(pool)),
            old(pool).wf(),
        ensures
            final(pool).wf(),
            final(pool)@ == (PoolView {
                sessions: old(pool)@.sessions.insert(
                    self.id,
                    SessionView { response_id: opt_view(id), ..old(pool)@.sessions[self.id] },
                ),
                ..old(pool)@
            }),
    {
        let mut s = pool.sessions.remove(&self.id).unwrap();
        s.response_id = id;
        let ghost after = s@;
        pool.sessions.insert(self.id, s);
        proof {
            assert(pool@.sessions =~= old(pool)@.sessions.insert(self.id, after));
            assert(pool@.sessions.dom() =~= old(pool)@.sessions.dom());
        }
    }

    /// Adds the answer of a turn, and tells whether the next turn should be
    /// sent: exactly where follow-ups remain.
    pub fn complete(
        &self,
        pool: &mut SessionPool,
        assistant: String,
        follow_ups_remaining: bool,
        now: u64,
    ) -> (r: TurnResult)
        requires
            self.live(*old(pool)),
            old(pool).wf(),
            old(pool)@.sessions[self.id].turn < u32::MAX,
        ensures
            final(pool).wf(),
            r.action == (if follow_ups_remaining {
                TurnAction::Continue
            } else {
                TurnAction::Done
            }),
            r.turns_completed == old(pool)@.sessions[self.id].turn + 1,
            !r.dropped,
            exists|answer: OwnedChatMessage|
                {
                    &&& answer.role@ == "assistant"@
                    &&& answer.content@ == assistant@
                    &&& final(pool)@ == (PoolView {
                        sessions: old(pool)@.sessions.insert(
                            self.id,
                            #[trigger] old(pool)@.sessions[self.id].answered(answer, now),
                        ),
                        ..old(pool)@
                    })
                },
    {
        let mut s = pool.sessions.remove(&self.id).unwrap();
        let action = if s.complete_turn(assistant, follow_ups_remaining, now) {
            TurnAction::Continue
        } else {
            TurnAction::Done
        };
        let turns = s.turn;
        let ghost after = s@;
        pool.sessions.insert(self.id, s);
        proof {
            assert(pool@.sessions =~= old(pool)@.sessions.insert(self.id, after));
            assert(pool@.sessions.dom() =~= old(pool)@.sessions.dom());
            let answer = after.messages.last();
            assert(after == old(pool)@.sessions[self.id].answered(answer, now));
        }
        TurnResult { action, turns_completed: turns, dropped: false }
    }

    /// Destroys the session; its slot is free again.
    pub fn drop_session(&self, pool: &mut SessionPool)
        requires
            old(pool).wf(),
        ensures
            final(pool).wf(),
            final(pool)@ == (PoolView {
                sessions: old(pool)@.sessions.remove(self.id),
                ..old(pool)@
            }),
    {
        pool.sessions.remove(&self.id);
        proof {
            assert(pool@.sessions =~= old(pool)@.sessions.remove(self.id));
        }
    }
}

/// Dropping a live session makes room: the pool is not full afterwards, so the
/// next conversation finds a place.
pub proof fn dropping_frees_a_slot(pool: SessionPool, h: PoolHandle)
    requires
        pool.wf(),
        h.live(pool),
    ensures
        !(PoolView { sessions: pool@.sessions.remove(h.id), ..pool@ }).full(),
{
    let after = pool@.sessions.remove(h.id);
    assert(after.dom() =~= pool@.sessions.dom().remove(h.id));
}

/// Taking a session into the pool. Where there is room, nothing leaves; else the
/// one leaves that was used the longest ago, and no other. Everything else stays
/// as it was, and the new session is there.
pub proof fn the_least_recent_session_makes_room(
    before: PoolView,
    after: PoolView,
    id: u128,
    s: SessionView,
)
    requires
        acquired(before, after, id, s),
        !before.sessions.contains_key(id),
        before.created < u64::MAX,
    ensures
        after.sessions.contains_key(id) && after.sessions[id] == s,
        after.created == before.created + 1,
        after.max_sessions == before.max_sessions,
        before.sessions.dom().len() < before.max_sessions ==> forall|k: u128| #[trigger]
            before.sessions.contains_key(k) ==> after.sessions.contains_key(k)
                && after.sessions[k] == before.sessions[k],
        before.sessions.dom().len() >= before.max_sessions ==> exists|gone: u128| #[trigger]
            before.sessions.contains_key(gone) && !after.sessions.contains_key(gone) && forall|
                k: u128,
            | #[trigger]
                before.sessions.contains_key(k) ==> {
                    &&& before.sessions[gone].last_used <= before.sessions[k].last_used
                    &&& k != gone ==> after.sessions.contains_key(k) && after.sessions[k]
                        == before.sessions[k]
                },
{
    if before.full() {
        let gone = choose|evicted: u128|
            {
                &&& #[trigger] before.least_recent(evicted)
                &&& after == before.without(evicted).with_session(id, s)
                &&& !after.sessions.contains_key(evicted)
            };
        assert(before.sessions.contains_key(gone));
    }
}

/// A session starts with the messages of its item, before its first turn. Each
/// answer is one more turn and one more message at the end, and counts as a use.
pub proof fn a_session_grows_by_its_answers(
    item: DatasetItem,
    s: SessionView,
    answer: OwnedChatMessage,
    now: u64,
)
    requires
        s.turn < u32::MAX,
    ensures
        item.messages matches Some(messages) ==> fresh_session(item, now).messages == messages@,
        fresh_session(item, now).turn == 0,
        fresh_session(item, now).last_used == now,
        fresh_session(item, now).response_id is None,
        item.name matches Some(name) ==> fresh_session(item, now).item_name == name@,
        s.answered(answer, now).turn == s.turn + 1,
        s.answered(answer, now).messages.len() == s.messages.len() + 1,
        s.answered(answer, now).messages.last() == answer,
        forall|i: int|
            0 <= i < s.messages.len() ==> #[trigger] s.answered(answer, now).messages[i]
                == s.messages[i],
        s.answered(answer, now).last_used == now,
        s.answered(answer, now).item_name == s.item_name,
        s.answered(answer, now).response_id == s.response_id,
{
}

} // verus!
