use power_test::dataset::{DatasetItem, OwnedChatMessage};
use power_test::runner::session::{SessionPool, TurnAction};

fn item_with_follow_ups(name: &str, follow_ups: usize) -> DatasetItem {
    DatasetItem {
        prompt: "[user] hello".to_string(),
        estimated_prompt_tokens: 1,
        weight: None,
        tags: Vec::new(),
        name: Some(name.to_string()),
        messages: Some(vec![OwnedChatMessage::new("user", "hello")]),
        follow_ups: (1..=follow_ups).map(|i| format!("turn-{}", i + 1)).collect(),
    }
}

#[test]
fn acquire_returns_handle_for_multi_turn_item() {
    let mut pool = SessionPool::new(4);
    let item = item_with_follow_ups("q1", 2);
    let h = pool.acquire(&item, 0).expect("acquire");
    assert_eq!(h.messages(&pool).len(), 1);
}

#[test]
fn acquire_returns_none_for_single_turn_item() {
    let mut pool = SessionPool::new(4);
    let item = DatasetItem {
        prompt: "x".to_string(),
        estimated_prompt_tokens: 1,
        weight: None,
        tags: Vec::new(),
        name: None,
        messages: None,
        follow_ups: Vec::new(),
    };
    assert!(pool.acquire(&item, 0).is_none());
}

#[test]
fn complete_turn_appends_assistant_and_returns_continue() {
    let mut pool = SessionPool::new(4);
    let item = item_with_follow_ups("q1", 2);
    let h = pool.acquire(&item, 0).unwrap();
    let r = h.complete(&mut pool, "first answer".to_string(), true, 1);
    assert_eq!(r.action, TurnAction::Continue);
    assert_eq!(r.turns_completed, 1);
    let msgs = h.messages(&pool);
    assert_eq!(msgs.len(), 2);
    assert_eq!(msgs[1].role, "assistant");
    assert_eq!(msgs[1].content, "first answer");
}

#[test]
fn complete_turn_returns_done_when_no_more_follow_ups() {
    let mut pool = SessionPool::new(4);
    let item = item_with_follow_ups("q1", 1);
    let h = pool.acquire(&item, 0).unwrap();
    let r = h.complete(&mut pool, "done".to_string(), false, 1);
    assert_eq!(r.action, TurnAction::Done);
    assert_eq!(r.turns_completed, 1);
}

#[test]
fn drop_session_releases_slot() {
    let mut pool = SessionPool::new(2);
    let i1 = item_with_follow_ups("a", 1);
    let i2 = item_with_follow_ups("b", 1);
    let i3 = item_with_follow_ups("c", 1);
    let h1 = pool.acquire(&i1, 0).unwrap();
    let _h2 = pool.acquire(&i2, 1).unwrap();
    assert!(pool.acquire(&i3, 2).is_none());
    h1.drop_session(&mut pool);
    assert!(!h1.is_live(&pool));
    let h3 = pool.acquire(&i3, 3).unwrap();
    assert_eq!(h3.messages(&pool).len(), 1);
}

#[test]
fn pool_respects_max_sessions() {
    let mut pool = SessionPool::new(2);
    let i1 = item_with_follow_ups("a", 1);
    let i2 = item_with_follow_ups("b", 1);
    let i3 = item_with_follow_ups("c", 1);
    let _ = pool.acquire(&i1, 0).unwrap();
    let _ = pool.acquire(&i2, 0).unwrap();
    assert!(pool.acquire(&i3, 0).is_none());
    assert_eq!(pool.total_created(), 2);
}

#[test]
fn acquire_evict_lru_replaces_oldest_when_full() {
    let mut pool = SessionPool::new(1);
    let i1 = item_with_follow_ups("first", 1);
    let i2 = item_with_follow_ups("second", 1);
    let _h1 = pool.acquire(&i1, 0).unwrap();
    let h2 = pool.acquire_evict_lru(&i2, 5).unwrap();
    assert_eq!(h2.messages(&pool).len(), 1);
    assert_eq!(pool.total_created(), 2);
}

#[test]
fn the_session_that_was_used_longest_ago_leaves() {
    let mut pool = SessionPool::new(2);
    let item = item_with_follow_ups("x", 3);
    let a = pool.acquire(&item, 1).unwrap();
    let b = pool.acquire(&item, 2).unwrap();
    a.complete(&mut pool, "answer".to_string(), true, 3);
    let c = pool.acquire_evict_lru(&item, 4).unwrap();
    assert_ne!(c.id, b.id);
    assert!(!b.is_live(&pool));
    assert_eq!(a.messages(&pool).len(), 2);
    assert_eq!(c.messages(&pool).len(), 1);
    assert_eq!(pool.snapshot().len(), 2);
    assert_eq!(pool.total_created(), 3);
}

#[test]
fn an_evicted_handle_reads_no_other_conversation() {
    let mut pool = SessionPool::new(1);
    let i1 = item_with_follow_ups("first", 1);
    let i2 = item_with_follow_ups("second", 1);
    let h1 = pool.acquire(&i1, 0).unwrap();
    let h2 = pool.acquire_evict_lru(&i2, 1).unwrap();
    assert!(!h1.is_live(&pool));
    assert!(h2.is_live(&pool));
    assert_eq!(h2.messages(&pool)[0].content, i2.messages.unwrap()[0].content);
}

#[test]
fn an_id_that_is_taken_is_not_taken_over() {
    let mut pool = SessionPool::new(3);
    let item = item_with_follow_ups("x", 1);
    let a = pool.acquire_as(u128::MAX, &item, 1).unwrap();
    let b = pool.acquire_as(u128::MAX, &item, 2).unwrap();
    assert_eq!(a.id, u128::MAX);
    assert_eq!(b.id, 0);
    let c = pool.acquire_evict_lru_as(u128::MAX, &item, 3).unwrap();
    assert_eq!(c.id, 1);
    let d = pool.acquire_evict_lru_as(u128::MAX, &item, 4).unwrap();
    assert_eq!(d.id, 2);
    assert!(!a.is_live(&pool));
    assert_eq!(pool.snapshot().len(), 3);
}

#[test]
fn a_pool_without_room_evicts_nothing() {
    let mut pool = SessionPool::new(0);
    let item = item_with_follow_ups("x", 3);
    assert!(pool.acquire(&item, 1).is_none());
    assert!(pool.acquire_evict_lru(&item, 1).is_none());
    assert_eq!(pool.total_created(), 0);
}

#[test]
fn sessions_keep_the_id_of_the_last_response() {
    let mut pool = SessionPool::new(1);
    let item = item_with_follow_ups("x", 1);
    let a = pool.acquire(&item, 1).unwrap();
    assert_eq!(a.response_id(&pool), None);
    a.set_response_id(&mut pool, Some("resp_1".to_string()));
    assert_eq!(a.response_id(&pool).as_deref(), Some("resp_1"));
    let seen = pool.snapshot();
    assert_eq!(seen[0].item_name, "x");
    assert_eq!(seen[0].message_count, 1);
    assert_eq!(seen[0].id.len(), 36);
    assert_eq!(seen[0].id.matches('-').count(), 4);
}

#[test]
fn equal_ids_are_written_alike() {
    let mut pool = SessionPool::new(1);
    let item = item_with_follow_ups("x", 1);
    pool.acquire_as(0x0123_4567_89ab_cdef_0123_4567_89ab_cdef, &item, 1).unwrap();
    assert_eq!(pool.snapshot()[0].id, "01234567-89ab-cdef-0123-456789abcdef");
}
