use chatbot_core::queue::MessageQueue;
use chatbot_core::queue::QueuedMessage;
use chatbot_core::session::Role;
use chatbot_core::session::SessionStore;

fn message(channel_id: u64, author: &str, content: &str) -> QueuedMessage {
    QueuedMessage {
        channel_id,
        author_name: String::from(author),
        content: String::from(content),
    }
}

#[test]
fn create_session_seeds_directive_first() {
    let mut store = SessionStore::new();
    store.get_or_refresh(7, "hello there", 0, 1_000);
    let s = store.get_session(7).expect("session was created");
    assert_eq!(s.history.len(), 1);
    assert_eq!(s.history[0].role, Role::System);
    assert!(s.history[0].text.contains("The expected format is as follows:"));
    assert_eq!(s.last_active, 1_000);
}

#[test]
fn commit_appends_user_and_assistant_turns() {
    let mut store = SessionStore::new();
    store.get_or_refresh(7, "hello there", 0, 1_000);
    let committed = store.commit(7, "alice: hi", "hi alice", 1_005);
    assert!(committed);
    let s = store.get_session(7).expect("session exists");
    assert_eq!(s.history.len(), 3);
    assert_eq!(s.history[1].role, Role::User);
    assert_eq!(s.history[1].text, "alice: hi");
    assert_eq!(s.history[2].role, Role::Assistant);
    assert_eq!(s.history[2].text, "hi alice");
    assert_eq!(s.last_active, 1_005);
}

#[test]
fn commit_without_session_changes_nothing() {
    let mut store = SessionStore::new();
    assert!(!store.commit(9, "user", "reply", 50));
    assert!(store.get_session(9).is_none());
    assert_eq!(store.peek_last_active(9), None);
}

#[test]
fn history_trim_keeps_directive_and_ten_most_recent() {
    // 21 turns with retained memory 10 trim to exactly 11: turn 0
    // unchanged, then turns 11..=20 in original order
    let mut store = SessionStore::new();
    store.get_or_refresh(1, "hello there", 0, 1_000);
    for k in 1..=10u32 {
        store.commit(1, &format!("user {}", k), &format!("reply {}", k), 1_000);
    }
    let directive = store.get_session(1).unwrap().history[0].text.clone();
    assert_eq!(store.get_session(1).unwrap().history.len(), 21);

    store.force_trim(1);
    let s = store.get_session(1).unwrap();
    assert_eq!(s.history.len(), 11);
    assert_eq!(s.history[0].role, Role::System);
    assert_eq!(s.history[0].text, directive);
    // the last ten of the original history: user/reply 6..=10
    for k in 0..5u32 {
        assert_eq!(s.history[1 + 2 * k as usize].text, format!("user {}", 6 + k));
        assert_eq!(s.history[2 + 2 * k as usize].text, format!("reply {}", 6 + k));
    }
}

#[test]
fn trim_leaves_short_history_alone() {
    let mut store = SessionStore::with_config(300, 5, 2);
    store.get_or_refresh(1, "hello there", 0, 0);
    store.commit(1, "u1", "r1", 0);
    store.commit(1, "u2", "r2", 0);
    // exactly at the overflow threshold: not trimmed
    assert_eq!(store.get_session(1).unwrap().history.len(), 5);
    store.force_trim(1);
    assert_eq!(store.get_session(1).unwrap().history.len(), 5);
    // one past the threshold: trimmed to directive + 2
    store.commit(1, "u3", "r3", 0);
    store.force_trim(1);
    let s = store.get_session(1).unwrap();
    assert_eq!(s.history.len(), 3);
    assert_eq!(s.history[1].text, "u3");
    assert_eq!(s.history[2].text, "r3");
}

#[test]
fn access_past_overflow_trims_before_returning() {
    let mut store = SessionStore::with_config(300, 5, 2);
    store.get_or_refresh(1, "hello there", 0, 0);
    for k in 1..=3u32 {
        store.commit(1, &format!("u{}", k), &format!("r{}", k), 0);
    }
    assert_eq!(store.get_session(1).unwrap().history.len(), 7);
    store.get_or_refresh(1, "another message", 0, 10);
    let s = store.get_session(1).unwrap();
    assert_eq!(s.history.len(), 3);
    assert_eq!(s.history[0].role, Role::System);
}

#[test]
fn ttl_expiry_rebuilds_session() {
    // six minutes of idleness exceed the five-minute TTL: the history
    // resets to the single new directive turn
    let mut store = SessionStore::new();
    store.get_or_refresh(3, "hello there", 0, 1_000);
    store.commit(3, "alice: hi", "hi", 1_000);
    assert_eq!(store.get_session(3).unwrap().history.len(), 3);

    store.get_or_refresh(3, "are you still there", 0, 1_000 + 360);
    let s = store.get_session(3).unwrap();
    assert_eq!(s.history.len(), 1);
    assert_eq!(s.history[0].role, Role::System);
    assert_eq!(s.last_active, 1_360);
}

#[test]
fn within_ttl_session_is_kept() {
    let mut store = SessionStore::new();
    store.get_or_refresh(3, "hello there", 0, 1_000);
    let directive = store.get_session(3).unwrap().history[0].text.clone();
    store.commit(3, "alice: hi", "hi", 1_000);

    store.get_or_refresh(3, "still here", 0, 1_010);
    let s = store.get_session(3).unwrap();
    assert_eq!(s.history.len(), 3);
    assert_eq!(s.history[0].text, directive);
    assert_eq!(s.last_active, 1_000);
}

#[test]
fn reset_marker_forces_rebuild() {
    let mut store = SessionStore::new();
    store.get_or_refresh(3, "hello there", 0, 1_000);
    store.commit(3, "alice: hi", "hi", 1_000);
    assert_eq!(store.get_session(3).unwrap().history.len(), 3);

    store.get_or_refresh(3, "please !reset! everything", 0, 1_001);
    let s = store.get_session(3).unwrap();
    assert_eq!(s.history.len(), 1);
    assert_eq!(s.last_active, 1_001);
}

#[test]
fn peek_last_active_reports_recency() {
    let mut store = SessionStore::new();
    assert_eq!(store.peek_last_active(4), None);
    store.get_or_refresh(4, "hello there", 0, 2_000);
    assert_eq!(store.peek_last_active(4), Some(2_000));
}

#[test]
fn queue_is_fifo() {
    let mut q = MessageQueue::new();
    assert!(q.enqueue(message(1, "a", "first")).is_ok());
    assert!(q.enqueue(message(1, "b", "second")).is_ok());
    assert!(q.enqueue(message(2, "c", "third")).is_ok());
    assert_eq!(q.dequeue().unwrap().content, "first");
    assert_eq!(q.dequeue().unwrap().content, "second");
    assert_eq!(q.dequeue().unwrap().content, "third");
    assert!(q.dequeue().is_none());
}

#[test]
fn queue_back_pressure_at_capacity() {
    // the 101st offer is refused while 100 are pending; after one dequeue
    // the retried offer is accepted
    let mut q = MessageQueue::new();
    for k in 0..100u32 {
        assert!(q.enqueue(message(1, "a", &format!("m{}", k))).is_ok());
    }
    assert_eq!(q.len(), 100);
    let refused = q.enqueue(message(1, "a", "m100"));
    let handed_back = match refused {
        Err(m) => m,
        Ok(()) => panic!("the queue accepted past its capacity"),
    };
    assert_eq!(handed_back.content, "m100");
    assert_eq!(q.len(), 100);

    assert_eq!(q.dequeue().unwrap().content, "m0");
    assert!(q.enqueue(handed_back).is_ok());
    assert_eq!(q.len(), 100);
}

#[test]
fn queue_respects_configured_capacity() {
    let mut q = MessageQueue::with_capacity(2);
    assert!(q.enqueue(message(1, "a", "x")).is_ok());
    assert!(q.enqueue(message(1, "a", "y")).is_ok());
    assert!(q.enqueue(message(1, "a", "z")).is_err());
}
