use chatbot_core::dispatch::build_outbound;
use chatbot_core::dispatch::prepare_dispatch;
use chatbot_core::dispatch::settle_dispatch;
use chatbot_core::dispatch::CompletionError;
use chatbot_core::filter::should_enqueue;
use chatbot_core::filter::should_enqueue_for;
use chatbot_core::queue::MessageQueue;
use chatbot_core::queue::QueuedMessage;
use chatbot_core::session::Role;
use chatbot_core::session::SessionStore;

const WINDOW: u64 = 30;

fn message(channel_id: u64, author: &str, content: &str) -> QueuedMessage {
    QueuedMessage {
        channel_id,
        author_name: String::from(author),
        content: String::from(content),
    }
}

#[test]
fn outbound_text_is_author_colon_content() {
    assert_eq!(build_outbound("Alice", "hi there"), "Alice: hi there");
}

#[test]
fn filter_never_answers_self() {
    assert!(!should_enqueue(true, "Bot, hello", "Bot", Some(10), 11, WINDOW, true));
}

#[test]
fn filter_matches_bot_name_case_insensitively() {
    assert!(should_enqueue(false, "hey BOT, hello", "bot", None, 0, WINDOW, false));
    assert!(should_enqueue(false, "hey bot, hello", "Bot", None, 0, WINDOW, false));
    assert!(!should_enqueue(false, "hey there", "Bot", None, 0, WINDOW, false));
}

#[test]
fn filter_ambient_window_and_roll() {
    // warm channel: last active 10 seconds ago
    assert!(should_enqueue(false, "no name here", "Bot", Some(1_000), 1_010, WINDOW, false));
    // gone cold: 31 seconds
    assert!(!should_enqueue(false, "no name here", "Bot", Some(1_000), 1_031, WINDOW, false));
    // the injected ambient roll alone suffices
    assert!(should_enqueue(false, "no name here", "Bot", Some(1_000), 1_031, WINDOW, true));
}

#[test]
fn scenario_new_channel_addressed_by_name() {
    // new channel, message naming the bot: enqueued, session created with
    // a directive derived from the historian preset, reply sent
    let mut store = SessionStore::new();
    let mut queue = MessageQueue::new();
    let now: u64 = 5_000;

    let text = "Bot, tell me about the history of Rome";
    assert!(should_enqueue_for(&store, 42, false, text, "Bot", now, WINDOW, false));
    assert!(queue.enqueue(message(42, "Alice", text)).is_ok());

    let msg = queue.dequeue().expect("one message is pending");
    let outbound = prepare_dispatch(&mut store, &msg, 0, now);
    assert_eq!(outbound, "Alice: Bot, tell me about the history of Rome");

    let s = store.get_session(42).expect("session was created");
    assert_eq!(s.history.len(), 1);
    assert_eq!(s.history[0].role, Role::System);
    assert!(s.history[0].text.contains("I want you to act as a historian."));
    assert!(s.history[0].text.contains(&outbound));

    let reply = settle_dispatch(&mut store, 42, &outbound, Ok(String::from("Rome fell.")), now);
    assert_eq!(reply.as_deref(), Some("Rome fell."));
    let s = store.get_session(42).expect("session remains");
    assert_eq!(s.history.len(), 3);
    assert_eq!(s.history[2].text, "Rome fell.");
}

#[test]
fn scenario_warm_channel_without_name_reuses_session() {
    // a session active 10 seconds ago: enqueued through the ambient
    // window, and the existing session is reused, not recreated
    let mut store = SessionStore::new();
    store.get_or_refresh(7, "Alice: Bot, hello", 0, 1_000);
    let directive = store.get_session(7).unwrap().history[0].text.clone();

    let text = "and what happened next?";
    assert!(should_enqueue_for(&store, 7, false, text, "Bot", 1_010, WINDOW, false));

    let msg = message(7, "Alice", text);
    let outbound = prepare_dispatch(&mut store, &msg, 0, 1_010);
    let s = store.get_session(7).unwrap();
    assert_eq!(s.history.len(), 1);
    assert_eq!(s.history[0].text, directive, "the session was not recreated");

    let reply = settle_dispatch(&mut store, 7, &outbound, Ok(String::from("then...")), 1_010);
    assert!(reply.is_some());
    assert_eq!(store.get_session(7).unwrap().history.len(), 3);
}

#[test]
fn scenario_cold_channel_without_name_is_filtered_out() {
    // no bot name, no session, ambient roll not triggered: nothing is
    // enqueued and no session is created
    let store = SessionStore::new();
    let mut queue = MessageQueue::new();

    let text = "just chatting among ourselves";
    let wanted = should_enqueue_for(&store, 9, false, text, "Bot", 2_000, WINDOW, false);
    assert!(!wanted);
    if wanted {
        assert!(queue.enqueue(message(9, "Alice", text)).is_ok());
    }
    assert_eq!(queue.len(), 0);
    assert!(store.get_session(9).is_none());
}

#[test]
fn scenario_completion_failure_trims_and_drops() {
    // a failed completion on a 25-turn session: no reply, the session is
    // force-trimmed to 11 turns, and the next message proceeds normally
    let mut store = SessionStore::new();
    store.get_or_refresh(5, "Alice: Bot, hello", 0, 100);
    for k in 1..=12u32 {
        store.commit(5, &format!("user {}", k), &format!("reply {}", k), 100);
    }
    assert_eq!(store.get_session(5).unwrap().history.len(), 25);

    let msg = message(5, "Alice", "Bot, more please");
    let outbound = prepare_dispatch(&mut store, &msg, 0, 110);
    let reply = settle_dispatch(
        &mut store,
        5,
        &outbound,
        Err(CompletionError::Transport),
        110,
    );
    assert!(reply.is_none(), "a failed completion sends nothing");
    let s = store.get_session(5).unwrap();
    assert_eq!(s.history.len(), 11);
    assert_eq!(s.history[0].role, Role::System);

    // the next message in the channel is processed normally
    let msg = message(5, "Alice", "Bot, are you there?");
    let outbound = prepare_dispatch(&mut store, &msg, 0, 113);
    let reply = settle_dispatch(&mut store, 5, &outbound, Ok(String::from("yes")), 113);
    assert_eq!(reply.as_deref(), Some("yes"));
    assert_eq!(store.get_session(5).unwrap().history.len(), 13);
}

#[test]
fn every_completion_error_recovers_the_same_way() {
    let errors = [
        CompletionError::RateLimited,
        CompletionError::InputTooLarge,
        CompletionError::Transport,
        CompletionError::BackendError,
    ];
    for e in errors {
        let mut store = SessionStore::new();
        store.get_or_refresh(1, "Bot hello", 0, 10);
        store.commit(1, "u", "r", 10);
        let reply = settle_dispatch(&mut store, 1, "u2", Err(e), 11);
        assert!(reply.is_none());
        // under the overflow threshold nothing is cut, but the recovery ran
        assert_eq!(store.get_session(1).unwrap().history.len(), 3);
    }
}

#[test]
fn reset_marker_in_flight_rebuilds_session() {
    let mut store = SessionStore::new();
    store.get_or_refresh(2, "Alice: Bot, hello", 0, 50);
    store.commit(2, "u", "r", 50);
    assert_eq!(store.get_session(2).unwrap().history.len(), 3);

    let msg = message(2, "Alice", "Bot !reset! please");
    let _outbound = prepare_dispatch(&mut store, &msg, 0, 55);
    assert_eq!(store.get_session(2).unwrap().history.len(), 1);
}
