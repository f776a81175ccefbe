use indexmap::IndexSet;
use unca::events::EventEnum;
use unca::state::{EventMessage, State};

fn set_of(ids: &[&str]) -> IndexSet<String> {
    let mut s = IndexSet::new();
    for id in ids {
        s.insert(id.to_string());
    }
    s
}

fn pong_for(author: &str, targets: &[&str]) -> EventMessage {
    EventMessage {
        author: author.to_string(),
        targets: set_of(targets),
        item: EventEnum::Pong { data: Some(7) },
    }
}

#[test]
fn presence_rejects_second_connection() {
    let mut st = State::new();
    assert!(st.user_online("alice".to_string()));
    assert!(!st.user_online("alice".to_string()));
    assert!(st.is_online(&"alice".to_string()));
    st.user_offline(&"alice".to_string());
    assert!(!st.is_online(&"alice".to_string()));
    assert!(st.user_online("alice".to_string()));
}

#[test]
fn presence_is_per_user() {
    let mut st = State::new();
    assert!(st.user_online("alice".to_string()));
    assert!(st.user_online("bob".to_string()));
    st.user_offline(&"alice".to_string());
    assert!(!st.is_online(&"alice".to_string()));
    assert!(st.is_online(&"bob".to_string()));
}

#[test]
fn enqueue_filters_to_online_targets() {
    let mut st = State::new();
    st.user_online("alice".to_string());
    st.user_online("bob".to_string());
    // carol is offline: the event is kept for bob alone
    st.message_add_vdb(pong_for("alice", &["bob", "carol"]));
    assert_eq!(st.queue_len(), 1);
    let got = st.get_message(&"bob".to_string()).expect("bob is owed the event");
    assert_eq!(got.len(), 1);
    assert!(got[0].targets.contains("bob"));
    assert!(!got[0].targets.contains("carol"));
}

#[test]
fn enqueue_with_no_online_target_adds_nothing() {
    let mut st = State::new();
    st.user_online("alice".to_string());
    let before = st.queue_len();
    st.message_add_vdb(pong_for("alice", &["carol", "dave"]));
    assert_eq!(st.queue_len(), before);
}

#[test]
fn enqueue_with_empty_targets_adds_nothing() {
    let mut st = State::new();
    st.user_online("alice".to_string());
    let before = st.queue_len();
    st.message_add_vdb(pong_for("alice", &[]));
    assert_eq!(st.queue_len(), before);
}

#[test]
fn drain_returns_nothing_for_untargeted_user() {
    let mut st = State::new();
    st.user_online("alice".to_string());
    st.user_online("bob".to_string());
    st.message_add_vdb(pong_for("alice", &["bob"]));
    // alice is no target: nothing to deliver, queue untouched
    assert!(st.get_message(&"alice".to_string()).is_none());
    assert_eq!(st.queue_len(), 1);
}

#[test]
fn drain_serves_each_target_at_most_once() {
    let mut st = State::new();
    st.user_online("alice".to_string());
    st.user_online("bob".to_string());
    st.message_add_vdb(pong_for("alice", &["bob"]));
    assert!(st.get_message(&"bob".to_string()).is_some());
    // the event was fully served: collected, not delivered again
    assert!(st.get_message(&"bob".to_string()).is_none());
    assert_eq!(st.queue_len(), 0);
}

#[test]
fn drain_keeps_events_owed_to_others() {
    let mut st = State::new();
    st.user_online("alice".to_string());
    st.user_online("bob".to_string());
    st.user_online("carol".to_string());
    st.message_add_vdb(pong_for("alice", &["bob", "carol"]));
    assert!(st.get_message(&"bob".to_string()).is_some());
    // carol is still owed the event
    assert_eq!(st.queue_len(), 1);
    let got = st.get_message(&"carol".to_string()).expect("carol is owed the event");
    assert_eq!(got.len(), 1);
    assert_eq!(st.queue_len(), 0);
}

#[test]
fn drain_preserves_enqueue_order() {
    let mut st = State::new();
    st.user_online("alice".to_string());
    st.user_online("bob".to_string());
    st.message_add_vdb(EventMessage {
        author: "alice".to_string(),
        targets: set_of(&["bob"]),
        item: EventEnum::Pong { data: Some(1) },
    });
    st.message_add_vdb(EventMessage {
        author: "alice".to_string(),
        targets: set_of(&["bob"]),
        item: EventEnum::Pong { data: Some(2) },
    });
    let got = st.get_message(&"bob".to_string()).expect("two events pending");
    assert_eq!(got.len(), 2);
    match (&got[0].item, &got[1].item) {
        (EventEnum::Pong { data: first }, EventEnum::Pong { data: second }) => {
            assert_eq!(*first, Some(1));
            assert_eq!(*second, Some(2));
        },
        _ => panic!("expected the two pongs in enqueue order"),
    }
}

#[test]
fn offline_strips_user_from_pending_targets() {
    let mut st = State::new();
    st.user_online("alice".to_string());
    st.user_online("bob".to_string());
    st.user_online("carol".to_string());
    st.message_add_vdb(pong_for("alice", &["bob", "carol"]));
    // bob disconnects while the event is pending
    st.user_offline(&"bob".to_string());
    assert!(!st.is_online(&"bob".to_string()));
    assert_eq!(st.queue_len(), 1);
    // carol still receives it, and the drained copy no longer names bob
    let got = st.get_message(&"carol".to_string()).expect("carol is owed the event");
    assert_eq!(got.len(), 1);
    assert!(got[0].targets.contains("carol"));
    assert!(!got[0].targets.contains("bob"));
    assert_eq!(got[0].targets.len(), 1);
    assert_eq!(st.queue_len(), 0);
}

#[test]
fn offline_collects_events_left_without_targets() {
    let mut st = State::new();
    st.user_online("alice".to_string());
    st.user_online("bob".to_string());
    st.message_add_vdb(pong_for("alice", &["bob"]));
    assert_eq!(st.queue_len(), 1);
    st.user_offline(&"bob".to_string());
    assert_eq!(st.queue_len(), 0);
}

#[test]
fn typing_status_replace_reports_previous_channel() {
    let mut st = State::new();
    assert_eq!(st.type_status_replace("alice".to_string(), "c1".to_string()), None);
    assert_eq!(
        st.type_status_replace("alice".to_string(), "c2".to_string()),
        Some("c1".to_string())
    );
    assert_eq!(
        st.type_status_replace("alice".to_string(), "c2".to_string()),
        Some("c2".to_string())
    );
}

#[test]
fn offline_clears_typing_status() {
    let mut st = State::new();
    st.user_online("alice".to_string());
    st.type_status_add("alice".to_string(), "c1".to_string());
    st.user_offline(&"alice".to_string());
    assert_eq!(st.type_status_replace("alice".to_string(), "c9".to_string()), None);
}

#[test]
fn default_state_is_empty() {
    let mut st = State::default();
    assert_eq!(st.queue_len(), 0);
    assert!(!st.is_online(&"alice".to_string()));
    assert!(st.user_online("alice".to_string()));
}
