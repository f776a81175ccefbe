use indexmap::IndexSet;
use unca::actions::ActionEnum;
use unca::dispatch::{classify_action, is_blank, prepare_message_send, prepare_typing_event, ActionStep};
use unca::events::EventEnum;
use unca::models::Channel;
use unca::state::State;

fn channel(id: &str, members: &[&str]) -> Channel {
    let mut set = IndexSet::new();
    for m in members {
        set.insert(m.to_string());
    }
    Channel { id: id.to_string(), members: set }
}

#[test]
fn establish_from_client_is_ignored() {
    match classify_action(ActionEnum::Establish) {
        ActionStep::Ignore => {},
        _ => panic!("a client-sent establish does nothing"),
    }
}

#[test]
fn ping_is_answered_directly_with_pong() {
    match classify_action(ActionEnum::Ping { data: Some(42) }) {
        ActionStep::Reply(EventEnum::Pong { data }) => assert_eq!(data, Some(42)),
        _ => panic!("ping must be answered with a pong carrying the same data"),
    }
}

#[test]
fn message_and_typing_need_a_membership_check() {
    match classify_action(ActionEnum::MessageSend {
        content: "hi".to_string(),
        channel: "c1".to_string(),
    }) {
        ActionStep::FanOutMessage { content, channel } => {
            assert_eq!(content, "hi");
            assert_eq!(channel, "c1");
        },
        _ => panic!("a message fans out after the membership check"),
    }
    match classify_action(ActionEnum::TypeStatus { typing: Some(true), channel: "c1".to_string() }) {
        ActionStep::FanOutTyping { typing, channel } => {
            assert_eq!(typing, Some(true));
            assert_eq!(channel, "c1");
        },
        _ => panic!("a typing report fans out after the membership check"),
    }
}

#[test]
fn blank_recognises_whitespace() {
    assert!(is_blank(&"".to_string()));
    assert!(is_blank(&"  \n ".to_string()));
    assert!(is_blank(&"\t".to_string()));
    assert!(is_blank(&" \t\r\n\u{c} ".to_string()));
    assert!(!is_blank(&"hi".to_string()));
    assert!(!is_blank(&" h ".to_string()));
    assert!(!is_blank(&"\t.\n".to_string()));
}

#[test]
fn message_send_round_trip() {
    // alice and bob online; alice sends "hi" in c1 where bob is the only
    // other member
    let mut st = State::new();
    st.user_online("alice".to_string());
    st.user_online("bob".to_string());
    let ch = channel("c1", &["alice", "bob"]);
    let (msg, ev) = prepare_message_send(
        &"alice".to_string(),
        "hi".to_string(),
        Some(ch),
        "m1".to_string(),
    )
    .expect("a valid message must produce a record and an event");
    assert_eq!(msg.id, "m1");
    assert_eq!(msg.author, "alice");
    assert_eq!(msg.content, "hi");
    assert_eq!(msg.channel, "c1");
    assert!(ev.targets.contains("bob"));
    assert!(!ev.targets.contains("alice"));
    assert_eq!(ev.targets.len(), 1);

    st.message_add_vdb(ev);
    assert_eq!(st.queue_len(), 1);
    let got = st.get_message(&"bob".to_string()).expect("bob is owed the message");
    assert_eq!(got.len(), 1);
    match &got[0].item {
        EventEnum::MessageSend { id, author, content, channel } => {
            assert_eq!(id, "m1");
            assert_eq!(author, "alice");
            assert_eq!(content, "hi");
            assert_eq!(channel, "c1");
        },
        _ => panic!("the drained payload must be the message event"),
    }
    assert_eq!(st.queue_len(), 0);
}

#[test]
fn whitespace_only_message_is_dropped() {
    // nothing to persist, nothing to enqueue
    let ch = channel("c1", &["alice", "bob"]);
    let r = prepare_message_send(
        &"alice".to_string(),
        "  \n ".to_string(),
        Some(ch),
        "m1".to_string(),
    );
    assert!(r.is_none());
}

#[test]
fn tab_only_message_is_dropped() {
    let ch = channel("c1", &["alice", "bob"]);
    let r = prepare_message_send(
        &"alice".to_string(),
        "\t\r\n".to_string(),
        Some(ch),
        "m1".to_string(),
    );
    assert!(r.is_none());
}

#[test]
fn message_without_accessible_channel_is_dropped() {
    let r = prepare_message_send(&"alice".to_string(), "hi".to_string(), None, "m1".to_string());
    assert!(r.is_none());
}

#[test]
fn typing_event_targets_other_members() {
    let ch = channel("c1", &["alice", "bob", "carol"]);
    let ev = prepare_typing_event(&"alice".to_string(), Some(true), Some(ch))
        .expect("membership confirmed, so an event is built");
    assert_eq!(ev.author, "alice");
    assert!(ev.targets.contains("bob"));
    assert!(ev.targets.contains("carol"));
    assert!(!ev.targets.contains("alice"));
    match &ev.item {
        EventEnum::TypeStatus { typing, channel, user } => {
            assert_eq!(*typing, Some(true));
            assert_eq!(channel, "c1");
            assert_eq!(user, "alice");
        },
        _ => panic!("a typing report builds a typing event"),
    }
}

#[test]
fn typing_without_accessible_channel_is_dropped() {
    assert!(prepare_typing_event(&"alice".to_string(), Some(true), None).is_none());
}
