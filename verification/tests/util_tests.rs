use unca::events::EventEnum;
use unca::models::{User, UserSafe};
use unca::util::{flatten, flatten_vec, is_false, is_none_bool, rand};
use indexmap::IndexSet;

#[test]
fn rand_yields_a_decimal_identifier() {
    let id = rand();
    assert!(!id.is_empty());
    assert!(id.chars().all(|c| c.is_ascii_digit()));
    assert!(id.len() <= 10);
    // no leading zero unless the number is zero itself
    if id.len() > 1 {
        assert!(!id.starts_with('0'));
    }
}

#[test]
fn default_value_checks() {
    assert!(is_false(&false));
    assert!(!is_false(&true));
    assert!(is_none_bool(&None));
    assert!(is_none_bool(&Some(false)));
    assert!(!is_none_bool(&Some(true)));
}

#[test]
fn flatten_keeps_found_values_in_order() {
    let input: Vec<Result<Option<u32>, anyhow::Error>> = vec![
        Ok(Some(1)),
        Ok(None),
        Err(anyhow::Error::msg("lookup failed")),
        Ok(Some(2)),
    ];
    assert_eq!(flatten(input), vec![1, 2]);
}

#[test]
fn flatten_vec_concatenates_successes() {
    let input: Vec<Result<Vec<u32>, anyhow::Error>> = vec![
        Ok(vec![1, 2]),
        Err(anyhow::Error::msg("lookup failed")),
        Ok(vec![]),
        Ok(vec![3]),
    ];
    assert_eq!(flatten_vec(input), vec![1, 2, 3]);
}

#[test]
fn safe_projection_drops_sessions() {
    let mut sessions = IndexSet::new();
    sessions.insert("SECRET-REDACTED".to_string());
    let user = User { id: "u1".to_string(), username: "Person".to_string(), sessions };
    let safe = UserSafe::from(user);
    assert_eq!(safe.id, "u1");
    assert_eq!(safe.username, "Person");
}

#[test]
fn message_send_extracts_the_persistable_record() {
    let ev = EventEnum::MessageSend {
        id: "m1".to_string(),
        author: "alice".to_string(),
        content: "hi".to_string(),
        channel: "c1".to_string(),
    };
    let msg = ev.message_send().expect("a message event has a persisted form");
    assert_eq!(msg.id, "m1");
    assert_eq!(msg.author, "alice");
    assert_eq!(msg.content, "hi");
    assert_eq!(msg.channel, "c1");
    assert!(EventEnum::Pong { data: None }.message_send().is_none());
}
