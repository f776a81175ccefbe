use unca::session::{token_from_query, AuthError, Session, SessionPhase};
use unca::state::State;

#[test]
fn token_is_the_text_after_the_first_equals() {
    assert_eq!(token_from_query(Some("token=abc".to_string())), Some("abc".to_string()));
    assert_eq!(token_from_query(Some("token=abc=def".to_string())), Some("abc".to_string()));
    assert_eq!(token_from_query(Some("token=".to_string())), Some("".to_string()));
}

#[test]
fn query_without_equals_carries_no_token() {
    assert_eq!(token_from_query(Some("justtext".to_string())), None);
    assert_eq!(token_from_query(None), None);
}

#[test]
fn lifecycle_reaches_active_and_tears_down() {
    let mut st = State::new();
    let mut s = Session::new();
    assert_eq!(s.current_phase(), SessionPhase::Connecting);
    s.upgrade_complete();
    assert_eq!(s.current_phase(), SessionPhase::Authenticating);
    let err = s.authenticate(&mut st, Some("alice".to_string()));
    assert_eq!(err, None);
    assert_eq!(s.current_phase(), SessionPhase::Online);
    assert!(st.is_online(&"alice".to_string()));
    s.activate();
    assert_eq!(s.current_phase(), SessionPhase::Active);
    s.disconnect(&mut st);
    assert_eq!(s.current_phase(), SessionPhase::Offline);
    assert!(!st.is_online(&"alice".to_string()));
    s.close();
    assert_eq!(s.current_phase(), SessionPhase::Closed);
}

#[test]
fn missing_credential_closes_the_connection() {
    let mut st = State::new();
    let mut s = Session::new();
    s.upgrade_complete();
    let err = s.authenticate(&mut st, None);
    assert_eq!(err, Some(AuthError::TokenRequired));
    assert_eq!(s.current_phase(), SessionPhase::Closed);
}

#[test]
fn second_connection_for_an_online_user_is_refused() {
    let mut st = State::new();
    let mut first = Session::new();
    first.upgrade_complete();
    assert_eq!(first.authenticate(&mut st, Some("alice".to_string())), None);
    first.activate();

    // a second authenticated connection for alice arrives before the
    // first disconnects: it is told so and closed, never entering Active
    let mut second = Session::new();
    second.upgrade_complete();
    let err = second.authenticate(&mut st, Some("alice".to_string()));
    assert_eq!(err, Some(AuthError::AlreadyOnline));
    assert_eq!(second.current_phase(), SessionPhase::Closed);

    // the first connection is untouched
    assert_eq!(first.current_phase(), SessionPhase::Active);
    assert!(st.is_online(&"alice".to_string()));
}
