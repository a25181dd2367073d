use gamba::session::SessionData;

#[test]
fn new_session_is_empty() {
    let session = SessionData::new();
    assert_eq!(session.get("user_id"), None);
}

#[test]
fn get_after_insert() {
    let mut session = SessionData::new();
    assert_eq!(session.insert("a".to_string(), "1".to_string()), None);
    assert_eq!(session.insert("b".to_string(), "2".to_string()), None);
    assert_eq!(session.get("a"), Some("1".to_string()));
    assert_eq!(session.get("b"), Some("2".to_string()));
}

#[test]
fn insert_replaces_and_returns_previous() {
    let mut session = SessionData::new();
    session.insert("a".to_string(), "1".to_string());
    assert_eq!(session.insert("a".to_string(), "2".to_string()), Some("1".to_string()));
    assert_eq!(session.get("a"), Some("2".to_string()));
}

#[test]
fn remove_takes_value_out() {
    let mut session = SessionData::new();
    session.insert("a".to_string(), "1".to_string());
    session.insert("b".to_string(), "2".to_string());
    assert_eq!(session.remove("a"), Some("1".to_string()));
    assert_eq!(session.get("a"), None);
    assert_eq!(session.get("b"), Some("2".to_string()));
    assert_eq!(session.remove("a"), None);
}

#[test]
fn keys_compare_by_characters() {
    let mut session = SessionData::new();
    session.insert("ключ".to_string(), "значение".to_string());
    assert_eq!(session.get("ключ"), Some("значение".to_string()));
    assert_eq!(session.get("ключи"), None);
    assert_eq!(session.get("клю"), None);
}
