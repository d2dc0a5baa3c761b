use space_symphony::token::{AuthState, DurationSecs, Response, ScopeSet, Timestamp, Token};

fn scopes_of(names: &[&str]) -> ScopeSet {
    ScopeSet::from_vec(names.iter().map(|name| name.to_string()).collect())
}

fn token(access_token: &str) -> Token {
    Token {
        access_token: access_token.to_string(),
        expires_in: DurationSecs(3600),
        expires_at: Some(Timestamp { secs: 1_700_000_000, nanos: 123_456_789 }),
        refresh_token: Some("refresh-me".to_string()),
        scopes: scopes_of(&["user-read-recently-played", "user-read-email"]),
    }
}

#[test]
fn auth_state_defaults_to_no() {
    assert_eq!(AuthState::default(), AuthState::No);
}

#[test]
fn scope_set_starts_empty() {
    let set = ScopeSet::new();
    assert_eq!(set.len(), 0);
    assert!(!set.contains(&"user-read-email".to_string()));
    assert!(set.to_vec().is_empty());
}

#[test]
fn scope_set_keeps_each_scope_once() {
    let mut set = ScopeSet::new();
    assert!(set.insert("a".to_string()));
    assert!(set.insert("b".to_string()));
    assert!(!set.insert("a".to_string()));
    assert_eq!(set.len(), 2);
    assert!(set.contains(&"a".to_string()));
    assert!(set.contains(&"b".to_string()));
    assert!(!set.contains(&"c".to_string()));
    assert_eq!(set.to_vec(), vec!["a".to_string(), "b".to_string()]);
}

#[test]
fn scope_set_from_vec_drops_repeats() {
    let set = scopes_of(&["x", "y", "x", "z", "y"]);
    assert_eq!(set.len(), 3);
    assert_eq!(set.to_vec(), vec!["x".to_string(), "y".to_string(), "z".to_string()]);
}

#[test]
fn scope_set_clone_holds_the_same_scopes() {
    let set = scopes_of(&["one", "two"]);
    let copy = set.clone();
    assert_eq!(copy.to_vec(), set.to_vec());
}

#[test]
fn logged_in_record_maps_every_field() {
    let record = Response::logged_in(token("BQD-access")).expect("a token with an access token");
    assert_eq!(record.access_token(), "BQD-access");
    assert_eq!(record.expires_in(), DurationSecs(3600));
    assert_eq!(record.expires_at(), Some(Timestamp { secs: 1_700_000_000, nanos: 123_456_789 }));
    assert_eq!(record.refresh_token(), &Some("refresh-me".to_string()));
    assert_eq!(record.scopes().len(), 2);
    assert!(record.scopes().contains(&"user-read-recently-played".to_string()));
    assert!(record.scopes().contains(&"user-read-email".to_string()));
    assert_eq!(record.logged(), AuthState::Yes);
    assert!(record.is_logged_in());
}

#[test]
fn token_without_access_token_opens_no_session() {
    assert!(Response::logged_in(token("")).is_none());
}

#[test]
fn logged_out_record_is_cleared() {
    let record = Response::logged_out();
    assert_eq!(record.access_token(), "");
    assert_eq!(record.expires_in(), DurationSecs(0));
    assert_eq!(record.expires_at(), None);
    assert_eq!(record.refresh_token(), &None);
    assert_eq!(record.scopes().len(), 0);
    assert_eq!(record.logged(), AuthState::No);
    assert!(!record.is_logged_in());
}

#[test]
fn from_parts_takes_consistent_fields() {
    let record = Response::from_parts(
        "tok".to_string(),
        DurationSecs(-5),
        None,
        None,
        ScopeSet::new(),
        AuthState::Yes,
    )
    .expect("consistent fields");
    assert_eq!(record.access_token(), "tok");
    assert_eq!(record.expires_in(), DurationSecs(-5));
    assert_eq!(record.expires_at(), None);
    assert_eq!(record.refresh_token(), &None);
    assert_eq!(record.logged(), AuthState::Yes);

    let closed = Response::from_parts(
        String::new(),
        DurationSecs(0),
        None,
        Some(String::new()),
        scopes_of(&["s"]),
        AuthState::No,
    )
    .expect("consistent fields");
    assert_eq!(closed.refresh_token(), &Some(String::new()));
    assert_eq!(closed.scopes().len(), 1);
    assert_eq!(closed.logged(), AuthState::No);
}

#[test]
fn from_parts_refuses_contradicting_fields() {
    assert!(Response::from_parts(
        String::new(),
        DurationSecs(1),
        None,
        None,
        ScopeSet::new(),
        AuthState::Yes
    )
    .is_none());
    assert!(Response::from_parts(
        "tok".to_string(),
        DurationSecs(1),
        None,
        None,
        ScopeSet::new(),
        AuthState::No
    )
    .is_none());
}

#[test]
fn record_clone_keeps_every_field() {
    let record = Response::logged_in(token("abc")).expect("a token with an access token");
    let copy = record.clone();
    assert_eq!(copy.access_token(), record.access_token());
    assert_eq!(copy.expires_in(), record.expires_in());
    assert_eq!(copy.expires_at(), record.expires_at());
    assert_eq!(copy.refresh_token(), record.refresh_token());
    assert_eq!(copy.scopes().to_vec(), record.scopes().to_vec());
    assert_eq!(copy.logged(), record.logged());
}
