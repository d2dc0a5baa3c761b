use space_symphony::flow::{
    Action, AuthError, Event, FlowCoordinator, Notice, SavePurpose, DEFAULT_TIMEOUT_SECS,
};
use space_symphony::listener::{ListenerState, Reply};
use space_symphony::store::{SpaceConfig, StoreError};
use space_symphony::token::{AuthState, DurationSecs, Response, ScopeSet, Timestamp, Token};

fn error_text(error: &AuthError) -> String {
    match error {
        AuthError::AlreadyInProgress => "AlreadyInProgress".to_string(),
        AuthError::BindError => "BindError".to_string(),
        AuthError::Timeout => "Timeout".to_string(),
        AuthError::ProviderDenied(reason) => format!("ProviderDenied({reason})"),
        AuthError::ExchangeFailed(reason) => format!("ExchangeFailed({reason})"),
        AuthError::StoreError(error) => format!("StoreError({})", error.reason),
    }
}

fn action_text(action: &Action) -> String {
    match action {
        Action::StartListener { address, path } => format!("StartListener({address},{path})"),
        Action::StopListener => "StopListener".to_string(),
        Action::BuildAuthorizationUrl => "BuildAuthorizationUrl".to_string(),
        Action::OpenBrowser { url } => format!("OpenBrowser({url})"),
        Action::Reply(Reply::Accepted) => "Reply(Accepted)".to_string(),
        Action::Reply(Reply::Acknowledged) => "Reply(Acknowledged)".to_string(),
        Action::Exchange { code } => format!("Exchange({code})"),
        Action::Save { purpose: SavePurpose::Login, record } => {
            format!("Save(Login,{})", record.access_token())
        }
        Action::Save { purpose: SavePurpose::Logout, record } => {
            format!("Save(Logout,{})", record.access_token())
        }
        Action::Notify(Notice::LoginCompleted) => "Notify(LoginCompleted)".to_string(),
        Action::Notify(Notice::LoginFailed(error)) => {
            format!("Notify(LoginFailed({}))", error_text(error))
        }
        Action::Notify(Notice::LogoutCompleted) => "Notify(LogoutCompleted)".to_string(),
        Action::Notify(Notice::LogoutFailed(error)) => {
            format!("Notify(LogoutFailed({}))", error.reason)
        }
        Action::Quit => "Quit".to_string(),
    }
}

fn texts(actions: &[Action]) -> Vec<String> {
    actions.iter().map(action_text).collect()
}

fn perform(store: &mut SpaceConfig, actions: Vec<Action>) -> usize {
    let mut saves = 0;
    for action in actions {
        if let Action::Save { record, .. } = action {
            store.save(record);
            saves += 1;
        }
    }
    saves
}

fn request(method: &str, target: &str) -> Event {
    Event::Request { method: method.to_string(), target: target.to_string() }
}

fn token(access_token: &str) -> Token {
    Token {
        access_token: access_token.to_string(),
        expires_in: DurationSecs(3600),
        expires_at: Some(Timestamp { secs: 1_700_003_600, nanos: 0 }),
        refresh_token: Some("refresh".to_string()),
        scopes: ScopeSet::from_vec(vec!["user-read-recently-played".to_string()]),
    }
}

fn state_of(coordinator: &FlowCoordinator) -> Option<ListenerState> {
    coordinator.attempt().map(|attempt| attempt.listener().state())
}

fn awaiting_callback(now: u64) -> FlowCoordinator {
    let mut coordinator = FlowCoordinator::new();
    coordinator.step(Event::LoginRequested { now });
    coordinator.step(Event::ListenerBound);
    coordinator.step(Event::AuthorizationUrl("https://accounts.example/authorize".to_string()));
    coordinator
}

fn exchanging(now: u64) -> FlowCoordinator {
    let mut coordinator = awaiting_callback(now);
    coordinator.step(request("GET", "/success?code=ABC123"));
    coordinator
}

fn earlier_session() -> SpaceConfig {
    let mut store = SpaceConfig::default();
    store.save(Response::logged_in(token("earlier")).expect("a token with an access token"));
    store
}

#[test]
fn new_coordinator_is_idle() {
    let coordinator = FlowCoordinator::new();
    assert!(!coordinator.is_pending());
    assert!(coordinator.attempt().is_none());
    assert_eq!(coordinator.timeout_secs(), 120);
    assert_eq!(DEFAULT_TIMEOUT_SECS, 120);
    assert_eq!(coordinator.seconds_left(5), None);
    assert_eq!(FlowCoordinator::with_timeout(7).timeout_secs(), 7);
}

#[test]
fn login_request_starts_the_listener() {
    let mut coordinator = FlowCoordinator::new();
    let actions = coordinator.step(Event::LoginRequested { now: 1000 });
    assert_eq!(texts(&actions), vec!["StartListener(127.0.0.1:8088,/success)"]);
    assert!(coordinator.is_pending());
    let attempt = coordinator.attempt().expect("the attempt");
    assert_eq!(attempt.started_at(), 1000);
    assert_eq!(attempt.listener().state(), ListenerState::Starting);
    assert_eq!(attempt.listener().address(), "127.0.0.1:8088");
    assert_eq!(attempt.listener().path(), "/success");
}

#[test]
fn bound_listener_asks_for_the_authorization_url() {
    let mut coordinator = FlowCoordinator::new();
    coordinator.step(Event::LoginRequested { now: 1000 });
    let actions = coordinator.step(Event::ListenerBound);
    assert_eq!(texts(&actions), vec!["BuildAuthorizationUrl"]);
    assert_eq!(state_of(&coordinator), Some(ListenerState::Accepting));
    let actions = coordinator.step(Event::AuthorizationUrl("https://a.example/?x=1".to_string()));
    assert_eq!(texts(&actions), vec!["OpenBrowser(https://a.example/?x=1)"]);
    assert_eq!(state_of(&coordinator), Some(ListenerState::Accepting));
}

#[test]
fn bind_failure_ends_the_attempt() {
    let mut coordinator = FlowCoordinator::new();
    let mut store = earlier_session();
    coordinator.step(Event::LoginRequested { now: 1000 });
    let actions = coordinator.step(Event::ListenerFailed);
    assert_eq!(texts(&actions), vec!["Notify(LoginFailed(BindError))"]);
    assert_eq!(perform(&mut store, actions), 0);
    assert!(!coordinator.is_pending());
    assert_eq!(store.load().expect("the earlier record").access_token(), "earlier");
    let actions = coordinator.step(Event::LoginRequested { now: 1001 });
    assert_eq!(texts(&actions), vec!["StartListener(127.0.0.1:8088,/success)"]);
}

#[test]
fn successful_flow_saves_the_exchanged_record() {
    let mut coordinator = FlowCoordinator::new();
    let mut store = SpaceConfig::default();
    let mut saves = 0;

    let actions = coordinator.step(Event::LoginRequested { now: 1000 });
    assert_eq!(texts(&actions), vec!["StartListener(127.0.0.1:8088,/success)"]);
    saves += perform(&mut store, actions);
    let actions = coordinator.step(Event::ListenerBound);
    saves += perform(&mut store, actions);
    let actions =
        coordinator.step(Event::AuthorizationUrl("https://accounts.example/authorize".to_string()));
    saves += perform(&mut store, actions);

    let actions = coordinator.step(request("GET", "/success?code=ABC123"));
    assert_eq!(texts(&actions), vec!["Reply(Accepted)", "Exchange(ABC123)"]);
    assert_eq!(state_of(&coordinator), Some(ListenerState::Delivered));
    saves += perform(&mut store, actions);
    assert_eq!(saves, 0);
    assert!(store.load().is_none());

    let actions = coordinator.step(Event::Exchanged(Ok(token("BQD-access"))));
    assert_eq!(texts(&actions), vec!["StopListener", "Save(Login,BQD-access)"]);
    assert_eq!(state_of(&coordinator), Some(ListenerState::Stopped));
    saves += perform(&mut store, actions);
    assert_eq!(saves, 1);

    let actions =
        coordinator.step(Event::Saved { purpose: SavePurpose::Login, result: Ok(()) });
    assert_eq!(texts(&actions), vec!["Notify(LoginCompleted)"]);
    assert!(!coordinator.is_pending());

    let loaded = store.load().expect("the saved record");
    assert_eq!(loaded.access_token(), "BQD-access");
    assert_eq!(loaded.expires_in(), DurationSecs(3600));
    assert_eq!(loaded.expires_at(), Some(Timestamp { secs: 1_700_003_600, nanos: 0 }));
    assert_eq!(loaded.refresh_token(), &Some("refresh".to_string()));
    assert_eq!(loaded.scopes().to_vec(), vec!["user-read-recently-played".to_string()]);
    assert_eq!(loaded.logged(), AuthState::Yes);
    assert!(store.is_logged_in());
}

#[test]
fn callback_with_error_saves_nothing() {
    let mut coordinator = awaiting_callback(1000);
    let mut store = earlier_session();
    let actions = coordinator.step(request("GET", "/success?error=access_denied"));
    assert_eq!(
        texts(&actions),
        vec!["Reply(Accepted)", "StopListener", "Notify(LoginFailed(ProviderDenied(access_denied)))"]
    );
    assert_eq!(perform(&mut store, actions), 0);
    assert!(!coordinator.is_pending());
    assert_eq!(store.load().expect("the earlier record").access_token(), "earlier");
    let late = coordinator.step(Event::Exchanged(Ok(token("late"))));
    assert!(late.is_empty());
}

#[test]
fn callback_error_wins_over_code() {
    let mut coordinator = awaiting_callback(1000);
    let actions = coordinator.step(request("GET", "/success?code=ABC123&error=server_error"));
    assert_eq!(
        texts(&actions),
        vec!["Reply(Accepted)", "StopListener", "Notify(LoginFailed(ProviderDenied(server_error)))"]
    );
    assert!(!coordinator.is_pending());
}

#[test]
fn callback_without_code_or_error_is_a_denial() {
    let mut coordinator = awaiting_callback(1000);
    let actions = coordinator.step(request("GET", "/success?state=xyz"));
    assert_eq!(
        texts(&actions),
        vec!["Reply(Accepted)", "StopListener", "Notify(LoginFailed(ProviderDenied()))"]
    );
    assert!(!coordinator.is_pending());
}

#[test]
fn failed_exchange_saves_nothing() {
    let mut coordinator = awaiting_callback(1000);
    let mut store = earlier_session();
    let actions = coordinator.step(request("GET", "/success?code=ABC123"));
    assert_eq!(perform(&mut store, actions), 0);
    let actions = coordinator.step(Event::Exchanged(Err("invalid_grant".to_string())));
    assert_eq!(
        texts(&actions),
        vec!["StopListener", "Notify(LoginFailed(ExchangeFailed(invalid_grant)))"]
    );
    assert_eq!(perform(&mut store, actions), 0);
    assert!(!coordinator.is_pending());
    let kept = store.load().expect("the earlier record");
    assert_eq!(kept.access_token(), "earlier");
    assert_eq!(kept.logged(), AuthState::Yes);
}

#[test]
fn token_without_access_token_fails_the_exchange() {
    let mut coordinator = exchanging(1000);
    let mut store = earlier_session();
    let actions = coordinator.step(Event::Exchanged(Ok(token(""))));
    assert_eq!(
        texts(&actions),
        vec![
            "StopListener",
            "Notify(LoginFailed(ExchangeFailed(the provider returned no access token)))"
        ]
    );
    assert_eq!(perform(&mut store, actions), 0);
    assert!(!coordinator.is_pending());
    assert_eq!(store.load().expect("the earlier record").access_token(), "earlier");
}

#[test]
fn store_failure_is_reported_as_such() {
    let mut coordinator = exchanging(1000);
    coordinator.step(Event::Exchanged(Ok(token("BQD-access"))));
    let actions = coordinator.step(Event::Saved {
        purpose: SavePurpose::Login,
        result: Err(StoreError { reason: "disk full".to_string() }),
    });
    assert_eq!(texts(&actions), vec!["Notify(LoginFailed(StoreError(disk full)))"]);
    assert!(!coordinator.is_pending());
}

#[test]
fn timeout_stops_the_listener_and_saves_nothing() {
    let mut coordinator = awaiting_callback(1000);
    let mut store = earlier_session();
    assert!(coordinator.step(Event::Tick { now: 1000 }).is_empty());
    assert!(coordinator.step(Event::Tick { now: 1119 }).is_empty());
    assert_eq!(state_of(&coordinator), Some(ListenerState::Accepting));
    let actions = coordinator.step(Event::Tick { now: 1120 });
    assert_eq!(texts(&actions), vec!["StopListener", "Notify(LoginFailed(Timeout))"]);
    assert_eq!(perform(&mut store, actions), 0);
    assert!(!coordinator.is_pending());
    assert_eq!(store.load().expect("the earlier record").access_token(), "earlier");
    let actions = coordinator.step(Event::LoginRequested { now: 1120 });
    assert_eq!(texts(&actions), vec!["StartListener(127.0.0.1:8088,/success)"]);
}

#[test]
fn no_timeout_without_a_bound_listener() {
    let mut coordinator = FlowCoordinator::new();
    assert!(coordinator.step(Event::Tick { now: u64::MAX }).is_empty());
    coordinator.step(Event::LoginRequested { now: 0 });
    assert!(coordinator.step(Event::Tick { now: u64::MAX }).is_empty());
    assert_eq!(state_of(&coordinator), Some(ListenerState::Starting));
}

#[test]
fn no_timeout_during_the_exchange() {
    let mut coordinator = exchanging(1000);
    assert!(coordinator.step(Event::Tick { now: 999_999 }).is_empty());
    assert_eq!(state_of(&coordinator), Some(ListenerState::Delivered));
}

#[test]
fn clock_that_steps_back_does_not_time_out() {
    let mut coordinator = awaiting_callback(1000);
    assert!(coordinator.step(Event::Tick { now: 0 }).is_empty());
    assert_eq!(coordinator.seconds_left(0), Some(120));
    assert!(coordinator.is_pending());
}

#[test]
fn seconds_left_counts_down_to_the_timeout() {
    let coordinator = awaiting_callback(1000);
    assert_eq!(coordinator.seconds_left(1000), Some(120));
    assert_eq!(coordinator.seconds_left(1001), Some(119));
    assert_eq!(coordinator.seconds_left(1119), Some(1));
    assert_eq!(coordinator.seconds_left(1120), Some(0));
    assert_eq!(coordinator.seconds_left(u64::MAX), Some(0));
    assert_eq!(exchanging(1000).seconds_left(1001), None);
}

#[test]
fn zero_timeout_expires_at_the_first_tick() {
    let mut coordinator = FlowCoordinator::with_timeout(0);
    coordinator.step(Event::LoginRequested { now: 50 });
    coordinator.step(Event::ListenerBound);
    assert_eq!(coordinator.seconds_left(50), Some(0));
    let actions = coordinator.step(Event::Tick { now: 50 });
    assert_eq!(texts(&actions), vec!["StopListener", "Notify(LoginFailed(Timeout))"]);
}

#[test]
fn second_login_is_refused_while_one_is_pending() {
    let mut coordinator = awaiting_callback(1000);
    let actions = coordinator.step(Event::LoginRequested { now: 1010 });
    assert_eq!(texts(&actions), vec!["Notify(LoginFailed(AlreadyInProgress))"]);
    let attempt = coordinator.attempt().expect("the first attempt");
    assert_eq!(attempt.started_at(), 1000);
    assert_eq!(attempt.listener().state(), ListenerState::Accepting);
    let actions = coordinator.step(request("GET", "/success?code=ABC123"));
    assert_eq!(texts(&actions), vec!["Reply(Accepted)", "Exchange(ABC123)"]);
}

#[test]
fn second_login_is_refused_in_every_stage() {
    let mut starting = FlowCoordinator::new();
    starting.step(Event::LoginRequested { now: 1 });
    assert_eq!(
        texts(&starting.step(Event::LoginRequested { now: 2 })),
        vec!["Notify(LoginFailed(AlreadyInProgress))"]
    );
    let mut waiting = exchanging(1);
    assert_eq!(
        texts(&waiting.step(Event::LoginRequested { now: 2 })),
        vec!["Notify(LoginFailed(AlreadyInProgress))"]
    );
    waiting.step(Event::Exchanged(Ok(token("t"))));
    assert_eq!(
        texts(&waiting.step(Event::LoginRequested { now: 3 })),
        vec!["Notify(LoginFailed(AlreadyInProgress))"]
    );
    assert_eq!(state_of(&waiting), Some(ListenerState::Stopped));
}

#[test]
fn other_requests_are_acknowledged_and_ignored() {
    let mut coordinator = awaiting_callback(1000);
    for (method, target) in
        [("GET", "/favicon.ico"), ("POST", "/success?code=ABC123"), ("GET", "/other?code=ABC123")]
    {
        let actions = coordinator.step(request(method, target));
        assert_eq!(texts(&actions), vec!["Reply(Acknowledged)"]);
    }
    let attempt = coordinator.attempt().expect("the attempt");
    assert_eq!(attempt.started_at(), 1000);
    assert_eq!(attempt.listener().state(), ListenerState::Accepting);
    assert_eq!(coordinator.seconds_left(1100), Some(20));
}

#[test]
fn requests_after_the_callback_produce_no_second_callback() {
    let mut coordinator = exchanging(1000);
    let actions = coordinator.step(request("GET", "/success?code=SECOND"));
    assert_eq!(texts(&actions), vec!["Reply(Acknowledged)"]);
    let actions = coordinator.step(request("GET", "/success?error=late"));
    assert_eq!(texts(&actions), vec!["Reply(Acknowledged)"]);
    assert_eq!(state_of(&coordinator), Some(ListenerState::Delivered));
    let actions = coordinator.step(Event::Exchanged(Ok(token("BQD-access"))));
    assert_eq!(texts(&actions), vec!["StopListener", "Save(Login,BQD-access)"]);
}

#[test]
fn requests_without_an_attempt_are_acknowledged() {
    let mut coordinator = FlowCoordinator::new();
    let actions = coordinator.step(request("GET", "/success?code=ABC123"));
    assert_eq!(texts(&actions), vec!["Reply(Acknowledged)"]);
    assert!(!coordinator.is_pending());
}

#[test]
fn logout_twice_leaves_the_store_logged_out() {
    let mut coordinator = FlowCoordinator::new();
    let mut store = earlier_session();
    assert!(store.is_logged_in());

    let actions = coordinator.step(Event::LogoutRequested);
    assert_eq!(texts(&actions), vec!["Save(Logout,)"]);
    assert_eq!(perform(&mut store, actions), 1);
    assert!(!store.is_logged_in());
    assert_eq!(store.load().expect("the record").logged(), AuthState::No);
    let actions =
        coordinator.step(Event::Saved { purpose: SavePurpose::Logout, result: Ok(()) });
    assert_eq!(texts(&actions), vec!["Notify(LogoutCompleted)"]);

    let actions = coordinator.step(Event::LogoutRequested);
    assert_eq!(texts(&actions), vec!["Save(Logout,)"]);
    assert_eq!(perform(&mut store, actions), 1);
    assert!(!store.is_logged_in());
    let record = store.load().expect("the record");
    assert_eq!(record.logged(), AuthState::No);
    assert_eq!(record.access_token(), "");
    assert_eq!(record.refresh_token(), &None);
    assert_eq!(record.expires_at(), None);
    assert_eq!(record.expires_in(), DurationSecs(0));
    assert_eq!(record.scopes().len(), 0);
    let actions =
        coordinator.step(Event::Saved { purpose: SavePurpose::Logout, result: Ok(()) });
    assert_eq!(texts(&actions), vec!["Notify(LogoutCompleted)"]);
}

#[test]
fn logout_store_failure_is_passed_on() {
    let mut coordinator = FlowCoordinator::new();
    coordinator.step(Event::LogoutRequested);
    let actions = coordinator.step(Event::Saved {
        purpose: SavePurpose::Logout,
        result: Err(StoreError { reason: "read-only".to_string() }),
    });
    assert_eq!(texts(&actions), vec!["Notify(LogoutFailed(read-only))"]);
}

#[test]
fn logout_during_login_gives_the_attempt_up() {
    let mut coordinator = exchanging(1000);
    let mut store = earlier_session();
    let actions = coordinator.step(Event::LogoutRequested);
    assert_eq!(texts(&actions), vec!["StopListener", "Save(Logout,)"]);
    perform(&mut store, actions);
    assert!(!coordinator.is_pending());
    assert!(!store.is_logged_in());
    let late = coordinator.step(Event::Exchanged(Ok(token("late"))));
    assert!(late.is_empty());
    assert!(!store.is_logged_in());
}

#[test]
fn logout_after_the_listener_stopped_stops_nothing() {
    let mut coordinator = exchanging(1000);
    coordinator.step(Event::Exchanged(Ok(token("t"))));
    let actions = coordinator.step(Event::LogoutRequested);
    assert_eq!(texts(&actions), vec!["Save(Logout,)"]);
    assert!(!coordinator.is_pending());
    let late = coordinator.step(Event::Saved { purpose: SavePurpose::Login, result: Ok(()) });
    assert!(late.is_empty());
}

#[test]
fn shutdown_releases_the_listener() {
    let mut coordinator = awaiting_callback(1000);
    let actions = coordinator.step(Event::Shutdown);
    assert_eq!(texts(&actions), vec!["StopListener", "Quit"]);
    assert!(!coordinator.is_pending());
    let mut idle = FlowCoordinator::new();
    assert_eq!(texts(&idle.step(Event::Shutdown)), vec!["Quit"]);
}

#[test]
fn answers_nobody_waits_for_are_dropped() {
    let mut coordinator = FlowCoordinator::new();
    assert!(coordinator.step(Event::ListenerBound).is_empty());
    assert!(coordinator.step(Event::ListenerFailed).is_empty());
    assert!(coordinator.step(Event::AuthorizationUrl("u".to_string())).is_empty());
    assert!(coordinator.step(Event::Exchanged(Ok(token("t")))).is_empty());
    assert!(coordinator
        .step(Event::Saved { purpose: SavePurpose::Login, result: Ok(()) })
        .is_empty());
    assert!(!coordinator.is_pending());

    let mut waiting = awaiting_callback(1);
    assert!(waiting.step(Event::ListenerFailed).is_empty());
    assert!(waiting.step(Event::Exchanged(Ok(token("t")))).is_empty());
    assert_eq!(state_of(&waiting), Some(ListenerState::Accepting));
}

#[test]
fn listener_is_asked_for_once_per_attempt() {
    let mut coordinator = FlowCoordinator::new();
    let events = vec![
        Event::LoginRequested { now: 1 },
        Event::LoginRequested { now: 2 },
        Event::ListenerBound,
        Event::LoginRequested { now: 3 },
        Event::AuthorizationUrl("u".to_string()),
        request("GET", "/success?code=ABC123"),
        Event::LoginRequested { now: 4 },
        Event::Exchanged(Err("nope".to_string())),
        Event::LoginRequested { now: 5 },
        Event::LoginRequested { now: 6 },
        Event::ListenerFailed,
        Event::LoginRequested { now: 7 },
    ];
    let mut alive: i32 = 0;
    for event in events {
        let failed = matches!(event, Event::ListenerFailed)
            && state_of(&coordinator) == Some(ListenerState::Starting);
        for action in coordinator.step(event) {
            match action {
                Action::StartListener { .. } => alive += 1,
                Action::StopListener => alive -= 1,
                _ => {}
            }
        }
        if failed {
            alive -= 1;
        }
        assert!(alive == 0 || alive == 1);
    }
    assert_eq!(alive, 1);
}

#[test]
fn redirect_uri_is_the_listeners_address_and_path() {
    assert_eq!(space_symphony::flow::redirect_uri(), "http://127.0.0.1:8088/success");
}

#[test]
fn login_asks_for_one_scope() {
    let scopes = space_symphony::flow::requested_scopes();
    assert_eq!(scopes.to_vec(), vec!["user-read-recently-played".to_string()]);
}
