use vivoxrs::error::{AccessTokenError, VivoxError};
use vivoxrs::orchestrator::{create_connector, join_echo, login, next_step, Action, Stage};
use vivoxrs::request::Request;
use vivoxrs::session::{
    event_handler, message_handler, poll_step, response_handler, Event, LoginState, MediaState,
    Message, PollOutcome, Polled, Report, Response, ResponseKind, SessionState,
};
use vivoxrs::tokengen::TokenGenerator;
use data_encoding::BASE64URL_NOPAD;

fn connector_ok() -> Message {
    Message::Response(Response { kind: ResponseKind::ConnectorCreate, return_code: 0, status_code: 0 })
}

fn logged_in_event() -> Message {
    Message::Event(Event::LoginStateChanged { state: LoginState::LoggedIn })
}

fn claims(token: &str) -> serde_json::Value {
    let seg = token.split('.').nth(1).unwrap();
    serde_json::from_slice(&BASE64URL_NOPAD.decode(seg.as_bytes()).unwrap()).unwrap()
}

/// Runs the bootstrap decisions until they ask for a request or to wait.
fn advance(stage: &mut Stage, s: &SessionState) -> Action {
    loop {
        let (next, action) = next_step(*stage, s);
        *stage = next;
        if action != Action::Continue {
            return action;
        }
    }
}

#[test]
fn lib_sdk_initialization() {
    let s = SessionState::new();
    assert_eq!(next_step(Stage::Uninitialized, &s), (Stage::Initialized, Action::InitializeEngine));
    assert_eq!(VivoxError::SUCCESS.code(), 0);
}

#[test]
fn new_session_state_is_clear() {
    let s = SessionState::new();
    assert!(!s.connector_connected);
    assert!(!s.logged_in);
}

#[test]
fn connector_response_sets_connected() {
    let mut s = SessionState::new();
    let r = response_handler(&mut s, &Response { kind: ResponseKind::ConnectorCreate, return_code: 0, status_code: 0 });
    assert!(matches!(r, Report::ConnectorCreated));
    assert!(s.connector_connected);
}

#[test]
fn other_success_response_is_acknowledged() {
    let mut s = SessionState::new();
    let r = response_handler(&mut s, &Response { kind: ResponseKind::Other, return_code: 0, status_code: 0 });
    assert!(matches!(r, Report::Acknowledged));
    assert_eq!(s, SessionState::new());
}

#[test]
fn failed_connector_response_is_reported() {
    let mut s = SessionState::new();
    let r = message_handler(
        &mut s,
        &Message::Response(Response { kind: ResponseKind::ConnectorCreate, return_code: 1, status_code: 1004 }),
    );
    assert!(matches!(r, Report::RequestFailed { status_code: 1004 }));
    assert!(!s.connector_connected);
    let (stage, action) = next_step(Stage::ConnectorRequested, &s);
    assert_eq!(stage, Stage::ConnectorRequested);
    assert_eq!(action, Action::Wait);
}

#[test]
fn login_event_after_connector_sets_logged_in() {
    let mut s = SessionState { connector_connected: true, logged_in: false };
    let r = event_handler(&mut s, &Event::LoginStateChanged { state: LoginState::LoggedIn });
    assert!(matches!(r, Report::LoginStateChanged { state: LoginState::LoggedIn }));
    assert!(s.logged_in);
}

#[test]
fn other_login_state_is_only_reported() {
    let mut s = SessionState { connector_connected: true, logged_in: false };
    let r = event_handler(&mut s, &Event::LoginStateChanged { state: LoginState::Other });
    assert!(matches!(r, Report::LoginStateChanged { state: LoginState::Other }));
    assert!(!s.logged_in);
}

#[test]
fn login_event_sets_logged_in_whatever_the_connector() {
    let mut s = SessionState::new();
    event_handler(&mut s, &Event::LoginStateChanged { state: LoginState::LoggedIn });
    assert!(s.logged_in);
    assert!(!s.connector_connected);
}

#[test]
fn media_events_are_reported() {
    let mut s = SessionState { connector_connected: true, logged_in: true };
    let connected = Event::MediaStreamUpdated { session_handle: "echotest".to_string(), state: MediaState::Connected, status_code: 0 };
    match event_handler(&mut s, &connected) {
        Report::MediaConnected { session_handle } => assert_eq!(session_handle, "echotest"),
        other => panic!("unexpected report {:?}", other),
    }
    let clean = Event::MediaStreamUpdated { session_handle: "e".to_string(), state: MediaState::Disconnected, status_code: 0 };
    match event_handler(&mut s, &clean) {
        Report::MediaDisconnected { session_handle, status_code } => {
            assert_eq!(session_handle, "e");
            assert_eq!(status_code, 0);
        }
        other => panic!("unexpected report {:?}", other),
    }
    let failed = Event::MediaStreamUpdated { session_handle: "e".to_string(), state: MediaState::Disconnected, status_code: 1026 };
    match event_handler(&mut s, &failed) {
        Report::MediaDisconnected { status_code, .. } => assert_eq!(status_code, 1026),
        other => panic!("unexpected report {:?}", other),
    }
    let other = Event::MediaStreamUpdated { session_handle: "e".to_string(), state: MediaState::Other, status_code: 0 };
    assert!(matches!(event_handler(&mut s, &other), Report::Ignored));
    assert_eq!(s, SessionState { connector_connected: true, logged_in: true });
}

#[test]
fn unknown_messages_are_ignored() {
    let mut s = SessionState::new();
    assert!(matches!(message_handler(&mut s, &Message::Other), Report::Ignored));
    assert!(matches!(message_handler(&mut s, &Message::Event(Event::Other)), Report::Ignored));
    assert_eq!(s, SessionState::new());
}

#[test]
fn flags_never_revert() {
    let mut s = SessionState::new();
    let msgs = vec![
        connector_ok(),
        Message::Response(Response { kind: ResponseKind::ConnectorCreate, return_code: 1, status_code: 5 }),
        logged_in_event(),
        Message::Event(Event::LoginStateChanged { state: LoginState::Other }),
        Message::Response(Response { kind: ResponseKind::Other, return_code: 1, status_code: 7 }),
        Message::Other,
    ];
    let mut flips_connected = 0;
    let mut flips_logged_in = 0;
    for m in &msgs {
        let before = s;
        message_handler(&mut s, m);
        assert!(!before.connector_connected || s.connector_connected);
        assert!(!before.logged_in || s.logged_in);
        assert!(!s.logged_in || s.connector_connected);
        if !before.connector_connected && s.connector_connected { flips_connected += 1; }
        if !before.logged_in && s.logged_in { flips_logged_in += 1; }
    }
    assert_eq!(flips_connected, 1);
    assert_eq!(flips_logged_in, 1);
}

#[test]
fn poll_step_outcomes() {
    let mut s = SessionState::new();
    assert!(matches!(poll_step(&mut s, &Polled::Available(connector_ok())), PollOutcome::Handled(Report::ConnectorCreated)));
    assert!(s.connector_connected);
    assert!(matches!(poll_step(&mut s, &Polled::Failure), PollOutcome::Failed));
    assert!(matches!(poll_step(&mut s, &Polled::NoMessage), PollOutcome::Drained));
    assert!(s.connector_connected);
}

#[test]
fn bootstrap_end_to_end() {
    let mut s = SessionState::new();
    let mut g = TokenGenerator::init();
    let mut stage = Stage::Uninitialized;
    assert_eq!(advance(&mut stage, &s), Action::InitializeEngine);
    assert_eq!(advance(&mut stage, &s), Action::StartPolling);
    assert_eq!(advance(&mut stage, &s), Action::CreateConnector);
    assert!(matches!(create_connector(), Request::ConnectorCreate(_)));
    assert_eq!(advance(&mut stage, &s), Action::Wait);
    message_handler(&mut s, &connector_ok());
    assert!(s.connector_connected);
    assert_eq!(advance(&mut stage, &s), Action::Login);
    match login(&mut g, 1000).unwrap() {
        Request::AnonymousLogin(l) => assert_eq!(claims(l.access_token.as_deref().unwrap())["vxa"], "login"),
        other => panic!("unexpected request {:?}", other),
    }
    assert_eq!(advance(&mut stage, &s), Action::Wait);
    message_handler(&mut s, &logged_in_event());
    assert!(s.logged_in);
    assert_eq!(advance(&mut stage, &s), Action::JoinChannel);
    match join_echo(&mut g, 1000).unwrap() {
        Request::AddSession(a) => {
            let c = claims(a.access_token.as_deref().unwrap());
            assert_eq!(c["vxa"], "join");
            assert_eq!(c["t"], a.uri.as_deref().unwrap());
        }
        other => panic!("unexpected request {:?}", other),
    }
    let media = Message::Event(Event::MediaStreamUpdated { session_handle: "echotest".to_string(), state: MediaState::Connected, status_code: 0 });
    assert!(matches!(message_handler(&mut s, &media), Report::MediaConnected { .. }));
    assert_eq!(advance(&mut stage, &s), Action::Finished);
    assert_eq!(stage, Stage::Joined);
}

#[test]
fn bootstrap_stalls_after_failed_connector() {
    let mut s = SessionState::new();
    let mut stage = Stage::Uninitialized;
    advance(&mut stage, &s);
    advance(&mut stage, &s);
    assert_eq!(advance(&mut stage, &s), Action::CreateConnector);
    let failed = Message::Response(Response { kind: ResponseKind::ConnectorCreate, return_code: 1, status_code: 1072 });
    assert!(matches!(message_handler(&mut s, &failed), Report::RequestFailed { status_code: 1072 }));
    assert!(!s.connector_connected);
    for _ in 0..3 {
        assert_eq!(advance(&mut stage, &s), Action::Wait);
    }
    assert_eq!(stage, Stage::ConnectorRequested);
}

#[test]
fn stages_wait_for_login() {
    let s = SessionState { connector_connected: true, logged_in: false };
    assert_eq!(next_step(Stage::LoginRequested, &s), (Stage::LoginRequested, Action::Wait));
    assert_eq!(next_step(Stage::Connected, &s), (Stage::LoginRequested, Action::Login));
    assert_eq!(next_step(Stage::Joined, &s), (Stage::Joined, Action::Finished));
}

#[test]
fn status_codes() {
    assert_eq!(VivoxError::NO_MESSAGE_AVAILABLE.code(), -1);
    assert_eq!(VivoxError::ACCOUNT_MISCONFIGURED.code(), 1059);
    assert_eq!(VivoxError::FAILED_TO_CONNECT_TO_SERVER.code(), 10007);
    assert_eq!(VivoxError::XMPP_BACKEND_REQUIRED.code(), 5023);
    assert_eq!(AccessTokenError::ALREADY_USED.code(), 20120);
    assert_eq!(AccessTokenError::ISSUER_MISMATCH.code(), 20128);
    assert_eq!(AccessTokenError::SERVICE_UNAVAILABLE.code(), 20127);
}
