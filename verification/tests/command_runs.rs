use wingbird::api::{ApiClient, ApiError, HttpMethod, Payload};
use wingbird::config::{Config, Pubspec};
use wingbird::dto::{CreateAppResponse, User};
use wingbird::init::{InitAction, InitError, InitEvent, InitRun, InitStage};
use wingbird::login::{LoginAction, LoginError, LoginEvent, LoginRun};
use wingbird::storage::KeyringOp;
use wingbird::ui::Line;

fn text(line: &Line) -> String {
    line.segments.iter().map(|s| s.text.clone()).collect()
}

fn client() -> ApiClient {
    ApiClient::new("tok", "https://wb.dev").unwrap()
}

#[test]
fn init_when_already_configured() {
    let (mut run, first) = InitRun::new(String::from("https://wb.dev"));
    match first {
        InitAction::CheckConfig { path } => assert_eq!(path, "wingbird.yaml"),
        other => panic!("unexpected {:?}", other),
    }
    assert!(matches!(run.advance(InitEvent::ConfigChecked { present: true }), InitAction::LoadConfig { .. }));
    let c = Config::new(String::from("https://wb.dev"), String::from("id-1"), String::from("demo"));
    match run.advance(InitEvent::ConfigLoaded(c)) {
        InitAction::Finish { note } => assert_eq!(text(&note), "[➜] Already initialized: demo (id-1)"),
        other => panic!("unexpected {:?}", other),
    }
    assert!(matches!(run.stage, InitStage::Done));
}

#[test]
fn init_creates_and_saves() {
    let (mut run, _) = InitRun::new(String::from("https://wb.dev"));
    match run.advance(InitEvent::ConfigChecked { present: false }) {
        InitAction::LoadPubspec { path } => assert_eq!(path, "pubspec.yaml"),
        other => panic!("unexpected {:?}", other),
    }
    let p = Pubspec { name: String::from("demo"), version: Some(String::from("1.2.3")), description: None };
    match run.advance(InitEvent::PubspecLoaded(p)) {
        InitAction::Connect { server_url, note } => {
            assert_eq!(server_url, "https://wb.dev");
            assert_eq!(text(&note), "[➜] Found Flutter project: demo v1.2.3");
        }
        other => panic!("unexpected {:?}", other),
    }
    match run.advance(InitEvent::Connected(client())) {
        InitAction::Send(r) => {
            assert!(matches!(r.method, HttpMethod::Post));
            assert_eq!(r.url, "https://wb.dev/api/apps");
            match r.payload {
                Payload::CreateApp(b) => assert_eq!(b.name, "demo"),
                other => panic!("unexpected {:?}", other),
            }
        }
        other => panic!("unexpected {:?}", other),
    }
    assert!(matches!(run.advance(InitEvent::Replied { status: 201, body: String::from("{}") }), InitAction::DecodeApp { .. }));
    let app = CreateAppResponse { id: String::from("id-9"), name: String::from("demo") };
    match run.advance(InitEvent::Created(app)) {
        InitAction::SaveConfig { path, config, note } => {
            assert_eq!(path, "wingbird.yaml");
            assert_eq!(config.server_url, "https://wb.dev");
            assert_eq!(config.app_id, "id-9");
            assert_eq!(config.app_name, "demo");
            assert_eq!(text(&note), "[✔] App created: demo (id-9)");
        }
        other => panic!("unexpected {:?}", other),
    }
    match run.advance(InitEvent::Saved) {
        InitAction::Finish { note } => assert_eq!(text(&note), "[✔] Initialized wingbird.yaml"),
        other => panic!("unexpected {:?}", other),
    }
}

#[test]
fn init_failures() {
    let (mut run, _) = InitRun::new(String::from("https://wb.dev"));
    run.advance(InitEvent::ConfigChecked { present: false });
    run.advance(InitEvent::PubspecLoaded(Pubspec { name: String::from("d"), version: None, description: None }));
    run.advance(InitEvent::Connected(client()));
    match run.advance(InitEvent::Replied { status: 409, body: String::from(r#"{"error":"exists"}"#) }) {
        InitAction::Fail(e) => assert_eq!(e.message(), "Request failed (409 Conflict): exists"),
        other => panic!("unexpected {:?}", other),
    }
    let (mut run, _) = InitRun::new(String::from("x"));
    assert!(matches!(
        run.advance(InitEvent::Broken(InitError::Io { message: String::from("no file") })),
        InitAction::Fail(InitError::Io { .. })
    ));
    assert!(!run.accepts(&InitEvent::Saved));
}

#[test]
fn login_with_a_session_token() {
    let (mut run, first) = LoginRun::new(Some(String::from("tok")), String::from("https://wb.dev"));
    match first {
        LoginAction::Connect { server_url, token, notes } => {
            assert_eq!(server_url, "https://wb.dev");
            assert_eq!(token, "tok");
            assert!(notes.is_empty());
        }
        other => panic!("unexpected {:?}", other),
    }
    match run.advance(LoginEvent::Connected(client())) {
        LoginAction::Send(r) => assert_eq!(r.url, "https://wb.dev/api/whoami"),
        other => panic!("unexpected {:?}", other),
    }
    assert!(matches!(run.advance(LoginEvent::Replied { status: 200, body: String::from("{}") }), LoginAction::DecodeUser { .. }));
    let user = User { id: String::from("u"), name: String::from("Ann"), email: String::from("a@x"), image: None };
    match run.advance(LoginEvent::Identified(user)) {
        LoginAction::SaveToken { request, note } => {
            assert_eq!(request.entry.service, "wingbird-cli");
            assert_eq!(request.entry.user, "auth_token-https://wb.dev");
            match request.op {
                KeyringOp::Store { secret } => assert_eq!(secret, "tok"),
                other => panic!("unexpected {:?}", other),
            }
            assert_eq!(text(&note), "[✔] Login successful. Loginned as Ann");
        }
        other => panic!("unexpected {:?}", other),
    }
    assert!(matches!(run.advance(LoginEvent::Saved), LoginAction::Finish));
}

#[test]
fn login_through_the_browser() {
    let (mut run, first) = LoginRun::new(None, String::from("https://wb.dev"));
    match first {
        LoginAction::StartCallback { notes } => {
            assert_eq!(notes.len(), 2);
            assert_eq!(text(&notes[1]), "[➜] No session token passed, opening browser for login...");
        }
        other => panic!("unexpected {:?}", other),
    }
    match run.advance(LoginEvent::Listening { port: 40123 }) {
        LoginAction::OpenBrowser { url, note } => {
            assert_eq!(url, "https://wb.dev/auth/login?callbackUrl=http://localhost:40123");
            assert_eq!(text(&note), format!("[➜] Click here to login {}", url));
        }
        other => panic!("unexpected {:?}", other),
    }
    match run.advance(LoginEvent::TokenReceived(String::from("fresh"))) {
        LoginAction::Connect { token, notes, .. } => {
            assert_eq!(token, "fresh");
            assert_eq!(text(&notes[0]), "[✔] Received the token");
        }
        other => panic!("unexpected {:?}", other),
    }
    match run.advance(LoginEvent::Broken(LoginError::Api(ApiError::SessionExpired))) {
        LoginAction::Fail(e) => assert_eq!(e.message(), "Session expired or invalid. Please login again via 'wingbird login'."),
        other => panic!("unexpected {:?}", other),
    }
}

#[test]
fn login_refuses_a_client_for_another_token_or_server() {
    let (mut run, _) = LoginRun::new(Some(String::from("tok")), String::from("https://wb.dev"));
    let other_token = ApiClient::new("someone-else", "https://wb.dev").unwrap();
    match run.advance(LoginEvent::Connected(other_token)) {
        LoginAction::Fail(e @ LoginError::ClientMismatch) => assert_eq!(
            e.message(),
            "The authenticated client does not match the requested server and token"
        ),
        other => panic!("unexpected {:?}", other),
    }
    let (mut run, _) = LoginRun::new(Some(String::from("tok")), String::from("https://wb.dev"));
    let other_server = ApiClient::new("tok", "https://elsewhere.dev").unwrap();
    assert!(matches!(run.advance(LoginEvent::Connected(other_server)), LoginAction::Fail(LoginError::ClientMismatch)));
}

#[test]
fn init_refuses_a_client_for_another_server() {
    let (mut run, _) = InitRun::new(String::from("https://wb.dev"));
    run.advance(InitEvent::ConfigChecked { present: false });
    let p = Pubspec { name: String::from("demo"), version: None, description: None };
    run.advance(InitEvent::PubspecLoaded(p));
    let other_server = ApiClient::new("tok", "https://elsewhere.dev").unwrap();
    match run.advance(InitEvent::Connected(other_server)) {
        InitAction::Fail(e @ InitError::ClientMismatch) => {
            assert_eq!(e.message(), "The authenticated client does not match the requested server")
        }
        other => panic!("unexpected {:?}", other),
    }
}

#[test]
fn init_twice_sends_nothing() {
    let (mut run, _) = InitRun::new(String::from("https://wb.dev"));
    let first = run.advance(InitEvent::ConfigChecked { present: true });
    assert!(matches!(first, InitAction::LoadConfig { .. }));
    let c = Config::new(String::from("https://wb.dev"), String::from("id-1"), String::from("demo"));
    let second = run.advance(InitEvent::ConfigLoaded(c));
    assert!(matches!(second, InitAction::Finish { .. }));
    assert!(!run.accepts(&InitEvent::Saved));
    assert!(!run.accepts(&InitEvent::Broken(InitError::Io { message: String::from("x") })));
}
