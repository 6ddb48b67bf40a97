use wingbird::cli::{Channel, Cli, Command, Job, Platform};
use wingbird::config::{Config, Pubspec};
use wingbird::dto::CreateAppResponse;
use wingbird::init::{already_initialized, app_created, linked_config, project_found};
use wingbird::login::{local_server_url, login_url, welcome, CallbackSlot, CALLBACK_REPLY};
use wingbird::storage::{
    delete_token, entry, get_token, save_token, stored_token, KeyringOp, KeyringOutcome,
    SERVICE_NAME,
};
use wingbird::ui::{error, info, link, profile, step, success, wait, Color, Line, BANNER};

fn texts(line: &Line) -> Vec<String> {
    line.segments.iter().map(|s| s.text.clone()).collect()
}

#[test]
fn keyring_entries_per_server() {
    let e = entry("https://wb.dev");
    assert_eq!(e.service, "wingbird-cli");
    assert_eq!(e.user, "auth_token-https://wb.dev");
    assert_eq!(SERVICE_NAME, "wingbird-cli");
    let s = save_token("https://wb.dev", "secret");
    assert_eq!(s.entry.user, "auth_token-https://wb.dev");
    match s.op {
        KeyringOp::Store { secret } => assert_eq!(secret, "secret"),
        other => panic!("unexpected {:?}", other),
    }
    let g = get_token("https://wb.dev");
    assert_eq!(g.entry.user, s.entry.user);
    assert!(matches!(g.op, KeyringOp::Get));
    let d = delete_token("https://wb.dev");
    assert_eq!(d.entry.user, s.entry.user);
    assert!(matches!(d.op, KeyringOp::Delete));
    assert_ne!(entry("https://a.dev").user, entry("https://b.dev").user);
}

#[test]
fn stored_tokens() {
    assert_eq!(stored_token(KeyringOutcome::Found(String::from("t"))).unwrap(), Some(String::from("t")));
    assert_eq!(stored_token(KeyringOutcome::NoEntry).unwrap(), None);
    match stored_token(KeyringOutcome::Failed(String::from("locked"))) {
        Err(e) => assert_eq!(e.message, "locked"),
        Ok(v) => panic!("unexpected {:?}", v),
    }
}

#[test]
fn command_line_jobs() {
    let job = Cli { server_url: String::from("https://s"), commands: Command::Release { platform: Platform::Android, channel: Channel::Prod } }.run();
    match job {
        Job::Release { platform, channel } => {
            assert_eq!(platform, "android");
            assert_eq!(channel, "prod");
        }
        other => panic!("unexpected {:?}", other),
    }
    let job = Cli { server_url: String::from("https://s"), commands: Command::Patch { platform: Platform::Ios, channel: Channel::Stage } }.run();
    match job {
        Job::Patch { platform, channel } => {
            assert_eq!(platform, "ios");
            assert_eq!(channel, "stage");
        }
        other => panic!("unexpected {:?}", other),
    }
    match (Cli { server_url: String::from("https://s"), commands: Command::Login { session: Some(String::from("tk")) } }).run() {
        Job::Login { session, server_url } => {
            assert_eq!(session, Some(String::from("tk")));
            assert_eq!(server_url, "https://s");
        }
        other => panic!("unexpected {:?}", other),
    }
    assert!(matches!((Cli { server_url: String::from("u"), commands: Command::Logout }).run(), Job::Logout { .. }));
    assert!(matches!((Cli { server_url: String::from("u"), commands: Command::Whoami }).run(), Job::Whoami { .. }));
    match (Cli { server_url: String::from("u"), commands: Command::Init }).run() {
        Job::Init { server_url } => assert_eq!(server_url, "u"),
        other => panic!("unexpected {:?}", other),
    }
    assert_eq!(Platform::Android.to_text(), "android");
    assert_eq!(Channel::Stage.to_text(), "stage");
}

#[test]
fn tagged_lines() {
    let l = info("hello");
    assert_eq!(texts(&l), vec!["[➜]", " ", "hello"]);
    assert!(matches!(l.segments[0].color, Some(Color::Cyan)));
    assert!(l.segments[0].bold && !l.segments[2].bold);
    assert_eq!(texts(&error("bad")), vec!["[✗]", " ", "bad"]);
    assert!(matches!(error("bad").segments[2].color, Some(Color::Red)));
    assert_eq!(texts(&success("ok")), vec!["[✔]", " ", "ok"]);
    assert!(matches!(success("ok").segments[0].color, Some(Color::Green)));
    assert_eq!(texts(&wait("hold")), vec!["[⧗]", " ", "hold"]);
    assert!(matches!(wait("hold").segments[2].color, Some(Color::Yellow)));
    let s = step("done");
    assert!(s.segments[2].dimmed && s.segments[2].color.is_none());
    let l = link("Output", "build/x.apk");
    assert_eq!(texts(&l), vec!["[➜]", " ", "Output", " ", "build/x.apk"]);
    assert!(l.segments[4].bold && l.segments[2].dimmed);
}

#[test]
fn profile_lines() {
    let lines = profile("Ann", "ann@x.dev", "u-1");
    assert_eq!(lines.len(), 5);
    assert_eq!(lines[0].segments[0].text, "-".repeat(40));
    assert_eq!(texts(&lines[1]), vec!["  ", "Name:", " ", "Ann"]);
    assert_eq!(texts(&lines[2]), vec!["  ", "Email:", " ", "ann@x.dev"]);
    assert_eq!(texts(&lines[3]), vec!["  ", "ID:", " ", "u-1"]);
    assert!(lines[3].segments[3].dimmed && !lines[1].segments[3].dimmed);
    assert!(BANNER.contains("|___|"));
}

#[test]
fn init_messages_and_config() {
    let c = Config::new(String::from("https://s"), String::from("id-1"), String::from("demo"));
    assert_eq!(already_initialized(&c), "Already initialized: demo (id-1)");
    let p = Pubspec { name: String::from("demo"), version: Some(String::from("1.0.0+1")), description: None };
    assert_eq!(project_found(&p), "Found Flutter project: demo v1.0.0+1");
    let q = Pubspec { name: String::from("demo"), version: None, description: None };
    assert_eq!(project_found(&q), "Found Flutter project: demo v");
    assert_eq!(q.version_or_default(), "");
    let r = CreateAppResponse { id: String::from("id-2"), name: String::from("demo") };
    assert_eq!(app_created(&r), "App created: demo (id-2)");
    let cfg = linked_config(String::from("https://s"), r);
    assert_eq!(cfg.server_url, "https://s");
    assert_eq!(cfg.app_id, "id-2");
    assert_eq!(cfg.app_name, "demo");
}

#[test]
fn login_urls_and_callback() {
    assert_eq!(local_server_url(8080), "http://localhost:8080");
    assert_eq!(login_url("https://wb.dev", 45123), "https://wb.dev/auth/login?callbackUrl=http://localhost:45123");
    assert_eq!(welcome("Ann"), "Login successful. Loginned as Ann");
    let mut slot = CallbackSlot::new();
    assert_eq!(slot.deliver(String::from("first")), CALLBACK_REPLY);
    slot.deliver(String::from("second"));
    assert_eq!(slot.token, Some(String::from("first")));
}
