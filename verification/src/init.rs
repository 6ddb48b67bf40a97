//! Linking a Flutter project to a new app: the messages shown and the
//! configuration written.

use vstd::prelude::*;
use crate::api::{
    api_error_message, failure_message, is_success, plain_request, ApiClient, ApiError,
    ApiRequest, HttpMethod, Payload,
};
use crate::config::{version_text, Config, Pubspec, CONFIG_FILE, PUBSPEC_FILE};
use crate::dto::CreateAppResponse;
use crate::text::{push_text, string_of};
use crate::ui::{info, success, tagged, Color, Line};
use crate::web::{url_join, url_parse};

verus! {

/// The message when the project is already linked to `name` (`id`).
pub open spec fn already_text(name: Seq<char>, id: Seq<char>) -> Seq<char> {
    "Already initialized: "@ + name + " ("@ + id + ")"@
}

/// The message naming the Flutter project found.
pub open spec fn found_text(name: Seq<char>, version: Seq<char>) -> Seq<char> {
    "Found Flutter project: "@ + name + " v"@ + version
}

/// The message once the app `name` (`id`) is created.
pub open spec fn created_text(name: Seq<char>, id: Seq<char>) -> Seq<char> {
    "App created: "@ + name + " ("@ + id + ")"@
}

/// `{name} ({id})` after `prefix`.
fn name_and_id(prefix: &str, name: &str, id: &str) -> (res: String)
    ensures
        res@ == prefix@ + name@ + " ("@ + id@ + ")"@,
{
    let mut s = string_of(prefix);
    push_text(&mut s, name);
    push_text(&mut s, " (");
    push_text(&mut s, id);
    push_text(&mut s, ")");
    assert(s@ =~= prefix@ + name@ + " ("@ + id@ + ")"@);
    s
}

/// `Already initialized: {app_name} ({app_id})`.
pub fn already_initialized(config: &Config) -> (res: String)
    ensures
        res@ == already_text(config.app_name@, config.app_id@),
{
    name_and_id("Already initialized: ", config.app_name.as_str(), config.app_id.as_str())
}

/// `Found Flutter project: {name} v{version}`, the version empty when unknown.
pub fn project_found(pubspec: &Pubspec) -> (res: String)
    ensures
        res@ == found_text(pubspec.name@, version_text(*pubspec)),
{
    let mut s = string_of("Found Flutter project: ");
    push_text(&mut s, pubspec.name.as_str());
    push_text(&mut s, " v");
    let v = pubspec.version_or_default();
    push_text(&mut s, v.as_str());
    assert(s@ =~= found_text(pubspec.name@, version_text(*pubspec)));
    s
}

/// `App created: {name} ({id})`.
pub fn app_created(app: &CreateAppResponse) -> (res: String)
    ensures
        res@ == created_text(app.name@, app.id@),
{
    name_and_id("App created: ", app.name.as_str(), app.id.as_str())
}

/// The configuration that links the project to the created app on `server_url`.
pub fn linked_config(server_url: String, app: CreateAppResponse) -> (res: Config)
    ensures
        res.server_url == server_url,
        res.app_id == app.id,
        res.app_name == app.name,
{
    Config::new(server_url, app.id, app.name)
}

/// Why linking the project failed.
#[derive(Debug)]
pub enum InitError {
    /// A request to the server failed.
    Api(ApiError),
    /// Reading or writing a local file failed.
    Io { message: String },
    /// The client handed back is not one for the requested server.
    ClientMismatch,
}

/// The message an init error reads as.
pub open spec fn init_error_message(e: InitError) -> Seq<char> {
    match e {
        InitError::Api(a) => api_error_message(a),
        InitError::Io { message } => message@,
        InitError::ClientMismatch => "The authenticated client does not match the requested server"@,
    }
}

impl InitError {
    /// The text of this error.
    pub fn message(&self) -> (res: String)
        ensures
            res@ == init_error_message(*self),
    {
        match self {
            InitError::Api(a) => a.message(),
            InitError::Io { message } => string_of(message.as_str()),
            InitError::ClientMismatch => string_of("The authenticated client does not match the requested server"),
        }
    }
}

/// Where linking the project stands.
#[derive(Debug)]
pub enum InitStage {
    /// Waiting to learn whether the project is already configured.
    Checking,
    /// Waiting for the existing configuration.
    LoadingConfig,
    /// Waiting for the Flutter project description.
    LoadingPubspec,
    /// Waiting for an authenticated client, to create the app `name`.
    Connecting { name: String },
    /// Waiting for the reply to the app creation.
    Creating,
    /// Waiting for the decoded app.
    Decoding,
    /// Waiting for the configuration to be written.
    Saving,
    /// Finished.
    Done,
    /// Failed.
    Failed,
}

/// Linking the Flutter project in the working directory to a new app on a server.
#[derive(Debug)]
pub struct InitRun {
    pub server_url: String,
    pub stage: InitStage,
}

/// What the outside step reported.
#[derive(Debug)]
pub enum InitEvent {
    /// Whether the configuration file exists.
    ConfigChecked { present: bool },
    /// The existing configuration.
    ConfigLoaded(Config),
    /// The Flutter project description.
    PubspecLoaded(Pubspec),
    /// A client authenticated with the stored token.
    Connected(ApiClient),
    /// The reply to the app creation.
    Replied { status: u16, body: String },
    /// The app the server created.
    Created(CreateAppResponse),
    /// The configuration was written.
    Saved,
    /// The outside step failed.
    Broken(InitError),
}

/// What to do next.
#[derive(Debug)]
pub enum InitAction {
    /// Check whether the file at `path` exists.
    CheckConfig { path: String },
    /// Read the configuration at `path`.
    LoadConfig { path: String },
    /// Read the project description at `path`.
    LoadPubspec { path: String },
    /// Show `note`, then authenticate with the token stored for `server_url`.
    Connect { server_url: String, note: Line },
    /// Send this request.
    Send(ApiRequest),
    /// Decode the reply body as the created app.
    DecodeApp { body: String },
    /// Show `note`, then write `config` to `path`.
    SaveConfig { path: String, config: Config, note: Line },
    /// Done; show `note`.
    Finish { note: Line },
    /// Failed with this error.
    Fail(InitError),
}

/// The step linking takes from `old` on `ev`, to the stage `next` with `act`.
pub open spec fn init_step(old: InitRun, ev: InitEvent, next: InitStage, act: InitAction) -> bool {
    match ev {
        InitEvent::Broken(e) => next is Failed && act == InitAction::Fail(e),
        InitEvent::ConfigChecked { present } => if present {
            next is LoadingConfig && (act matches InitAction::LoadConfig { path } && path@ == CONFIG_FILE@)
        } else {
            next is LoadingPubspec && (act matches InitAction::LoadPubspec { path } && path@ == PUBSPEC_FILE@)
        },
        InitEvent::ConfigLoaded(c) => next is Done && (act matches InitAction::Finish { note }
            && tagged(note, "[➜]"@, already_text(c.app_name@, c.app_id@), Color::Cyan)),
        InitEvent::PubspecLoaded(p) => (next matches InitStage::Connecting { name } && name@ == p.name@)
            && (act matches InitAction::Connect { server_url, note } && server_url@ == old.server_url@
            && tagged(note, "[➜]"@, found_text(p.name@, version_text(p)), Color::Cyan)),
        InitEvent::Connected(client) => match old.stage {
            InitStage::Connecting { name } => if url_parse(old.server_url@) != Some(client.server_url@) {
                next is Failed && act == InitAction::Fail(InitError::ClientMismatch)
            } else {
                match url_join(client.server_url@, "/api/apps"@) {
                    None => next is Failed && (act matches InitAction::Fail(InitError::Api(e)) && e is InvalidUrl),
                    Some(u) => next is Creating && (act matches InitAction::Send(r)
                        && plain_request(r, HttpMethod::Post, u, client.token@)
                        && (r.payload matches Payload::CreateApp(b) && b.name@ == name@)),
                }
            },
            _ => false,
        },
        InitEvent::Replied { status, body } => if is_success(status) {
            next is Decoding && (act matches InitAction::DecodeApp { body: b } && b@ == body@)
        } else {
            next is Failed && (act matches InitAction::Fail(InitError::Api(ApiError::Rejected { message }))
                && message@ == failure_message(status, body@, "Request failed"@))
        },
        InitEvent::Created(app) => next is Saving && (act matches InitAction::SaveConfig { path, config, note }
            && path@ == CONFIG_FILE@ && config.server_url@ == old.server_url@
            && config.app_id == app.id && config.app_name == app.name
            && tagged(note, "[✔]"@, created_text(app.name@, app.id@), Color::Green)),
        InitEvent::Saved => next is Done && (act matches InitAction::Finish { note }
            && tagged(note, "[✔]"@, "Initialized wingbird.yaml"@, Color::Green)),
    }
}

impl InitRun {
    /// Whether linking awaits `ev` in its present stage.
    pub open spec fn awaits(&self, ev: InitEvent) -> bool {
        match ev {
            InitEvent::ConfigChecked { .. } => self.stage is Checking,
            InitEvent::ConfigLoaded(_) => self.stage is LoadingConfig,
            InitEvent::PubspecLoaded(_) => self.stage is LoadingPubspec,
            InitEvent::Connected(_) => self.stage is Connecting,
            InitEvent::Replied { status, .. } => self.stage is Creating && 100 <= status <= 999,
            InitEvent::Created(_) => self.stage is Decoding,
            InitEvent::Saved => self.stage is Saving,
            InitEvent::Broken(_) => !(self.stage is Done || self.stage is Failed),
        }
    }

    /// Starts linking the project to an app on `server_url`: the first step
    /// is to look for an existing configuration.
    pub fn new(server_url: String) -> (res: (InitRun, InitAction))
        ensures
            res.0.server_url == server_url,
            res.0.stage is Checking,
            res.1 matches InitAction::CheckConfig { path } && path@ == CONFIG_FILE@,
    {
        (InitRun { server_url, stage: InitStage::Checking }, InitAction::CheckConfig { path: string_of(CONFIG_FILE) })
    }

    /// Whether linking awaits `ev` now.
    pub fn accepts(&self, ev: &InitEvent) -> (res: bool)
        ensures
            res == self.awaits(*ev),
    {
        match ev {
            InitEvent::ConfigChecked { .. } => matches!(self.stage, InitStage::Checking),
            InitEvent::ConfigLoaded(_) => matches!(self.stage, InitStage::LoadingConfig),
            InitEvent::PubspecLoaded(_) => matches!(self.stage, InitStage::LoadingPubspec),
            InitEvent::Connected(_) => matches!(self.stage, InitStage::Connecting { .. }),
            InitEvent::Replied { status, .. } => matches!(self.stage, InitStage::Creating)
                && 100 <= *status && *status <= 999,
            InitEvent::Created(_) => matches!(self.stage, InitStage::Decoding),
            InitEvent::Saved => matches!(self.stage, InitStage::Saving),
            InitEvent::Broken(_) => !(matches!(self.stage, InitStage::Done)
                || matches!(self.stage, InitStage::Failed)),
        }
    }

    /// Takes the step that `ev` calls for, and says what to do next.
    pub fn advance(&mut self, ev: InitEvent) -> (act: InitAction)
        requires
            old(self).awaits(ev),
        ensures
            init_step(*old(self), ev, final(self).stage, act),
            final(self).server_url == old(self).server_url,
    {
        let mut stage = InitStage::Failed;
        std::mem::swap(&mut stage, &mut self.stage);
        let (next, act) = match ev {
            InitEvent::Broken(e) => (InitStage::Failed, InitAction::Fail(e)),
            InitEvent::ConfigChecked { present } => if present {
                (InitStage::LoadingConfig, InitAction::LoadConfig { path: string_of(CONFIG_FILE) })
            } else {
                (InitStage::LoadingPubspec, InitAction::LoadPubspec { path: string_of(PUBSPEC_FILE) })
            },
            InitEvent::ConfigLoaded(c) => {
                let msg = already_initialized(&c);
                (InitStage::Done, InitAction::Finish { note: info(msg.as_str()) })
            },
            InitEvent::PubspecLoaded(p) => {
                let msg = project_found(&p);
                (
                    InitStage::Connecting { name: p.name },
                    InitAction::Connect { server_url: self.server_url.clone(), note: info(msg.as_str()) },
                )
            },
            InitEvent::Connected(client) => match stage {
                InitStage::Connecting { name } => {
                    if !client.serves(self.server_url.as_str()) {
                        (InitStage::Failed, InitAction::Fail(InitError::ClientMismatch))
                    } else {
                        match client.create_app(name.as_str()) {
                            Ok(r) => (InitStage::Creating, InitAction::Send(r)),
                            Err(e) => (InitStage::Failed, InitAction::Fail(InitError::Api(e))),
                        }
                    }
                },
                _ => vstd::pervasive::unreached(),
            },
            InitEvent::Replied { status, body } => match ApiClient::handle_response(status, body.as_str()) {
                Ok(()) => (InitStage::Decoding, InitAction::DecodeApp { body }),
                Err(e) => (InitStage::Failed, InitAction::Fail(InitError::Api(e))),
            },
            InitEvent::Created(app) => {
                let msg = app_created(&app);
                (
                    InitStage::Saving,
                    InitAction::SaveConfig {
                        path: string_of(CONFIG_FILE),
                        config: linked_config(self.server_url.clone(), app),
                        note: success(msg.as_str()),
                    },
                )
            },
            InitEvent::Saved => (InitStage::Done, InitAction::Finish { note: success("Initialized wingbird.yaml") }),
        };
        self.stage = next;
        act
    }
}

/// Initializing a project that is already linked changes nothing: the run
/// reads the existing configuration and finishes with the already-initialized
/// line, sending no request and writing no configuration, and then awaits
/// nothing more.
pub proof fn lemma_init_already_configured(
    run: InitRun,
    c: Config,
    s1: InitStage,
    a1: InitAction,
    s2: InitStage,
    a2: InitAction,
)
    requires
        run.stage is Checking,
        init_step(run, InitEvent::ConfigChecked { present: true }, s1, a1),
        init_step(InitRun { stage: s1, ..run }, InitEvent::ConfigLoaded(c), s2, a2),
    ensures
        s1 is LoadingConfig,
        a1 matches InitAction::LoadConfig { path } && path@ == CONFIG_FILE@,
        s2 is Done,
        a2 matches InitAction::Finish { note }
            && tagged(note, "[➜]"@, already_text(c.app_name@, c.app_id@), Color::Cyan),
        !(a1 is Send) && !(a1 is SaveConfig) && !(a2 is Send) && !(a2 is SaveConfig),
        forall|ev: InitEvent| !(#[trigger] (InitRun { stage: s2, ..run }).awaits(ev)),
{
    assert forall|ev: InitEvent| !(#[trigger] (InitRun { stage: s2, ..run }).awaits(ev)) by {
        match ev {
            InitEvent::Broken(_) => {},
            _ => {},
        }
    }
}

/// The app is created under the project's name: after the project
/// description `p` is read and a client for the requested server connects,
/// the creation request names the app `p.name`, whatever else `p` holds.
pub proof fn lemma_app_named_after_project(
    run: InitRun,
    p: Pubspec,
    client: ApiClient,
    s1: InitStage,
    a1: InitAction,
    s2: InitStage,
    a2: InitAction,
)
    requires
        init_step(run, InitEvent::PubspecLoaded(p), s1, a1),
        init_step(InitRun { stage: s1, ..run }, InitEvent::Connected(client), s2, a2),
        a2 is Send,
    ensures
        s1 matches InitStage::Connecting { name } && name@ == p.name@,
        a2 matches InitAction::Send(r) && r.payload matches Payload::CreateApp(b) && b.name@ == p.name@,
{
}

/// The reply to creating the app decides it: any 2xx status goes on to
/// decode that body, any other fails with the `Request failed` message built
/// from the status and the body.
pub proof fn lemma_create_reply_decides(run: InitRun, status: u16, body: String, next: InitStage, act: InitAction)
    requires
        init_step(run, InitEvent::Replied { status, body }, next, act),
    ensures
        200 <= status && status <= 299 ==> next is Decoding
            && (act matches InitAction::DecodeApp { body: b } && b@ == body@),
        !(200 <= status && status <= 299) ==> next is Failed
            && (act matches InitAction::Fail(InitError::Api(ApiError::Rejected { message }))
                && message@ == failure_message(status, body@, "Request failed"@)),
{
}

} // verus!
