//! Signing in through the browser: the page to open, and the local callback
//! that receives the token.

use vstd::prelude::*;
use crate::api::{
    api_error_message, bearer_is, failure_message, is_success, plain_request, ApiClient, ApiError,
    ApiRequest, HttpMethod,
};
use crate::dto::User;
use crate::storage::{entry_of, save_token, KeyringOp, KeyringRequest};
use crate::text::{decimal, push_decimal, push_text, same_text, string_of};
use crate::ui::{banner, info, link, styled, success, tagged, Color, Line, BANNER};
use crate::web::{url_join, url_parse};

verus! {

/// What the local callback answers the browser.
pub const CALLBACK_REPLY: &'static str =
    "Success! You can safely close this browser window and return to your terminal.";

/// The address of the local callback server on `port`.
pub open spec fn local_url(port: u16) -> Seq<char> {
    "http://localhost:"@ + decimal(port as nat)
}

/// The sign-in page of `server`, told to call back on `port`.
pub open spec fn login_page(server: Seq<char>, port: u16) -> Seq<char> {
    server + "/auth/login?callbackUrl="@ + local_url(port)
}

/// The message after signing in as `name`.
pub open spec fn welcome_text(name: Seq<char>) -> Seq<char> {
    "Login successful. Loginned as "@ + name
}

/// `http://localhost:{port}`.
pub fn local_server_url(port: u16) -> (res: String)
    ensures
        res@ == local_url(port),
{
    let mut s = string_of("http://localhost:");
    push_decimal(&mut s, port as u64);
    s
}

/// `{server_url}/auth/login?callbackUrl=http://localhost:{port}`.
pub fn login_url(server_url: &str, port: u16) -> (res: String)
    ensures
        res@ == login_page(server_url@, port),
{
    let mut s = string_of(server_url);
    push_text(&mut s, "/auth/login?callbackUrl=");
    let local = local_server_url(port);
    push_text(&mut s, local.as_str());
    assert(s@ =~= login_page(server_url@, port));
    s
}

/// `Login successful. Loginned as {name}`.
pub fn welcome(name: &str) -> (res: String)
    ensures
        res@ == welcome_text(name@),
{
    let mut s = string_of("Login successful. Loginned as ");
    push_text(&mut s, name);
    s
}

/// The token the local callback received, if any: the first one delivered
/// is kept, later ones are ignored.
#[derive(Debug)]
pub struct CallbackSlot {
    pub token: Option<String>,
}

impl CallbackSlot {
    /// A slot that has received nothing.
    pub fn new() -> (res: CallbackSlot)
        ensures
            res.token is None,
    {
        CallbackSlot { token: None }
    }

    /// Receives `token` from the browser, and gives the page to answer with.
    pub fn deliver(&mut self, token: String) -> (res: &'static str)
        ensures
            old(self).token is None ==> final(self).token == Some(token),
            old(self).token is Some ==> *final(self) == *old(self),
            res@ == CALLBACK_REPLY@,
    {
        if self.token.is_none() {
            self.token = Some(token);
        }
        CALLBACK_REPLY
    }
}

/// Why signing in failed.
#[derive(Debug)]
pub enum LoginError {
    /// A request to the server failed.
    Api(ApiError),
    /// The local server, the browser or the keyring failed.
    Io { message: String },
    /// The client handed back is not one for the requested server and token.
    ClientMismatch,
}

/// The message a login error reads as.
pub open spec fn login_error_message(e: LoginError) -> Seq<char> {
    match e {
        LoginError::Api(a) => api_error_message(a),
        LoginError::Io { message } => message@,
        LoginError::ClientMismatch => "The authenticated client does not match the requested server and token"@,
    }
}

impl LoginError {
    /// The text of this error.
    pub fn message(&self) -> (res: String)
        ensures
            res@ == login_error_message(*self),
    {
        match self {
            LoginError::Api(a) => a.message(),
            LoginError::Io { message } => string_of(message.as_str()),
            LoginError::ClientMismatch => string_of(
                "The authenticated client does not match the requested server and token",
            ),
        }
    }
}

/// Where signing in stands.
#[derive(Debug)]
pub enum LoginStage {
    /// Waiting for the local callback server to listen.
    Listening,
    /// Waiting for the browser to deliver the token.
    Receiving,
    /// Waiting for a client authenticated with `token`.
    Connecting { token: String },
    /// Waiting for the reply naming the account of `token`.
    Identifying { token: String },
    /// Waiting for the decoded account of `token`.
    Decoding { token: String },
    /// Waiting for the token to be stored.
    Saving,
    /// Finished.
    Done,
    /// Failed.
    Failed,
}

/// Signing in to one server.
#[derive(Debug)]
pub struct LoginRun {
    pub server_url: String,
    pub stage: LoginStage,
}

/// What the outside step reported.
#[derive(Debug)]
pub enum LoginEvent {
    /// The local callback server listens on `port`.
    Listening { port: u16 },
    /// The browser delivered this token.
    TokenReceived(String),
    /// A client the server accepted the token of.
    Connected(ApiClient),
    /// The reply naming the signed-in account.
    Replied { status: u16, body: String },
    /// The signed-in account, decoded.
    Identified(User),
    /// The token was stored.
    Saved,
    /// The outside step failed.
    Broken(LoginError),
}

/// What to do next.
#[derive(Debug)]
pub enum LoginAction {
    /// Show `notes`, then start the local callback server.
    StartCallback { notes: Vec<Line> },
    /// Show `note`, then open `url` in the browser and wait for the token.
    OpenBrowser { url: String, note: Line },
    /// Show `notes`, then authenticate on `server_url` with `token`.
    Connect { server_url: String, token: String, notes: Vec<Line> },
    /// Send this request.
    Send(ApiRequest),
    /// Decode the reply body as the account.
    DecodeUser { body: String },
    /// Show `note`, then carry out `request` on the keyring.
    SaveToken { request: KeyringRequest, note: Line },
    /// Signed in.
    Finish,
    /// Failed with this error.
    Fail(LoginError),
}

/// The step signing in takes from `old` on `ev`, to the stage `next` with `act`.
pub open spec fn login_step(old: LoginRun, ev: LoginEvent, next: LoginStage, act: LoginAction) -> bool {
    match ev {
        LoginEvent::Broken(e) => next is Failed && act == LoginAction::Fail(e),
        LoginEvent::Listening { port } => next is Receiving && (act matches LoginAction::OpenBrowser { url, note }
            && url@ == login_page(old.server_url@, port)
            && note.segments.len() == 5 && styled(note.segments[2], "Click here to login"@, None, false, true)
            && styled(note.segments[4], url@, Some(Color::Cyan), true, false)),
        LoginEvent::TokenReceived(t) => (next matches LoginStage::Connecting { token } && token == t)
            && (act matches LoginAction::Connect { server_url, token, notes }
            && server_url@ == old.server_url@ && token == t && notes.len() == 1
            && tagged(notes[0], "[✔]"@, "Received the token"@, Color::Green)),
        LoginEvent::Connected(client) => match old.stage {
            LoginStage::Connecting { token } => if client.token@ != token@
                || url_parse(old.server_url@) != Some(client.server_url@) {
                next is Failed && act == LoginAction::Fail(LoginError::ClientMismatch)
            } else {
                match url_join(client.server_url@, "/api/whoami"@) {
                    None => next is Failed && (act matches LoginAction::Fail(LoginError::Api(e)) && e is InvalidUrl),
                    Some(u) => (next matches LoginStage::Identifying { token: t } && t == token)
                        && (act matches LoginAction::Send(r) && plain_request(r, HttpMethod::Get, u, token@)
                        && r.payload is Nothing),
                }
            },
            _ => false,
        },
        LoginEvent::Replied { status, body } => match old.stage {
            LoginStage::Identifying { token } => if is_success(status) {
                (next matches LoginStage::Decoding { token: t } && t == token)
                    && (act matches LoginAction::DecodeUser { body: b } && b@ == body@)
            } else {
                next is Failed && (act matches LoginAction::Fail(LoginError::Api(ApiError::Rejected { message }))
                    && message@ == failure_message(status, body@, "Request failed"@))
            },
            _ => false,
        },
        LoginEvent::Identified(user) => match old.stage {
            LoginStage::Decoding { token } => next is Saving && (act matches LoginAction::SaveToken { request, note }
                && entry_of(request.entry, old.server_url@)
                && (request.op matches KeyringOp::Store { secret } && secret@ == token@)
                && tagged(note, "[✔]"@, welcome_text(user.name@), Color::Green)),
            _ => false,
        },
        LoginEvent::Saved => next is Done && act is Finish,
    }
}

impl LoginRun {
    /// Whether signing in awaits `ev` in its present stage.
    pub open spec fn awaits(&self, ev: LoginEvent) -> bool {
        match ev {
            LoginEvent::Listening { .. } => self.stage is Listening,
            LoginEvent::TokenReceived(_) => self.stage is Receiving,
            LoginEvent::Connected(_) => self.stage is Connecting,
            LoginEvent::Replied { status, .. } => self.stage is Identifying && 100 <= status <= 999,
            LoginEvent::Identified(_) => self.stage is Decoding,
            LoginEvent::Saved => self.stage is Saving,
            LoginEvent::Broken(_) => !(self.stage is Done || self.stage is Failed),
        }
    }

    /// Starts signing in to `server_url`: with the given session token, or
    /// else through the browser.
    pub fn new(session: Option<String>, server_url: String) -> (res: (LoginRun, LoginAction))
        ensures
            res.0.server_url == server_url,
            match session {
                Some(t) => (res.0.stage matches LoginStage::Connecting { token } && token == t)
                    && (res.1 matches LoginAction::Connect { server_url: s, token, notes }
                    && s@ == server_url@ && token == t && notes.len() == 0),
                None => res.0.stage is Listening && (res.1 matches LoginAction::StartCallback { notes }
                    && notes.len() == 2
                    && notes[0].segments.len() == 1
                    && styled(notes[0].segments[0], BANNER@, Some(Color::Cyan), true, false)
                    && tagged(notes[1], "[➜]"@, "No session token passed, opening browser for login..."@, Color::Cyan)),
            },
    {
        match session {
            Some(token) => {
                let t2 = token.clone();
                let s2 = server_url.clone();
                (
                    LoginRun { server_url, stage: LoginStage::Connecting { token } },
                    LoginAction::Connect { server_url: s2, token: t2, notes: Vec::new() },
                )
            },
            None => {
                let mut notes: Vec<Line> = Vec::new();
                notes.push(banner());
                notes.push(info("No session token passed, opening browser for login..."));
                (LoginRun { server_url, stage: LoginStage::Listening }, LoginAction::StartCallback { notes })
            },
        }
    }

    /// Whether signing in awaits `ev` now.
    pub fn accepts(&self, ev: &LoginEvent) -> (res: bool)
        ensures
            res == self.awaits(*ev),
    {
        match ev {
            LoginEvent::Listening { .. } => matches!(self.stage, LoginStage::Listening),
            LoginEvent::TokenReceived(_) => matches!(self.stage, LoginStage::Receiving),
            LoginEvent::Connected(_) => matches!(self.stage, LoginStage::Connecting { .. }),
            LoginEvent::Replied { status, .. } => matches!(self.stage, LoginStage::Identifying { .. })
                && 100 <= *status && *status <= 999,
            LoginEvent::Identified(_) => matches!(self.stage, LoginStage::Decoding { .. }),
            LoginEvent::Saved => matches!(self.stage, LoginStage::Saving),
            LoginEvent::Broken(_) => !(matches!(self.stage, LoginStage::Done)
                || matches!(self.stage, LoginStage::Failed)),
        }
    }

    /// Takes the step that `ev` calls for, and says what to do next.
    pub fn advance(&mut self, ev: LoginEvent) -> (act: LoginAction)
        requires
            old(self).awaits(ev),
        ensures
            login_step(*old(self), ev, final(self).stage, act),
            final(self).server_url == old(self).server_url,
    {
        let mut stage = LoginStage::Failed;
        std::mem::swap(&mut stage, &mut self.stage);
        let (next, act) = match ev {
            LoginEvent::Broken(e) => (LoginStage::Failed, LoginAction::Fail(e)),
            LoginEvent::Listening { port } => {
                let url = login_url(self.server_url.as_str(), port);
                let note = link("Click here to login", url.as_str());
                (LoginStage::Receiving, LoginAction::OpenBrowser { url, note })
            },
            LoginEvent::TokenReceived(token) => {
                let mut notes: Vec<Line> = Vec::new();
                notes.push(success("Received the token"));
                let t2 = token.clone();
                (
                    LoginStage::Connecting { token },
                    LoginAction::Connect { server_url: self.server_url.clone(), token: t2, notes },
                )
            },
            LoginEvent::Connected(client) => match stage {
                LoginStage::Connecting { token } => {
                    if !same_text(client.token.as_str(), token.as_str()) || !client.serves(self.server_url.as_str()) {
                        (LoginStage::Failed, LoginAction::Fail(LoginError::ClientMismatch))
                    } else {
                        match client.whoami() {
                            Ok(r) => (LoginStage::Identifying { token }, LoginAction::Send(r)),
                            Err(e) => (LoginStage::Failed, LoginAction::Fail(LoginError::Api(e))),
                        }
                    }
                },
                _ => vstd::pervasive::unreached(),
            },
            LoginEvent::Replied { status, body } => match stage {
                LoginStage::Identifying { token } => match ApiClient::handle_response(status, body.as_str()) {
                    Ok(()) => (LoginStage::Decoding { token }, LoginAction::DecodeUser { body }),
                    Err(e) => (LoginStage::Failed, LoginAction::Fail(LoginError::Api(e))),
                },
                _ => vstd::pervasive::unreached(),
            },
            LoginEvent::Identified(user) => match stage {
                LoginStage::Decoding { token } => {
                    let msg = welcome(user.name.as_str());
                    (
                        LoginStage::Saving,
                        LoginAction::SaveToken {
                            request: save_token(self.server_url.as_str(), token.as_str()),
                            note: success(msg.as_str()),
                        },
                    )
                },
                _ => vstd::pervasive::unreached(),
            },
            LoginEvent::Saved => (LoginStage::Done, LoginAction::Finish),
        };
        self.stage = next;
        act
    }
}

/// Only the token that was checked is stored: from a run holding `token`,
/// a client for that token and server asks who is signed in with that very
/// token, and once a 2xx reply is decoded the keyring is asked to store that
/// token under the entry of the requested server.
pub proof fn lemma_stores_the_checked_token(
    run: LoginRun,
    token: String,
    client: ApiClient,
    status: u16,
    body: String,
    user: User,
    s1: LoginStage,
    a1: LoginAction,
    s2: LoginStage,
    a2: LoginAction,
    s3: LoginStage,
    a3: LoginAction,
)
    requires
        run.stage == (LoginStage::Connecting { token }),
        login_step(run, LoginEvent::Connected(client), s1, a1),
        a1 is Send,
        login_step(LoginRun { stage: s1, ..run }, LoginEvent::Replied { status, body }, s2, a2),
        200 <= status && status <= 299,
        login_step(LoginRun { stage: s2, ..run }, LoginEvent::Identified(user), s3, a3),
    ensures
        a1 matches LoginAction::Send(r) && bearer_is(r.bearer, token@),
        a3 matches LoginAction::SaveToken { request, .. } && entry_of(request.entry, run.server_url@)
            && (request.op matches KeyringOp::Store { secret } && secret@ == token@),
{
}

/// The reply naming the account decides the sign-in: any 2xx status goes on
/// to decode that body, any other fails with the `Request failed` message
/// built from the status and the body.
pub proof fn lemma_whoami_reply_decides(run: LoginRun, status: u16, body: String, next: LoginStage, act: LoginAction)
    requires
        run.stage is Identifying,
        login_step(run, LoginEvent::Replied { status, body }, next, act),
    ensures
        200 <= status && status <= 299 ==> next is Decoding
            && (act matches LoginAction::DecodeUser { body: b } && b@ == body@),
        !(200 <= status && status <= 299) ==> next is Failed
            && (act matches LoginAction::Fail(LoginError::Api(ApiError::Rejected { message }))
                && message@ == failure_message(status, body@, "Request failed"@)),
{
}

} // verus!
