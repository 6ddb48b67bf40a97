//! The Wingbird API client: the requests each operation sends, how replies
//! are judged, and the step-by-step upload of a file.

use vstd::prelude::*;
use vstd::string::*;
use crate::dto::{CreateAppRequest, CreatePatchBatchRequest, CreateReleaseRequest, UploadRequest};
use crate::text::{decimal, push_decimal, push_text, same_text, string_of};
use crate::web::{
    canonical_reason, join_url, json_field, json_string_field, parse_url, percent_encode,
    status_reason, url_encode, url_join, url_parse,
};

verus! {

/// The HTTP methods the client uses.
#[derive(Debug)]
pub enum HttpMethod {
    Get,
    Post,
    Put,
}

/// What a request carries as its body.
#[derive(Debug)]
pub enum Payload {
    /// No body.
    Nothing,
    /// The JSON document `{}`.
    EmptyObject,
    /// JSON of an app creation.
    CreateApp(CreateAppRequest),
    /// JSON of an upload request.
    Upload(UploadRequest),
    /// JSON of a release creation.
    CreateRelease(CreateReleaseRequest),
    /// JSON of a batch of patches.
    CreatePatches(CreatePatchBatchRequest),
    /// The raw contents of a file, with its content type and length headers.
    File { path: String, content_type: String, length: u64 },
}

/// One HTTP request to make.
#[derive(Debug)]
pub struct ApiRequest {
    pub method: HttpMethod,
    pub url: String,
    /// The bearer token sent in the `Authorization` header, if any.
    pub bearer: Option<String>,
    pub payload: Payload,
}

/// Why an API operation failed.
#[derive(Debug)]
pub enum ApiError {
    /// The server URL is not a URL, or an endpoint could not be resolved on it.
    InvalidUrl { message: String },
    /// No token is stored for the server.
    NoToken,
    /// The stored or given token was not accepted.
    SessionExpired,
    /// The server answered with a status outside `200..=299`.
    Rejected { message: String },
    /// The path of a file to upload has no usable file name.
    InvalidFileName,
    /// The request could not be carried out.
    Transport { message: String },
    /// A reply body was not the expected JSON.
    Decode { message: String },
}

/// The message an API error reads as.
pub open spec fn api_error_message(e: ApiError) -> Seq<char> {
    match e {
        ApiError::InvalidUrl { message } => message@,
        ApiError::NoToken => "No token found. Please login again via 'wingbird login'."@,
        ApiError::SessionExpired =>
            "Session expired or invalid. Please login again via 'wingbird login'."@,
        ApiError::Rejected { message } => message@,
        ApiError::InvalidFileName => "Invalid file name"@,
        ApiError::Transport { message } => message@,
        ApiError::Decode { message } => message@,
    }
}

impl ApiError {
    /// The text of this error.
    pub fn message(&self) -> (res: String)
        ensures
            res@ == api_error_message(*self),
    {
        match self {
            ApiError::InvalidUrl { message } => string_of(message.as_str()),
            ApiError::NoToken => string_of(
                "No token found. Please login again via 'wingbird login'.",
            ),
            ApiError::SessionExpired => string_of(
                "Session expired or invalid. Please login again via 'wingbird login'.",
            ),
            ApiError::Rejected { message } => string_of(message.as_str()),
            ApiError::InvalidFileName => string_of("Invalid file name"),
            ApiError::Transport { message } => string_of(message.as_str()),
            ApiError::Decode { message } => string_of(message.as_str()),
        }
    }
}

/// Whether an HTTP status code reports success.
pub open spec fn is_success(status: u16) -> bool {
    200 <= status <= 299
}

/// How an HTTP status code is displayed: the code and its reason phrase.
pub open spec fn status_text(status: u16) -> Seq<char> {
    decimal(status as nat) + seq![' '] + match status_reason(status) {
        Some(r) => r,
        None => "<unknown status code>"@,
    }
}

/// The message for a failed reply: the context, the status, and the body's
/// `"error"` string when it has one, else the whole body.
pub open spec fn failure_message(status: u16, body: Seq<char>, context: Seq<char>) -> Seq<char> {
    context + " ("@ + status_text(status) + "): "@ + match json_field(body, "error"@) {
        Some(e) => e,
        None => body,
    }
}

/// Whether `b` is the bearer token `t`.
pub open spec fn bearer_is(b: Option<String>, t: Seq<char>) -> bool {
    match b {
        Some(x) => x@ == t,
        None => false,
    }
}

/// The path of a resource under an app.
pub open spec fn app_path(app_id: Seq<char>, tail: Seq<char>) -> Seq<char> {
    "/api/apps/"@ + app_id + tail
}

/// The path of an action on a release, with its platform and channel.
pub open spec fn release_path(
    app_id: Seq<char>,
    version: Seq<u8>,
    action: Seq<char>,
    platform: Seq<char>,
    channel: Seq<char>,
) -> Seq<char> {
    "/api/apps/"@ + app_id + "/releases/"@ + percent_encode(version) + action + "?platform="@
        + platform + "&channel="@ + channel
}

/// Whether an HTTP status code reports success.
pub fn status_ok(status: u16) -> (res: bool)
    ensures
        res == is_success(status),
{
    200 <= status && status <= 299
}

/// The display of an HTTP status code.
pub fn status_line(status: u16) -> (res: String)
    requires
        100 <= status <= 999,
    ensures
        res@ == status_text(status),
{
    let mut s = String::new();
    push_decimal(&mut s, status as u64);
    push_text(&mut s, " ");
    match canonical_reason(status) {
        Some(r) => push_text(&mut s, r.as_str()),
        None => push_text(&mut s, "<unknown status code>"),
    }
    proof { reveal_strlit(" "); }
    assert(s@ =~= status_text(status));
    s
}

/// The message for a failed reply.
pub fn error_message(status: u16, body: &str, context: &str) -> (res: String)
    requires
        100 <= status <= 999,
    ensures
        res@ == failure_message(status, body@, context@),
{
    let mut s = string_of(context);
    push_text(&mut s, " (");
    let st = status_line(status);
    push_text(&mut s, st.as_str());
    push_text(&mut s, "): ");
    match json_string_field(body, "error") {
        Some(e) => push_text(&mut s, e.as_str()),
        None => push_text(&mut s, body),
    }
    assert(s@ =~= failure_message(status, body@, context@));
    s
}

/// Accepts a reply whose status reports success, and rejects any other with
/// its failure message.
pub fn ensure_ok(status: u16, body: &str, context: &str) -> (res: Result<(), ApiError>)
    requires
        100 <= status <= 999,
    ensures
        is_success(status) <==> res is Ok,
        res matches Err(e) ==> (e matches ApiError::Rejected { message }
            && message@ == failure_message(status, body@, context@)),
{
    if 200 <= status && status <= 299 {
        Ok(())
    } else {
        Err(ApiError::Rejected { message: error_message(status, body, context) })
    }
}

/// A client of one Wingbird server, authenticated by a token.
#[derive(Debug)]
pub struct ApiClient {
    /// The server's URL, as parsed.
    pub server_url: String,
    pub token: String,
}

/// Whether `r` is a request with this method, URL, bearer and no body.
pub open spec fn plain_request(r: ApiRequest, m: HttpMethod, url: Seq<char>, token: Seq<char>) -> bool {
    r.method == m && r.url@ == url && bearer_is(r.bearer, token)
}

impl ApiClient {
    /// A client for the server at `server_url` using `token`; the URL must parse.
    pub fn new(token: &str, server_url: &str) -> (res: Result<ApiClient, ApiError>)
        ensures
            match url_parse(server_url@) {
                None => (res matches Err(e) && e is InvalidUrl),
                Some(u) => (res matches Ok(c) && c.server_url@ == u && c.token@ == token@),
            },
    {
        match parse_url(server_url) {
            Err(message) => Err(ApiError::InvalidUrl { message }),
            Ok(u) => Ok(ApiClient { server_url: u, token: string_of(token) }),
        }
    }

    /// Whether this client talks to the server that `server_url` parses to.
    pub fn serves(&self, server_url: &str) -> (res: bool)
        ensures
            res == (url_parse(server_url@) == Some(self.server_url@)),
    {
        match parse_url(server_url) {
            Ok(u) => same_text(u.as_str(), self.server_url.as_str()),
            Err(_) => false,
        }
    }

    /// A client from the token stored for `server_url`, if one is stored.
    pub fn from_storage(server_url: &str, stored: Option<String>) -> (res: Result<ApiClient, ApiError>)
        ensures
            stored is None ==> res == Err::<ApiClient, ApiError>(ApiError::NoToken),
            stored matches Some(t) ==> match url_parse(server_url@) {
                None => (res matches Err(e) && e is InvalidUrl),
                Some(u) => (res matches Ok(c) && c.server_url@ == u && c.token@ == t@),
            },
    {
        match stored {
            None => Err(ApiError::NoToken),
            Some(t) => ApiClient::new(t.as_str(), server_url),
        }
    }

    /// Keeps the client when the server confirmed its token, and reports an
    /// expired session otherwise.
    pub fn confirm_session(self, confirmed: bool) -> (res: Result<ApiClient, ApiError>)
        ensures
            confirmed ==> res == Ok::<ApiClient, ApiError>(self),
            !confirmed ==> res == Err::<ApiClient, ApiError>(ApiError::SessionExpired),
    {
        if confirmed {
            Ok(self)
        } else {
            Err(ApiError::SessionExpired)
        }
    }

    /// The URL of `path` on this client's server.
    fn endpoint(&self, path: &str) -> (res: Result<String, ApiError>)
        ensures
            match url_join(self.server_url@, path@) {
                None => (res matches Err(e) && e is InvalidUrl),
                Some(u) => (res matches Ok(s) && s@ == u),
            },
    {
        match join_url(self.server_url.as_str(), path) {
            Err(message) => Err(ApiError::InvalidUrl { message }),
            Ok(u) => Ok(u),
        }
    }

    /// The bearer token of this client.
    fn bearer(&self) -> (res: Option<String>)
        ensures
            bearer_is(res, self.token@),
    {
        Some(string_of(self.token.as_str()))
    }

    /// `GET /api/whoami`, authenticated.
    pub fn whoami(&self) -> (res: Result<ApiRequest, ApiError>)
        ensures
            match url_join(self.server_url@, "/api/whoami"@) {
                None => (res matches Err(e) && e is InvalidUrl),
                Some(u) => (res matches Ok(r) && plain_request(r, HttpMethod::Get, u, self.token@)
                    && r.payload is Nothing),
            },
    {
        let url = self.endpoint("/api/whoami")?;
        Ok(ApiRequest { method: HttpMethod::Get, url, bearer: self.bearer(), payload: Payload::Nothing })
    }

    /// `POST /api/auth/sign-out` with an empty JSON object, authenticated.
    pub fn logout(&self) -> (res: Result<ApiRequest, ApiError>)
        ensures
            match url_join(self.server_url@, "/api/auth/sign-out"@) {
                None => (res matches Err(e) && e is InvalidUrl),
                Some(u) => (res matches Ok(r) && plain_request(r, HttpMethod::Post, u, self.token@)
                    && r.payload is EmptyObject),
            },
    {
        let url = self.endpoint("/api/auth/sign-out")?;
        Ok(ApiRequest { method: HttpMethod::Post, url, bearer: self.bearer(), payload: Payload::EmptyObject })
    }

    /// `POST /api/apps` creating an app called `name`, authenticated.
    pub fn create_app(&self, name: &str) -> (res: Result<ApiRequest, ApiError>)
        ensures
            match url_join(self.server_url@, "/api/apps"@) {
                None => (res matches Err(e) && e is InvalidUrl),
                Some(u) => (res matches Ok(r) && plain_request(r, HttpMethod::Post, u, self.token@)
                    && (r.payload matches Payload::CreateApp(b) && b.name@ == name@)),
            },
    {
        let url = self.endpoint("/api/apps")?;
        Ok(ApiRequest {
            method: HttpMethod::Post,
            url,
            bearer: self.bearer(),
            payload: Payload::CreateApp(CreateAppRequest { name: string_of(name) }),
        })
    }

    /// `POST /api/apps/{app_id}/releases` with `req`, authenticated.
    pub fn create_release(&self, app_id: &str, req: CreateReleaseRequest) -> (res: Result<ApiRequest, ApiError>)
        ensures
            match url_join(self.server_url@, app_path(app_id@, "/releases"@)) {
                None => (res matches Err(e) && e is InvalidUrl),
                Some(u) => (res matches Ok(r) && plain_request(r, HttpMethod::Post, u, self.token@)
                    && r.payload == Payload::CreateRelease(req)),
            },
    {
        let path = app_resource(app_id, "/releases");
        let url = self.endpoint(path.as_str())?;
        Ok(ApiRequest { method: HttpMethod::Post, url, bearer: self.bearer(), payload: Payload::CreateRelease(req) })
    }

    /// `GET .../releases/{version}/download?platform=..&channel=..`,
    /// authenticated; the version is percent-encoded.
    pub fn download_release(
        &self,
        app_id: &str,
        version: &str,
        platform: &str,
        channel: &str,
    ) -> (res: Result<ApiRequest, ApiError>)
        ensures
            match url_join(
                self.server_url@,
                release_path(app_id@, version.spec_bytes(), "/download"@, platform@, channel@),
            ) {
                None => (res matches Err(e) && e is InvalidUrl),
                Some(u) => (res matches Ok(r) && plain_request(r, HttpMethod::Get, u, self.token@)
                    && r.payload is Nothing),
            },
    {
        let path = release_action(app_id, version, "/download", platform, channel);
        let url = self.endpoint(path.as_str())?;
        Ok(ApiRequest { method: HttpMethod::Get, url, bearer: self.bearer(), payload: Payload::Nothing })
    }

    /// `POST .../releases/{version}/patches?platform=..&channel=..` with
    /// `req`, authenticated; the version is percent-encoded.
    pub fn create_patches(
        &self,
        app_id: &str,
        version: &str,
        platform: &str,
        channel: &str,
        req: CreatePatchBatchRequest,
    ) -> (res: Result<ApiRequest, ApiError>)
        ensures
            match url_join(
                self.server_url@,
                release_path(app_id@, version.spec_bytes(), "/patches"@, platform@, channel@),
            ) {
                None => (res matches Err(e) && e is InvalidUrl),
                Some(u) => (res matches Ok(r) && plain_request(r, HttpMethod::Post, u, self.token@)
                    && r.payload == Payload::CreatePatches(req)),
            },
    {
        let path = release_action(app_id, version, "/patches", platform, channel);
        let url = self.endpoint(path.as_str())?;
        Ok(ApiRequest { method: HttpMethod::Post, url, bearer: self.bearer(), payload: Payload::CreatePatches(req) })
    }

    /// `POST /api/apps/{app_id}/uploads` asking where to put a file,
    /// authenticated.
    pub fn request_file_upload(
        &self,
        file_name: &str,
        file_type: &str,
        file_size: u64,
        app_id: &str,
        file_hash: &str,
    ) -> (res: Result<ApiRequest, ApiError>)
        ensures
            match url_join(self.server_url@, app_path(app_id@, "/uploads"@)) {
                None => (res matches Err(e) && e is InvalidUrl),
                Some(u) => (res matches Ok(r) && plain_request(r, HttpMethod::Post, u, self.token@)
                    && (r.payload matches Payload::Upload(b) && b.file_name@ == file_name@
                        && b.file_type@ == file_type@ && b.file_size == file_size
                        && b.file_hash@ == file_hash@)),
            },
    {
        let path = app_resource(app_id, "/uploads");
        let url = self.endpoint(path.as_str())?;
        Ok(ApiRequest {
            method: HttpMethod::Post,
            url,
            bearer: self.bearer(),
            payload: Payload::Upload(UploadRequest {
                file_name: string_of(file_name),
                file_type: string_of(file_type),
                file_size,
                file_hash: string_of(file_hash),
            }),
        })
    }

    /// Judges a reply to a JSON request: accepted when its status reports
    /// success, its body then being the JSON to decode.
    pub fn handle_response(status: u16, body: &str) -> (res: Result<(), ApiError>)
        requires
            100 <= status <= 999,
        ensures
            is_success(status) <==> res is Ok,
            res matches Err(e) ==> (e matches ApiError::Rejected { message }
                && message@ == failure_message(status, body@, "Request failed"@)),
    {
        ensure_ok(status, body, "Request failed")
    }

    /// Judges the reply to a sign-out.
    pub fn logout_reply(status: u16, body: &str) -> (res: Result<(), ApiError>)
        requires
            100 <= status <= 999,
        ensures
            is_success(status) <==> res is Ok,
            res matches Err(e) ==> (e matches ApiError::Rejected { message }
                && message@ == failure_message(status, body@, "Logout failed"@)),
    {
        ensure_ok(status, body, "Logout failed")
    }

    /// Judges the reply to a release download; on success its body is the file.
    pub fn download_reply(status: u16, body: &str) -> (res: Result<(), ApiError>)
        requires
            100 <= status <= 999,
        ensures
            is_success(status) <==> res is Ok,
            res matches Err(e) ==> (e matches ApiError::Rejected { message }
                && message@ == failure_message(status, body@, "Download failed"@)),
    {
        ensure_ok(status, body, "Download failed")
    }
}

/// `/api/apps/{app_id}{tail}`.
fn app_resource(app_id: &str, tail: &str) -> (res: String)
    ensures
        res@ == app_path(app_id@, tail@),
{
    let mut s = string_of("/api/apps/");
    push_text(&mut s, app_id);
    push_text(&mut s, tail);
    assert(s@ =~= app_path(app_id@, tail@));
    s
}

/// `/api/apps/{app_id}/releases/{encoded version}{action}?platform=..&channel=..`.
fn release_action(app_id: &str, version: &str, action: &str, platform: &str, channel: &str) -> (res: String)
    ensures
        res@ == release_path(app_id@, version.spec_bytes(), action@, platform@, channel@),
{
    let mut s = string_of("/api/apps/");
    push_text(&mut s, app_id);
    push_text(&mut s, "/releases/");
    let v = url_encode(version);
    push_text(&mut s, v.as_str());
    push_text(&mut s, action);
    push_text(&mut s, "?platform=");
    push_text(&mut s, platform);
    push_text(&mut s, "&channel=");
    push_text(&mut s, channel);
    assert(s@ =~= release_path(app_id@, version.spec_bytes(), action@, platform@, channel@));
    s
}

} // verus!
