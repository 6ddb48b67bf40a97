//! Releasing a new version: build the release APK, upload it with its digest
//! and record the release on the server.

use vstd::prelude::*;
use crate::api::{
    api_error_message, app_path, failure_message, is_success, plain_request, ApiClient, ApiError, ApiRequest,
    HttpMethod, Payload,
};
use crate::dto::{CreateReleaseRequest, ReleaseData};
use crate::hashing::blake3_digest;
use crate::patch::{build_release, CommandLine, APK_PATH};
use crate::text::{hex_lower, push_text, string_of};
use crate::utils::{content_hash, run_command, util_error_message, UtilError};
use crate::web::{file_name_of, final_name, last_segment, portable_path, url_join};

verus! {

/// The content type release APKs are uploaded with.
pub const APK_MIME: &'static str = "application/vnd.android.package-archive";

/// Why a release failed.
#[derive(Debug)]
pub enum ReleaseError {
    /// Building the release APK failed.
    Build(UtilError),
    /// The build left no APK behind.
    ApkMissing,
    /// A request to the server failed.
    Api(ApiError),
    /// Reading a local file failed.
    Io { message: String },
}

/// Where a release run stands.
#[derive(Debug)]
pub enum ReleaseStage {
    /// Waiting for the release build.
    Building,
    /// Waiting to learn whether the build left an APK.
    Locating,
    /// Waiting for the APK's contents.
    Loading,
    /// Waiting for the upload of the APK with this digest and size.
    Uploading { file_hash: String, file_size: u64 },
    /// Waiting for the reply to recording the release.
    Creating,
    /// Waiting for the decoded release.
    Decoding,
    /// Finished.
    Done,
    /// Failed.
    Failed,
}

/// One release of one version of an app, for a platform and channel.
#[derive(Debug)]
pub struct ReleaseRun {
    pub client: ApiClient,
    pub app_id: String,
    /// The project's version, when its description gives one.
    pub release_version: Option<String>,
    pub platform: String,
    pub channel: String,
    pub stage: ReleaseStage,
}

/// What the outside step reported.
#[derive(Debug)]
pub enum ReleaseEvent {
    /// The build finished; whether it succeeded, and its captured standard error.
    Built { succeeded: bool, stderr: Vec<u8> },
    /// Whether the built APK exists.
    ApkChecked { present: bool },
    /// The APK's contents.
    Loaded { contents: Vec<u8> },
    /// The APK was uploaded under this identifier.
    Uploaded { upload_id: String },
    /// The reply to recording the release.
    Replied { status: u16, body: String },
    /// The release the server recorded.
    Released(ReleaseData),
    /// The outside step failed.
    Broken(ReleaseError),
}

/// What to do next.
#[derive(Debug)]
pub enum ReleaseAction {
    /// Run this command to build the release APK.
    Build(CommandLine),
    /// Check whether the file at `path` exists.
    CheckApk { path: String },
    /// Read the file at `path`.
    LoadApk { path: String },
    /// Upload the file at `path` with this content type and digest.
    Upload { path: String, content_type: String, file_hash: String },
    /// Send this request.
    Send(ApiRequest),
    /// Decode the reply body as the recorded release.
    DecodeRelease { body: String },
    /// Done; report `message`.
    Finish { message: String },
    /// Failed with this error.
    Fail(ReleaseError),
}

/// The message once the release is recorded.
pub open spec fn released_text(id: Seq<char>) -> Seq<char> {
    "Release created successfully (ID: "@ + id + ")"@
}

/// The message once the APK is uploaded.
pub open spec fn uploaded_text(key: Seq<char>) -> Seq<char> {
    "Upload complete (key: "@ + key + ")"@
}

/// The step a release run takes from `old` on `ev`, to the stage `next` with `act`.
pub open spec fn release_step(old: ReleaseRun, ev: ReleaseEvent, next: ReleaseStage, act: ReleaseAction) -> bool {
    match ev {
        ReleaseEvent::Broken(e) => next is Failed && act == ReleaseAction::Fail(e),
        ReleaseEvent::Built { succeeded, stderr } => if succeeded {
            next is Locating && (act matches ReleaseAction::CheckApk { path } && path@ == APK_PATH@)
        } else {
            next is Failed && act == ReleaseAction::Fail(ReleaseError::Build(UtilError::CommandFailed { stderr }))
        },
        ReleaseEvent::ApkChecked { present } => if present {
            next is Loading && (act matches ReleaseAction::LoadApk { path } && path@ == APK_PATH@)
        } else {
            next is Failed && act == ReleaseAction::Fail(ReleaseError::ApkMissing)
        },
        ReleaseEvent::Loaded { contents } =>
            (next matches ReleaseStage::Uploading { file_hash: h, file_size: n }
                && h@ == hex_lower(blake3_digest(contents@)) && n == contents@.len())
            && (act matches ReleaseAction::Upload { path, content_type, file_hash }
            && path@ == APK_PATH@ && content_type@ == APK_MIME@
            && file_hash@ == hex_lower(blake3_digest(contents@))),
        ReleaseEvent::Uploaded { upload_id } => match old.stage {
            ReleaseStage::Uploading { file_hash, file_size } =>
                match url_join(old.client.server_url@, app_path(old.app_id@, "/releases"@)) {
                    None => next is Failed && (act matches ReleaseAction::Fail(ReleaseError::Api(e)) && e is InvalidUrl),
                    Some(u) => next is Creating && (act matches ReleaseAction::Send(r)
                        && plain_request(r, HttpMethod::Post, u, old.client.token@)
                        && (r.payload matches Payload::CreateRelease(b) && b.upload_key == upload_id
                            && b.release_version == old.release_version
                            && b.platform@ == old.platform@ && b.channel@ == old.channel@
                            && b.file_hash@ == file_hash@ && b.file_name@ == APK_FILE_NAME@
                            && b.file_size == file_size && b.file_type@ == APK_MIME@)),
                },
            _ => false,
        },
        ReleaseEvent::Replied { status, body } => if is_success(status) {
            next is Decoding && (act matches ReleaseAction::DecodeRelease { body: b } && b@ == body@)
        } else {
            next is Failed && (act matches ReleaseAction::Fail(ReleaseError::Api(ApiError::Rejected { message }))
                && message@ == failure_message(status, body@, "Request failed"@))
        },
        ReleaseEvent::Released(r) => next is Done
            && (act matches ReleaseAction::Finish { message } && message@ == released_text(r.id@)),
    }
}

impl ReleaseRun {
    /// Whether the run awaits `ev` in its present stage.
    pub open spec fn awaits(&self, ev: ReleaseEvent) -> bool {
        match ev {
            ReleaseEvent::Built { .. } => self.stage is Building,
            ReleaseEvent::ApkChecked { .. } => self.stage is Locating,
            ReleaseEvent::Loaded { .. } => self.stage is Loading,
            ReleaseEvent::Uploaded { .. } => self.stage is Uploading,
            ReleaseEvent::Replied { status, .. } => self.stage is Creating && 100 <= status <= 999,
            ReleaseEvent::Released(_) => self.stage is Decoding,
            ReleaseEvent::Broken(_) => !(self.stage is Done || self.stage is Failed),
        }
    }

    /// Starts a release: the first step is to build the release APK.
    pub fn new(
        client: ApiClient,
        app_id: String,
        release_version: Option<String>,
        platform: String,
        channel: String,
    ) -> (res: (ReleaseRun, ReleaseAction))
        ensures
            res.0.client == client,
            res.0.app_id == app_id,
            res.0.release_version == release_version,
            res.0.platform == platform,
            res.0.channel == channel,
            res.0.stage is Building,
            res.1 matches ReleaseAction::Build(c) && c.program@ == "flutter"@
                && c.args.deep_view() == seq!["build"@, "apk"@, "--release"@],
    {
        (
            ReleaseRun { client, app_id, release_version, platform, channel, stage: ReleaseStage::Building },
            ReleaseAction::Build(build_release()),
        )
    }

    /// Whether the run awaits `ev` now.
    pub fn accepts(&self, ev: &ReleaseEvent) -> (res: bool)
        ensures
            res == self.awaits(*ev),
    {
        match ev {
            ReleaseEvent::Built { .. } => matches!(self.stage, ReleaseStage::Building),
            ReleaseEvent::ApkChecked { .. } => matches!(self.stage, ReleaseStage::Locating),
            ReleaseEvent::Loaded { .. } => matches!(self.stage, ReleaseStage::Loading),
            ReleaseEvent::Uploaded { .. } => matches!(self.stage, ReleaseStage::Uploading { .. }),
            ReleaseEvent::Replied { status, .. } => matches!(self.stage, ReleaseStage::Creating)
                && 100 <= *status && *status <= 999,
            ReleaseEvent::Released(_) => matches!(self.stage, ReleaseStage::Decoding),
            ReleaseEvent::Broken(_) => !(matches!(self.stage, ReleaseStage::Done)
                || matches!(self.stage, ReleaseStage::Failed)),
        }
    }

    /// Takes the step that `ev` calls for, and says what to do next.
    pub fn advance(&mut self, ev: ReleaseEvent) -> (act: ReleaseAction)
        requires
            old(self).awaits(ev),
        ensures
            release_step(*old(self), ev, final(self).stage, act),
            final(self).client == old(self).client,
            final(self).app_id == old(self).app_id,
            final(self).release_version == old(self).release_version,
            final(self).platform == old(self).platform,
            final(self).channel == old(self).channel,
    {
        let (next, act) = match ev {
            ReleaseEvent::Broken(e) => (ReleaseStage::Failed, ReleaseAction::Fail(e)),
            ReleaseEvent::Built { succeeded, stderr } => match run_command(succeeded, stderr) {
                Ok(()) => (ReleaseStage::Locating, ReleaseAction::CheckApk { path: string_of(APK_PATH) }),
                Err(e) => (ReleaseStage::Failed, ReleaseAction::Fail(ReleaseError::Build(e))),
            },
            ReleaseEvent::ApkChecked { present } => if present {
                (ReleaseStage::Loading, ReleaseAction::LoadApk { path: string_of(APK_PATH) })
            } else {
                (ReleaseStage::Failed, ReleaseAction::Fail(ReleaseError::ApkMissing))
            },
            ReleaseEvent::Loaded { contents } => {
                let file_hash = content_hash(contents.as_slice());
                let file_size = contents.len() as u64;
                (
                    ReleaseStage::Uploading { file_hash: file_hash.clone(), file_size },
                    ReleaseAction::Upload {
                        path: string_of(APK_PATH),
                        content_type: string_of(APK_MIME),
                        file_hash,
                    },
                )
            },
            ReleaseEvent::Uploaded { upload_id } => {
                let (file_hash, file_size) = match &self.stage {
                    ReleaseStage::Uploading { file_hash, file_size } => (file_hash.clone(), *file_size),
                    _ => vstd::pervasive::unreached(),
                };
                proof { lemma_apk_file_name(); }
                let file_name = match file_name_of(APK_PATH) {
                    Some(n) => n,
                    None => vstd::pervasive::unreached(),
                };
                let req = CreateReleaseRequest {
                    upload_key: upload_id,
                    release_version: clone_version(&self.release_version),
                    platform: self.platform.clone(),
                    channel: self.channel.clone(),
                    file_hash,
                    file_name,
                    file_size,
                    file_type: string_of(APK_MIME),
                };
                match self.client.create_release(self.app_id.as_str(), req) {
                    Ok(r) => (ReleaseStage::Creating, ReleaseAction::Send(r)),
                    Err(e) => (ReleaseStage::Failed, ReleaseAction::Fail(ReleaseError::Api(e))),
                }
            },
            ReleaseEvent::Replied { status, body } => match ApiClient::handle_response(status, body.as_str()) {
                Ok(()) => (ReleaseStage::Decoding, ReleaseAction::DecodeRelease { body }),
                Err(e) => (ReleaseStage::Failed, ReleaseAction::Fail(ReleaseError::Api(e))),
            },
            ReleaseEvent::Released(r) => (
                ReleaseStage::Done,
                ReleaseAction::Finish { message: released(r.id.as_str()) },
            ),
        };
        self.stage = next;
        act
    }
}

/// The file name the release APK is recorded under.
pub const APK_FILE_NAME: &'static str = "app-release.apk";

/// The release APK's path is portable, and its file name is `app-release.apk`.
pub proof fn lemma_apk_file_name()
    ensures
        portable_path(APK_PATH@),
        final_name(APK_PATH@) == Some(APK_FILE_NAME@),
{
    reveal_strlit("build/app/outputs/flutter-apk/app-release.apk");
    reveal_strlit("app-release.apk");
    reveal_with_fuel(last_segment, 17);
    let p = APK_PATH@;
    assert(last_segment(p) =~= APK_FILE_NAME@);
    assert(!p.contains('\\'));
    assert(!p.contains(':'));
}

/// A copy of an optional version.
fn clone_version(v: &Option<String>) -> (res: Option<String>)
    ensures
        res == *v,
{
    match v {
        Some(s) => Some(s.clone()),
        None => None,
    }
}

/// `Release created successfully (ID: {id})`.
pub fn released(id: &str) -> (res: String)
    ensures
        res@ == released_text(id@),
{
    let mut s = string_of("Release created successfully (ID: ");
    push_text(&mut s, id);
    push_text(&mut s, ")");
    s
}

/// `Upload complete (key: {key})`.
pub fn uploaded(key: &str) -> (res: String)
    ensures
        res@ == uploaded_text(key@),
{
    let mut s = string_of("Upload complete (key: ");
    push_text(&mut s, key);
    push_text(&mut s, ")");
    s
}

/// The message a release error reads as.
pub open spec fn release_error_message(e: ReleaseError) -> Seq<char> {
    match e {
        ReleaseError::Build(u) => util_error_message(u),
        ReleaseError::ApkMissing => "Release APK build output not found at '"@ + APK_PATH@
            + "'. Ensure 'flutter build apk --release' completed successfully."@,
        ReleaseError::Api(a) => api_error_message(a),
        ReleaseError::Io { message } => message@,
    }
}

impl ReleaseError {
    /// The text of this error.
    pub fn message(&self) -> (res: String)
        ensures
            res@ == release_error_message(*self),
    {
        match self {
            ReleaseError::Build(u) => u.message(),
            ReleaseError::ApkMissing => {
                let mut s = string_of("Release APK build output not found at '");
                push_text(&mut s, APK_PATH);
                push_text(&mut s, "'. Ensure 'flutter build apk --release' completed successfully.");
                s
            },
            ReleaseError::Api(a) => a.message(),
            ReleaseError::Io { message } => string_of(message.as_str()),
        }
    }
}

/// The release is recorded with the digest and size of the whole APK that
/// was read: reading it asks to upload it with the BLAKE3 digest of all its
/// bytes, and once the upload is done the release record carries that digest,
/// its size, the upload's key and the APK's file name.
pub proof fn lemma_release_describes_whole_apk(
    run: ReleaseRun,
    contents: Vec<u8>,
    upload_id: String,
    s1: ReleaseStage,
    a1: ReleaseAction,
    s2: ReleaseStage,
    a2: ReleaseAction,
)
    requires
        release_step(run, ReleaseEvent::Loaded { contents }, s1, a1),
        release_step(ReleaseRun { stage: s1, ..run }, ReleaseEvent::Uploaded { upload_id }, s2, a2),
    ensures
        a1 matches ReleaseAction::Upload { path, content_type, file_hash }
            && file_hash@ == hex_lower(blake3_digest(contents@)) && path@ == APK_PATH@ && content_type@ == APK_MIME@,
        s1 matches ReleaseStage::Uploading { file_hash, file_size }
            && file_hash@ == hex_lower(blake3_digest(contents@)) && file_size == contents@.len(),
        a2 matches ReleaseAction::Send(r) ==> (r.payload matches Payload::CreateRelease(b)
            && b.file_hash@ == hex_lower(blake3_digest(contents@)) && b.file_size == contents@.len()
            && b.upload_key == upload_id && b.file_name@ == APK_FILE_NAME@ && b.file_type@ == APK_MIME@
            && b.release_version == run.release_version),
{
}

/// The reply to recording the release decides it: any 2xx status goes on to
/// decode that body, any other fails with the `Request failed` message built
/// from the status and the body.
pub proof fn lemma_record_reply_decides(run: ReleaseRun, status: u16, body: String, next: ReleaseStage, act: ReleaseAction)
    requires
        release_step(run, ReleaseEvent::Replied { status, body }, next, act),
    ensures
        200 <= status && status <= 299 ==> next is Decoding
            && (act matches ReleaseAction::DecodeRelease { body: b } && b@ == body@),
        !(200 <= status && status <= 299) ==> next is Failed
            && (act matches ReleaseAction::Fail(ReleaseError::Api(ApiError::Rejected { message }))
                && message@ == failure_message(status, body@, "Request failed"@)),
{
}

} // verus!
