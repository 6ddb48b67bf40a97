//! Uploading a file: ask the server where to put it, then put it there.
//! Each step is a decision on what the previous outside step reported.

use vstd::prelude::*;
use crate::api::{
    app_path, ensure_ok, failure_message, is_success, plain_request, ApiClient,
    ApiError, ApiRequest, HttpMethod, Payload,
};
use crate::dto::UploadResponse;
use crate::text::string_of;
use crate::web::{file_name_of, final_name, portable_path, stands_in, text_of, url_join};

verus! {

/// Where an upload stands.
#[derive(Debug)]
pub enum UploadStage {
    /// Waiting for the file's size.
    Opening,
    /// Waiting for the reply to the upload request.
    Requesting { file_size: u64 },
    /// Waiting for the decoded reply that grants the upload.
    Decoding { file_size: u64 },
    /// Waiting for the reply to putting the file.
    Sending { upload_id: String, upload_url: String },
    /// The file is stored under this identifier and URL.
    Finished { upload_id: String, upload_url: String },
    /// The upload failed.
    Failed,
}

/// An upload of one file for one app.
#[derive(Debug)]
pub struct UploadFlow {
    pub client: ApiClient,
    pub file_path: String,
    pub file_type: String,
    pub app_id: String,
    pub file_hash: String,
    pub stage: UploadStage,
}

/// What the outside step reported.
#[derive(Debug)]
pub enum UploadEvent {
    /// The file was opened; its size in bytes.
    Opened { size: u64 },
    /// A reply arrived.
    Replied { status: u16, body: String },
    /// The reply granting the upload, decoded.
    Granted(UploadResponse),
    /// The outside step failed.
    Broken(ApiError),
}

/// What to do next.
#[derive(Debug)]
pub enum UploadAction {
    /// Open the file and report its size.
    OpenFile { path: String },
    /// Send this request and report the reply.
    Send(ApiRequest),
    /// Decode this body as the grant of the upload.
    DecodeGrant { body: String },
    /// The upload is complete.
    Complete { upload_id: String, upload_url: String },
    /// The upload failed with this error.
    Fail(ApiError),
}

/// Whether `n` can be the final component of `path`: a non-empty run of
/// `path` that holds no `/`.
pub open spec fn name_in_path(n: Seq<char>, path: Seq<char>) -> bool {
    n.len() > 0 && !n.contains('/') && stands_in(n, path)
}


/// The step from `old` to `new` with `act` that asks where to upload the
/// file, named `name` (`None` when its path has no file name) and `size` bytes long.
pub open spec fn request_step(old: UploadFlow, name: Option<Seq<char>>, size: u64, new: UploadFlow, act: UploadAction) -> bool {
    match name {
        None => new.stage is Failed && act == UploadAction::Fail(ApiError::InvalidFileName),
        Some(n) => match url_join(old.client.server_url@, app_path(old.app_id@, "/uploads"@)) {
            None => new.stage is Failed && (act matches UploadAction::Fail(e) && e is InvalidUrl),
            Some(u) => new.stage == UploadStage::Requesting { file_size: size }
                && (act matches UploadAction::Send(r)
                    && plain_request(r, HttpMethod::Post, u, old.client.token@)
                    && (r.payload matches Payload::Upload(b) && b.file_name@ == n
                        && b.file_type@ == old.file_type@ && b.file_size == size
                        && b.file_hash@ == old.file_hash@)),
        },
    }
}

/// The step an upload takes from `old` on `ev`, to `new` with `act`.
pub open spec fn upload_step(old: UploadFlow, ev: UploadEvent, new: UploadFlow, act: UploadAction) -> bool {
    match ev {
        UploadEvent::Broken(e) => new.stage is Failed && act == UploadAction::Fail(e),
        UploadEvent::Opened { size } => if portable_path(old.file_path@) {
            request_step(old, final_name(old.file_path@), size, new, act)
        } else {
            request_step(old, None, size, new, act)
                || exists|n: Seq<char>| #[trigger] name_in_path(n, old.file_path@)
                    && request_step(old, Some(n), size, new, act)
        },
        UploadEvent::Replied { status, body } => match old.stage {
            UploadStage::Requesting { file_size } => if is_success(status) {
                new.stage == UploadStage::Decoding { file_size }
                    && (act matches UploadAction::DecodeGrant { body: b } && b@ == body@)
            } else {
                new.stage is Failed && (act matches UploadAction::Fail(ApiError::Rejected { message })
                    && message@ == failure_message(status, body@, "Request failed"@))
            },
            UploadStage::Sending { upload_id, upload_url } => if is_success(status) {
                (new.stage matches UploadStage::Finished { upload_id: i, upload_url: l }
                    && i@ == upload_id@ && l@ == upload_url@)
                    && (act matches UploadAction::Complete { upload_id: i, upload_url: l }
                    && i@ == upload_id@ && l@ == upload_url@)
            } else {
                new.stage is Failed && (act matches UploadAction::Fail(ApiError::Rejected { message })
                    && message@ == failure_message(status, body@, "Upload failed"@))
            },
            _ => false,
        },
        UploadEvent::Granted(g) => match old.stage {
            UploadStage::Decoding { file_size } =>
                (new.stage matches UploadStage::Sending { upload_id, upload_url }
                    && upload_id@ == g.upload_id@ && upload_url@ == g.upload_url@)
                && (act matches UploadAction::Send(r) && r.method == HttpMethod::Put
                    && r.url@ == g.upload_url@ && r.bearer is None
                    && (r.payload matches Payload::File { path, content_type, length }
                        && path@ == old.file_path@ && content_type@ == old.file_type@
                        && length == file_size)),
            _ => false,
        },
    }
}

impl ApiClient {
    /// Starts uploading the file at `file_path` for app `app_id`: the first
    /// step is to open the file.
    pub fn upload_file(&self, file_path: &str, file_type: &str, app_id: &str, file_hash: &str) -> (res: (UploadFlow, UploadAction))
        ensures
            res.0.client == *self,
            res.0.file_path@ == file_path@,
            res.0.file_type@ == file_type@,
            res.0.app_id@ == app_id@,
            res.0.file_hash@ == file_hash@,
            res.0.stage is Opening,
            res.1 matches UploadAction::OpenFile { path } && path@ == file_path@,
    {
        let client = ApiClient { server_url: self.server_url.clone(), token: self.token.clone() };
        (
            UploadFlow {
                client,
                file_path: string_of(file_path),
                file_type: string_of(file_type),
                app_id: string_of(app_id),
                file_hash: string_of(file_hash),
                stage: UploadStage::Opening,
            },
            UploadAction::OpenFile { path: string_of(file_path) },
        )
    }
}

impl UploadFlow {
    /// Whether this upload awaits `ev` in its present stage.
    pub open spec fn awaits(&self, ev: UploadEvent) -> bool {
        match ev {
            UploadEvent::Opened { .. } => self.stage is Opening,
            UploadEvent::Replied { status, .. } => (self.stage is Requesting || self.stage is Sending)
                && 100 <= status <= 999,
            UploadEvent::Granted(_) => self.stage is Decoding,
            UploadEvent::Broken(_) => !(self.stage is Finished || self.stage is Failed),
        }
    }

    /// Whether this upload awaits `ev` now.
    pub fn accepts(&self, ev: &UploadEvent) -> (res: bool)
        ensures
            res == self.awaits(*ev),
    {
        match ev {
            UploadEvent::Opened { .. } => matches!(self.stage, UploadStage::Opening),
            UploadEvent::Replied { status, .. } => (matches!(self.stage, UploadStage::Requesting { .. })
                || matches!(self.stage, UploadStage::Sending { .. })) && 100 <= *status && *status <= 999,
            UploadEvent::Granted(_) => matches!(self.stage, UploadStage::Decoding { .. }),
            UploadEvent::Broken(_) => !(matches!(self.stage, UploadStage::Finished { .. })
                || matches!(self.stage, UploadStage::Failed)),
        }
    }

    /// Asks where to upload the file, given its name (`None` when its path
    /// has none) and its size.
    pub fn request_upload(&mut self, file_name: Option<String>, size: u64) -> (act: UploadAction)
        ensures
            request_step(*old(self), text_of(file_name), size, *final(self), act),
            final(self).client == old(self).client,
            final(self).file_path == old(self).file_path,
            final(self).file_type == old(self).file_type,
            final(self).app_id == old(self).app_id,
            final(self).file_hash == old(self).file_hash,
    {
        let name = match file_name {
            Some(n) => n,
            None => {
                self.stage = UploadStage::Failed;
                return UploadAction::Fail(ApiError::InvalidFileName);
            },
        };
        match self.client.request_file_upload(
            name.as_str(),
            self.file_type.as_str(),
            size,
            self.app_id.as_str(),
            self.file_hash.as_str(),
        ) {
            Ok(r) => {
                self.stage = UploadStage::Requesting { file_size: size };
                UploadAction::Send(r)
            },
            Err(e) => {
                self.stage = UploadStage::Failed;
                UploadAction::Fail(e)
            },
        }
    }

    /// Takes the step that `ev` calls for, and says what to do next.
    pub fn advance(&mut self, ev: UploadEvent) -> (act: UploadAction)
        requires
            old(self).awaits(ev),
        ensures
            upload_step(*old(self), ev, *final(self), act),
            final(self).client == old(self).client,
            final(self).file_path == old(self).file_path,
            final(self).file_type == old(self).file_type,
            final(self).app_id == old(self).app_id,
            final(self).file_hash == old(self).file_hash,
    {
        match ev {
            UploadEvent::Broken(e) => {
                self.stage = UploadStage::Failed;
                UploadAction::Fail(e)
            },
            UploadEvent::Opened { size } => {
                let name = file_name_of(self.file_path.as_str());
                let ghost n = text_of(name);
                let act = self.request_upload(name, size);
                assert(n matches Some(t) ==> name_in_path(t, self.file_path@));
                act
            },
            UploadEvent::Replied { status, body } => {
                let (next, act) = match &self.stage {
                    UploadStage::Requesting { file_size } => {
                        match ensure_ok(status, body.as_str(), "Request failed") {
                            Ok(()) => (
                                UploadStage::Decoding { file_size: *file_size },
                                UploadAction::DecodeGrant { body },
                            ),
                            Err(e) => (UploadStage::Failed, UploadAction::Fail(e)),
                        }
                    },
                    UploadStage::Sending { upload_id, upload_url } => {
                        match ensure_ok(status, body.as_str(), "Upload failed") {
                            Ok(()) => (
                                UploadStage::Finished {
                                    upload_id: upload_id.clone(),
                                    upload_url: upload_url.clone(),
                                },
                                UploadAction::Complete {
                                    upload_id: upload_id.clone(),
                                    upload_url: upload_url.clone(),
                                },
                            ),
                            Err(e) => (UploadStage::Failed, UploadAction::Fail(e)),
                        }
                    },
                    _ => vstd::pervasive::unreached(),
                };
                self.stage = next;
                act
            },
            UploadEvent::Granted(g) => {
                let size = match &self.stage {
                    UploadStage::Decoding { file_size } => *file_size,
                    _ => vstd::pervasive::unreached(),
                };
                let req = ApiRequest {
                    method: HttpMethod::Put,
                    url: g.upload_url.clone(),
                    bearer: None,
                    payload: Payload::File {
                        path: self.file_path.clone(),
                        content_type: self.file_type.clone(),
                        length: size,
                    },
                };
                self.stage = UploadStage::Sending { upload_id: g.upload_id, upload_url: g.upload_url };
                UploadAction::Send(req)
            },
        }
    }
}

/// The reply to putting the file decides the upload: any 2xx status
/// completes it with the granted identifier and URL, any other fails it with
/// the `Upload failed` message built from the status and the body.
pub proof fn lemma_put_reply_decides(old: UploadFlow, status: u16, body: String, new: UploadFlow, act: UploadAction)
    requires
        old.stage is Sending,
        upload_step(old, UploadEvent::Replied { status, body }, new, act),
    ensures
        match old.stage {
            UploadStage::Sending { upload_id, upload_url } => if 200 <= status && status <= 299 {
                &&& new.stage matches UploadStage::Finished { upload_id: i, upload_url: l }
                    && i@ == upload_id@ && l@ == upload_url@
                &&& act matches UploadAction::Complete { upload_id: i, upload_url: l }
                    && i@ == upload_id@ && l@ == upload_url@
            } else {
                &&& new.stage is Failed
                &&& act matches UploadAction::Fail(ApiError::Rejected { message })
                    && message@ == failure_message(status, body@, "Upload failed"@)
            },
            _ => false,
        },
{
}

/// The reply to the upload request decides it: any 2xx status goes on to
/// decode the grant from that body, any other fails with the
/// `Request failed` message built from the status and the body.
pub proof fn lemma_request_reply_decides(old: UploadFlow, status: u16, body: String, new: UploadFlow, act: UploadAction)
    requires
        old.stage is Requesting,
        upload_step(old, UploadEvent::Replied { status, body }, new, act),
    ensures
        match old.stage {
            UploadStage::Requesting { file_size } => if 200 <= status && status <= 299 {
                &&& new.stage matches UploadStage::Decoding { file_size: n } && n == file_size
                &&& act matches UploadAction::DecodeGrant { body: b } && b@ == body@
            } else {
                &&& new.stage is Failed
                &&& act matches UploadAction::Fail(ApiError::Rejected { message })
                    && message@ == failure_message(status, body@, "Request failed"@)
            },
            _ => false,
        },
{
}

/// Once the upload is granted, the file is put at the granted URL, without
/// the account's token, as the file at the flow's path with its content type
/// and the size reported when it was opened.
pub proof fn lemma_grant_puts_the_file(old: UploadFlow, g: UploadResponse, new: UploadFlow, act: UploadAction)
    requires
        old.stage is Decoding,
        upload_step(old, UploadEvent::Granted(g), new, act),
    ensures
        match old.stage {
            UploadStage::Decoding { file_size } => {
                &&& act matches UploadAction::Send(r) && r.method == HttpMethod::Put && r.url@ == g.upload_url@
                    && r.bearer is None
                    && (r.payload matches Payload::File { path, content_type, length }
                        && path@ == old.file_path@ && content_type@ == old.file_type@ && length == file_size)
                &&& new.stage matches UploadStage::Sending { upload_id, upload_url }
                    && upload_id@ == g.upload_id@ && upload_url@ == g.upload_url@
            },
            _ => false,
        },
{
}

} // verus!
