//! The bodies exchanged with the Wingbird API. Their JSON forms are written
//! and read outside the verified code; here they are plain values.

use vstd::prelude::*;

verus! {

/// Body of `POST /api/apps`.
#[derive(Debug)]
pub struct CreateAppRequest {
    pub name: String,
}

/// Reply to `POST /api/apps`.
#[derive(Debug)]
pub struct CreateAppResponse {
    pub id: String,
    pub name: String,
}

/// One architecture's patch within a batch: the uploaded patch, and the
/// lower-case hexadecimal BLAKE3 digest of the `libapp.so` it produces.
#[derive(Debug)]
pub struct CreatePatchRequest {
    pub architecture: String,
    pub upload_id: String,
    pub libapp_hash: String,
}

/// Body of `POST .../releases/{version}/patches`.
#[derive(Debug)]
pub struct CreatePatchBatchRequest {
    pub patches: Vec<CreatePatchRequest>,
}

/// One patch record the server created.
#[derive(Debug)]
pub struct PatchData {
    pub id: String,
    pub release_id: String,
    pub patch_number: i32,
    pub architecture: String,
}

/// Body of `POST /api/apps/{app}/releases`: the uploaded APK and what it is
/// released as.
#[derive(Debug)]
pub struct CreateReleaseRequest {
    pub upload_key: String,
    pub release_version: Option<String>,
    pub platform: String,
    pub channel: String,
    pub file_hash: String,
    pub file_name: String,
    pub file_size: u64,
    pub file_type: String,
}

/// Reply to a release creation.
#[derive(Debug)]
pub struct ReleaseData {
    pub id: String,
    pub version: String,
    pub platform: String,
    pub channel: String,
}

/// Reply to an upload request: where to put the file, and its identifier.
#[derive(Debug)]
pub struct UploadResponse {
    pub upload_id: String,
    pub upload_url: String,
}

/// Body of `POST /api/apps/{app}/uploads`.
#[derive(Debug)]
pub struct UploadRequest {
    pub file_name: String,
    pub file_type: String,
    pub file_size: u64,
    pub file_hash: String,
}

/// The signed-in account.
#[derive(Debug)]
pub struct User {
    pub id: String,
    pub name: String,
    pub email: String,
    pub image: Option<String>,
}

/// Reply to `GET /api/whoami`.
#[derive(Debug)]
pub struct WhoamiResponse {
    pub user: User,
}

} // verus!
