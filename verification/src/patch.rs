//! Creating patches for the latest release: build the new APK, fetch the
//! released one, diff the `libapp.so` of every architecture both ship and the
//! tool supports, upload each diff and record them on the server.

use vstd::prelude::*;
use vstd::utf8::encode_utf8;
use crate::api::{
    api_error_message, failure_message, is_success, plain_request, release_path, ApiClient, ApiError, ApiRequest,
    HttpMethod, Payload,
};
use crate::archive::{archive_names, zip_contents, zip_finds, zip_names, zip_opens};
use crate::delta::{bsdiff, bspatch, bsdiff_patch, bspatch_output, header_overflows};
use crate::dto::{CreatePatchBatchRequest, CreatePatchRequest};
use crate::hashing::blake3_digest;
use crate::text::{decimal, hex_lower, push_decimal, push_text, same_text, string_of};
use crate::utils::{
    architectures, architectures_in, content_hash, detect_architectures,
    lemma_architectures_distinct, extract_libapp_so, libapp_entry,
    run_command, util_error_message, UtilError,
};
use crate::web::url_join;

verus! {

/// Where `flutter build apk --release` leaves the APK.
pub const APK_PATH: &'static str = "build/app/outputs/flutter-apk/app-release.apk";

/// The content type patches are uploaded with.
pub const PATCH_MIME: &'static str = "application/octet-stream";

/// The working directory for downloaded and generated files.
pub const WORK_DIR: &'static str = ".wingbird";

/// The architectures patches are made for.
pub open spec fn supported_architecture(arch: Seq<char>) -> bool {
    arch == "arm64-v8a"@ || arch == "armeabi-v7a"@ || arch == "x86_64"@
}

/// The architectures of `base`, in its order, that are supported and that
/// `new` has too.
pub open spec fn common_architectures(base: Seq<Seq<char>>, new: Seq<Seq<char>>) -> Seq<Seq<char>>
    decreases base.len(),
{
    if base.len() == 0 {
        Seq::empty()
    } else {
        let rest = common_architectures(base.drop_last(), new);
        let a = base.last();
        if supported_architecture(a) && new.contains(a) {
            rest.push(a)
        } else {
            rest
        }
    }
}

/// Where the released APK of `platform` and `version` is downloaded to.
pub open spec fn base_apk_path(platform: Seq<char>, version: Seq<char>) -> Seq<char> {
    ".wingbird/base_"@ + platform + "_"@ + version + ".apk"@
}

/// Where the patch of `arch` for `version` is written before its upload.
pub open spec fn patch_file_path(arch: Seq<char>, version: Seq<char>) -> Seq<char> {
    ".wingbird/patch_"@ + arch + "_"@ + version + ".patch"@
}

/// The `libapp.so` of `arch` in the APK `apk`, when it can be read.
pub open spec fn libapp_of(apk: Seq<u8>, arch: Seq<char>) -> Option<Seq<u8>> {
    if zip_opens(apk) && zip_finds(apk, libapp_entry(arch)) {
        zip_contents(apk, libapp_entry(arch))
    } else {
        None
    }
}

/// Whether `e` is how extracting the `libapp.so` of `arch` from `apk` fails.
pub open spec fn extraction_fails_with(apk: Seq<u8>, arch: Seq<char>, e: UtilError) -> bool {
    if !zip_opens(apk) {
        e is ArchiveUnreadable
    } else if !zip_finds(apk, libapp_entry(arch)) {
        e matches UtilError::LibappMissing { arch: a } && a@ == arch
    } else {
        zip_contents(apk, libapp_entry(arch)) is None && e is ArchiveCorrupt
    }
}

/// Whether `e` is the error of a patch of `arch` from `base` to `new` that
/// cannot be made: the first extraction that fails, else a released library
/// too large to index, else the delta compressor's failure.
pub open spec fn patch_fails_with(base: Seq<u8>, new: Seq<u8>, arch: Seq<char>, e: PatchError) -> bool {
    match libapp_of(base, arch) {
        None => e matches PatchError::Inspect(u) && extraction_fails_with(base, arch, u),
        Some(b) => match libapp_of(new, arch) {
            None => e matches PatchError::Inspect(u) && extraction_fails_with(new, arch, u),
            Some(n) => if b.len() > i32::MAX {
                e is LibraryTooLarge
            } else {
                bsdiff_patch(b, n) is None && e is DiffFailed
            },
        },
    }
}

/// Whether a patch of `arch` can be made from `base` to `new`: both ship a
/// readable `libapp.so`, the released one is small enough to index, and the
/// delta compressor succeeds.
pub open spec fn patch_possible(base: Seq<u8>, new: Seq<u8>, arch: Seq<char>) -> bool {
    match (libapp_of(base, arch), libapp_of(new, arch)) {
        (Some(b), Some(n)) => b.len() <= i32::MAX && bsdiff_patch(b, n) is Some,
        _ => false,
    }
}

/// Whether `a` is the patch of `arch` from `base` to `new` for `version`:
/// the delta of the two `libapp.so`, which turns the released one into the
/// new one, with the digests of the patch and of the new library.
pub open spec fn artifact_is(a: PatchArtifact, base: Seq<u8>, new: Seq<u8>, arch: Seq<char>, version: Seq<char>) -> bool {
    let p = bsdiff_patch(libapp_of(base, arch).unwrap(), libapp_of(new, arch).unwrap()).unwrap();
    &&& a.architecture@ == arch
    &&& a.path@ == patch_file_path(arch, version)
    &&& a.contents@ == p
    &&& bspatch_output(libapp_of(base, arch).unwrap(), p) == libapp_of(new, arch)
    &&& a.file_hash@ == hex_lower(blake3_digest(p))
    &&& a.libapp_hash@ == hex_lower(blake3_digest(libapp_of(new, arch).unwrap()))
}

/// Why making patches failed.
#[derive(Debug)]
pub enum PatchError {
    /// Building the release APK failed.
    Build(UtilError),
    /// The build left no APK behind.
    ApkMissing,
    /// A request to the server failed.
    Api(ApiError),
    /// An APK could not be inspected.
    Inspect(UtilError),
    /// The two APKs share no supported architecture.
    NoCommonArchitectures,
    /// The delta compressor failed; its error.
    DiffFailed { message: String },
    /// A patch could not be applied; the patcher's error.
    ApplyFailed { message: String },
    /// A released `libapp.so` is larger than the delta compressor can index.
    LibraryTooLarge,
    /// Reading or writing a local file failed.
    Io { message: String },
}

/// A patch ready to upload.
#[derive(Debug)]
pub struct PatchArtifact {
    pub architecture: String,
    /// Where the patch is written before it is uploaded.
    pub path: String,
    pub contents: Vec<u8>,
    /// The lower-case hexadecimal BLAKE3 digest of the contents.
    pub file_hash: String,
    /// The lower-case hexadecimal BLAKE3 digest of the new `libapp.so`.
    pub libapp_hash: String,
}

/// The command that builds the release APK.
#[derive(Debug)]
pub struct CommandLine {
    pub program: String,
    pub args: Vec<String>,
}

/// `flutter build apk --release`.
pub fn build_release() -> (res: CommandLine)
    ensures
        res.program@ == "flutter"@,
        res.args.deep_view() == seq!["build"@, "apk"@, "--release"@],
{
    let mut args: Vec<String> = Vec::new();
    args.push(string_of("build"));
    args.push(string_of("apk"));
    args.push(string_of("--release"));
    assert(args.deep_view() =~= seq!["build"@, "apk"@, "--release"@]);
    CommandLine { program: string_of("flutter"), args }
}

/// Whether `arch` is one the tool makes patches for.
pub fn is_supported_architecture(arch: &str) -> (res: bool)
    ensures
        res == supported_architecture(arch@),
{
    same_text(arch, "arm64-v8a") || same_text(arch, "armeabi-v7a") || same_text(arch, "x86_64")
}

/// Whether `list` holds `item`.
fn holds(list: &Vec<String>, item: &str) -> (res: bool)
    ensures
        res == list.deep_view().contains(item@),
{
    let n = list.len();
    for i in 0..n
        invariant
            n == list.len(),
            forall|k: int| 0 <= k < i ==> list.deep_view()[k] != item@,
    {
        if same_text(list[i].as_str(), item) {
            assert(list.deep_view()[i as int] == item@);
            return true;
        }
    }
    assert forall|k: int| 0 <= k < list.deep_view().len() implies list.deep_view()[k] != item@ by {}
    false
}

/// The architectures both lists hold that the tool supports, in the order of `base`.
pub fn common_architectures_of(base: &Vec<String>, new: &Vec<String>) -> (res: Vec<String>)
    ensures
        res.deep_view() == common_architectures(base.deep_view(), new.deep_view()),
        base.deep_view().no_duplicates() ==> res.deep_view().no_duplicates(),
{
    let mut res: Vec<String> = Vec::new();
    let n = base.len();
    let ghost all = base.deep_view();
    assert(all.take(0) =~= Seq::<Seq<char>>::empty());
    for i in 0..n
        invariant
            n == base.len(),
            all == base.deep_view(),
            res.deep_view() == common_architectures(all.take(i as int), new.deep_view()),
    {
        assert(all.take(i + 1).drop_last() =~= all.take(i as int));
        assert(all.take(i + 1).last() == base[i as int]@);
        let a = base[i].as_str();
        if is_supported_architecture(a) && holds(new, a) {
            let ghost before = res.deep_view();
            res.push(string_of(a));
            assert(res.deep_view() =~= before.push(a@));
        }
    }
    assert(all.take(n as int) =~= all);
    proof {
        if all.no_duplicates() {
            lemma_common_architectures_distinct(all, new.deep_view());
        }
    }
    res
}

/// The architectures both APKs ship that the tool supports, in the order of
/// the released APK; an error when there are none.
pub fn select_architectures(base: &Vec<String>, new: &Vec<String>) -> (res: Result<Vec<String>, PatchError>)
    ensures
        common_architectures(base.deep_view(), new.deep_view()).len() == 0
            ==> res == Err::<Vec<String>, PatchError>(PatchError::NoCommonArchitectures),
        common_architectures(base.deep_view(), new.deep_view()).len() > 0
            ==> (res matches Ok(v) && v.deep_view() == common_architectures(base.deep_view(), new.deep_view())),
        base.deep_view().no_duplicates() ==> (res matches Ok(v) ==> v.deep_view().no_duplicates()),
{
    let res = common_architectures_of(base, new);
    if res.len() == 0 {
        Err(PatchError::NoCommonArchitectures)
    } else {
        Ok(res)
    }
}

/// Whether two lists hold the same texts in the same order.
fn same_texts(a: &Vec<String>, b: &Vec<String>) -> (res: bool)
    ensures
        res == (a.deep_view() == b.deep_view()),
{
    if a.len() != b.len() {
        assert(a.deep_view().len() != b.deep_view().len());
        return false;
    }
    let n = a.len();
    for i in 0..n
        invariant
            n == a.len(),
            n == b.len(),
            forall|k: int| 0 <= k < i ==> a.deep_view()[k] == b.deep_view()[k],
    {
        if !same_text(a[i].as_str(), b[i].as_str()) {
            assert(a.deep_view()[i as int] != b.deep_view()[i as int]);
            return false;
        }
    }
    assert(a.deep_view() =~= b.deep_view());
    true
}

/// `.wingbird/base_{platform}_{version}.apk`.
pub fn base_apk_location(platform: &str, version: &str) -> (res: String)
    ensures
        res@ == base_apk_path(platform@, version@),
{
    let mut s = string_of(".wingbird/base_");
    push_text(&mut s, platform);
    push_text(&mut s, "_");
    push_text(&mut s, version);
    push_text(&mut s, ".apk");
    assert(s@ =~= base_apk_path(platform@, version@));
    s
}

/// `.wingbird/patch_{arch}_{version}.patch`.
pub fn patch_file_location(arch: &str, version: &str) -> (res: String)
    ensures
        res@ == patch_file_path(arch@, version@),
{
    let mut s = string_of(".wingbird/patch_");
    push_text(&mut s, arch);
    push_text(&mut s, "_");
    push_text(&mut s, version);
    push_text(&mut s, ".patch");
    assert(s@ =~= patch_file_path(arch@, version@));
    s
}

/// The patch of `arch` from the released APK `base` to the new APK `new`:
/// the bsdiff of their `libapp.so`, with its digest and where to write it.
pub fn make_patch(base: &[u8], new: &[u8], arch: &str, version: &str) -> (res: Result<PatchArtifact, PatchError>)
    ensures
        patch_possible(base@, new@, arch@) ==> (res matches Ok(a) && artifact_is(a, base@, new@, arch@, version@)),
        !patch_possible(base@, new@, arch@) ==> (res matches Err(e) && patch_fails_with(base@, new@, arch@, e)),
{
    let b = match extract_libapp_so(base, arch) {
        Ok(b) => b,
        Err(e) => return Err(PatchError::Inspect(e)),
    };
    let n = match extract_libapp_so(new, arch) {
        Ok(n) => n,
        Err(e) => return Err(PatchError::Inspect(e)),
    };
    if b.len() > 2147483647 {
        return Err(PatchError::LibraryTooLarge);
    }
    let contents = match bsdiff(b.as_slice(), n.as_slice()) {
        Ok(p) => p,
        Err(message) => return Err(PatchError::DiffFailed { message }),
    };
    let file_hash = content_hash(contents.as_slice());
    let libapp_hash = content_hash(n.as_slice());
    Ok(PatchArtifact {
        architecture: string_of(arch),
        path: patch_file_location(arch, version),
        contents,
        file_hash,
        libapp_hash,
    })
}

/// The digest, as sent to the server, of the `libapp.so` of `arch` in `apk`,
/// or `None` when it cannot be read.
fn libapp_hash_of(apk: &[u8], arch: &str) -> (res: Option<String>)
    ensures
        res is Some <==> libapp_of(apk@, arch@) is Some,
        res matches Some(h) ==> h@ == hex_lower(blake3_digest(libapp_of(apk@, arch@).unwrap())),
{
    match extract_libapp_so(apk, arch) {
        Ok(b) => Some(content_hash(b.as_slice())),
        Err(_) => None,
    }
}

/// The `libapp.so` of `arch` that applying `patch` to the released APK
/// `base` gives, as a device receiving the patch computes it.
pub fn patched_library(base: &[u8], arch: &str, patch: &[u8]) -> (res: Result<Vec<u8>, PatchError>)
    requires
        !header_overflows(patch@),
    ensures
        match libapp_of(base@, arch@) {
            None => res matches Err(PatchError::Inspect(u)) && extraction_fails_with(base@, arch@, u),
            Some(b) => match bspatch_output(b, patch@) {
                Some(t) => res matches Ok(v) && v@ == t,
                None => res matches Err(e) && e is ApplyFailed,
            },
        },
{
    let b = match extract_libapp_so(base, arch) {
        Ok(b) => b,
        Err(e) => return Err(PatchError::Inspect(e)),
    };
    match bspatch(b.as_slice(), patch) {
        Ok(t) => Ok(t),
        Err(message) => Err(PatchError::ApplyFailed { message }),
    }
}

/// Applying a patch the tool made to the released `libapp.so` gives exactly
/// the new `libapp.so`, whose digest the patch carries: `patched_library` on
/// the released APK and the patch returns the new library.
pub proof fn lemma_patch_reproduces_new_library(
    a: PatchArtifact,
    base: Seq<u8>,
    new: Seq<u8>,
    arch: Seq<char>,
    version: Seq<char>,
)
    requires
        patch_possible(base, new, arch),
        artifact_is(a, base, new, arch, version),
    ensures
        libapp_of(new, arch) is Some,
        bspatch_output(libapp_of(base, arch).unwrap(), a.contents@) == libapp_of(new, arch),
        a.libapp_hash@ == hex_lower(blake3_digest(libapp_of(new, arch).unwrap())),
{
}

/// Where a patch run stands.
#[derive(Debug)]
pub enum PatchStage {
    /// Waiting for the release build.
    Building,
    /// Waiting to learn whether the build left an APK.
    Locating,
    /// Waiting for the released APK to be downloaded.
    Downloading,
    /// Waiting for the contents of both APKs.
    Loading,
    /// Waiting for the upload of the patch of `architectures[done.len()]`,
    /// whose new `libapp.so` has the digest `pending_hash`; `done` holds the
    /// patches already uploaded.
    Patching {
        base: Vec<u8>,
        new: Vec<u8>,
        architectures: Vec<String>,
        done: Vec<CreatePatchRequest>,
        pending_hash: String,
    },
    /// Waiting for the reply to recording the patches.
    Recording,
    /// Waiting for the decoded records.
    Decoding,
    /// Finished.
    Done,
    /// Failed.
    Failed,
}

/// One run of patch creation for one app, release version, platform and channel.
#[derive(Debug)]
pub struct PatchRun {
    pub client: ApiClient,
    pub app_id: String,
    pub version: String,
    pub platform: String,
    pub channel: String,
    pub stage: PatchStage,
}

/// What the outside step reported.
#[derive(Debug)]
pub enum PatchEvent {
    /// The build finished; whether it succeeded, and its captured standard error.
    Built { succeeded: bool, stderr: Vec<u8> },
    /// Whether the built APK exists.
    ApkChecked { present: bool },
    /// The released APK was saved.
    Downloaded,
    /// The server refused the download with this status and body.
    DownloadRefused { status: u16, body: String },
    /// The contents of the released and the new APK.
    Loaded { base: Vec<u8>, new: Vec<u8> },
    /// The last patch was uploaded under this identifier.
    Uploaded { upload_id: String },
    /// The reply to recording the patches.
    Replied { status: u16, body: String },
    /// The number of patch records the server created.
    Recorded { count: usize },
    /// The outside step failed.
    Broken(PatchError),
}

/// What to do next.
#[derive(Debug)]
pub enum PatchAction {
    /// Run this command to build the release APK.
    Build(CommandLine),
    /// Check whether the file at `path` exists.
    CheckApk { path: String },
    /// Create `directory`, then save the reply to `request` at `output`.
    Download { directory: String, request: ApiRequest, output: String },
    /// Read both APKs.
    LoadApks { base: String, new: String },
    /// Write the patch to its path, upload it with this content type, then
    /// remove the file.
    Upload { artifact: PatchArtifact, content_type: String },
    /// Remove `cleanup`, then send `request`.
    Record { request: ApiRequest, cleanup: String },
    /// Decode the reply body as the list of created patches.
    DecodeRecords { body: String },
    /// Done; report `message`.
    Finish { message: String },
    /// Failed with this error.
    Fail(PatchError),
}

/// The message reported once `count` patches are recorded.
pub open spec fn summary_text(count: nat) -> Seq<char> {
    "Successfully created "@ + decimal(count) + " patch artifact(s)!"@
}

/// The digest, as sent to the server, of the new `libapp.so` of `arch`.
pub open spec fn libapp_digest(new: Seq<u8>, arch: Seq<char>) -> Seq<char> {
    hex_lower(blake3_digest(libapp_of(new, arch).unwrap()))
}

/// The architectures a run patches: the supported ones both APKs ship.
pub open spec fn run_architectures(base: Seq<u8>, new: Seq<u8>) -> Seq<Seq<char>> {
    common_architectures(architectures(zip_names(base)), architectures(zip_names(new)))
}

/// Whether every APK can be listed and they share a supported architecture.
pub open spec fn apks_usable(base: Seq<u8>, new: Seq<u8>) -> bool {
    zip_opens(base) && zip_opens(new) && run_architectures(base, new).len() > 0
}

impl PatchRun {
    /// The invariant of a run: while patching, the architectures are the
    /// ones both APKs share, one more remains to be uploaded, the uploaded
    /// patches are the first architectures, in order, and every digest is
    /// that of the new `libapp.so` of its architecture.
    pub open spec fn wf(&self) -> bool {
        match self.stage {
            PatchStage::Patching { base, new, architectures, done, pending_hash } => {
                &&& zip_opens(base@) && zip_opens(new@)
                &&& architectures.deep_view() == run_architectures(base@, new@)
                &&& architectures.deep_view().no_duplicates()
                &&& done.len() < architectures.len()
                &&& forall|i: int| 0 <= i < done.len() ==> #[trigger] done@[i].architecture@ == architectures@[i]@
                &&& forall|i: int| 0 <= i <= done.len() ==> #[trigger] libapp_of(new@, architectures@[i]@) is Some
                &&& forall|i: int| 0 <= i < done.len()
                    ==> #[trigger] done@[i].libapp_hash@ == libapp_digest(new@, architectures@[i]@)
                &&& pending_hash@ == libapp_digest(new@, architectures@[done.len() as int]@)
            },
            _ => true,
        }
    }

    /// Whether the run awaits `ev` in its present stage.
    pub open spec fn awaits(&self, ev: PatchEvent) -> bool {
        match ev {
            PatchEvent::Built { .. } => self.stage is Building,
            PatchEvent::ApkChecked { .. } => self.stage is Locating,
            PatchEvent::Downloaded => self.stage is Downloading,
            PatchEvent::DownloadRefused { status, .. } => self.stage is Downloading && 100 <= status <= 999
                && !is_success(status),
            PatchEvent::Loaded { .. } => self.stage is Loading,
            PatchEvent::Uploaded { .. } => self.stage is Patching,
            PatchEvent::Replied { status, .. } => self.stage is Recording && 100 <= status <= 999,
            PatchEvent::Recorded { .. } => self.stage is Decoding,
            PatchEvent::Broken(_) => !(self.stage is Done || self.stage is Failed),
        }
    }

    /// Starts a run: the first step is to build the release APK.
    pub fn new(client: ApiClient, app_id: String, version: String, platform: String, channel: String) -> (res: (PatchRun, PatchAction))
        ensures
            res.0.client == client,
            res.0.app_id == app_id,
            res.0.version == version,
            res.0.platform == platform,
            res.0.channel == channel,
            res.0.stage is Building,
            res.0.wf(),
            res.1 matches PatchAction::Build(c) && c.program@ == "flutter"@
                && c.args.deep_view() == seq!["build"@, "apk"@, "--release"@],
    {
        (
            PatchRun { client, app_id, version, platform, channel, stage: PatchStage::Building },
            PatchAction::Build(build_release()),
        )
    }

    /// Whether the run awaits `ev` now.
    pub fn accepts(&self, ev: &PatchEvent) -> (res: bool)
        ensures
            res == self.awaits(*ev),
    {
        match ev {
            PatchEvent::Built { .. } => matches!(self.stage, PatchStage::Building),
            PatchEvent::ApkChecked { .. } => matches!(self.stage, PatchStage::Locating),
            PatchEvent::Downloaded => matches!(self.stage, PatchStage::Downloading),
            PatchEvent::DownloadRefused { status, .. } => matches!(self.stage, PatchStage::Downloading)
                && 100 <= *status && *status <= 999 && !(200 <= *status && *status <= 299),
            PatchEvent::Loaded { .. } => matches!(self.stage, PatchStage::Loading),
            PatchEvent::Uploaded { .. } => matches!(self.stage, PatchStage::Patching { .. }),
            PatchEvent::Replied { status, .. } => matches!(self.stage, PatchStage::Recording)
                && 100 <= *status && *status <= 999,
            PatchEvent::Recorded { .. } => matches!(self.stage, PatchStage::Decoding),
            PatchEvent::Broken(_) => !(matches!(self.stage, PatchStage::Done)
                || matches!(self.stage, PatchStage::Failed)),
        }
    }
}

/// Whether the run goes on to the patch of `architectures[done.len()]`,
/// entering `next` with `act`, or fails when that patch cannot be made.
pub open spec fn continues(
    base: Vec<u8>,
    new: Vec<u8>,
    architectures: Vec<String>,
    done: Seq<CreatePatchRequest>,
    version: Seq<char>,
    next: PatchStage,
    act: PatchAction,
) -> bool {
    let a = architectures@[done.len() as int]@;
    if patch_possible(base@, new@, a) {
        &&& next matches PatchStage::Patching { base: b, new: n, architectures: x, done: d, pending_hash: h }
            && b == base && n == new && x == architectures && d@ == done && h@ == libapp_digest(new@, a)
        &&& act matches PatchAction::Upload { artifact, content_type }
            && artifact_is(artifact, base@, new@, a, version) && content_type@ == PATCH_MIME@
    } else {
        next is Failed && (act matches PatchAction::Fail(e) && patch_fails_with(base@, new@, a, e))
    }
}

/// The step a run takes from `old` on `ev`, to the stage `next` with `act`.
pub open spec fn patch_step(old: PatchRun, ev: PatchEvent, next: PatchStage, act: PatchAction) -> bool {
    let server = old.client.server_url@;
    let token = old.client.token@;
    let version_bytes = encode_utf8(old.version@);
    match ev {
        PatchEvent::Broken(e) => next is Failed && act == PatchAction::Fail(e),
        PatchEvent::Built { succeeded, stderr } => if succeeded {
            next is Locating && (act matches PatchAction::CheckApk { path } && path@ == APK_PATH@)
        } else {
            next is Failed && act == PatchAction::Fail(PatchError::Build(UtilError::CommandFailed { stderr }))
        },
        PatchEvent::ApkChecked { present } => if !present {
            next is Failed && act == PatchAction::Fail(PatchError::ApkMissing)
        } else {
            match url_join(server, release_path(old.app_id@, version_bytes, "/download"@, old.platform@, old.channel@)) {
                None => next is Failed && (act matches PatchAction::Fail(PatchError::Api(e)) && e is InvalidUrl),
                Some(u) => next is Downloading && (act matches PatchAction::Download { directory, request, output }
                    && directory@ == WORK_DIR@ && plain_request(request, HttpMethod::Get, u, token)
                    && request.payload is Nothing && output@ == base_apk_path(old.platform@, old.version@)),
            }
        },
        PatchEvent::Downloaded => next is Loading && (act matches PatchAction::LoadApks { base, new }
            && base@ == base_apk_path(old.platform@, old.version@) && new@ == APK_PATH@),
        PatchEvent::DownloadRefused { status, body } => next is Failed
            && (act matches PatchAction::Fail(PatchError::Api(ApiError::Rejected { message }))
            && message@ == failure_message(status, body@, "Download failed"@)),
        PatchEvent::Loaded { base, new } => if !zip_opens(base@) || !zip_opens(new@) {
            next is Failed && (act matches PatchAction::Fail(PatchError::Inspect(e)) && e is ArchiveUnreadable)
        } else if run_architectures(base@, new@).len() == 0 {
            next is Failed && act == PatchAction::Fail(PatchError::NoCommonArchitectures)
        } else {
            let a = run_architectures(base@, new@)[0];
            if patch_possible(base@, new@, a) {
                &&& next matches PatchStage::Patching { base: b, new: n, architectures: x, done: d, pending_hash: h }
                    && b == base && n == new && x.deep_view() == run_architectures(base@, new@)
                    && d@.len() == 0 && h@ == libapp_digest(new@, a)
                &&& act matches PatchAction::Upload { artifact, content_type }
                    && artifact_is(artifact, base@, new@, a, old.version@) && content_type@ == PATCH_MIME@
            } else {
                next is Failed && (act matches PatchAction::Fail(e) && patch_fails_with(base@, new@, a, e))
            }
        },
        PatchEvent::Uploaded { upload_id } => match old.stage {
            PatchStage::Patching { base, new, architectures, done, pending_hash } => {
                let entry = CreatePatchRequest {
                    architecture: architectures@[done.len() as int],
                    upload_id,
                    libapp_hash: pending_hash,
                };
                let all = done@.push(entry);
                if all.len() < architectures.len() {
                    continues(base, new, architectures, all, old.version@, next, act)
                } else {
                    match url_join(server, release_path(old.app_id@, version_bytes, "/patches"@, old.platform@, old.channel@)) {
                        None => next is Failed && (act matches PatchAction::Fail(PatchError::Api(e)) && e is InvalidUrl),
                        Some(u) => next is Recording && (act matches PatchAction::Record { request, cleanup }
                            && plain_request(request, HttpMethod::Post, u, token)
                            && (request.payload matches Payload::CreatePatches(batch) && batch.patches@ == all)
                            && cleanup@ == base_apk_path(old.platform@, old.version@)),
                    }
                }
            },
            _ => false,
        },
        PatchEvent::Replied { status, body } => if is_success(status) {
            next is Decoding && (act matches PatchAction::DecodeRecords { body: b } && b@ == body@)
        } else {
            next is Failed && (act matches PatchAction::Fail(PatchError::Api(ApiError::Rejected { message }))
                && message@ == failure_message(status, body@, "Request failed"@))
        },
        PatchEvent::Recorded { count } => next is Done
            && (act matches PatchAction::Finish { message } && message@ == summary_text(count as nat)),
    }
}

impl PatchRun {
    /// Takes the step that `ev` calls for, and says what to do next.
    pub fn advance(&mut self, ev: PatchEvent) -> (act: PatchAction)
        requires
            old(self).wf(),
            old(self).awaits(ev),
        ensures
            patch_step(*old(self), ev, final(self).stage, act),
            final(self).wf(),
            final(self).client == old(self).client,
            final(self).app_id == old(self).app_id,
            final(self).version == old(self).version,
            final(self).platform == old(self).platform,
            final(self).channel == old(self).channel,
    {
        let mut stage = PatchStage::Failed;
        std::mem::swap(&mut stage, &mut self.stage);
        let (next, act) = self.step(stage, ev);
        self.stage = next;
        act
    }

    /// The step from `stage` on `ev`.
    fn step(&self, stage: PatchStage, ev: PatchEvent) -> (res: (PatchStage, PatchAction))
        requires
            (PatchRun { stage, ..*self }).wf(),
            (PatchRun { stage, ..*self }).awaits(ev),
        ensures
            patch_step(PatchRun { stage, ..*self }, ev, res.0, res.1),
            (PatchRun { stage: res.0, ..*self }).wf(),
    {
        match ev {
            PatchEvent::Broken(e) => (PatchStage::Failed, PatchAction::Fail(e)),
            PatchEvent::Built { succeeded, stderr } => match run_command(succeeded, stderr) {
                Ok(()) => (PatchStage::Locating, PatchAction::CheckApk { path: string_of(APK_PATH) }),
                Err(e) => (PatchStage::Failed, PatchAction::Fail(PatchError::Build(e))),
            },
            PatchEvent::ApkChecked { present } => {
                if !present {
                    return (PatchStage::Failed, PatchAction::Fail(PatchError::ApkMissing));
                }
                match self.client.download_release(
                    self.app_id.as_str(),
                    self.version.as_str(),
                    self.platform.as_str(),
                    self.channel.as_str(),
                ) {
                    Ok(request) => (
                        PatchStage::Downloading,
                        PatchAction::Download {
                            directory: string_of(WORK_DIR),
                            request,
                            output: base_apk_location(self.platform.as_str(), self.version.as_str()),
                        },
                    ),
                    Err(e) => (PatchStage::Failed, PatchAction::Fail(PatchError::Api(e))),
                }
            },
            PatchEvent::Downloaded => (
                PatchStage::Loading,
                PatchAction::LoadApks {
                    base: base_apk_location(self.platform.as_str(), self.version.as_str()),
                    new: string_of(APK_PATH),
                },
            ),
            PatchEvent::DownloadRefused { status, body } => match ApiClient::download_reply(status, body.as_str()) {
                Ok(()) => vstd::pervasive::unreached(),
                Err(e) => (PatchStage::Failed, PatchAction::Fail(PatchError::Api(e))),
            },
            PatchEvent::Loaded { base, new } => {
                let base_archs = match detect_architectures(base.as_slice()) {
                    Ok(v) => v,
                    Err(e) => return (PatchStage::Failed, PatchAction::Fail(PatchError::Inspect(e))),
                };
                let new_archs = match detect_architectures(new.as_slice()) {
                    Ok(v) => v,
                    Err(e) => return (PatchStage::Failed, PatchAction::Fail(PatchError::Inspect(e))),
                };
                let archs = match select_architectures(&base_archs, &new_archs) {
                    Ok(v) => v,
                    Err(e) => return (PatchStage::Failed, PatchAction::Fail(e)),
                };
                match make_patch(base.as_slice(), new.as_slice(), archs[0].as_str(), self.version.as_str()) {
                    Ok(artifact) => {
                        let pending_hash = artifact.libapp_hash.clone();
                        (
                            PatchStage::Patching { base, new, architectures: archs, done: Vec::new(), pending_hash },
                            PatchAction::Upload { artifact, content_type: string_of(PATCH_MIME) },
                        )
                    },
                    Err(e) => (PatchStage::Failed, PatchAction::Fail(e)),
                }
            },
            PatchEvent::Uploaded { upload_id } => match stage {
                PatchStage::Patching { base, new, architectures, mut done, pending_hash } => {
                    let ghost before = done@;
                    let k = done.len();
                    let architecture = architectures[k].clone();
                    done.push(CreatePatchRequest { architecture, upload_id, libapp_hash: pending_hash });
                    if done.len() < architectures.len() {
                        match make_patch(
                            base.as_slice(),
                            new.as_slice(),
                            architectures[done.len()].as_str(),
                            self.version.as_str(),
                        ) {
                            Ok(artifact) => {
                                let pending_hash = artifact.libapp_hash.clone();
                                (
                                    PatchStage::Patching { base, new, architectures, done, pending_hash },
                                    PatchAction::Upload { artifact, content_type: string_of(PATCH_MIME) },
                                )
                            },
                            Err(e) => (PatchStage::Failed, PatchAction::Fail(e)),
                        }
                    } else {
                        match self.client.create_patches(
                            self.app_id.as_str(),
                            self.version.as_str(),
                            self.platform.as_str(),
                            self.channel.as_str(),
                            CreatePatchBatchRequest { patches: done },
                        ) {
                            Ok(request) => (
                                PatchStage::Recording,
                                PatchAction::Record {
                                    request,
                                    cleanup: base_apk_location(self.platform.as_str(), self.version.as_str()),
                                },
                            ),
                            Err(e) => (PatchStage::Failed, PatchAction::Fail(PatchError::Api(e))),
                        }
                    }
                },
                _ => vstd::pervasive::unreached(),
            },
            PatchEvent::Replied { status, body } => match ApiClient::handle_response(status, body.as_str()) {
                Ok(()) => (PatchStage::Decoding, PatchAction::DecodeRecords { body }),
                Err(e) => (PatchStage::Failed, PatchAction::Fail(PatchError::Api(e))),
            },
            PatchEvent::Recorded { count } => (PatchStage::Done, PatchAction::Finish { message: summary(count) }),
        }
    }
}

/// `Successfully created {count} patch artifact(s)!`.
pub fn summary(count: usize) -> (res: String)
    ensures
        res@ == summary_text(count as nat),
{
    let mut s = string_of("Successfully created ");
    push_decimal(&mut s, count as u64);
    push_text(&mut s, " patch artifact(s)!");
    assert(s@ =~= summary_text(count as nat));
    s
}

/// The message a patch error reads as.
pub open spec fn patch_error_message(e: PatchError) -> Seq<char> {
    match e {
        PatchError::Build(u) => util_error_message(u),
        PatchError::ApkMissing => "Release APK not found at '"@ + APK_PATH@ + "'"@,
        PatchError::Api(a) => api_error_message(a),
        PatchError::Inspect(u) => util_error_message(u),
        PatchError::NoCommonArchitectures => "No supported common architectures found"@,
        PatchError::DiffFailed { message } => message@,
        PatchError::ApplyFailed { message } => message@,
        PatchError::LibraryTooLarge => "libapp.so is too large to diff"@,
        PatchError::Io { message } => message@,
    }
}

impl PatchError {
    /// The text of this error.
    pub fn message(&self) -> (res: String)
        ensures
            res@ == patch_error_message(*self),
    {
        match self {
            PatchError::Build(u) => u.message(),
            PatchError::ApkMissing => {
                let mut s = string_of("Release APK not found at '");
                push_text(&mut s, APK_PATH);
                push_text(&mut s, "'");
                s
            },
            PatchError::Api(a) => a.message(),
            PatchError::Inspect(u) => u.message(),
            PatchError::NoCommonArchitectures => string_of("No supported common architectures found"),
            PatchError::DiffFailed { message } => string_of(message.as_str()),
            PatchError::ApplyFailed { message } => string_of(message.as_str()),
            PatchError::LibraryTooLarge => string_of("libapp.so is too large to diff"),
            PatchError::Io { message } => string_of(message.as_str()),
        }
    }
}

/// `Processing architecture: {arch}`.
pub fn processing(arch: &str) -> (res: String)
    ensures
        res@ == "Processing architecture: "@ + arch@,
{
    let mut s = string_of("Processing architecture: ");
    push_text(&mut s, arch);
    s
}

/// An architecture is patched exactly when it is supported and both APKs ship it.
pub proof fn lemma_common_architectures_members(base: Seq<Seq<char>>, new: Seq<Seq<char>>, arch: Seq<char>)
    ensures
        common_architectures(base, new).contains(arch)
            <==> (supported_architecture(arch) && base.contains(arch) && new.contains(arch)),
    decreases base.len(),
{
    if base.len() > 0 {
        let init = base.drop_last();
        lemma_common_architectures_members(init, new, arch);
        let rest = common_architectures(init, new);
        let last = base.last();
        assert(base =~= init.push(last));
        if base.contains(arch) && !init.contains(arch) {
            let i = choose|i: int| 0 <= i < base.len() && base[i] == arch;
            if i < init.len() {
                assert(init[i] == arch);
            }
            assert(last == arch);
        }
        if init.contains(arch) {
            let i = choose|i: int| 0 <= i < init.len() && init[i] == arch;
            assert(base[i] == arch);
        }
        if supported_architecture(last) && new.contains(last) {
            let all = rest.push(last);
            if all.contains(arch) && arch != last {
                let i = choose|i: int| 0 <= i < all.len() && all[i] == arch;
                assert(i < rest.len());
                assert(rest[i] == arch);
            }
            if rest.contains(arch) {
                let i = choose|i: int| 0 <= i < rest.len() && rest[i] == arch;
                assert(all[i] == arch);
            }
            if arch == last {
                assert(all[rest.len() as int] == arch);
            }
        }
    }
}

/// When the released APK lists each architecture once, each is patched once.
pub proof fn lemma_common_architectures_distinct(base: Seq<Seq<char>>, new: Seq<Seq<char>>)
    requires
        base.no_duplicates(),
    ensures
        common_architectures(base, new).no_duplicates(),
    decreases base.len(),
{
    if base.len() > 0 {
        let init = base.drop_last();
        assert(init.no_duplicates()) by {
            assert forall|i: int, j: int| 0 <= i < init.len() && 0 <= j < init.len() && i != j implies init[i] != init[j] by {
                assert(init[i] == base[i] && init[j] == base[j]);
            }
        }
        lemma_common_architectures_distinct(init, new);
        let rest = common_architectures(init, new);
        let last = base.last();
        if supported_architecture(last) && new.contains(last) {
            lemma_common_architectures_members(init, new, last);
            if init.contains(last) {
                let j = choose|j: int| 0 <= j < init.len() && init[j] == last;
                assert(base[j] == base[base.len() - 1]);
                assert(false);
            }
            let all = rest.push(last);
            assert forall|i: int, j: int| 0 <= i < all.len() && 0 <= j < all.len() && i != j implies all[i] != all[j] by {
                if i == rest.len() {
                    assert(all[j] == rest[j]);
                    if all[i] == all[j] { assert(rest.contains(last)); }
                } else if j == rest.len() {
                    assert(all[i] == rest[i]);
                    if all[i] == all[j] { assert(rest.contains(last)); }
                }
            }
        }
    }
}

/// When a run records its patches, the batch holds one patch per common
/// architecture, in the released APK's order, each architecture once, each
/// with the digest of its new `libapp.so`, the last one carrying the
/// identifier of the upload just finished.
pub proof fn lemma_recorded_batch(run: PatchRun, upload_id: String, next: PatchStage, act: PatchAction)
    requires
        run.wf(),
        run.stage is Patching,
        patch_step(run, PatchEvent::Uploaded { upload_id }, next, act),
        act is Record,
    ensures
        act matches PatchAction::Record { request, .. }
            && request.payload matches Payload::CreatePatches(batch)
            && run.stage matches PatchStage::Patching { base, new, architectures, .. }
            && batch.patches.len() == architectures.len()
            && architectures.deep_view() == run_architectures(base@, new@)
            && (forall|i: int| 0 <= i < batch.patches.len()
                ==> #[trigger] batch.patches@[i].architecture@ == architectures@[i]@)
            && (forall|i: int| 0 <= i < batch.patches.len()
                ==> #[trigger] batch.patches@[i].libapp_hash@ == libapp_digest(new@, architectures@[i]@))
            && batch.patches@.last().upload_id == upload_id
            && architectures.deep_view().no_duplicates(),
{
    match run.stage {
        PatchStage::Patching { base, new, architectures, done, pending_hash } => {
            let entry = CreatePatchRequest {
                architecture: architectures@[done.len() as int],
                upload_id,
                libapp_hash: pending_hash,
            };
            let all = done@.push(entry);
            if all.len() < architectures.len() {
                assert(!(act is Record));
            }
            assert forall|i: int| 0 <= i < all.len() implies #[trigger] all[i].architecture@ == architectures@[i]@ by {
                if i < done.len() {
                    assert(all[i] == done@[i]);
                }
            }
            assert forall|i: int| 0 <= i < all.len()
                implies #[trigger] all[i].libapp_hash@ == libapp_digest(new@, architectures@[i]@) by {
                if i < done.len() {
                    assert(all[i] == done@[i]);
                }
            }
        },
        _ => {},
    }
}

impl PatchRun {
    /// Whether the run keeps its invariant; a run made by `new` and moved
    /// on by `advance` always does.
    #[verifier::loop_isolation(false)]
    pub fn consistent(&self) -> (res: bool)
        ensures
            res == self.wf(),
    {
        match &self.stage {
            PatchStage::Patching { base, new, architectures, done, pending_hash } => {
                let base_names = match archive_names(base.as_slice()) {
                    Ok(v) => v,
                    Err(_) => return false,
                };
                let new_names = match archive_names(new.as_slice()) {
                    Ok(v) => v,
                    Err(_) => return false,
                };
                let base_archs = architectures_in(&base_names);
                let new_archs = architectures_in(&new_names);
                proof { lemma_architectures_distinct(base_names.deep_view()); }
                let expected = common_architectures_of(&base_archs, &new_archs);
                if !same_texts(&expected, architectures) {
                    return false;
                }
                if done.len() >= architectures.len() {
                    return false;
                }
                let n = done.len();
                for i in 0..n
                    invariant
                        n == done.len(),
                        n < architectures.len(),
                        forall|k: int| 0 <= k < i ==> #[trigger] done@[k].architecture@ == architectures@[k]@,
                        forall|k: int| 0 <= k < i ==> #[trigger] libapp_of(new@, architectures@[k]@) is Some,
                        forall|k: int| 0 <= k < i
                            ==> #[trigger] done@[k].libapp_hash@ == libapp_digest(new@, architectures@[k]@),
                {
                    if !same_text(done[i].architecture.as_str(), architectures[i].as_str()) {
                        assert(done@[i as int].architecture@ != architectures@[i as int]@);
                        return false;
                    }
                    match libapp_hash_of(new.as_slice(), architectures[i].as_str()) {
                        Some(h) => {
                            if !same_text(done[i].libapp_hash.as_str(), h.as_str()) {
                                return false;
                            }
                        },
                        None => {
                            return false;
                        },
                    }
                }
                match libapp_hash_of(new.as_slice(), architectures[n].as_str()) {
                    Some(h) => same_text(pending_hash.as_str(), h.as_str()),
                    None => false,
                }
            },
            _ => true,
        }
    }
}

/// Every finished upload is recorded under the identifier its event
/// reported: an `Uploaded` event appends one entry, for the architecture in
/// flight, with that identifier and that architecture's digest, and keeps
/// every earlier entry as it was, whether the run goes on to the patch of
/// the next architecture or records the batch.
pub proof fn lemma_upload_recorded_under_its_id(run: PatchRun, upload_id: String, next: PatchStage, act: PatchAction)
    requires
        run.wf(),
        patch_step(run, PatchEvent::Uploaded { upload_id }, next, act),
    ensures
        match run.stage {
            PatchStage::Patching { base, new, architectures, done, .. } => {
                let k = done.len() as int;
                &&& act matches PatchAction::Upload { artifact, content_type } ==> {
                    &&& k + 1 < architectures.len()
                    &&& artifact.architecture@ == architectures@[k + 1]@
                    &&& artifact_is(artifact, base@, new@, architectures@[k + 1]@, run.version@)
                    &&& content_type@ == PATCH_MIME@
                }
                &&& next matches PatchStage::Patching { done: d, .. } ==> {
                    &&& d@.len() == k + 1
                    &&& d@.take(k) == done@
                    &&& d@[k].upload_id == upload_id
                    &&& d@[k].architecture@ == architectures@[k]@
                    &&& d@[k].libapp_hash@ == libapp_digest(new@, architectures@[k]@)
                }
                &&& act matches PatchAction::Record { request, .. } ==> {
                    &&& request.payload matches Payload::CreatePatches(b)
                    &&& b.patches@.len() == k + 1
                    &&& b.patches@.take(k) == done@
                    &&& b.patches@[k].upload_id == upload_id
                    &&& b.patches@[k].architecture@ == architectures@[k]@
                    &&& b.patches@[k].libapp_hash@ == libapp_digest(new@, architectures@[k]@)
                }
            },
            _ => false,
        },
{
    match run.stage {
        PatchStage::Patching { base, new, architectures, done, pending_hash } => {
            let k = done.len() as int;
            let entry = CreatePatchRequest {
                architecture: architectures@[k],
                upload_id,
                libapp_hash: pending_hash,
            };
            let all = done@.push(entry);
            assert(all.take(k) =~= done@);
            assert(all[k] == entry);
        },
        _ => {},
    }
}

/// The reply to recording the patches decides it: any 2xx status goes on to
/// decode that body, any other fails with the `Request failed` message built
/// from the status and the body.
pub proof fn lemma_record_reply_decides(run: PatchRun, status: u16, body: String, next: PatchStage, act: PatchAction)
    requires
        patch_step(run, PatchEvent::Replied { status, body }, next, act),
    ensures
        200 <= status && status <= 299 ==> next is Decoding
            && (act matches PatchAction::DecodeRecords { body: b } && b@ == body@),
        !(200 <= status && status <= 299) ==> next is Failed
            && (act matches PatchAction::Fail(PatchError::Api(ApiError::Rejected { message }))
                && message@ == failure_message(status, body@, "Request failed"@)),
{
}

} // verus!
