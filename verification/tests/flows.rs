use std::io::Write;

use wingbird::api::{ApiClient, ApiError, HttpMethod, Payload};
use wingbird::dto::{ReleaseData, UploadResponse};
use wingbird::patch::{
    base_apk_location, is_supported_architecture, make_patch, patch_file_location, patched_library, processing,
    select_architectures, PatchAction, PatchError, PatchEvent, PatchRun, PatchStage, APK_PATH,
    PATCH_MIME,
};
use wingbird::release::{released, uploaded, ReleaseAction, ReleaseError, ReleaseEvent, ReleaseRun, APK_MIME};
use wingbird::upload::{UploadAction, UploadEvent, UploadStage};
use wingbird::utils::{content_hash, UtilError};

fn client() -> ApiClient {
    ApiClient::new("tok", "https://wb.dev").unwrap()
}

fn apk(entries: &[(&str, &[u8])]) -> Vec<u8> {
    let mut w = zip::ZipWriter::new(std::io::Cursor::new(Vec::new()));
    for (name, data) in entries {
        w.start_file(
            *name,
            zip::write::SimpleFileOptions::default()
                .compression_method(zip::CompressionMethod::Stored),
        )
        .unwrap();
        w.write_all(data).unwrap();
    }
    w.finish().unwrap().into_inner()
}

fn apply(base: &[u8], patch: &[u8]) -> Vec<u8> {
    let mut out = Vec::new();
    qbsdiff::Bspatch::new(patch).unwrap().apply(base, std::io::Cursor::new(&mut out)).unwrap();
    out
}

fn strings(v: &[&str]) -> Vec<String> {
    v.iter().map(|s| s.to_string()).collect()
}

#[test]
fn upload_flow_happy_path() {
    let c = client();
    let (mut flow, first) = c.upload_file("build/out/app.apk", "application/octet-stream", "app-1", "h1");
    match first {
        UploadAction::OpenFile { path } => assert_eq!(path, "build/out/app.apk"),
        other => panic!("unexpected {:?}", other),
    }
    assert!(flow.accepts(&UploadEvent::Opened { size: 10 }));
    assert!(!flow.accepts(&UploadEvent::Granted(UploadResponse {
        upload_id: String::new(),
        upload_url: String::new(),
    })));
    match flow.advance(UploadEvent::Opened { size: 10 }) {
        UploadAction::Send(r) => {
            assert_eq!(r.url, "https://wb.dev/api/apps/app-1/uploads");
            match r.payload {
                Payload::Upload(b) => {
                    assert_eq!(b.file_name, "app.apk");
                    assert_eq!(b.file_size, 10);
                    assert_eq!(b.file_hash, "h1");
                }
                other => panic!("unexpected {:?}", other),
            }
        }
        other => panic!("unexpected {:?}", other),
    }
    match flow.advance(UploadEvent::Replied { status: 200, body: String::from("{json}") }) {
        UploadAction::DecodeGrant { body } => assert_eq!(body, "{json}"),
        other => panic!("unexpected {:?}", other),
    }
    let grant = UploadResponse { upload_id: String::from("u-7"), upload_url: String::from("https://store/put/7") };
    match flow.advance(UploadEvent::Granted(grant)) {
        UploadAction::Send(r) => {
            assert!(matches!(r.method, HttpMethod::Put));
            assert_eq!(r.url, "https://store/put/7");
            assert!(r.bearer.is_none());
            match r.payload {
                Payload::File { path, content_type, length } => {
                    assert_eq!(path, "build/out/app.apk");
                    assert_eq!(content_type, "application/octet-stream");
                    assert_eq!(length, 10);
                }
                other => panic!("unexpected {:?}", other),
            }
        }
        other => panic!("unexpected {:?}", other),
    }
    match flow.advance(UploadEvent::Replied { status: 201, body: String::new() }) {
        UploadAction::Complete { upload_id, upload_url } => {
            assert_eq!(upload_id, "u-7");
            assert_eq!(upload_url, "https://store/put/7");
        }
        other => panic!("unexpected {:?}", other),
    }
    assert!(matches!(flow.stage, UploadStage::Finished { .. }));
}

#[test]
fn upload_flow_failures() {
    let c = client();
    let (mut flow, _) = c.upload_file("dir/..", "t", "a", "h");
    assert!(matches!(flow.advance(UploadEvent::Opened { size: 1 }), UploadAction::Fail(ApiError::InvalidFileName)));

    let (mut flow, _) = c.upload_file("x.bin", "t", "a", "h");
    flow.advance(UploadEvent::Opened { size: 1 });
    match flow.advance(UploadEvent::Replied { status: 413, body: String::from(r#"{"error":"too big"}"#) }) {
        UploadAction::Fail(e) => assert_eq!(e.message(), "Request failed (413 Payload Too Large): too big"),
        other => panic!("unexpected {:?}", other),
    }
    assert!(matches!(flow.stage, UploadStage::Failed));

    let (mut flow, _) = c.upload_file("x.bin", "t", "a", "h");
    flow.advance(UploadEvent::Opened { size: 1 });
    flow.advance(UploadEvent::Replied { status: 200, body: String::new() });
    flow.advance(UploadEvent::Granted(UploadResponse { upload_id: String::from("i"), upload_url: String::from("https://s/") }));
    match flow.advance(UploadEvent::Replied { status: 500, body: String::from("nope") }) {
        UploadAction::Fail(e) => assert_eq!(e.message(), "Upload failed (500 Internal Server Error): nope"),
        other => panic!("unexpected {:?}", other),
    }

    let (mut flow, _) = c.upload_file("x.bin", "t", "a", "h");
    let act = flow.advance(UploadEvent::Broken(ApiError::Transport { message: String::from("io") }));
    assert!(matches!(act, UploadAction::Fail(ApiError::Transport { .. })));
    assert!(!flow.accepts(&UploadEvent::Opened { size: 1 }));
}

#[test]
fn architecture_selection() {
    assert!(is_supported_architecture("arm64-v8a"));
    assert!(is_supported_architecture("armeabi-v7a"));
    assert!(is_supported_architecture("x86_64"));
    assert!(!is_supported_architecture("x86"));
    let base = strings(&["x86", "x86_64", "arm64-v8a", "armeabi-v7a"]);
    let new = strings(&["arm64-v8a", "x86", "x86_64"]);
    assert_eq!(select_architectures(&base, &new).unwrap(), strings(&["x86_64", "arm64-v8a"]));
    assert!(matches!(
        select_architectures(&strings(&["x86"]), &strings(&["x86"])),
        Err(PatchError::NoCommonArchitectures)
    ));
    assert!(matches!(select_architectures(&Vec::new(), &new), Err(PatchError::NoCommonArchitectures)));
}

#[test]
fn patch_locations_and_messages() {
    assert_eq!(base_apk_location("android", "1.2.0"), ".wingbird/base_android_1.2.0.apk");
    assert_eq!(patch_file_location("x86_64", "1.2.0"), ".wingbird/patch_x86_64_1.2.0.patch");
    assert_eq!(processing("arm64-v8a"), "Processing architecture: arm64-v8a");
    assert_eq!(PatchError::ApkMissing.message(), "Release APK not found at 'build/app/outputs/flutter-apk/app-release.apk'");
    assert_eq!(PatchError::NoCommonArchitectures.message(), "No supported common architectures found");
    assert_eq!(PatchError::DiffFailed { message: String::from("broken pipe") }.message(), "broken pipe");
    assert_eq!(PatchError::LibraryTooLarge.message(), "libapp.so is too large to diff");
    assert_eq!(PatchError::Io { message: String::from("disk") }.message(), "disk");
    assert_eq!(
        PatchError::Inspect(UtilError::ArchiveUnreadable { message: String::from("invalid Zip archive: x") }).message(),
        "invalid Zip archive: x"
    );
    assert_eq!(PatchError::Api(ApiError::NoToken).message(), ApiError::NoToken.message());
    assert_eq!(PatchError::Build(UtilError::CommandFailed { stderr: vec![] }).message(), "Command failed: []");
}

#[test]
fn make_patch_reproduces_the_new_library() {
    let old_lib = b"the old compiled dart code, version one".repeat(20);
    let new_lib = b"the new compiled dart code, version two!".repeat(20);
    let base = apk(&[("lib/x86_64/libapp.so", &old_lib)]);
    let new = apk(&[("lib/x86_64/libapp.so", &new_lib)]);
    let a = make_patch(&base, &new, "x86_64", "1.0.0").unwrap();
    assert_eq!(a.architecture, "x86_64");
    assert_eq!(a.path, ".wingbird/patch_x86_64_1.0.0.patch");
    assert_eq!(a.file_hash, content_hash(&a.contents));
    assert_eq!(a.libapp_hash, blake3::hash(&new_lib).to_hex().to_string());
    assert_eq!(apply(&old_lib, &a.contents), new_lib);
    assert!(matches!(make_patch(&base, &new, "arm64-v8a", "1"), Err(PatchError::Inspect(UtilError::LibappMissing { .. }))));
    assert!(matches!(make_patch(b"junk", &new, "x86_64", "1"), Err(PatchError::Inspect(UtilError::ArchiveUnreadable { .. }))));
}

#[test]
fn patch_run_end_to_end() {
    let base = apk(&[
        ("lib/arm64-v8a/libapp.so", b"base arm64 code"),
        ("lib/x86/libapp.so", b"base x86 code"),
        ("lib/x86_64/libapp.so", b"base x86_64 code"),
    ]);
    let new = apk(&[
        ("lib/x86_64/libapp.so", b"new x86_64 code"),
        ("lib/arm64-v8a/libapp.so", b"new arm64 code"),
    ]);
    let (mut run, first) = PatchRun::new(client(), String::from("app-1"), String::from("1.0.0"), String::from("android"), String::from("prod"));
    match first {
        PatchAction::Build(c) => {
            assert_eq!(c.program, "flutter");
            assert_eq!(c.args, strings(&["build", "apk", "--release"]));
        }
        other => panic!("unexpected {:?}", other),
    }
    match run.advance(PatchEvent::Built { succeeded: true, stderr: vec![] }) {
        PatchAction::CheckApk { path } => assert_eq!(path, APK_PATH),
        other => panic!("unexpected {:?}", other),
    }
    match run.advance(PatchEvent::ApkChecked { present: true }) {
        PatchAction::Download { directory, request, output } => {
            assert_eq!(directory, ".wingbird");
            assert_eq!(request.url, "https://wb.dev/api/apps/app-1/releases/1.0.0/download?platform=android&channel=prod");
            assert_eq!(output, ".wingbird/base_android_1.0.0.apk");
        }
        other => panic!("unexpected {:?}", other),
    }
    match run.advance(PatchEvent::Downloaded) {
        PatchAction::LoadApks { base, new } => {
            assert_eq!(base, ".wingbird/base_android_1.0.0.apk");
            assert_eq!(new, APK_PATH);
        }
        other => panic!("unexpected {:?}", other),
    }
    let first = match run.advance(PatchEvent::Loaded { base: base.clone(), new: new.clone() }) {
        PatchAction::Upload { artifact, content_type } => {
            assert_eq!(content_type, PATCH_MIME);
            artifact
        }
        other => panic!("unexpected {:?}", other),
    };
    assert_eq!(first.architecture, "arm64-v8a");
    assert!(run.consistent());
    assert_eq!(apply(b"base arm64 code", &first.contents), b"new arm64 code".to_vec());
    let second = match run.advance(PatchEvent::Uploaded { upload_id: String::from("u-arm") }) {
        PatchAction::Upload { artifact, .. } => artifact,
        other => panic!("unexpected {:?}", other),
    };
    assert_eq!(second.architecture, "x86_64");
    assert_eq!(second.path, ".wingbird/patch_x86_64_1.0.0.patch");
    match run.advance(PatchEvent::Uploaded { upload_id: String::from("u-x64") }) {
        PatchAction::Record { request, cleanup } => {
            assert_eq!(cleanup, ".wingbird/base_android_1.0.0.apk");
            assert_eq!(request.url, "https://wb.dev/api/apps/app-1/releases/1.0.0/patches?platform=android&channel=prod");
            match request.payload {
                Payload::CreatePatches(b) => {
                    let got: Vec<(String, String, String)> =
                        b.patches.into_iter().map(|p| (p.architecture, p.upload_id, p.libapp_hash)).collect();
                    assert_eq!(got, vec![
                        (String::from("arm64-v8a"), String::from("u-arm"), content_hash(b"new arm64 code")),
                        (String::from("x86_64"), String::from("u-x64"), content_hash(b"new x86_64 code")),
                    ]);
                }
                other => panic!("unexpected {:?}", other),
            }
        }
        other => panic!("unexpected {:?}", other),
    }
    match run.advance(PatchEvent::Replied { status: 201, body: String::from("[]") }) {
        PatchAction::DecodeRecords { body } => assert_eq!(body, "[]"),
        other => panic!("unexpected {:?}", other),
    }
    match run.advance(PatchEvent::Recorded { count: 2 }) {
        PatchAction::Finish { message } => assert_eq!(message, "Successfully created 2 patch artifact(s)!"),
        other => panic!("unexpected {:?}", other),
    }
    assert!(!run.accepts(&PatchEvent::Downloaded));
}

#[test]
fn patch_run_failures() {
    let start = || PatchRun::new(client(), String::from("a"), String::from("1"), String::from("android"), String::from("prod")).0;
    let mut run = start();
    match run.advance(PatchEvent::Built { succeeded: false, stderr: vec![3] }) {
        PatchAction::Fail(e) => assert_eq!(e.message(), "Command failed: [3]"),
        other => panic!("unexpected {:?}", other),
    }
    let mut run = start();
    run.advance(PatchEvent::Built { succeeded: true, stderr: vec![] });
    assert!(matches!(run.advance(PatchEvent::ApkChecked { present: false }), PatchAction::Fail(PatchError::ApkMissing)));

    let mut run = start();
    run.advance(PatchEvent::Built { succeeded: true, stderr: vec![] });
    run.advance(PatchEvent::ApkChecked { present: true });
    assert!(!run.accepts(&PatchEvent::DownloadRefused { status: 200, body: String::new() }));
    match run.advance(PatchEvent::DownloadRefused { status: 404, body: String::from(r#"{"error":"no release"}"#) }) {
        PatchAction::Fail(e) => assert_eq!(e.message(), "Download failed (404 Not Found): no release"),
        other => panic!("unexpected {:?}", other),
    }

    let mut run = start();
    run.advance(PatchEvent::Built { succeeded: true, stderr: vec![] });
    run.advance(PatchEvent::ApkChecked { present: true });
    run.advance(PatchEvent::Downloaded);
    let only_x86 = apk(&[("lib/x86/libapp.so", b"x")]);
    assert!(matches!(
        run.advance(PatchEvent::Loaded { base: only_x86.clone(), new: only_x86 }),
        PatchAction::Fail(PatchError::NoCommonArchitectures)
    ));

    let mut run = start();
    run.advance(PatchEvent::Built { succeeded: true, stderr: vec![] });
    run.advance(PatchEvent::ApkChecked { present: true });
    run.advance(PatchEvent::Downloaded);
    assert!(matches!(
        run.advance(PatchEvent::Loaded { base: b"not zip".to_vec(), new: b"x".to_vec() }),
        PatchAction::Fail(PatchError::Inspect(UtilError::ArchiveUnreadable { .. }))
    ));

    let mut run = start();
    let act = run.advance(PatchEvent::Broken(PatchError::Io { message: String::from("disk full") }));
    assert!(matches!(act, PatchAction::Fail(PatchError::Io { .. })));
    assert!(!run.accepts(&PatchEvent::Built { succeeded: true, stderr: vec![] }));
}

#[test]
fn release_run_end_to_end() {
    let (mut run, first) = ReleaseRun::new(client(), String::from("app-1"), Some(String::from("2.1.0")), String::from("android"), String::from("stage"));
    assert!(matches!(first, ReleaseAction::Build(_)));
    assert!(matches!(run.advance(ReleaseEvent::Built { succeeded: true, stderr: vec![] }), ReleaseAction::CheckApk { .. }));
    match run.advance(ReleaseEvent::ApkChecked { present: true }) {
        ReleaseAction::LoadApk { path } => assert_eq!(path, APK_PATH),
        other => panic!("unexpected {:?}", other),
    }
    match run.advance(ReleaseEvent::Loaded { contents: b"abc".to_vec() }) {
        ReleaseAction::Upload { path, content_type, file_hash } => {
            assert_eq!(path, APK_PATH);
            assert_eq!(content_type, APK_MIME);
            assert_eq!(file_hash, "6437b3ac38465133ffb63b75273a8db548c558465d79db03fd359c6cd5bd9d85");
        }
        other => panic!("unexpected {:?}", other),
    }
    match run.advance(ReleaseEvent::Uploaded { upload_id: String::from("up-1") }) {
        ReleaseAction::Send(r) => {
            assert_eq!(r.url, "https://wb.dev/api/apps/app-1/releases");
            match r.payload {
                Payload::CreateRelease(b) => {
                    assert_eq!(b.upload_key, "up-1");
                    assert_eq!(b.release_version, Some(String::from("2.1.0")));
                    assert_eq!(b.platform, "android");
                    assert_eq!(b.channel, "stage");
                    assert_eq!(b.file_hash, "6437b3ac38465133ffb63b75273a8db548c558465d79db03fd359c6cd5bd9d85");
                    assert_eq!(b.file_name, "app-release.apk");
                    assert_eq!(b.file_size, 3);
                    assert_eq!(b.file_type, APK_MIME);
                }
                other => panic!("unexpected {:?}", other),
            }
        }
        other => panic!("unexpected {:?}", other),
    }
    assert!(matches!(run.advance(ReleaseEvent::Replied { status: 200, body: String::from("{}") }), ReleaseAction::DecodeRelease { .. }));
    let data = ReleaseData { id: String::from("rel-5"), version: String::from("2.1.0"), platform: String::from("android"), channel: String::from("stage") };
    match run.advance(ReleaseEvent::Released(data)) {
        ReleaseAction::Finish { message } => assert_eq!(message, "Release created successfully (ID: rel-5)"),
        other => panic!("unexpected {:?}", other),
    }
}

#[test]
fn release_run_failures() {
    let start = || ReleaseRun::new(client(), String::from("a"), None, String::from("android"), String::from("prod")).0;
    let mut run = start();
    run.advance(ReleaseEvent::Built { succeeded: true, stderr: vec![] });
    match run.advance(ReleaseEvent::ApkChecked { present: false }) {
        ReleaseAction::Fail(e) => assert_eq!(
            e.message(),
            "Release APK build output not found at 'build/app/outputs/flutter-apk/app-release.apk'. Ensure 'flutter build apk --release' completed successfully."
        ),
        other => panic!("unexpected {:?}", other),
    }
    let mut run = start();
    run.advance(ReleaseEvent::Built { succeeded: true, stderr: vec![] });
    run.advance(ReleaseEvent::ApkChecked { present: true });
    run.advance(ReleaseEvent::Loaded { contents: vec![] });
    match run.advance(ReleaseEvent::Uploaded { upload_id: String::from("u") }) {
        ReleaseAction::Send(r) => match r.payload {
            Payload::CreateRelease(b) => {
                assert_eq!(b.release_version, None);
                assert_eq!(b.file_size, 0);
            }
            other => panic!("unexpected {:?}", other),
        },
        other => panic!("unexpected {:?}", other),
    }
    match run.advance(ReleaseEvent::Replied { status: 422, body: String::from(r#"{"error":"duplicate version"}"#) }) {
        ReleaseAction::Fail(e) => assert_eq!(e.message(), "Request failed (422 Unprocessable Entity): duplicate version"),
        other => panic!("unexpected {:?}", other),
    }
    assert_eq!(ReleaseError::Io { message: String::from("x") }.message(), "x");
    assert_eq!(ReleaseError::Build(UtilError::CommandFailed { stderr: vec![1] }).message(), "Command failed: [1]");
    assert_eq!(uploaded("k-1"), "Upload complete (key: k-1)");
    assert_eq!(released("r"), "Release created successfully (ID: r)");
}

#[test]
fn tampered_runs_are_inconsistent() {
    let base = apk(&[("lib/x86_64/libapp.so", b"a")]);
    let new = apk(&[("lib/x86_64/libapp.so", b"b")]);
    let mut run = PatchRun::new(client(), String::from("a"), String::from("1"), String::from("android"), String::from("prod")).0;
    assert!(run.consistent());
    let pending = || content_hash(b"b");
    run.stage = PatchStage::Patching { base: base.clone(), new: new.clone(), architectures: strings(&["x86_64"]), done: Vec::new(), pending_hash: pending() };
    assert!(run.consistent());
    run.stage = PatchStage::Patching { base: base.clone(), new: new.clone(), architectures: strings(&["x86_64"]), done: Vec::new(), pending_hash: content_hash(b"a") };
    assert!(!run.consistent());
    run.stage = PatchStage::Patching { base: base.clone(), new: new.clone(), architectures: strings(&["arm64-v8a"]), done: Vec::new(), pending_hash: pending() };
    assert!(!run.consistent());
    run.stage = PatchStage::Patching { base: b"junk".to_vec(), new, architectures: strings(&["x86_64"]), done: Vec::new(), pending_hash: pending() };
    assert!(!run.consistent());
}

#[test]
fn upload_request_uses_the_given_name() {
    let c = client();
    let (mut flow, _) = c.upload_file("any/path.bin", "t", "app-1", "h");
    match flow.request_upload(Some(String::from("named.bin")), 5) {
        UploadAction::Send(r) => match r.payload {
            Payload::Upload(b) => {
                assert_eq!(b.file_name, "named.bin");
                assert_eq!(b.file_size, 5);
            }
            other => panic!("unexpected {:?}", other),
        },
        other => panic!("unexpected {:?}", other),
    }
    let (mut flow, _) = c.upload_file("any/path.bin", "t", "app-1", "h");
    assert!(matches!(flow.request_upload(None, 5), UploadAction::Fail(ApiError::InvalidFileName)));
    assert!(matches!(flow.stage, UploadStage::Failed));
}

#[test]
fn upload_sends_the_last_path_component() {
    let c = client();
    let (mut flow, _) = c.upload_file(".wingbird/patch_x86_64_1.0.0.patch", "application/octet-stream", "app-1", "h");
    match flow.advance(UploadEvent::Opened { size: 7 }) {
        UploadAction::Send(r) => match r.payload {
            Payload::Upload(b) => {
                assert_eq!(b.file_name, "patch_x86_64_1.0.0.patch");
                assert_eq!(b.file_type, "application/octet-stream");
            }
            other => panic!("unexpected {:?}", other),
        },
        other => panic!("unexpected {:?}", other),
    }
    let (mut flow, _) = c.upload_file("", "t", "a", "h");
    assert!(matches!(flow.advance(UploadEvent::Opened { size: 1 }), UploadAction::Fail(ApiError::InvalidFileName)));
    let (mut flow, _) = c.upload_file("..", "t", "a", "h");
    assert!(matches!(flow.advance(UploadEvent::Opened { size: 1 }), UploadAction::Fail(ApiError::InvalidFileName)));
    let (mut flow, _) = c.upload_file("out/foo.txt/.", "t", "a", "h");
    match flow.advance(UploadEvent::Opened { size: 2 }) {
        UploadAction::Send(r) => match r.payload {
            Payload::Upload(b) => assert_eq!(b.file_name, "foo.txt"),
            other => panic!("unexpected {:?}", other),
        },
        other => panic!("unexpected {:?}", other),
    }
}

#[test]
fn patched_library_applies_a_patch_to_the_released_apk() {
    let old_lib = b"released library bytes".repeat(10);
    let new_lib = b"rebuilt library, bytes!".repeat(10);
    let base = apk(&[("lib/arm64-v8a/libapp.so", &old_lib)]);
    let new = apk(&[("lib/arm64-v8a/libapp.so", &new_lib)]);
    let a = make_patch(&base, &new, "arm64-v8a", "3.0.0").unwrap();
    assert_eq!(patched_library(&base, "arm64-v8a", &a.contents).unwrap(), new_lib);
    match patched_library(&base, "arm64-v8a", b"not a patch") {
        Err(e @ PatchError::ApplyFailed { .. }) => assert_eq!(e.message(), "not a valid patch"),
        other => panic!("unexpected {:?}", other),
    }
    assert!(matches!(
        patched_library(&base, "x86_64", &a.contents),
        Err(PatchError::Inspect(UtilError::LibappMissing { .. }))
    ));
}
