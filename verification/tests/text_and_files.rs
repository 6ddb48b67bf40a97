use std::io::Write;

use wingbird::hashing::blake3_hash;
use wingbird::text::{decimal_text, push_char, same_text, slice_chars, to_hex_lower};
use wingbird::utils::{
    architecture_of, architectures_in, compare_files, content_hash, detect_architectures,
    extract_libapp_so, hash_file, libapp_entry_name, run_command, UtilError,
};

fn apk(entries: &[(&str, &[u8])]) -> Vec<u8> {
    let mut w = zip::ZipWriter::new(std::io::Cursor::new(Vec::new()));
    for (name, data) in entries {
        w.start_file(
            *name,
            zip::write::SimpleFileOptions::default()
                .compression_method(zip::CompressionMethod::Stored),
        )
        .unwrap();
        w.write_all(data).unwrap();
    }
    w.finish().unwrap().into_inner()
}

#[test]
fn decimal_renders_without_leading_zeros() {
    assert_eq!(decimal_text(0), "0");
    assert_eq!(decimal_text(7), "7");
    assert_eq!(decimal_text(404), "404");
    assert_eq!(decimal_text(u64::MAX), "18446744073709551615");
}

#[test]
fn hex_is_lower_case_two_digits_per_byte() {
    assert_eq!(to_hex_lower(&[]), "");
    assert_eq!(to_hex_lower(&[0x00, 0xff, 0x1a, 0x0b]), "00ff1a0b");
}

#[test]
fn hex_of_distinct_bytes_differs() {
    assert_ne!(to_hex_lower(&[0x01, 0x10]), to_hex_lower(&[0x10, 0x01]));
}

#[test]
fn push_char_appends() {
    let mut s = String::from("ab");
    push_char(&mut s, 'é');
    assert_eq!(s, "abé");
}

#[test]
fn text_comparison_and_slicing() {
    assert!(same_text("x86_64", "x86_64"));
    assert!(!same_text("x86_64", "x86"));
    assert_eq!(slice_chars("lib/x86/libapp.so", 4, 7), "x86");
    assert_eq!(slice_chars("héllo", 1, 3), "él");
}

#[test]
fn libapp_entry_names() {
    assert_eq!(libapp_entry_name("arm64-v8a"), "lib/arm64-v8a/libapp.so");
    assert_eq!(architecture_of("lib/arm64-v8a/libapp.so"), Some(String::from("arm64-v8a")));
    assert_eq!(architecture_of(&libapp_entry_name("x86_64")), Some(String::from("x86_64")));
    assert_eq!(architecture_of("lib//libapp.so"), Some(String::new()));
    assert_eq!(architecture_of("lib/libapp.so"), None);
    assert_eq!(architecture_of("lib/x86/libflutter.so"), None);
    assert_eq!(architecture_of("assets/lib/x86/libapp.so"), None);
    assert_eq!(architecture_of(""), None);
}

#[test]
fn architectures_keep_entry_order() {
    let names = vec![
        String::from("AndroidManifest.xml"),
        String::from("lib/x86_64/libapp.so"),
        String::from("lib/x86_64/libflutter.so"),
        String::from("lib/arm64-v8a/libapp.so"),
    ];
    assert_eq!(architectures_in(&names), vec![String::from("x86_64"), String::from("arm64-v8a")]);
    assert!(architectures_in(&Vec::new()).is_empty());
}

#[test]
fn detect_architectures_reads_the_archive() {
    let bytes = apk(&[
        ("classes.dex", b"dex"),
        ("lib/armeabi-v7a/libapp.so", b"v7"),
        ("lib/arm64-v8a/libapp.so", b"v8"),
    ]);
    let archs = detect_architectures(&bytes).unwrap();
    assert_eq!(archs, vec![String::from("armeabi-v7a"), String::from("arm64-v8a")]);
}

#[test]
fn detect_architectures_refuses_non_archives() {
    let expected = zip::ZipArchive::new(std::io::Cursor::new(&b"not a zip"[..])).unwrap_err().to_string();
    match detect_architectures(b"not a zip") {
        Err(e @ UtilError::ArchiveUnreadable { .. }) => assert_eq!(e.message(), expected),
        other => panic!("unexpected {:?}", other),
    }
}

#[test]
fn extract_libapp_so_outcomes() {
    let bytes = apk(&[("lib/x86_64/libapp.so", b"native code")]);
    assert_eq!(extract_libapp_so(&bytes, "x86_64").unwrap(), b"native code".to_vec());
    match extract_libapp_so(&bytes, "arm64-v8a") {
        Err(e @ UtilError::LibappMissing { .. }) => {
            assert_eq!(e.message(), "libapp.so not found in APK for architecture arm64-v8a")
        }
        other => panic!("unexpected {:?}", other),
    }
    let expected = zip::ZipArchive::new(std::io::Cursor::new(&b"PK nonsense"[..])).unwrap_err().to_string();
    match extract_libapp_so(b"PK nonsense", "x86_64") {
        Err(UtilError::ArchiveUnreadable { message }) => assert_eq!(message, expected),
        other => panic!("unexpected {:?}", other),
    }
}

#[test]
fn util_error_messages() {
    assert_eq!(UtilError::ArchiveUnreadable { message: String::from("invalid Zip archive: x") }.message(), "invalid Zip archive: x");
    assert_eq!(UtilError::ArchiveCorrupt { message: String::from("corrupt deflate stream") }.message(), "corrupt deflate stream");
    assert_eq!(UtilError::CommandFailed { stderr: vec![] }.message(), "Command failed: []");
    assert_eq!(UtilError::CommandFailed { stderr: vec![1, 22, 255] }.message(), "Command failed: [1, 22, 255]");
}

#[test]
fn run_command_outcome() {
    assert!(run_command(true, vec![9]).is_ok());
    match run_command(false, vec![7, 8]) {
        Err(UtilError::CommandFailed { stderr }) => assert_eq!(stderr, vec![7, 8]),
        other => panic!("unexpected {:?}", other),
    }
}

#[test]
fn blake3_digests_known_values() {
    assert_eq!(
        content_hash(b"abc"),
        "6437b3ac38465133ffb63b75273a8db548c558465d79db03fd359c6cd5bd9d85"
    );
    assert_eq!(
        content_hash(b""),
        "af1349b9f5f9a1a6a0404dea36dcc9499bcb25c9adc112b7cc9a93cae41f3262"
    );
    assert_eq!(hash_file(b"abc").len(), 32);
    assert_eq!(hash_file(b"abc"), blake3_hash(b"abc"));
    assert_ne!(hash_file(b"abc"), b"abc".to_vec());
}

#[test]
fn compare_files_by_digest() {
    assert!(compare_files(b"same", b"same"));
    assert!(compare_files(b"", b""));
    assert!(!compare_files(b"same", b"Same"));
}
