//! APK inspection and file-content helpers.

use vstd::prelude::*;
use vstd::string::*;
use crate::archive::{archive_entry, archive_names, zip_contents, zip_finds, zip_names, zip_opens, ZipEntry};
use crate::hashing::{blake3_digest, blake3_hash};
use crate::text::{
    decimal, hex_lower, lemma_hex_lower_len, matches_at, push_char, push_decimal, push_text,
    slice_chars, string_of, to_hex_lower,
};

verus! {

/// The directory prefix of native libraries inside an APK.
pub open spec fn lib_prefix() -> Seq<char> {
    seq!['l', 'i', 'b', '/']
}

/// The file that holds a Flutter application's compiled Dart code.
pub open spec fn libapp_suffix() -> Seq<char> {
    seq!['/', 'l', 'i', 'b', 'a', 'p', 'p', '.', 's', 'o']
}

/// The APK entry that holds `libapp.so` for architecture `arch`.
pub open spec fn libapp_entry(arch: Seq<char>) -> Seq<char> {
    lib_prefix() + arch + libapp_suffix()
}

/// The architecture whose `libapp.so` the entry `name` is, if it is one:
/// what lies between a leading `lib/` and a trailing `/libapp.so`.
pub open spec fn libapp_arch(name: Seq<char>) -> Option<Seq<char>> {
    let n = name.len();
    if n >= lib_prefix().len() + libapp_suffix().len()
        && name.subrange(0, 4) == lib_prefix()
        && name.subrange(n - 10, n as int) == libapp_suffix() {
        Some(name.subrange(4, n - 10))
    } else {
        None
    }
}

/// The architectures of the `libapp.so` entries among `names`, in order.
pub open spec fn architectures(names: Seq<Seq<char>>) -> Seq<Seq<char>>
    decreases names.len(),
{
    if names.len() == 0 {
        Seq::empty()
    } else {
        let rest = architectures(names.drop_last());
        match libapp_arch(names.last()) {
            Some(a) => rest.push(a),
            None => rest,
        }
    }
}

/// Why an APK could not be inspected, or a command failed.
#[derive(Debug)]
pub enum UtilError {
    /// The bytes are not a readable zip archive; the archive reader's error.
    ArchiveUnreadable { message: String },
    /// The APK has no `libapp.so` for the architecture.
    LibappMissing { arch: String },
    /// The `libapp.so` entry exists but could not be decompressed; the read error.
    ArchiveCorrupt { message: String },
    /// An external command exited unsuccessfully; its captured standard error.
    CommandFailed { stderr: Vec<u8> },
}

/// The Rust debug rendering of a list of bytes: `[1, 2, 3]`.
pub open spec fn byte_list(bytes: Seq<u8>) -> Seq<char>
    decreases bytes.len(),
{
    seq!['['] + byte_items(bytes) + seq![']']
}

/// The comma-separated decimal renderings of `bytes`.
pub open spec fn byte_items(bytes: Seq<u8>) -> Seq<char>
    decreases bytes.len(),
{
    if bytes.len() == 0 {
        Seq::empty()
    } else if bytes.len() == 1 {
        decimal(bytes[0] as nat)
    } else {
        byte_items(bytes.drop_last()) + seq![',', ' '] + decimal(bytes.last() as nat)
    }
}

/// The message an error of this module reads as.
pub open spec fn util_error_message(e: UtilError) -> Seq<char> {
    match e {
        UtilError::ArchiveUnreadable { message } => message@,
        UtilError::LibappMissing { arch } => "libapp.so not found in APK for architecture "@ + arch@,
        UtilError::ArchiveCorrupt { message } => message@,
        UtilError::CommandFailed { stderr } => "Command failed: "@ + byte_list(stderr@),
    }
}

impl UtilError {
    /// The text of this error.
    pub fn message(&self) -> (res: String)
        ensures
            res@ == util_error_message(*self),
    {
        match self {
            UtilError::ArchiveUnreadable { message } => string_of(message.as_str()),
            UtilError::LibappMissing { arch } => {
                let mut s = string_of("libapp.so not found in APK for architecture ");
                push_text(&mut s, arch.as_str());
                s
            },
            UtilError::ArchiveCorrupt { message } => string_of(message.as_str()),
            UtilError::CommandFailed { stderr } => {
                let mut s = string_of("Command failed: ");
                push_byte_list(&mut s, stderr.as_slice());
                s
            },
        }
    }
}

/// Appends the debug rendering of `bytes` to `s`.
pub fn push_byte_list(s: &mut String, bytes: &[u8])
    ensures
        final(s)@ == old(s)@ + byte_list(bytes@),
{
    let ghost start = s@;
    push_char(s, '[');
    let n = bytes.len();
    assert(bytes@.take(0) =~= Seq::<u8>::empty());
    for i in 0..n
        invariant
            n == bytes@.len(),
            s@ == start + seq!['['] + byte_items(bytes@.take(i as int)),
    {
        assert(bytes@.take(i + 1).drop_last() =~= bytes@.take(i as int));
        if i > 0 {
            push_char(s, ',');
            push_char(s, ' ');
        }
        push_decimal(s, bytes[i] as u64);
        assert(s@ =~= start + seq!['['] + byte_items(bytes@.take(i + 1)));
    }
    assert(bytes@.take(n as int) =~= bytes@);
    push_char(s, ']');
    assert(s@ =~= start + byte_list(bytes@));
}

/// The outcome of running an external command: success, or the failure
/// carrying the command's captured standard error.
pub fn run_command(succeeded: bool, stderr: Vec<u8>) -> (res: Result<(), UtilError>)
    ensures
        succeeded ==> res is Ok,
        !succeeded ==> res == Err::<(), UtilError>(UtilError::CommandFailed { stderr }),
{
    if succeeded {
        Ok(())
    } else {
        Err(UtilError::CommandFailed { stderr })
    }
}

/// The APK entry name of `libapp.so` for `arch`.
pub fn libapp_entry_name(arch: &str) -> (res: String)
    ensures
        res@ == libapp_entry(arch@),
{
    proof {
        reveal_strlit("lib/");
        reveal_strlit("/libapp.so");
    }
    let mut s = string_of("lib/");
    push_text(&mut s, arch);
    push_text(&mut s, "/libapp.so");
    s
}

/// The architecture named by a `lib/<arch>/libapp.so` entry, if `name` is one.
pub fn architecture_of(name: &str) -> (res: Option<String>)
    ensures
        res.is_some() == libapp_arch(name@).is_some(),
        res matches Some(a) ==> libapp_arch(name@) == Some(a@),
{
    proof {
        reveal_strlit("lib/");
        reveal_strlit("/libapp.so");
    }
    assert("lib/"@ =~= lib_prefix());
    assert("/libapp.so"@ =~= libapp_suffix());
    let n = name.unicode_len();
    if n < 14 {
        return None;
    }
    if matches_at(name, "lib/", 0) && matches_at(name, "/libapp.so", n - 10) {
        Some(slice_chars(name, 4, n - 10))
    } else {
        None
    }
}

/// The architectures of all `lib/<arch>/libapp.so` entries among `names`.
pub fn architectures_in(names: &Vec<String>) -> (res: Vec<String>)
    ensures
        res.deep_view() == architectures(names.deep_view()),
{
    let mut res: Vec<String> = Vec::new();
    let n = names.len();
    let ghost all = names.deep_view();
    assert(all.take(0) =~= Seq::<Seq<char>>::empty());
    for i in 0..n
        invariant
            n == names.len(),
            all == names.deep_view(),
            res.deep_view() == architectures(all.take(i as int)),
    {
        assert(all.take(i + 1).drop_last() =~= all.take(i as int));
        assert(all.take(i + 1).last() == names[i as int]@);
        let ghost before = res.deep_view();
        match architecture_of(names[i].as_str()) {
            Some(a) => {
                res.push(a);
                assert(res.deep_view() =~= before.push(a@));
            },
            None => {},
        }
    }
    assert(all.take(n as int) =~= all);
    res
}

/// The architectures for which the APK `apk` ships a `libapp.so`, in the
/// order of the archive's entries.
pub fn detect_architectures(apk: &[u8]) -> (res: Result<Vec<String>, UtilError>)
    ensures
        !zip_opens(apk@) ==> (res matches Err(e) && e is ArchiveUnreadable),
        zip_opens(apk@) ==> (res matches Ok(v) && v.deep_view() == architectures(zip_names(apk@))),
        res matches Ok(v) ==> v.deep_view().no_duplicates(),
{
    match archive_names(apk) {
        Err(message) => Err(UtilError::ArchiveUnreadable { message }),
        Ok(names) => {
            proof { lemma_architectures_distinct(names.deep_view()); }
            Ok(architectures_in(&names))
        },
    }
}

/// The contents of `libapp.so` for `arch` inside the APK `apk`.
pub fn extract_libapp_so(apk: &[u8], arch: &str) -> (res: Result<Vec<u8>, UtilError>)
    ensures
        !zip_opens(apk@) ==> (res matches Err(e) && e is ArchiveUnreadable),
        zip_opens(apk@) && !zip_finds(apk@, libapp_entry(arch@)) ==>
            (res matches Err(UtilError::LibappMissing { arch: a }) && a@ == arch@),
        zip_opens(apk@) && zip_finds(apk@, libapp_entry(arch@)) ==> match zip_contents(apk@, libapp_entry(arch@)) {
            Some(c) => (res matches Ok(b) && b@ == c),
            None => (res matches Err(e) && e is ArchiveCorrupt),
        },
{
    let entry = libapp_entry_name(arch);
    match archive_entry(apk, entry.as_str()) {
        ZipEntry::Unreadable { message } => Err(UtilError::ArchiveUnreadable { message }),
        ZipEntry::Missing => Err(UtilError::LibappMissing { arch: string_of(arch) }),
        ZipEntry::Corrupt { message } => Err(UtilError::ArchiveCorrupt { message }),
        ZipEntry::Contents(b) => Ok(b),
    }
}

/// The BLAKE3 digest of a file's contents.
pub fn hash_file(contents: &[u8]) -> (res: Vec<u8>)
    ensures
        res@ == blake3_digest(contents@),
        res@.len() == 32,
{
    blake3_hash(contents)
}

/// The lower-case hexadecimal BLAKE3 digest of `data`, as sent to the server.
pub fn content_hash(data: &[u8]) -> (res: String)
    ensures
        res@ == hex_lower(blake3_digest(data@)),
        res@.len() == 64,
{
    let d = blake3_hash(data);
    proof { lemma_hex_lower_len(d@); }
    to_hex_lower(d.as_slice())
}

/// Whether two files' contents have the same BLAKE3 digest.
pub fn compare_files(a: &[u8], b: &[u8]) -> (res: bool)
    ensures
        res == (blake3_digest(a@) == blake3_digest(b@)),
{
    let ha = hash_file(a);
    let hb = hash_file(b);
    let mut i: usize = 0;
    while i < 32
        invariant
            ha@ == blake3_digest(a@),
            hb@ == blake3_digest(b@),
            ha@.len() == 32,
            hb@.len() == 32,
            i <= 32,
            forall|k: int| 0 <= k < i ==> ha@[k] == hb@[k],
        decreases 32 - i,
    {
        if ha[i] != hb[i] {
            assert(ha@[i as int] != hb@[i as int]);
            return false;
        }
        i = i + 1;
    }
    assert(ha@ =~= hb@);
    true
}

/// The architecture named by the `libapp.so` entry of `arch` is `arch`.
pub proof fn lemma_libapp_entry_roundtrip(arch: Seq<char>)
    ensures
        libapp_arch(libapp_entry(arch)) == Some(arch),
{
    let e = libapp_entry(arch);
    let n = e.len();
    assert(e.subrange(0, 4) =~= lib_prefix());
    assert(e.subrange(n - 10, n as int) =~= libapp_suffix());
    assert(e.subrange(4, n - 10) =~= arch);
}

/// An entry that names an architecture is that architecture's `libapp.so` entry.
pub proof fn lemma_libapp_arch_entry(name: Seq<char>)
    requires
        libapp_arch(name) is Some,
    ensures
        libapp_entry(libapp_arch(name).unwrap()) == name,
{
    let n = name.len();
    assert(name =~= name.subrange(0, 4) + name.subrange(4, n - 10) + name.subrange(n - 10, n as int));
}

/// Every architecture detected among `names` has its `libapp.so` entry among them.
pub proof fn lemma_detected_entry_listed(names: Seq<Seq<char>>, arch: Seq<char>)
    requires
        architectures(names).contains(arch),
    ensures
        names.contains(libapp_entry(arch)),
    decreases names.len(),
{
    let rest = architectures(names.drop_last());
    match libapp_arch(names.last()) {
        Some(a) => {
            if a == arch {
                lemma_libapp_arch_entry(names.last());
                assert(names[names.len() - 1] == libapp_entry(arch));
            } else {
                let i = choose|i: int| 0 <= i < architectures(names).len() && architectures(names)[i] == arch;
                assert(rest.push(a)[i] == arch);
                assert(i < rest.len());
                assert(rest.contains(arch));
                lemma_detected_entry_listed(names.drop_last(), arch);
                let j = choose|j: int| 0 <= j < names.drop_last().len() && names.drop_last()[j] == libapp_entry(arch);
                assert(names[j] == libapp_entry(arch));
            }
        },
        None => {
            lemma_detected_entry_listed(names.drop_last(), arch);
            let j = choose|j: int| 0 <= j < names.drop_last().len() && names.drop_last()[j] == libapp_entry(arch);
            assert(names[j] == libapp_entry(arch));
        },
    }
}

/// An archive whose entry names are distinct yields each architecture once.
pub proof fn lemma_architectures_distinct(names: Seq<Seq<char>>)
    requires
        names.no_duplicates(),
    ensures
        architectures(names).no_duplicates(),
    decreases names.len(),
{
    if names.len() > 0 {
        let init = names.drop_last();
        assert(init.no_duplicates()) by {
            assert forall|i: int, j: int| 0 <= i < init.len() && 0 <= j < init.len() && i != j implies init[i] != init[j] by {
                assert(init[i] == names[i] && init[j] == names[j]);
            }
        }
        lemma_architectures_distinct(init);
        let rest = architectures(init);
        match libapp_arch(names.last()) {
            Some(a) => {
                if rest.contains(a) {
                    lemma_detected_entry_listed(init, a);
                    lemma_libapp_arch_entry(names.last());
                    let j = choose|j: int| 0 <= j < init.len() && init[j] == libapp_entry(a);
                    assert(names[j] == names[names.len() - 1]);
                    assert(false);
                }
                let all = rest.push(a);
                assert forall|i: int, j: int| 0 <= i < all.len() && 0 <= j < all.len() && i != j implies all[i] != all[j] by {
                    if i == rest.len() {
                        assert(all[j] == rest[j]);
                        if all[i] == all[j] { assert(rest.contains(a)); }
                    } else if j == rest.len() {
                        assert(all[i] == rest[i]);
                        if all[i] == all[j] { assert(rest.contains(a)); }
                    }
                }
            },
            None => {},
        }
    }
}

/// Files with the same contents compare as equal.
pub proof fn lemma_identical_files_compare_equal(a: Seq<u8>, b: Seq<u8>)
    requires
        a == b,
    ensures
        blake3_digest(a) == blake3_digest(b),
{
}

/// Detection misses nothing: every `lib/<arch>/libapp.so` entry among the
/// names, wherever it stands, has its architecture detected.
pub proof fn lemma_architectures_complete(names: Seq<Seq<char>>, name: Seq<char>)
    requires
        names.contains(name),
        libapp_arch(name) is Some,
    ensures
        architectures(names).contains(libapp_arch(name).unwrap()),
    decreases names.len(),
{
    let a = libapp_arch(name).unwrap();
    let init = names.drop_last();
    let rest = architectures(init);
    if names.last() == name {
        assert(rest.push(a)[rest.len() as int] == a);
    } else {
        let i = choose|i: int| 0 <= i < names.len() && names[i] == name;
        assert(i < init.len());
        assert(init[i] == name);
        lemma_architectures_complete(init, name);
        let j = choose|j: int| 0 <= j < rest.len() && rest[j] == a;
        match libapp_arch(names.last()) {
            Some(b) => {
                assert(rest.push(b)[j] == a);
            },
            None => {},
        }
    }
}

} // verus!
