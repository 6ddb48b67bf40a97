//! URL handling, percent-encoding, HTTP status reasons and JSON error bodies,
//! through the `reqwest` (`url`, `http`), `urlencoding` and `serde_json` crates,
//! and file names of paths, through `std::path`.

use vstd::prelude::*;
use vstd::string::*;
use crate::text::hex_digits_upper;

verus! {

/// Bytes that `urlencoding` leaves as they are: ASCII letters, digits and `-._~`.
pub open spec fn unreserved(b: u8) -> bool {
    (48 <= b <= 57) || (65 <= b <= 90) || (97 <= b <= 122) || b == 45 || b == 46 || b == 95
        || b == 126
}

/// Percent-encoding of `bytes`: unreserved bytes as themselves, every other
/// byte as `%` and two upper-case hexadecimal digits.
pub open spec fn percent_encode(bytes: Seq<u8>) -> Seq<char>
    decreases bytes.len(),
{
    if bytes.len() == 0 {
        Seq::empty()
    } else {
        let b = bytes.last();
        percent_encode(bytes.drop_last()) + if unreserved(b) {
            seq![b as char]
        } else {
            seq!['%', hex_digits_upper()[(b / 16) as int], hex_digits_upper()[(b % 16) as int]]
        }
    }
}

/// The serialization of `input` resolved against the URL `base`, or `None`
/// when `base` is not a URL or `input` cannot be resolved against it.
pub uninterp spec fn url_join(base: Seq<char>, input: Seq<char>) -> Option<Seq<char>>;

/// The serialization of the URL `text` parses to, or `None` when it is not one.
pub uninterp spec fn url_parse(text: Seq<char>) -> Option<Seq<char>>;

/// The canonical reason phrase of an HTTP status code, if it has one.
pub uninterp spec fn status_reason(code: u16) -> Option<Seq<char>>;

/// The string at the top-level key `key` of the JSON document `body`, if
/// `body` is JSON and that key holds a string.
pub uninterp spec fn json_field(body: Seq<char>, key: Seq<char>) -> Option<Seq<char>>;

/// `urlencoding::encode`.
/// Claims: every UTF-8 byte of `s` that is an ASCII letter, digit or one of
/// `-._~` is kept, every other byte becomes `%XX` in upper-case hexadecimal.
#[verifier::external_body]
pub fn url_encode(s: &str) -> (res: String)
    ensures
        res@ == percent_encode(s.spec_bytes()),
{
    urlencoding::encode(s).into_owned()
}

/// `reqwest::Url::parse(base)` followed by `Url::join(input)`, serialized.
/// Claims: the result is the named join of `input` onto `base`; an error is
/// the text of the `url` crate's `ParseError`, whose words are not stated.
#[verifier::external_body]
pub fn join_url(base: &str, input: &str) -> (res: Result<String, String>)
    ensures
        match res {
            Ok(u) => url_join(base@, input@) == Some(u@),
            Err(_) => url_join(base@, input@) is None,
        },
{
    match reqwest::Url::parse(base) {
        Ok(b) => match b.join(input) {
            Ok(u) => Ok(u.to_string()),
            Err(e) => Err(e.to_string()),
        },
        Err(e) => Err(e.to_string()),
    }
}

/// `reqwest::Url::parse`, serialized.
/// Claims: the result is the named parse of `text`; an error is the text of
/// the `url` crate's `ParseError`, whose words are not stated.
#[verifier::external_body]
pub fn parse_url(text: &str) -> (res: Result<String, String>)
    ensures
        match res {
            Ok(u) => url_parse(text@) == Some(u@),
            Err(_) => url_parse(text@) is None,
        },
{
    match reqwest::Url::parse(text) {
        Ok(u) => Ok(u.to_string()),
        Err(e) => Err(e.to_string()),
    }
}

/// `reqwest::StatusCode::from_u16(code)` then `canonical_reason`.
/// Claims: the result is the named reason phrase of `code`. Codes outside
/// `100..=999` are no status codes, so they are excluded.
#[verifier::external_body]
pub fn canonical_reason(code: u16) -> (res: Option<String>)
    requires
        100 <= code <= 999,
    ensures
        match res {
            Some(r) => status_reason(code) == Some(r@),
            None => status_reason(code) is None,
        },
{
    match reqwest::StatusCode::from_u16(code) {
        Ok(s) => match s.canonical_reason() {
            Some(r) => Some(String::from(r)),
            None => None,
        },
        Err(_) => None,
    }
}

/// `serde_json::from_str::<serde_json::Value>(body)`, then `.get(key)` and
/// `.as_str()`. Claims: the result is the named string at `key` in `body`.
#[verifier::external_body]
pub(crate) fn json_string_field(body: &str, key: &str) -> (res: Option<String>)
    ensures
        match res {
            Some(e) => json_field(body@, key@) == Some(e@),
            None => json_field(body@, key@) is None,
        },
{
    match serde_json::from_str::<serde_json::Value>(body) {
        Ok(v) => match v.get(key) {
            Some(e) => e.as_str().map(String::from),
            None => None,
        },
        Err(_) => None,
    }
}

/// What follows the last `/` of `path` (all of it when it holds none).
pub open spec fn last_segment(path: Seq<char>) -> Seq<char>
    decreases path.len(),
{
    if path.len() == 0 {
        path
    } else if path.last() == '/' {
        Seq::empty()
    } else {
        last_segment(path.drop_last()).push(path.last())
    }
}

/// Whether `part` stands somewhere in `whole` as a contiguous run.
pub open spec fn stands_in(part: Seq<char>, whole: Seq<char>) -> bool {
    exists|i: int| 0 <= i && i + part.len() <= whole.len() && #[trigger] whole.subrange(i, i + part.len()) == part
}

/// A path read the same way on every platform: it holds no backslash and no
/// `:` (so no Windows separator or prefix) and does not start with `//` (a
/// network share on Windows). Its components are then separated by `/` alone.
pub open spec fn portable_path(path: Seq<char>) -> bool {
    &&& !path.contains('\\')
    &&& !path.contains(':')
    &&& !(path.len() >= 2 && path[0] == '/' && path[1] == '/')
}

/// The final component of a portable path, as `Path::file_name` documents it:
/// trailing `/` and `.` segments are skipped (a leading `.` is the current
/// directory), a final `..`, the root and the empty path have none.
pub open spec fn final_name(path: Seq<char>) -> Option<Seq<char>>
    decreases path.len(),
{
    if path.len() == 0 {
        None
    } else if path.last() == '/' {
        final_name(path.drop_last())
    } else if last_segment(path) == seq!['.', '.'] {
        None
    } else if last_segment(path) == seq!['.'] {
        if path.len() == 1 {
            None
        } else {
            final_name(path.drop_last())
        }
    } else {
        Some(last_segment(path))
    }
}

/// The text of an optional string.
pub open spec fn text_of(o: Option<String>) -> Option<Seq<char>> {
    match o {
        Some(s) => Some(s@),
        None => None,
    }
}

/// `std::path::Path::file_name` of `path`, as text.
/// Claims: a file name is a non-empty run of `path` without `/` (a component
/// is a slice of the path, and `/` separates components on every platform;
/// a component of a `str` path is valid UTF-8, so `to_str` never fails); and
/// for a portable path it is `final_name`, which spells out the documented
/// rules (trailing `.` and separators skipped, none after `..`). Which
/// component is final in a path with a backslash, a drive prefix or a leading
/// `//` depends on the platform and is not stated.
#[verifier::external_body]
pub fn file_name_of(path: &str) -> (res: Option<String>)
    ensures
        res matches Some(n) ==> n@.len() > 0 && !n@.contains('/'),
        res matches Some(n) ==> stands_in(n@, path@),
        portable_path(path@) ==> text_of(res) == final_name(path@),
{
    match std::path::Path::new(path).file_name() {
        Some(n) => n.to_str().map(String::from),
        None => None,
    }
}

/// A percent-encoded text holds no `/`, `?`, `&` or `#`, so it stays within
/// one path segment or query value of a URL.
pub proof fn lemma_percent_encode_stays_in_segment(bytes: Seq<u8>)
    ensures
        forall|i: int| 0 <= i < percent_encode(bytes).len() ==> {
            let c = #[trigger] percent_encode(bytes)[i];
            c != '/' && c != '?' && c != '&' && c != '#'
        },
    decreases bytes.len(),
{
    if bytes.len() > 0 {
        lemma_percent_encode_stays_in_segment(bytes.drop_last());
        let rest = percent_encode(bytes.drop_last());
        let b = bytes.last();
        let tail = if unreserved(b) {
            seq![b as char]
        } else {
            seq!['%', hex_digits_upper()[(b / 16) as int], hex_digits_upper()[(b % 16) as int]]
        };
        assert(percent_encode(bytes) == rest + tail);
        assert forall|i: int| 0 <= i < percent_encode(bytes).len() implies {
            let c = #[trigger] percent_encode(bytes)[i];
            c != '/' && c != '?' && c != '&' && c != '#'
        } by {
            if i >= rest.len() {
                let c = tail[i - rest.len()];
                assert(percent_encode(bytes)[i] == c);
            } else {
                assert(percent_encode(bytes)[i] == rest[i]);
            }
        }
    }
}

} // verus!
