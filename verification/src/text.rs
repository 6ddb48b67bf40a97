//! Text building blocks: decimal and hexadecimal renderings and string
//! concatenation, each with an exact mathematical meaning.

use vstd::prelude::*;
use vstd::string::*;

verus! {

/// The ten decimal digits, in order.
pub open spec fn decimal_digits() -> Seq<char> {
    seq!['0', '1', '2', '3', '4', '5', '6', '7', '8', '9']
}

/// The sixteen lower-case hexadecimal digits, in order.
pub open spec fn hex_digits_lower() -> Seq<char> {
    seq!['0', '1', '2', '3', '4', '5', '6', '7', '8', '9', 'a', 'b', 'c', 'd', 'e', 'f']
}

/// The sixteen upper-case hexadecimal digits, in order.
pub open spec fn hex_digits_upper() -> Seq<char> {
    seq!['0', '1', '2', '3', '4', '5', '6', '7', '8', '9', 'A', 'B', 'C', 'D', 'E', 'F']
}

/// The usual base-ten rendering of `n`, without sign or leading zeros.
pub open spec fn decimal(n: nat) -> Seq<char>
    decreases n,
{
    if n < 10 {
        seq![decimal_digits()[n as int]]
    } else {
        decimal(n / 10).push(decimal_digits()[(n % 10) as int])
    }
}

/// Two lower-case hexadecimal digits per byte, high nibble first.
pub open spec fn hex_lower(bytes: Seq<u8>) -> Seq<char>
    decreases bytes.len(),
{
    if bytes.len() == 0 {
        Seq::empty()
    } else {
        let b = bytes.last();
        hex_lower(bytes.drop_last()) + seq![
            hex_digits_lower()[(b / 16) as int],
            hex_digits_lower()[(b % 16) as int],
        ]
    }
}

/// `std`'s `String::push`: appends one character at the end.
#[verifier::external_body]
pub fn push_char(s: &mut String, c: char)
    ensures
        final(s)@ == old(s)@.push(c),
{
    s.push(c);
}

/// A fresh string holding `s`.
pub fn string_of(s: &str) -> (res: String)
    ensures
        res@ == s@,
{
    String::from_str(s)
}

/// Appends `other` to `s`.
pub fn push_text(s: &mut String, other: &str)
    ensures
        final(s)@ == old(s)@ + other@,
{
    s.append(other);
}

/// The decimal digit `d`.
pub fn digit_char(d: u64) -> (c: char)
    requires
        d < 10,
    ensures
        c == decimal_digits()[d as int],
{
    if d == 0 { '0' }
    else if d == 1 { '1' }
    else if d == 2 { '2' }
    else if d == 3 { '3' }
    else if d == 4 { '4' }
    else if d == 5 { '5' }
    else if d == 6 { '6' }
    else if d == 7 { '7' }
    else if d == 8 { '8' }
    else { '9' }
}

/// The lower-case hexadecimal digit `d`.
pub fn hex_digit_lower(d: u8) -> (c: char)
    requires
        d < 16,
    ensures
        c == hex_digits_lower()[d as int],
{
    if d < 10 {
        digit_char(d as u64)
    } else if d == 10 { 'a' }
    else if d == 11 { 'b' }
    else if d == 12 { 'c' }
    else if d == 13 { 'd' }
    else if d == 14 { 'e' }
    else { 'f' }
}

/// Appends the decimal rendering of `n` to `s`.
pub fn push_decimal(s: &mut String, n: u64)
    ensures
        final(s)@ == old(s)@ + decimal(n as nat),
    decreases n,
{
    if n < 10 {
        push_char(s, digit_char(n));
    } else {
        push_decimal(s, n / 10);
        push_char(s, digit_char(n % 10));
    }
}

/// The decimal rendering of `n` as a new string.
pub fn decimal_text(n: u64) -> (res: String)
    ensures
        res@ == decimal(n as nat),
{
    let mut s = String::new();
    push_decimal(&mut s, n);
    assert(s@ =~= decimal(n as nat));
    s
}

/// Lower-case hexadecimal rendering of `bytes`, two digits per byte.
pub fn to_hex_lower(bytes: &[u8]) -> (res: String)
    ensures
        res@ == hex_lower(bytes@),
{
    let mut s = String::new();
    let n = bytes.len();
    assert(bytes@.take(0) =~= Seq::<u8>::empty());
    for i in 0..n
        invariant
            n == bytes@.len(),
            s@ == hex_lower(bytes@.take(i as int)),
    {
        let b = bytes[i];
        assert(bytes@.take(i + 1).drop_last() =~= bytes@.take(i as int));
        push_char(&mut s, hex_digit_lower(b / 16));
        push_char(&mut s, hex_digit_lower(b % 16));
        assert(s@ =~= hex_lower(bytes@.take(i + 1)));
    }
    assert(bytes@.take(n as int) =~= bytes@);
    s
}

/// Every lower-case hex rendering has two characters per byte.
pub proof fn lemma_hex_lower_len(bytes: Seq<u8>)
    ensures
        hex_lower(bytes).len() == 2 * bytes.len(),
    decreases bytes.len(),
{
    if bytes.len() > 0 {
        lemma_hex_lower_len(bytes.drop_last());
    }
}

/// Distinct byte strings have distinct hexadecimal renderings.
pub proof fn lemma_hex_lower_injective(a: Seq<u8>, b: Seq<u8>)
    requires
        hex_lower(a) == hex_lower(b),
    ensures
        a == b,
    decreases a.len(),
{
    lemma_hex_lower_len(a);
    lemma_hex_lower_len(b);
    if a.len() > 0 {
        lemma_hex_lower_len(a.drop_last());
        lemma_hex_lower_len(b.drop_last());
        let ha = hex_lower(a.drop_last());
        let hb = hex_lower(b.drop_last());
        let n = ha.len() as int;
        assert(hex_lower(a).subrange(0, n) =~= ha);
        assert(hex_lower(b).subrange(0, n) =~= hb);
        lemma_hex_lower_injective(a.drop_last(), b.drop_last());
        let x = a.last();
        let y = b.last();
        assert(hex_lower(a)[n] == hex_digits_lower()[(x / 16) as int]);
        assert(hex_lower(b)[n] == hex_digits_lower()[(y / 16) as int]);
        assert(hex_lower(a)[n + 1] == hex_digits_lower()[(x % 16) as int]);
        assert(hex_lower(b)[n + 1] == hex_digits_lower()[(y % 16) as int]);
        assert(x / 16 == y / 16);
        assert(x % 16 == y % 16);
        assert(a =~= a.drop_last().push(x));
        assert(b =~= b.drop_last().push(y));
    }
}


/// Whether `pat` occurs in `s` starting at character position `at`.
pub open spec fn occurs_at(s: Seq<char>, pat: Seq<char>, at: int) -> bool {
    0 <= at && at + pat.len() <= s.len() && s.subrange(at, at + pat.len()) == pat
}

/// Whether `pat` occurs in `s` at character position `at`.
pub fn matches_at(s: &str, pat: &str, at: usize) -> (res: bool)
    ensures
        res == occurs_at(s@, pat@, at as int),
{
    let n = s.unicode_len();
    let m = pat.unicode_len();
    if at > n || m > n - at {
        return false;
    }
    let mut j: usize = 0;
    while j < m
        invariant
            n == s@.len(),
            m == pat@.len(),
            at + m <= n,
            j <= m,
            forall|k: int| 0 <= k < j ==> s@[at + k] == pat@[k],
        decreases m - j,
    {
        if s.get_char(at + j) != pat.get_char(j) {
            assert(s@.subrange(at as int, at + m)[j as int] != pat@[j as int]);
            return false;
        }
        j = j + 1;
    }
    assert(s@.subrange(at as int, at + m) =~= pat@);
    true
}

/// The characters of `s` from position `from` up to, not including, `to`.
pub fn slice_chars(s: &str, from: usize, to: usize) -> (res: String)
    requires
        from <= to <= s@.len(),
    ensures
        res@ == s@.subrange(from as int, to as int),
{
    string_of(s.substring_char(from, to))
}

/// Whether two strings hold the same characters.
pub fn same_text(a: &str, b: &str) -> (res: bool)
    ensures
        res == (a@ == b@),
{
    let n = a.unicode_len();
    let m = b.unicode_len();
    if n != m {
        return false;
    }
    let r = matches_at(a, b, 0);
    assert(a@.subrange(0, n as int) =~= a@);
    r
}

/// Whether `c` is a lower-case hexadecimal digit.
pub open spec fn lower_hex_digit(c: char) -> bool {
    ('0' <= c && c <= '9') || ('a' <= c && c <= 'f')
}

/// The value of a lower-case hexadecimal digit.
pub open spec fn hex_digit_value(c: char) -> int {
    if '0' <= c && c <= '9' {
        c as int - '0' as int
    } else {
        c as int - 'a' as int + 10
    }
}

/// Each lower-case hexadecimal digit stands for its own value.
proof fn lemma_hex_digit_table(d: int)
    requires
        0 <= d < 16,
    ensures
        lower_hex_digit(hex_digits_lower()[d]),
        hex_digit_value(hex_digits_lower()[d]) == d,
{
    let t = hex_digits_lower();
    if d == 0 { assert(t[0] == '0'); } else if d == 1 { assert(t[1] == '1'); }
    else if d == 2 { assert(t[2] == '2'); } else if d == 3 { assert(t[3] == '3'); }
    else if d == 4 { assert(t[4] == '4'); } else if d == 5 { assert(t[5] == '5'); }
    else if d == 6 { assert(t[6] == '6'); } else if d == 7 { assert(t[7] == '7'); }
    else if d == 8 { assert(t[8] == '8'); } else if d == 9 { assert(t[9] == '9'); }
    else if d == 10 { assert(t[10] == 'a'); } else if d == 11 { assert(t[11] == 'b'); }
    else if d == 12 { assert(t[12] == 'c'); } else if d == 13 { assert(t[13] == 'd'); }
    else if d == 14 { assert(t[14] == 'e'); } else { assert(t[15] == 'f'); }
}

/// The lower-case hexadecimal rendering spells every byte, in order, as two
/// lower-case digits, the high half first: it has twice as many characters,
/// and digits `2i` and `2i + 1` read back as byte `i`.
pub proof fn lemma_hex_lower_spells_bytes(bytes: Seq<u8>)
    ensures
        hex_lower(bytes).len() == 2 * bytes.len(),
        forall|i: int| 0 <= i < bytes.len() ==> {
            &&& lower_hex_digit(#[trigger] hex_lower(bytes)[2 * i])
            &&& lower_hex_digit(hex_lower(bytes)[2 * i + 1])
            &&& hex_digit_value(hex_lower(bytes)[2 * i]) * 16 + hex_digit_value(hex_lower(bytes)[2 * i + 1])
                == bytes[i]
        },
    decreases bytes.len(),
{
    if bytes.len() > 0 {
        let init = bytes.drop_last();
        lemma_hex_lower_spells_bytes(init);
        let b = bytes.last();
        let hi = (b / 16) as int;
        let lo = (b % 16) as int;
        lemma_hex_digit_table(hi);
        lemma_hex_digit_table(lo);
        let rest = hex_lower(init);
        let h = hex_lower(bytes);
        assert(h == rest + seq![hex_digits_lower()[hi], hex_digits_lower()[lo]]);
        assert forall|i: int| 0 <= i < bytes.len() implies {
            &&& lower_hex_digit(#[trigger] hex_lower(bytes)[2 * i])
            &&& lower_hex_digit(hex_lower(bytes)[2 * i + 1])
            &&& hex_digit_value(hex_lower(bytes)[2 * i]) * 16 + hex_digit_value(hex_lower(bytes)[2 * i + 1])
                == bytes[i]
        } by {
            if i < init.len() {
                assert(h[2 * i] == rest[2 * i]);
                assert(h[2 * i + 1] == rest[2 * i + 1]);
                assert(init[i] == bytes[i]);
            } else {
                assert(i == init.len());
                assert(h[2 * i] == hex_digits_lower()[hi]);
                assert(h[2 * i + 1] == hex_digits_lower()[lo]);
                assert(hi * 16 + lo == b);
            }
        }
    }
}

} // verus!
