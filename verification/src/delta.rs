//! Binary deltas in the bsdiff 4 format, through the `qbsdiff` crate.

use vstd::prelude::*;

verus! {

/// The bsdiff patch that turns `source` into `target`, or `None` when the
/// delta compressor reports an error.
pub uninterp spec fn bsdiff_patch(source: Seq<u8>, target: Seq<u8>) -> Option<Seq<u8>>;

/// What `qbsdiff::Bspatch::new(patch)` then `apply(source, ..)` writes, or
/// `None` when the patch is refused or applying it fails.
pub uninterp spec fn bspatch_output(source: Seq<u8>, patch: Seq<u8>) -> Option<Seq<u8>>;

/// `qbsdiff::Bsdiff::new(source, target).compare(..)` into a fresh buffer.
/// Claims: the buffer is the patch the crate produces for these two inputs,
/// and applying it to `source` with the crate's patcher gives `target` back
/// (the crate's documented purpose, a bsdiff 4 delta compressor and patcher,
/// which its own tests check by patching back);
/// an error is the text of the reported I/O error, whose words are not stated.
/// `Bsdiff::new` panics on a source longer than `qbsdiff::bsdiff::MAX_LENGTH`
/// (`i32::MAX`), so such sources are excluded.
#[verifier::external_body]
pub fn bsdiff(source: &[u8], target: &[u8]) -> (res: Result<Vec<u8>, String>)
    requires
        source@.len() <= i32::MAX,
    ensures
        match res {
            Ok(p) => bsdiff_patch(source@, target@) == Some(p@) && bspatch_output(source@, p@) == Some(target@),
            Err(_) => bsdiff_patch(source@, target@) is None,
        },
{
    let mut patch = Vec::new();
    match qbsdiff::Bsdiff::new(source, target).compare(std::io::Cursor::new(&mut patch)) {
        Ok(_) => Ok(patch),
        Err(e) => Err(e.to_string()),
    }
}

/// The number `bytes` spells in little-endian order.
pub open spec fn le_number(bytes: Seq<u8>) -> nat
    decreases bytes.len(),
{
    if bytes.len() == 0 {
        0
    } else {
        bytes[0] as nat + 256 * le_number(bytes.drop_first())
    }
}

/// A length field of a bsdiff 4 header as `qbsdiff` reads it into a `u64`:
/// the field is sign and magnitude, and a negative value wraps around.
pub open spec fn header_length(field: nat) -> nat {
    if field <= 0x8000_0000_0000_0000 {
        field
    } else {
        (0x1_0000_0000_0000_0000 - (field - 0x8000_0000_0000_0000)) as nat
    }
}

/// Whether `patch` has a bsdiff 4 header whose control and delta lengths,
/// with the header's own 32 bytes, do not fit in a `u64`: `Bspatch::new`
/// adds them up unchecked, which panics under overflow checks.
pub open spec fn header_overflows(patch: Seq<u8>) -> bool {
    &&& patch.len() >= 32
    &&& patch.subrange(0, 8) == seq![66u8, 83u8, 68u8, 73u8, 70u8, 70u8, 52u8, 48u8]
    &&& 32 + header_length(le_number(patch.subrange(8, 16))) + header_length(le_number(patch.subrange(16, 24)))
        > u64::MAX
}

/// `qbsdiff::Bspatch::new(patch)`, then `apply(source, ..)` into a fresh buffer.
/// Claims: the buffer is what the crate's patcher writes for these inputs;
/// an error (a refused header or a failed application) is the text of the
/// reported I/O error, whose words are not stated. A header whose lengths
/// overflow makes `Bspatch::new` panic, so such patches are excluded.
#[verifier::external_body]
pub(crate) fn bspatch(source: &[u8], patch: &[u8]) -> (res: Result<Vec<u8>, String>)
    requires
        !header_overflows(patch@),
    ensures
        match res {
            Ok(t) => bspatch_output(source@, patch@) == Some(t@),
            Err(_) => bspatch_output(source@, patch@) is None,
        },
{
    let mut target = Vec::new();
    match qbsdiff::Bspatch::new(patch) {
        Ok(p) => match p.apply(source, std::io::Cursor::new(&mut target)) {
            Ok(_) => Ok(target),
            Err(e) => Err(e.to_string()),
        },
        Err(e) => Err(e.to_string()),
    }
}

} // verus!
