//! BLAKE3 digests, through the `blake3` crate.

use vstd::prelude::*;

verus! {

/// The 32-byte BLAKE3 digest of `data`.
pub uninterp spec fn blake3_digest(data: Seq<u8>) -> Seq<u8>;

/// `blake3::hash`, with the digest's bytes copied out.
/// Claims: the result is the digest of `data` and is 32 bytes long
/// (`blake3::OUT_LEN`).
#[verifier::external_body]
pub fn blake3_hash(data: &[u8]) -> (res: Vec<u8>)
    ensures
        res@ == blake3_digest(data@),
        res@.len() == 32,
{
    blake3::hash(data).as_bytes().to_vec()
}

} // verus!
