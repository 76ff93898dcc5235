//! SHA-256 digests, computed by the Solana program library.

use vstd::prelude::*;

verus! {

/// The SHA-256 digest of a byte string.
pub uninterp spec fn sha256_digest(data: Seq<u8>) -> Seq<u8>;

/// Calls `anchor_lang::solana_program::hash::hash` and unwraps the resulting
/// `Hash` with `to_bytes`. The digest is trusted to be the SHA-256 of exactly
/// the bytes given; nothing about it is proved here.
#[verifier::external_body]
pub(crate) fn sha256(data: &[u8]) -> (digest: [u8; 32])
    ensures
        digest@ == sha256_digest(data@),
{
    anchor_lang::solana_program::hash::hash(data).to_bytes()
}

/// Whether two 32-byte values agree in every byte.
///
/// Every byte is looked at, whatever the earlier ones held.
pub fn bytes32_eq(a: &[u8; 32], b: &[u8; 32]) -> (same: bool)
    ensures
        same <==> a@ == b@,
{
    let mut same = true;
    let mut i: usize = 0;
    while i < 32
        invariant
            i <= 32,
            same <==> forall|k: int| 0 <= k < i ==> a@[k] == b@[k],
        decreases 32 - i,
    {
        if a[i] != b[i] {
            same = false;
        }
        i += 1;
    }
    assert(same ==> a@ =~= b@);
    same
}

} // verus!
