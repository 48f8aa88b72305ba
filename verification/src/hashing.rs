use vstd::prelude::*;

verus! {

/// The Keccak-256 digest of a byte string, as the Solana SDK computes it.
pub uninterp spec fn keccak256_digest(data: Seq<u8>) -> Seq<u8>;

/// Calls `solana_program::keccak::hashv` on the single slice `data` and takes
/// the digest's 32 bytes. The digest depends on the bytes alone.
#[verifier::external_body]
pub(crate) fn keccak256(data: &[u8]) -> (digest: [u8; 32])
    ensures
        digest@ == keccak256_digest(data@),
{
    anchor_lang::solana_program::keccak::hashv(&[data]).to_bytes()
}

} // verus!
