use vstd::prelude::*;

verus! {

/// The SHA-256 digest of `data`, as `solana_program::hash::hash` computes
/// it.
pub uninterp spec fn sha256(data: Seq<u8>) -> Seq<u8>;

/// Calls `anchor_lang::solana_program::hash::hash` and takes the 32 bytes
/// out of the `Hash` it returns.
///
/// The contract only names the digest: it depends on the input bytes and
/// on nothing else.
#[verifier::external_body]
pub(crate) fn sha256_digest(data: &[u8]) -> (digest: [u8; 32])
    ensures
        digest@ == sha256(data@),
{
    anchor_lang::solana_program::hash::hash(data).to_bytes()
}

} // verus!
