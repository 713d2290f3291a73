//! The digest under which encrypted results are committed to the ledger.

use vstd::prelude::*;

verus! {

/// The Keccak-256 digest of a sequence of bytes.
pub uninterp spec fn keccak256(data: Seq<u8>) -> Seq<u8>;

/// `keccak::hash` of `anchor_lang::solana_program`: the 32-byte digest is a
/// function of the bytes alone.
#[verifier::external_body]
pub(crate) fn keccak_hash(data: &[u8]) -> (r: [u8; 32])
    ensures
        r@ == keccak256(data@),
{
    anchor_lang::solana_program::keccak::hash(data).to_bytes()
}

} // verus!
