//! Proofs and tree contexts in the forms in which requests carry them.

use vstd::prelude::*;
use crate::identity::Identity;

verus! {

/// A proof as a request carries it: four parts of 32 bytes.
#[derive(Clone, Copy, Debug, PartialEq, Eq)]
pub struct AnchorCompressedProof {
    pub a: [u8; 32],
    pub b0: [u8; 32],
    pub b1: [u8; 32],
    pub c: [u8; 32],
}

/// A proof as the ledger takes it: the two middle parts joined.
#[derive(Clone, Copy, Debug, PartialEq, Eq)]
pub struct CompressedProof {
    pub a: [u8; 32],
    pub b: [u8; 64],
    pub c: [u8; 32],
}

/// The address tree and its queue, by their places among the accounts of
/// a request.
#[derive(Clone, Copy, Debug, PartialEq, Eq)]
pub struct PackedAddressMerkleContext {
    pub address_merkle_tree_pubkey_index: u8,
    pub address_queue_pubkey_index: u8,
}

/// The address tree and its queue, by their identities.
#[derive(Clone, Copy, Debug, PartialEq, Eq)]
pub struct AddressMerkleContext {
    pub address_merkle_tree_pubkey: Identity,
    pub address_queue_pubkey: Identity,
}

/// Where a new address goes: the places of the tree and its queue, and the
/// index of the root that the proof was made against.
#[derive(Clone, Copy, Debug, PartialEq, Eq)]
pub struct NewAddressParams {
    pub address_merkle_tree_account_index: u8,
    pub address_queue_account_index: u8,
    pub address_merkle_tree_root_index: u16,
}

impl AnchorCompressedProof {
    /// The proof in the form the ledger takes: `b0` followed by `b1` make
    /// up the middle part.
    pub fn to_compressed_proof(&self) -> (r: CompressedProof)
        ensures
            r.a == self.a,
            r.b@ == self.b0@ + self.b1@,
            r.c == self.c,
    {
        let mut b = [0u8; 64];
        let mut i: usize = 0;
        while i < 32
            invariant
                i <= 32,
                b@.len() == 64,
                forall|j: int| 0 <= j < i ==> b@[j] == self.b0@[j],
                forall|j: int| 0 <= j < i ==> b@[32 + j] == self.b1@[j],
            decreases 32 - i,
        {
            b[i] = self.b0[i];
            b[32 + i] = self.b1[i];
            i += 1;
        }
        assert(b@ =~= self.b0@ + self.b1@);
        CompressedProof { a: self.a, b, c: self.c }
    }
}

} // verus!
