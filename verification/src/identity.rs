//! Identities of accounts, signers and programs, and helpers on raw bytes.

use vstd::prelude::*;

verus! {

/// The 32-byte public identity of an account, a signer or a program.
#[derive(Clone, Copy, Debug, PartialEq, Eq, Hash)]
pub struct Identity {
    pub bytes: [u8; 32],
}

impl View for Identity {
    type V = Seq<u8>;

    open spec fn view(&self) -> Seq<u8> {
        self.bytes@
    }
}

/// Whether two byte arrays of one length hold the same bytes.
pub fn bytes_equal<const N: usize>(a: &[u8; N], b: &[u8; N]) -> (r: bool)
    ensures
        r == (a@ == b@),
        r == (*a == *b),
{
    let mut i: usize = 0;
    while i < N
        invariant
            i <= N,
            forall|j: int| 0 <= j < i ==> a@[j] == b@[j],
        decreases N - i,
    {
        if a[i] != b[i] {
            return false;
        }
        i += 1;
    }
    assert(a@ =~= b@);
    assert(*a =~= *b);
    true
}

/// Whether every byte of the slice is zero; true of the empty slice.
pub fn all_zero(bytes: &[u8]) -> (r: bool)
    ensures
        r == (forall|j: int| 0 <= j < bytes@.len() ==> bytes@[j] == 0),
{
    let mut i: usize = 0;
    while i < bytes.len()
        invariant
            i <= bytes@.len(),
            forall|j: int| 0 <= j < i ==> bytes@[j] == 0,
        decreases bytes@.len() - i,
    {
        if bytes[i] != 0 {
            return false;
        }
        i += 1;
    }
    true
}

impl Identity {
    /// The identity with the given bytes.
    pub fn new(bytes: [u8; 32]) -> (r: Identity)
        ensures
            r.bytes == bytes,
    {
        Identity { bytes }
    }

    /// Whether both identities are the same 32 bytes.
    pub fn same(&self, other: &Identity) -> (r: bool)
        ensures
            r == (*self == *other),
            r == (self@ == other@),
    {
        bytes_equal(&self.bytes, &other.bytes)
    }
}

/// Identities with the same bytes are the same identity.
pub proof fn lemma_same_identity(a: Identity, b: Identity)
    requires
        a@ == b@,
    ensures
        a == b,
{
    assert(a.bytes@ == b.bytes@);
    assert(a.bytes =~= b.bytes);
}

} // verus!
