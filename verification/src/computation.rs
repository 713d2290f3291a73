//! The boundary with the secure computation: what a request to it carries,
//! what comes back, and the routing keys of the circuits.

use vstd::prelude::*;
use crate::identity::Identity;

verus! {

/// Why an exchange with the secure computation was refused.
#[derive(Clone, Copy, Debug, PartialEq, Eq, Structural)]
pub enum ErrorCode {
    /// The computation was aborted
    AbortedComputation,
    /// Cluster not set
    ClusterNotSet,
    /// Unauthorized caller
    Unauthorized,
}

impl ErrorCode {
    /// The message that goes with the error.
    pub open spec fn spec_message(self) -> Seq<char> {
        match self {
            ErrorCode::AbortedComputation => "The computation was aborted"@,
            ErrorCode::ClusterNotSet => "Cluster not set"@,
            ErrorCode::Unauthorized => "Unauthorized caller"@,
        }
    }

    /// The message that goes with the error, for the one who made the
    /// request.
    pub fn message(&self) -> (r: &'static str)
        ensures
            r@ == self.spec_message(),
    {
        match self {
            ErrorCode::AbortedComputation => "The computation was aborted",
            ErrorCode::ClusterNotSet => "Cluster not set",
            ErrorCode::Unauthorized => "Unauthorized caller",
        }
    }
}

/// One argument of a request, tagged with how the computation reads it.
#[derive(Clone, Copy, Debug, PartialEq, Eq)]
pub enum Argument {
    /// A nonce in the clear.
    PlaintextU128(u128),
    /// An encrypted 32-bit value.
    EncryptedU32([u8; 32]),
    /// An encrypted 64-bit value.
    EncryptedU64([u8; 32]),
    /// The public key that the result is encrypted to.
    ArcisPubkey([u8; 32]),
}

/// An account that the computation hands on to the callback.
#[derive(Clone, Copy, Debug, PartialEq, Eq)]
pub struct CallbackAccount {
    pub pubkey: Identity,
    pub is_writable: bool,
}

/// A request to the secure computation, ready to be submitted.
#[derive(Debug, PartialEq, Eq)]
pub struct QueuedComputation {
    /// The identifier that the caller chose for the computation.
    pub computation_offset: u64,
    /// The routing key of the circuit.
    pub comp_def_offset: u32,
    pub args: Vec<Argument>,
    pub callback_accounts: Vec<CallbackAccount>,
}

/// What the secure computation hands to a callback.
#[derive(Debug, PartialEq, Eq)]
pub enum ComputationOutputs<O> {
    Success(O),
    Failure,
}

/// A value encrypted to a public key: the key material, the nonce and four
/// limbs of ciphertext.
#[derive(Clone, Copy, Debug, PartialEq, Eq)]
pub struct SharedEncryptedStruct {
    pub encryption_key: [u8; 32],
    pub nonce: u128,
    pub ciphertexts: [[u8; 32]; 4],
}

/// The circuits that the marketplace runs in the secure computation.
#[derive(Clone, Copy, Debug, PartialEq, Eq, Structural)]
pub enum Circuit {
    AddTogether,
    ComputeAccuracyScore,
    ResealDek,
}

/// The routing key that the secure computation derives from a circuit's name.
pub uninterp spec fn circuit_offset(name: Seq<char>) -> u32;

/// `comp_def_offset` of `arcium_anchor`: the routing key is a function of the
/// circuit's name alone.
#[verifier::external_body]
fn comp_def_offset(name: &str) -> (r: u32)
    ensures
        r == circuit_offset(name@),
{
    arcium_anchor::comp_def_offset(name)
}

impl Circuit {
    /// The name under which the circuit is registered.
    pub open spec fn spec_name(self) -> Seq<char> {
        match self {
            Circuit::AddTogether => "add_together"@,
            Circuit::ComputeAccuracyScore => "compute_accuracy_score"@,
            Circuit::ResealDek => "reseal_dek"@,
        }
    }

    /// The name under which the circuit is registered.
    pub fn name(&self) -> (r: &'static str)
        ensures
            r@ == self.spec_name(),
    {
        match self {
            Circuit::AddTogether => "add_together",
            Circuit::ComputeAccuracyScore => "compute_accuracy_score",
            Circuit::ResealDek => "reseal_dek",
        }
    }

    /// The routing key of the circuit: fixed by its name, once and for all.
    pub fn offset(&self) -> (r: u32)
        ensures
            r == circuit_offset(self.spec_name()),
    {
        comp_def_offset(self.name())
    }
}

/// Where the definition of a circuit is kept when it is not on the ledger.
#[derive(Debug, PartialEq, Eq)]
pub struct OffChainCircuitSource {
    pub source: String,
    pub hash: [u8; 32],
}

/// What the registration of a circuit's definition is made with.
#[derive(Debug, PartialEq, Eq)]
pub struct CompDefInit {
    pub circuit: Circuit,
    pub finalize_during_callback: bool,
    pub cu_amount: u64,
    pub circuit_source_override: Option<OffChainCircuitSource>,
    pub finalize_authority: Option<Identity>,
}

} // verus!
