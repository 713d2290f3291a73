//! The record that ties the result of a secure computation to its request.

use vstd::prelude::*;
use crate::pda::Tag;

verus! {

/// What is kept of a request to the secure computation until its result
/// arrives, stored under the identity of the computation.
#[derive(Clone, Copy, Debug, PartialEq, Eq)]
pub struct QualityJob {
    /// The nonce of the protocol, as submitted with the request.
    pub nonce: u128,
    pub bump: u8,
    /// The moment of submission.
    pub created_at: i64,
}

/// The seed under which job records are stored.
pub fn job_seed() -> (r: Vec<u8>)
    ensures
        r@ == Tag::QualityJob.spec_bytes(),
{
    Tag::QualityJob.bytes()
}

/// The stored size of a job record without its header: nonce, bump, moment.
pub const QUALITY_JOB_SIZE: usize = 25;

} // verus!
