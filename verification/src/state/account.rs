//! Records as the ledger hands them to an operation: a record together with
//! the address it is stored under, and the balance of a payment account.

use vstd::prelude::*;
use crate::identity::Identity;

verus! {

/// A record and the address under which the ledger stores it.
#[derive(Debug, PartialEq, Eq)]
pub struct Account<T> {
    pub key: Identity,
    pub data: T,
}

/// What settlement reads of a payment account in the settlement currency.
#[derive(Clone, Copy, Debug, PartialEq, Eq)]
pub struct TokenAccount {
    /// The identity that may spend from the account.
    pub owner: Identity,
    /// The currency that the account is denominated in.
    pub mint: Identity,
    /// The available balance.
    pub amount: u64,
}

/// An instruction to move `amount` of the settlement currency between two
/// payment accounts, signed by `authority`.
#[derive(Clone, Copy, Debug, PartialEq, Eq)]
pub struct Transfer {
    pub from: Identity,
    pub to: Identity,
    pub authority: Identity,
    pub amount: u64,
}

} // verus!
