//! The assembling of the leaf under which a compressed record is stored.

use vstd::prelude::*;
use crate::identity::Identity;

verus! {

/// Why a leaf could not be assembled.
#[derive(Clone, Copy, Debug, PartialEq, Eq, Structural)]
pub enum ErrorCode {
    HashingError,
}

/// Why the leaf of a listing could not be assembled.
#[derive(Clone, Copy, Debug, PartialEq, Eq, Structural)]
pub enum ListingError {
    /// Failed to hash compressed listing data
    HashingError,
}

impl ErrorCode {
    /// The message that goes with the error.
    pub open spec fn spec_message(self) -> Seq<char> {
        match self {
            ErrorCode::HashingError => "HashingError"@,
        }
    }

    /// The message that goes with the error, for the one who made the
    /// request.
    pub fn message(&self) -> (r: &'static str)
        ensures
            r@ == self.spec_message(),
    {
        match self {
            ErrorCode::HashingError => "HashingError",
        }
    }
}

impl ListingError {
    /// The message that goes with the error.
    pub open spec fn spec_message(self) -> Seq<char> {
        match self {
            ListingError::HashingError => "Failed to hash compressed listing data"@,
        }
    }

    /// The message that goes with the error, for the one who made the
    /// request.
    pub fn message(&self) -> (r: &'static str)
        ensures
            r@ == self.spec_message(),
    {
        match self {
            ListingError::HashingError => "Failed to hash compressed listing data",
        }
    }
}

/// The stored form of a record: the mark of its kind, its bytes and their
/// hash.
#[derive(Debug, PartialEq, Eq)]
pub struct CompressedAccountData {
    pub discriminator: [u8; 8],
    pub data: Vec<u8>,
    pub data_hash: [u8; 32],
}

/// A compressed record and the program that owns it.
#[derive(Debug, PartialEq, Eq)]
pub struct CompressedAccount {
    pub owner: Identity,
    pub lamports: u64,
    pub address: Option<[u8; 32]>,
    pub data: Option<CompressedAccountData>,
}

/// A compressed record and the place of the tree that takes it.
#[derive(Debug, PartialEq, Eq)]
pub struct OutputCompressedAccountWithPackedContext {
    pub compressed_account: CompressedAccount,
    pub merkle_tree_index: u8,
}

/// Assembles the leaf for a record of `program_id` at `address`, from the
/// mark of its kind, its stored bytes and their hash.
///
/// Where the hash could not be made (`data_hash` is `None`) there is no
/// leaf. Otherwise the leaf belongs to the program, holds no funds, and
/// carries the address and the record unchanged.
pub fn create_output_account(
    program_id: Identity,
    merkle_tree_index: u8,
    discriminator: [u8; 8],
    data: Vec<u8>,
    data_hash: Option<[u8; 32]>,
    address: [u8; 32],
) -> (r: Result<OutputCompressedAccountWithPackedContext, ErrorCode>)
    ensures
        data_hash is None ==> r == Err::<OutputCompressedAccountWithPackedContext, ErrorCode>(
            ErrorCode::HashingError,
        ),
        data_hash matches Some(hash) ==> r == Ok::<
            OutputCompressedAccountWithPackedContext,
            ErrorCode,
        >(
            OutputCompressedAccountWithPackedContext {
                compressed_account: CompressedAccount {
                    owner: program_id,
                    lamports: 0,
                    address: Some(address),
                    data: Some(CompressedAccountData { discriminator, data, data_hash: hash }),
                },
                merkle_tree_index,
            },
        ),
{
    let data_hash = match data_hash {
        Some(hash) => hash,
        None => {
            return Err(ErrorCode::HashingError);
        },
    };
    Ok(
        OutputCompressedAccountWithPackedContext {
            compressed_account: CompressedAccount {
                owner: program_id,
                lamports: 0,
                address: Some(address),
                data: Some(CompressedAccountData { discriminator, data, data_hash }),
            },
            merkle_tree_index,
        },
    )
}

} // verus!
