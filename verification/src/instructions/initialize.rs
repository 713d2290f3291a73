//! The founding of a marketplace by its admin.

use vstd::prelude::*;
use crate::identity::Identity;
use crate::state::marketplace::{Marketplace, MAX_FEE_BPS, MAX_NAME_LEN};
use crate::text::{all_name_chars, byte_len, is_name_text, stored_len};

verus! {

/// Why the founding of a marketplace was refused.
#[derive(Clone, Copy, Debug, PartialEq, Eq, Structural)]
pub enum ErrorCode {
    /// Marketplace name exceeds 32 bytes
    NameTooLong,
    /// Seller fee exceeds 100% (10,000 basis points)
    InvalidFee,
    /// Marketplace name cannot be empty
    NameEmpty,
    /// Marketplace name contains invalid characters
    InvalidNameChars,
}

impl ErrorCode {
    /// The message that goes with the error.
    pub open spec fn spec_message(self) -> Seq<char> {
        match self {
            ErrorCode::NameTooLong => "Marketplace name exceeds 32 characters"@,
            ErrorCode::InvalidFee => "Seller fee exceeds 100% (10,000 basis points)"@,
            ErrorCode::NameEmpty => "Marketplace name cannot be empty"@,
            ErrorCode::InvalidNameChars => "Marketplace name contains invalid characters"@,
        }
    }

    /// The message that goes with the error, for the one who made the
    /// request.
    pub fn message(&self) -> (r: &'static str)
        ensures
            r@ == self.spec_message(),
    {
        match self {
            ErrorCode::NameTooLong => "Marketplace name exceeds 32 characters",
            ErrorCode::InvalidFee => "Seller fee exceeds 100% (10,000 basis points)",
            ErrorCode::NameEmpty => "Marketplace name cannot be empty",
            ErrorCode::InvalidNameChars => "Marketplace name contains invalid characters",
        }
    }
}

/// The accounts of the founding of a marketplace.
#[derive(Debug, PartialEq, Eq)]
pub struct Initialize {
    pub admin: Identity,
    /// The record of the marketplace, to be filled.
    pub marketplace: Marketplace,
    /// The authority over the treasury's payment account.
    pub treasury: Identity,
    /// The settlement currency.
    pub usdc_mint: Identity,
}

/// The bump seeds that the ledger derived for the accounts of the founding.
#[derive(Clone, Copy, Debug, PartialEq, Eq)]
pub struct InitializeBumps {
    pub marketplace: u8,
    pub treasury: u8,
}

/// The first check that the founding fails, in the order in which the
/// checks are made, or `None` where it passes them all.
pub open spec fn init_error(name: Seq<char>, seller_fee: u16) -> Option<ErrorCode> {
    if name.len() == 0 {
        Some(ErrorCode::NameEmpty)
    } else if stored_len(name) > MAX_NAME_LEN {
        Some(ErrorCode::NameTooLong)
    } else if !is_name_text(name) {
        Some(ErrorCode::InvalidNameChars)
    } else if seller_fee > MAX_FEE_BPS {
        Some(ErrorCode::InvalidFee)
    } else {
        None
    }
}

/// The marketplace that a successful founding yields: active from the
/// start.
pub open spec fn founded_marketplace(
    admin: Identity,
    treasury: Identity,
    usdc_mint: Identity,
    name: String,
    seller_fee: u16,
    marketplace_bump: u8,
    treasury_bump: u8,
    now: i64,
) -> Marketplace {
    Marketplace {
        admin: admin,
        treasury: treasury,
        treasury_bump: treasury_bump,
        seller_fee: seller_fee,
        token_mint: usdc_mint,
        is_active: true,
        bump: marketplace_bump,
        name: name,
        created_at: now,
    }
}

impl Initialize {
    /// Founds the marketplace under `name` with a fee of `seller_fee` basis
    /// points, at the moment `now`.
    ///
    /// The name must not be empty, must fit in 32 bytes and hold only
    /// letters, digits, spaces and underscores, and the fee must not exceed
    /// the whole price: the founding is refused with the first of these
    /// that fails, and then nothing has changed.
    pub fn init(&mut self, name: String, seller_fee: u16, bumps: &InitializeBumps, now: i64) -> (r:
        Result<(), ErrorCode>)
        ensures
            match init_error(name@, seller_fee) {
                Some(e) => r == Err::<(), ErrorCode>(e) && *final(self) == *old(self),
                None => {
                    &&& r is Ok
                    &&& *final(self) == (Initialize {
                        marketplace: founded_marketplace(
                            old(self).admin,
                            old(self).treasury,
                            old(self).usdc_mint,
                            name,
                            seller_fee,
                            bumps.marketplace,
                            bumps.treasury,
                            now,
                        ),
                        ..*old(self)
                    })
                    &&& final(self).marketplace.wf()
                },
            },
    {
        if name.as_str().is_empty() {
            return Err(ErrorCode::NameEmpty);
        }
        if byte_len(name.as_str()) > MAX_NAME_LEN {
            return Err(ErrorCode::NameTooLong);
        }
        if !all_name_chars(name.as_str()) {
            return Err(ErrorCode::InvalidNameChars);
        }
        if seller_fee > MAX_FEE_BPS {
            return Err(ErrorCode::InvalidFee);
        }
        self.marketplace = Marketplace {
            admin: self.admin,
            treasury: self.treasury,
            treasury_bump: bumps.treasury,
            seller_fee,
            token_mint: self.usdc_mint,
            is_active: true,
            bump: bumps.marketplace,
            name,
            created_at: now,
        };
        Ok(())
    }
}

} // verus!
