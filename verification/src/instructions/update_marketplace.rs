//! The admin's changes to a marketplace: its fee and whether it is active.

use vstd::prelude::*;
use crate::identity::Identity;
use crate::state::account::Account;
use crate::state::marketplace::{Marketplace, MAX_FEE_BPS};

verus! {

/// Why a change to the marketplace was refused.
#[derive(Clone, Copy, Debug, PartialEq, Eq, Structural)]
pub enum ErrorCode {
    /// Only the marketplace admin can update settings
    Unauthorized,
    /// Seller fee exceeds 100% (10,000 basis points)
    InvalidFee,
}

impl ErrorCode {
    /// The message that goes with the error.
    pub open spec fn spec_message(self) -> Seq<char> {
        match self {
            ErrorCode::Unauthorized => "Only the marketplace admin can update settings"@,
            ErrorCode::InvalidFee => "Seller fee exceeds 100% (10,000 basis points)"@,
        }
    }

    /// The message that goes with the error, for the one who made the
    /// request.
    pub fn message(&self) -> (r: &'static str)
        ensures
            r@ == self.spec_message(),
    {
        match self {
            ErrorCode::Unauthorized => "Only the marketplace admin can update settings",
            ErrorCode::InvalidFee => "Seller fee exceeds 100% (10,000 basis points)",
        }
    }
}

/// The accounts of a change to the marketplace.
#[derive(Debug, PartialEq, Eq)]
pub struct UpdateMarketplace {
    pub admin: Identity,
    pub marketplace: Account<Marketplace>,
}

/// The check that the change fails, or `None` where it passes both.
pub open spec fn update_marketplace_error(ctx: &UpdateMarketplace, new_fee: Option<u16>) -> Option<
    ErrorCode,
> {
    if ctx.marketplace.data.admin != ctx.admin {
        Some(ErrorCode::Unauthorized)
    } else if new_fee is Some && new_fee->Some_0 > MAX_FEE_BPS {
        Some(ErrorCode::InvalidFee)
    } else {
        None
    }
}

/// The marketplace after the change: each setting that is given replaces
/// the old one, each that is not stays.
pub open spec fn updated_marketplace(
    marketplace: Marketplace,
    new_fee: Option<u16>,
    is_active: Option<bool>,
) -> Marketplace {
    Marketplace {
        seller_fee: match new_fee {
            Some(fee) => fee,
            None => marketplace.seller_fee,
        },
        is_active: match is_active {
            Some(active) => active,
            None => marketplace.is_active,
        },
        ..marketplace
    }
}

/// Changes the fee of the marketplace, whether it is active, or both.
///
/// Only the admin may, and the fee may not exceed the whole price: a
/// refused change leaves everything as it was. A marketplace whose fee was
/// within that bound keeps it so.
pub fn handler(ctx: &mut UpdateMarketplace, new_fee: Option<u16>, is_active: Option<bool>) -> (r:
    Result<(), ErrorCode>)
    ensures
        match update_marketplace_error(old(ctx), new_fee) {
            Some(e) => r == Err::<(), ErrorCode>(e) && *final(ctx) == *old(ctx),
            None => {
                &&& r is Ok
                &&& *final(ctx) == (UpdateMarketplace {
                    marketplace: Account {
                        key: old(ctx).marketplace.key,
                        data: updated_marketplace(old(ctx).marketplace.data, new_fee, is_active),
                    },
                    ..*old(ctx)
                })
                &&& old(ctx).marketplace.data.wf() ==> final(ctx).marketplace.data.wf()
            },
        },
{
    if !ctx.marketplace.data.admin.same(&ctx.admin) {
        return Err(ErrorCode::Unauthorized);
    }
    if let Some(fee) = new_fee {
        if fee > MAX_FEE_BPS {
            return Err(ErrorCode::InvalidFee);
        }
        ctx.marketplace.data.seller_fee = fee;
    }
    if let Some(active) = is_active {
        ctx.marketplace.data.is_active = active;
    }
    Ok(())
}

} // verus!
