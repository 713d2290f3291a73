//! The withdrawal of a listing by its seller.

use vstd::prelude::*;
use crate::identity::Identity;
use crate::state::account::Account;
use crate::state::listing::{ListingState, STATUS_ACTIVE, STATUS_CANCELLED};
use crate::state::marketplace::Marketplace;

verus! {

/// Why the withdrawal of a listing was refused.
#[derive(Clone, Copy, Debug, PartialEq, Eq, Structural)]
pub enum ErrorCode {
    /// Only the seller can cancel the listing
    Unauthorized,
    /// Listing is not active
    ListingNotActive,
}

impl ErrorCode {
    /// The message that goes with the error.
    pub open spec fn spec_message(self) -> Seq<char> {
        match self {
            ErrorCode::Unauthorized => "Unauthorized: Only the seller can cancel the listing"@,
            ErrorCode::ListingNotActive => "Listing is not active"@,
        }
    }

    /// The message that goes with the error, for the one who made the
    /// request.
    pub fn message(&self) -> (r: &'static str)
        ensures
            r@ == self.spec_message(),
    {
        match self {
            ErrorCode::Unauthorized => "Unauthorized: Only the seller can cancel the listing",
            ErrorCode::ListingNotActive => "Listing is not active",
        }
    }
}

/// The accounts of the withdrawal, as the ledger hands them over.
#[derive(Debug, PartialEq, Eq)]
pub struct CancelListing {
    pub seller: Identity,
    pub listing: Account<ListingState>,
    pub marketplace: Account<Marketplace>,
}

/// The check that the withdrawal fails, or `None` where it passes both.
pub open spec fn cancel_listing_error(ctx: &CancelListing) -> Option<ErrorCode> {
    if ctx.listing.data.seller != ctx.seller {
        Some(ErrorCode::Unauthorized)
    } else if ctx.listing.data.status != STATUS_ACTIVE {
        Some(ErrorCode::ListingNotActive)
    } else {
        None
    }
}

/// The listing after its withdrawal.
pub open spec fn cancelled_listing(listing: ListingState) -> ListingState {
    ListingState { status: STATUS_CANCELLED, ..listing }
}

impl CancelListing {
    /// Withdraws the listing: only its seller may, and only while it is
    /// active. A withdrawn listing stays withdrawn.
    ///
    /// On a refusal nothing has changed; otherwise only the listing's status
    /// has.
    pub fn handler(ctx: &mut CancelListing) -> (r: Result<(), ErrorCode>)
        ensures
            match cancel_listing_error(old(ctx)) {
                Some(e) => r == Err::<(), ErrorCode>(e) && *final(ctx) == *old(ctx),
                None => {
                    &&& r is Ok
                    &&& *final(ctx) == (CancelListing {
                        listing: Account {
                            key: old(ctx).listing.key,
                            data: cancelled_listing(old(ctx).listing.data),
                        },
                        ..*old(ctx)
                    })
                    &&& old(ctx).listing.data.wf() ==> final(ctx).listing.data.wf()
                },
            },
    {
        if !ctx.listing.data.seller.same(&ctx.seller) {
            return Err(ErrorCode::Unauthorized);
        }
        if ctx.listing.data.status != STATUS_ACTIVE {
            return Err(ErrorCode::ListingNotActive);
        }
        ctx.listing.data.status = STATUS_CANCELLED;
        Ok(())
    }
}

/// A withdrawn listing is never active again: it cannot be withdrawn a
/// second time.
pub proof fn lemma_cancelled_stays_cancelled(ctx: &CancelListing)
    requires
        ctx.listing.data.status == STATUS_CANCELLED,
    ensures
        cancel_listing_error(ctx) is Some,
{
}

} // verus!
