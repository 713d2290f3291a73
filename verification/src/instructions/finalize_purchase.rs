//! The binding of the buyer's capsule to a purchase record: the one write
//! that a record takes after its creation, and it takes it once.

use vstd::prelude::*;
use crate::identity::Identity;
use crate::state::account::Account;
use crate::state::listing::ListingState;
use crate::state::marketplace::Marketplace;
use crate::text::{byte_len, stored_len};
use crate::state::purchase_record::{
    HandoffState, PurchaseRecord, PurchaseRecordView, MAX_CID_LEN,
};

verus! {

/// Why the binding of a capsule was refused.
#[derive(Clone, Copy, Debug, PartialEq, Eq, Structural)]
pub enum ErrorCode {
    /// Only the listing's seller or marketplace admin may finalize.
    UnauthorizedFinalize,
    /// Purchase record does not belong to the provided listing.
    RecordListingMismatch,
    /// Wrong marketplace for listing.
    WrongMarketplaceForListing,
    /// Buyer capsule CID cannot be empty.
    CidEmpty,
    /// Buyer capsule CID exceeds 64 bytes.
    CidTooLong,
    /// Purchase record already finalized (buyer capsule present).
    AlreadyFinalized,
    /// Missing marketplace-custody capsule on record.
    MissingMxeCapsuleOnRecord,
}

impl ErrorCode {
    /// The message that goes with the error.
    pub open spec fn spec_message(self) -> Seq<char> {
        match self {
            ErrorCode::UnauthorizedFinalize => "Only the listing's seller or marketplace admin may finalize."@,
            ErrorCode::RecordListingMismatch => "Purchase record does not belong to the provided listing."@,
            ErrorCode::WrongMarketplaceForListing => "Wrong marketplace for listing."@,
            ErrorCode::CidEmpty => "Buyer capsule CID cannot be empty."@,
            ErrorCode::CidTooLong => "Buyer capsule CID exceeds 64 chars."@,
            ErrorCode::AlreadyFinalized => "Purchase record already finalized (buyer capsule present)."@,
            ErrorCode::MissingMxeCapsuleOnRecord => "Missing MXE capsule on record; purchase not created by Phase-1 path."@,
        }
    }

    /// The message that goes with the error, for the one who made the
    /// request.
    pub fn message(&self) -> (r: &'static str)
        ensures
            r@ == self.spec_message(),
    {
        match self {
            ErrorCode::UnauthorizedFinalize => "Only the listing's seller or marketplace admin may finalize.",
            ErrorCode::RecordListingMismatch => "Purchase record does not belong to the provided listing.",
            ErrorCode::WrongMarketplaceForListing => "Wrong marketplace for listing.",
            ErrorCode::CidEmpty => "Buyer capsule CID cannot be empty.",
            ErrorCode::CidTooLong => "Buyer capsule CID exceeds 64 chars.",
            ErrorCode::AlreadyFinalized => "Purchase record already finalized (buyer capsule present).",
            ErrorCode::MissingMxeCapsuleOnRecord => "Missing MXE capsule on record; purchase not created by Phase-1 path.",
        }
    }
}

/// The accounts of the binding, as the ledger hands them over.
#[derive(Debug, PartialEq, Eq)]
pub struct FinalizePurchase {
    /// The signer: the listing's seller or the marketplace's admin.
    pub authority: Identity,
    pub marketplace: Account<Marketplace>,
    pub listing_state: Account<ListingState>,
    pub purchase_record: Account<PurchaseRecord>,
}

/// The notice that a capsule was bound to a purchase record.
#[derive(Debug, PartialEq, Eq)]
pub struct PurchaseSealed {
    pub listing: Identity,
    pub record: Identity,
    pub buyer: Identity,
    pub dek_capsule_for_buyer_cid: String,
    /// Who bound it: the seller or the admin.
    pub authority: Identity,
    pub timestamp: i64,
}

/// The first check that the binding of `cid` fails, in the order in which
/// the checks are made, or `None` where it passes them all.
pub open spec fn finalize_error(ctx: &FinalizePurchase, cid: Seq<char>) -> Option<ErrorCode> {
    let listing = ctx.listing_state.data;
    let record = ctx.purchase_record.data;
    if ctx.authority != listing.seller && ctx.authority != ctx.marketplace.data.admin {
        Some(ErrorCode::UnauthorizedFinalize)
    } else if record.listing != ctx.listing_state.key {
        Some(ErrorCode::RecordListingMismatch)
    } else if listing.marketplace != ctx.marketplace.key {
        Some(ErrorCode::WrongMarketplaceForListing)
    } else if record.dek_capsule_for_mxe_cid@.len() == 0 {
        Some(ErrorCode::MissingMxeCapsuleOnRecord)
    } else if cid.len() == 0 {
        Some(ErrorCode::CidEmpty)
    } else if stored_len(cid) > MAX_CID_LEN {
        Some(ErrorCode::CidTooLong)
    } else if record.dek_capsule_for_buyer_cid@.len() != 0 {
        Some(ErrorCode::AlreadyFinalized)
    } else {
        None
    }
}

/// The record with `cid` bound to it as the buyer's capsule.
pub open spec fn finalized_record(record: PurchaseRecordView, cid: Seq<char>) -> PurchaseRecordView {
    PurchaseRecordView { dek_capsule_for_buyer_cid: cid, ..record }
}

/// Binds the capsule `dek_capsule_for_buyer_cid` to the purchase record, at
/// the moment `now`.
///
/// The binding is refused with the first check it fails, and then nothing
/// has changed. Otherwise the record holds the capsule, nothing else of it
/// or of the other accounts has changed, and the result is the notice.
pub fn handler(
    ctx: &mut FinalizePurchase,
    dek_capsule_for_buyer_cid: String,
    now: i64,
) -> (r: Result<PurchaseSealed, ErrorCode>)
    ensures
        finalize_error(old(ctx), dek_capsule_for_buyer_cid@) matches Some(e) ==> r == Err::<
            PurchaseSealed,
            ErrorCode,
        >(e) && *final(ctx) == *old(ctx),
        finalize_error(old(ctx), dek_capsule_for_buyer_cid@) is None ==> {
            &&& r is Ok
            &&& *final(ctx) == (FinalizePurchase {
                purchase_record: Account {
                    key: old(ctx).purchase_record.key,
                    data: PurchaseRecord {
                        dek_capsule_for_buyer_cid: dek_capsule_for_buyer_cid,
                        ..old(ctx).purchase_record.data
                    },
                },
                ..*old(ctx)
            })
            &&& final(ctx).purchase_record.data@ == finalized_record(
                old(ctx).purchase_record.data@,
                dek_capsule_for_buyer_cid@,
            )
            &&& final(ctx).purchase_record.data@.is_finalized()
            &&& old(ctx).purchase_record.data@.wf() ==> final(ctx).purchase_record.data@.wf()
            &&& r->Ok_0 == (PurchaseSealed {
                listing: old(ctx).listing_state.key,
                record: old(ctx).purchase_record.key,
                buyer: old(ctx).purchase_record.data.buyer,
                dek_capsule_for_buyer_cid: dek_capsule_for_buyer_cid,
                authority: old(ctx).authority,
                timestamp: now,
            })
        },
{
    let is_seller = ctx.authority.same(&ctx.listing_state.data.seller);
    let is_admin = ctx.authority.same(&ctx.marketplace.data.admin);
    if !(is_seller || is_admin) {
        return Err(ErrorCode::UnauthorizedFinalize);
    }
    if !ctx.purchase_record.data.listing.same(&ctx.listing_state.key) {
        return Err(ErrorCode::RecordListingMismatch);
    }
    if !ctx.listing_state.data.marketplace.same(&ctx.marketplace.key) {
        return Err(ErrorCode::WrongMarketplaceForListing);
    }
    if ctx.purchase_record.data.dek_capsule_for_mxe_cid.as_str().is_empty() {
        return Err(ErrorCode::MissingMxeCapsuleOnRecord);
    }
    if dek_capsule_for_buyer_cid.as_str().is_empty() {
        return Err(ErrorCode::CidEmpty);
    }
    if byte_len(dek_capsule_for_buyer_cid.as_str()) > MAX_CID_LEN {
        return Err(ErrorCode::CidTooLong);
    }
    if !ctx.purchase_record.data.dek_capsule_for_buyer_cid.as_str().is_empty() {
        return Err(ErrorCode::AlreadyFinalized);
    }
    ctx.purchase_record.data.dek_capsule_for_buyer_cid = dek_capsule_for_buyer_cid.clone();
    Ok(
        PurchaseSealed {
            listing: ctx.listing_state.key,
            record: ctx.purchase_record.key,
            buyer: ctx.purchase_record.data.buyer,
            dek_capsule_for_buyer_cid,
            authority: ctx.authority,
            timestamp: now,
        },
    )
}

/// A capsule is bound at most once: once a record holds a capsule for the
/// buyer, every further binding is refused, whoever asks and whatever
/// capsule is offered.
pub proof fn lemma_finalized_record_refuses(ctx: &FinalizePurchase, cid: Seq<char>)
    requires
        ctx.purchase_record.data@.is_finalized(),
    ensures
        finalize_error(ctx, cid) is Some,
{
}

/// A binding succeeds only on a record that holds no capsule for the buyer
/// yet, and leaves one that does: the capsule goes from empty to set.
pub proof fn lemma_finalize_sets_capsule(ctx: &FinalizePurchase, cid: Seq<char>)
    requires
        finalize_error(ctx, cid) is None,
    ensures
        !ctx.purchase_record.data@.is_finalized(),
        finalized_record(ctx.purchase_record.data@, cid).is_finalized(),
        finalized_record(ctx.purchase_record.data@, cid).dek_capsule_for_buyer_cid == cid,
{
}

/// The binding ends the handoff: whatever state a record was in, it is
/// finalized afterwards, and a finalized record was not bound by this call.
pub proof fn lemma_finalize_ends_handoff(
    ctx: &FinalizePurchase,
    cid: Seq<char>,
    requested: bool,
    delivered: bool,
)
    requires
        finalize_error(ctx, cid) is None,
    ensures
        ctx.purchase_record.data@.handoff_state(requested, delivered) != HandoffState::Finalized,
        finalized_record(ctx.purchase_record.data@, cid).handoff_state(requested, delivered)
            == HandoffState::Finalized,
{
}

/// Two bindings on one record: where the first succeeds, a second by the
/// same parties with another well-formed capsule is refused as already
/// finalized, and the record keeps the first capsule.
pub proof fn lemma_second_finalize_fails(
    first: &FinalizePurchase,
    second: &FinalizePurchase,
    first_cid: Seq<char>,
    second_cid: Seq<char>,
)
    requires
        finalize_error(first, first_cid) is None,
        second.purchase_record.data@ == finalized_record(first.purchase_record.data@, first_cid),
        second.purchase_record.data.listing == first.purchase_record.data.listing,
        second.purchase_record.key == first.purchase_record.key,
        second.authority == first.authority,
        second.marketplace == first.marketplace,
        second.listing_state == first.listing_state,
        second_cid.len() > 0,
        stored_len(second_cid) <= MAX_CID_LEN,
    ensures
        finalize_error(second, second_cid) == Some(ErrorCode::AlreadyFinalized),
        second.purchase_record.data@.dek_capsule_for_buyer_cid == first_cid,
{
}

} // verus!
