//! The creation of a listing by the owner of an active device.

use vstd::prelude::*;
use crate::identity::Identity;
use crate::state::account::Account;
use crate::state::device_registry::DeviceRegistry;
use crate::state::listing::{ListingState, STATUS_ACTIVE};
use crate::state::marketplace::Marketplace;
use crate::state::purchase_record::MAX_CID_LEN;
use crate::text::{byte_len, stored_len};

verus! {

/// Why the creation of a listing was refused.
#[derive(Clone, Copy, Debug, PartialEq, Eq, Structural)]
pub enum ErrorCode {
    /// Marketplace is not active
    MarketplaceInactive,
    /// Seller does not own the device
    Unauthorized,
    /// Device is not active
    DeviceInactive,
    /// Listing ID cannot be empty
    ListingIdEmpty,
    /// Price per unit must be greater than zero
    InvalidPrice,
    /// Total data units must be greater than zero
    InvalidDataUnits,
    /// Data CID cannot be empty
    DataCidEmpty,
    /// Data CID exceeds 64 bytes
    DataCidTooLong,
}

impl ErrorCode {
    /// The message that goes with the error.
    pub open spec fn spec_message(self) -> Seq<char> {
        match self {
            ErrorCode::MarketplaceInactive => "Marketplace is not active"@,
            ErrorCode::Unauthorized => "Unauthorized: Seller does not own the device"@,
            ErrorCode::DeviceInactive => "Device is not active"@,
            ErrorCode::ListingIdEmpty => "Listing ID cannot be empty"@,
            ErrorCode::InvalidPrice => "Price per unit must be greater than zero"@,
            ErrorCode::InvalidDataUnits => "Total data units must be greater than zero"@,
            ErrorCode::DataCidEmpty => "Data CID cannot be empty"@,
            ErrorCode::DataCidTooLong => "Data CID exceeds 64 characters"@,
        }
    }

    /// The message that goes with the error, for the one who made the
    /// request.
    pub fn message(&self) -> (r: &'static str)
        ensures
            r@ == self.spec_message(),
    {
        match self {
            ErrorCode::MarketplaceInactive => "Marketplace is not active",
            ErrorCode::Unauthorized => "Unauthorized: Seller does not own the device",
            ErrorCode::DeviceInactive => "Device is not active",
            ErrorCode::ListingIdEmpty => "Listing ID cannot be empty",
            ErrorCode::InvalidPrice => "Price per unit must be greater than zero",
            ErrorCode::InvalidDataUnits => "Total data units must be greater than zero",
            ErrorCode::DataCidEmpty => "Data CID cannot be empty",
            ErrorCode::DataCidTooLong => "Data CID exceeds 64 characters",
        }
    }
}

/// The accounts of the creation of a listing, as the ledger hands them over.
#[derive(Debug, PartialEq, Eq)]
pub struct CreateListing {
    pub seller: Identity,
    pub marketplace: Account<Marketplace>,
    pub device_registry: Account<DeviceRegistry>,
    /// The bump seed of the address under which the listing is stored.
    pub listing_bump: u8,
}

/// The first check that the creation fails, in the order in which the
/// checks are made, or `None` where it passes them all.
pub open spec fn create_listing_error(
    ctx: &CreateListing,
    listing_id: Seq<char>,
    data_cid: Seq<char>,
    price_per_unit: u64,
    total_data_units: u64,
) -> Option<ErrorCode> {
    if !ctx.marketplace.data.is_active {
        Some(ErrorCode::MarketplaceInactive)
    } else if ctx.device_registry.data.owner != ctx.seller {
        Some(ErrorCode::Unauthorized)
    } else if !ctx.device_registry.data.is_active {
        Some(ErrorCode::DeviceInactive)
    } else if listing_id.len() == 0 {
        Some(ErrorCode::ListingIdEmpty)
    } else if price_per_unit == 0 {
        Some(ErrorCode::InvalidPrice)
    } else if total_data_units == 0 {
        Some(ErrorCode::InvalidDataUnits)
    } else if data_cid.len() == 0 {
        Some(ErrorCode::DataCidEmpty)
    } else if stored_len(data_cid) > MAX_CID_LEN {
        Some(ErrorCode::DataCidTooLong)
    } else {
        None
    }
}

/// The listing that a successful creation yields: active, with its whole
/// inventory unsold and no purchase made.
pub open spec fn created_listing(
    ctx: &CreateListing,
    listing_id: String,
    data_cid: String,
    dek_capsule_for_mxe_cid: String,
    price_per_unit: u64,
    device_id: String,
    total_data_units: u64,
    expires_at: Option<i64>,
    now: i64,
) -> ListingState {
    ListingState {
        seller: ctx.seller,
        marketplace: ctx.marketplace.key,
        device: ctx.device_registry.key,
        device_id: device_id,
        listing_id: listing_id,
        data_cid: data_cid,
        dek_capsule_for_mxe_cid: dek_capsule_for_mxe_cid,
        price_per_unit: price_per_unit,
        status: STATUS_ACTIVE,
        total_data_units: total_data_units,
        remaining_units: total_data_units,
        token_mint: ctx.marketplace.data.token_mint,
        created_at: now,
        updated_at: now,
        expires_at: expires_at,
        bump: ctx.listing_bump,
        buyer: None,
        purchase_count: 0,
        sold_at: None,
    }
}

/// Creates a listing of `total_data_units` units at `price_per_unit` each,
/// at the moment `now`.
///
/// The creation is refused with the first check it fails: the marketplace
/// and the device must be active, the device must belong to the seller,
/// the identifier and the locator of the data must not be empty, the
/// locator must fit in 64 bytes, and price and units must not be zero.
pub fn handler(
    ctx: &CreateListing,
    listing_id: String,
    data_cid: String,
    dek_capsule_for_mxe_cid: String,
    price_per_unit: u64,
    device_id: String,
    total_data_units: u64,
    expires_at: Option<i64>,
    now: i64,
) -> (r: Result<ListingState, ErrorCode>)
    ensures
        match create_listing_error(ctx, listing_id@, data_cid@, price_per_unit, total_data_units) {
            Some(e) => r == Err::<ListingState, ErrorCode>(e),
            None => r == Ok::<ListingState, ErrorCode>(
                created_listing(
                    ctx,
                    listing_id,
                    data_cid,
                    dek_capsule_for_mxe_cid,
                    price_per_unit,
                    device_id,
                    total_data_units,
                    expires_at,
                    now,
                ),
            ) && r->Ok_0.wf(),
        },
{
    if !ctx.marketplace.data.is_active {
        return Err(ErrorCode::MarketplaceInactive);
    }
    if !ctx.device_registry.data.owner.same(&ctx.seller) {
        return Err(ErrorCode::Unauthorized);
    }
    if !ctx.device_registry.data.is_active {
        return Err(ErrorCode::DeviceInactive);
    }
    if listing_id.as_str().is_empty() {
        return Err(ErrorCode::ListingIdEmpty);
    }
    if price_per_unit == 0 {
        return Err(ErrorCode::InvalidPrice);
    }
    if total_data_units == 0 {
        return Err(ErrorCode::InvalidDataUnits);
    }
    if data_cid.as_str().is_empty() {
        return Err(ErrorCode::DataCidEmpty);
    }
    if byte_len(data_cid.as_str()) > MAX_CID_LEN {
        return Err(ErrorCode::DataCidTooLong);
    }
    Ok(
        ListingState {
            seller: ctx.seller,
            marketplace: ctx.marketplace.key,
            device: ctx.device_registry.key,
            device_id,
            listing_id,
            data_cid,
            dek_capsule_for_mxe_cid,
            price_per_unit,
            status: STATUS_ACTIVE,
            total_data_units,
            remaining_units: total_data_units,
            token_mint: ctx.marketplace.data.token_mint,
            created_at: now,
            updated_at: now,
            expires_at,
            bump: ctx.listing_bump,
            buyer: None,
            purchase_count: 0,
            sold_at: None,
        },
    )
}

} // verus!
