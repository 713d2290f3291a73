//! Settlement of a purchase: the request is validated, the fee is split off
//! the price, the listing's inventory is taken down and the purchase is
//! recorded. Nothing changes unless every check has passed.

use vstd::prelude::*;
use vstd::utf8::encode_utf8;
use crate::identity::Identity;
use crate::state::account::{Account, TokenAccount, Transfer};
use crate::state::device_registry::DeviceRegistry;
use crate::state::listing::{ListingState, ListingView, STATUS_ACTIVE, STATUS_SOLD_OUT};
use crate::state::marketplace::Marketplace;
use crate::state::purchase_record::{PurchaseRecord, PurchaseRecordView};

verus! {

/// Why a purchase was refused.
#[derive(Clone, Copy, Debug, PartialEq, Eq, Structural)]
pub enum ErrorCode {
    /// Listing is not active
    ListingNotActive,
    /// Cannot buy your own listing
    CannotBuyOwnListing,
    /// Listing has expired
    ListingExpired,
    /// Invalid number of units requested
    InvalidUnitsRequested,
    /// Insufficient funds
    InsufficientFunds,
    /// Insufficient units available
    InsufficientUnits,
    /// Math overflow
    MathOverflow,
    /// Device is inactive
    DeviceInactive,
    /// Wrong token mint for listing
    WrongMintForListing,
    /// Listing does not belong to marketplace
    WrongMarketplaceForListing,
    /// Listing does not belong to device
    WrongDeviceForListing,
    /// Payment account has wrong owner
    AtaWrongOwner,
    /// Payment account has wrong mint
    AtaWrongMint,
    /// Treasury authority does not match marketplace
    WrongTreasuryAuthority,
    /// The purchase index of the request does not match the listing's state
    PurchaseIndexMismatch,
}

impl ErrorCode {
    /// The message that goes with the error.
    pub open spec fn spec_message(self) -> Seq<char> {
        match self {
            ErrorCode::ListingNotActive => "Listing is not active"@,
            ErrorCode::CannotBuyOwnListing => "Cannot buy your own listing"@,
            ErrorCode::ListingExpired => "Listing has expired"@,
            ErrorCode::InvalidUnitsRequested => "Invalid number of units requested"@,
            ErrorCode::InsufficientFunds => "Insufficient funds"@,
            ErrorCode::InsufficientUnits => "Insufficient units available"@,
            ErrorCode::MathOverflow => "Math overflow"@,
            ErrorCode::DeviceInactive => "Device is inactive"@,
            ErrorCode::WrongMintForListing => "Wrong token mint for listing"@,
            ErrorCode::WrongMarketplaceForListing => "Listing does not belong to marketplace"@,
            ErrorCode::WrongDeviceForListing => "Listing does not belong to device"@,
            ErrorCode::AtaWrongOwner => "ATA has wrong owner/authority"@,
            ErrorCode::AtaWrongMint => "ATA has wrong mint"@,
            ErrorCode::WrongTreasuryAuthority => "Treasury PDA does not match marketplace"@,
            ErrorCode::PurchaseIndexMismatch => "Client purchase_index does not match on-chain state"@,
        }
    }

    /// The message that goes with the error, for the one who made the
    /// request.
    pub fn message(&self) -> (r: &'static str)
        ensures
            r@ == self.spec_message(),
    {
        match self {
            ErrorCode::ListingNotActive => "Listing is not active",
            ErrorCode::CannotBuyOwnListing => "Cannot buy your own listing",
            ErrorCode::ListingExpired => "Listing has expired",
            ErrorCode::InvalidUnitsRequested => "Invalid number of units requested",
            ErrorCode::InsufficientFunds => "Insufficient funds",
            ErrorCode::InsufficientUnits => "Insufficient units available",
            ErrorCode::MathOverflow => "Math overflow",
            ErrorCode::DeviceInactive => "Device is inactive",
            ErrorCode::WrongMintForListing => "Wrong token mint for listing",
            ErrorCode::WrongMarketplaceForListing => "Listing does not belong to marketplace",
            ErrorCode::WrongDeviceForListing => "Listing does not belong to device",
            ErrorCode::AtaWrongOwner => "ATA has wrong owner/authority",
            ErrorCode::AtaWrongMint => "ATA has wrong mint",
            ErrorCode::WrongTreasuryAuthority => "Treasury PDA does not match marketplace",
            ErrorCode::PurchaseIndexMismatch => "Client purchase_index does not match on-chain state",
        }
    }
}

/// The accounts of a purchase, as the ledger hands them over.
#[derive(Debug, PartialEq, Eq)]
pub struct PurchaseListing {
    pub buyer: Identity,
    pub buyer_ata: TokenAccount,
    pub marketplace: Account<Marketplace>,
    pub device_registry: Account<DeviceRegistry>,
    pub listing_state: Account<ListingState>,
    pub seller_ata: TokenAccount,
    /// The authority over the treasury's payment account.
    pub treasury: Identity,
    pub treasury_ata: TokenAccount,
    /// The settlement currency.
    pub usdc_mint: Identity,
    /// The addresses of the three payment accounts.
    pub buyer_ata_key: Identity,
    pub seller_ata_key: Identity,
    pub treasury_ata_key: Identity,
    /// The address under which the new purchase record is stored.
    pub purchase_record_key: Identity,
}

/// The notice of a settled purchase.
#[derive(Clone, Copy, Debug, PartialEq, Eq)]
pub struct ListingPurchased {
    pub listing_id: [u8; 32],
    pub buyer: Identity,
    pub seller: Identity,
    pub units_purchased: u64,
    pub price_paid: u64,
    pub fee: u64,
    pub remaining_units: u64,
    pub timestamp: i64,
}

/// The notice that a settled purchase awaits the resealing of its key.
#[derive(Debug, PartialEq, Eq)]
pub struct PurchaseFinalized {
    pub listing: Identity,
    pub record: Identity,
    pub buyer: Identity,
    pub buyer_x25519_pubkey: [u8; 32],
    pub dek_capsule_for_mxe_cid: String,
    pub timestamp: i64,
}

/// What a settled purchase leaves to be done and to be told.
#[derive(Debug, PartialEq, Eq)]
pub struct Settlement {
    /// The record of the purchase, to be stored under the record's address.
    pub record: PurchaseRecord,
    /// The first transfer: the fee, from the buyer to the treasury.
    pub fee_transfer: Transfer,
    /// The second transfer: the remainder, from the buyer to the seller.
    pub seller_transfer: Transfer,
    pub purchased: ListingPurchased,
    pub finalized: PurchaseFinalized,
}

/// The gross price of a number of units.
pub open spec fn price_for_units(price_per_unit: nat, units: nat) -> nat {
    price_per_unit * units
}

/// The fee on a price at a rate in basis points, rounded down.
pub open spec fn fee_for_price(price: nat, fee_bps: nat) -> nat {
    (price * fee_bps) / 10_000
}

/// The bytes of a listing identifier as notices carry them: the identifier
/// itself where it is 32 bytes long, and 32 zero bytes otherwise.
pub open spec fn listing_id_field(id: Seq<u8>) -> Seq<u8> {
    if id.len() == 32 {
        id
    } else {
        Seq::new(32, |i: int| 0u8)
    }
}

/// The first check that the request fails, in the order in which the checks
/// are made, or `None` where it passes them all: first that the accounts
/// belong together, then that the payment accounts have the expected owner
/// and currency, then the purchase index, then the rules of the sale, and
/// last the amounts.
pub open spec fn purchase_error(
    ctx: &PurchaseListing,
    units_requested: u64,
    purchase_index: u64,
    now: i64,
) -> Option<ErrorCode> {
    let listing = ctx.listing_state.data;
    let price = price_for_units(listing.price_per_unit as nat, units_requested as nat);
    if listing.marketplace != ctx.marketplace.key {
        Some(ErrorCode::WrongMarketplaceForListing)
    } else if listing.device != ctx.device_registry.key {
        Some(ErrorCode::WrongDeviceForListing)
    } else if listing.token_mint != ctx.usdc_mint {
        Some(ErrorCode::WrongMintForListing)
    } else if !ctx.device_registry.data.is_active {
        Some(ErrorCode::DeviceInactive)
    } else if ctx.treasury != ctx.marketplace.data.treasury {
        Some(ErrorCode::WrongTreasuryAuthority)
    } else if ctx.buyer_ata.owner != ctx.buyer {
        Some(ErrorCode::AtaWrongOwner)
    } else if ctx.buyer_ata.mint != ctx.usdc_mint {
        Some(ErrorCode::AtaWrongMint)
    } else if ctx.seller_ata.owner != listing.seller {
        Some(ErrorCode::AtaWrongOwner)
    } else if ctx.seller_ata.mint != ctx.usdc_mint {
        Some(ErrorCode::AtaWrongMint)
    } else if ctx.treasury_ata.owner != ctx.treasury {
        Some(ErrorCode::AtaWrongOwner)
    } else if ctx.treasury_ata.mint != ctx.usdc_mint {
        Some(ErrorCode::AtaWrongMint)
    } else if purchase_index != listing.purchase_count {
        Some(ErrorCode::PurchaseIndexMismatch)
    } else if units_requested == 0 {
        Some(ErrorCode::InvalidUnitsRequested)
    } else if listing.status != STATUS_ACTIVE {
        Some(ErrorCode::ListingNotActive)
    } else if listing.seller == ctx.buyer {
        Some(ErrorCode::CannotBuyOwnListing)
    } else if listing.expires_at is Some && now > listing.expires_at->Some_0 {
        Some(ErrorCode::ListingExpired)
    } else if units_requested > listing.remaining_units {
        Some(ErrorCode::InsufficientUnits)
    } else if price > u64::MAX {
        Some(ErrorCode::MathOverflow)
    } else if ctx.buyer_ata.amount < price {
        Some(ErrorCode::InsufficientFunds)
    } else if fee_for_price(price, ctx.marketplace.data.seller_fee as nat) > price {
        Some(ErrorCode::MathOverflow)
    } else if listing.purchase_count == u64::MAX {
        Some(ErrorCode::MathOverflow)
    } else {
        None
    }
}

/// The listing after `units` of it were sold to `buyer` at the moment `now`.
pub open spec fn settled_listing(listing: ListingView, buyer: Seq<u8>, units: nat, now: int) -> ListingView
    recommends
        units <= listing.remaining_units,
{
    let remaining = (listing.remaining_units - units) as nat;
    ListingView {
        remaining_units: remaining,
        updated_at: now,
        buyer: Some(buyer),
        status: if remaining == 0 {
            STATUS_SOLD_OUT
        } else {
            listing.status
        },
        sold_at: if remaining == 0 {
            Some(now)
        } else {
            listing.sold_at
        },
        purchase_count: listing.purchase_count + 1,
        ..listing
    }
}

/// The listing record after `units` of it were sold to `buyer` at the
/// moment `now`: six of its fields change, the others stay.
pub open spec fn settled_state(listing: ListingState, buyer: Identity, units: u64, now: i64) -> ListingState
    recommends
        units <= listing.remaining_units,
        listing.purchase_count < u64::MAX,
{
    let remaining = (listing.remaining_units - units) as u64;
    ListingState {
        remaining_units: remaining,
        updated_at: now,
        buyer: Some(buyer),
        status: if remaining == 0 {
            STATUS_SOLD_OUT
        } else {
            listing.status
        },
        sold_at: if remaining == 0 {
            Some(now)
        } else {
            listing.sold_at
        },
        purchase_count: (listing.purchase_count + 1) as u64,
        ..listing
    }
}

/// The model of the listing record after a sale is the model of the
/// listing after that sale.
pub proof fn lemma_settled_state_view(listing: ListingState, buyer: Identity, units: u64, now: i64)
    requires
        units <= listing.remaining_units,
        listing.purchase_count < u64::MAX,
    ensures
        settled_state(listing, buyer, units, now)@ == settled_listing(
            listing@,
            buyer@,
            units as nat,
            now as int,
        ),
{
}

/// The record of a purchase of `units` of `listing`, stored nowhere yet.
pub open spec fn purchase_record_of(
    listing_key: Seq<u8>,
    listing: ListingView,
    buyer: Seq<u8>,
    units: nat,
    fee_bps: nat,
    buyer_x25519_pubkey: Seq<u8>,
    now: int,
) -> PurchaseRecordView {
    let price = price_for_units(listing.price_per_unit, units);
    PurchaseRecordView {
        listing: listing_key,
        buyer: buyer,
        units_purchased: units,
        price_paid: price,
        fee: fee_for_price(price, fee_bps),
        timestamp: now,
        buyer_x25519_pubkey: buyer_x25519_pubkey,
        dek_capsule_for_mxe_cid: listing.dek_capsule_for_mxe_cid,
        dek_capsule_for_buyer_cid: Seq::<char>::empty(),
    }
}

/// The fee on `price` at `fee_bps` basis points, rounded down, where it does
/// not exceed the price; `None` where it does.
pub fn compute_fee(price: u64, fee_bps: u16) -> (r: Option<u64>)
    ensures
        r is Some <==> fee_for_price(price as nat, fee_bps as nat) <= price,
        r matches Some(fee) ==> fee == fee_for_price(price as nat, fee_bps as nat),
        fee_bps <= 10_000 ==> r is Some,
{
    let wide_price: u128 = price as u128;
    let wide_bps: u128 = fee_bps as u128;
    assert(wide_price * wide_bps <= 0xffff_ffff_ffff_ffff * 0xffff) by (nonlinear_arith)
        requires
            wide_price <= 0xffff_ffff_ffff_ffff,
            wide_bps <= 0xffff,
    ;
    let product: u128 = wide_price * wide_bps;
    let wide_fee: u128 = product / 10_000;
    proof {
        if fee_bps <= 10_000 {
            assert(product <= wide_price * 10_000) by (nonlinear_arith)
                requires
                    product == wide_price * wide_bps,
                    wide_bps <= 10_000,
            ;
        }
    }
    if wide_fee > wide_price {
        None
    } else {
        Some(wide_fee as u64)
    }
}

/// The bytes of a listing identifier as notices carry them.
pub fn listing_id_bytes(listing_id: &str) -> (r: [u8; 32])
    ensures
        r@ == listing_id_field(encode_utf8(listing_id@)),
{
    let bytes = listing_id.as_bytes();
    let mut out = [0u8; 32];
    if bytes.len() == 32 {
        let mut i: usize = 0;
        while i < 32
            invariant
                i <= 32,
                bytes@.len() == 32,
                out@.len() == 32,
                forall|j: int| 0 <= j < i ==> out@[j] == bytes@[j],
            decreases 32 - i,
        {
            out[i] = bytes[i];
            i += 1;
        }
        assert(out@ =~= bytes@);
    } else {
        assert(out@ =~= Seq::new(32, |i: int| 0u8));
    }
    out
}

/// Settles the purchase of `units_requested` units of the listing by the
/// buyer, at the moment `now`.
///
/// The request is refused with the first check it fails, and then nothing
/// has changed. Otherwise the listing's inventory is taken down, the listing
/// is sold out where nothing remains, its purchase count goes up by one, and
/// the result holds the purchase record, the two transfers that pay for it
/// (the fee and the remainder, which add up to the price) and the notices.
pub fn handler(
    ctx: &mut PurchaseListing,
    listing_id: String,
    units_requested: u64,
    buyer_x25519_pubkey: [u8; 32],
    purchase_index: u64,
    now: i64,
) -> (r: Result<Settlement, ErrorCode>)
    ensures
        purchase_error(old(ctx), units_requested, purchase_index, now) matches Some(e) ==> r == Err::<
            Settlement,
            ErrorCode,
        >(e) && *final(ctx) == *old(ctx),
        purchase_error(old(ctx), units_requested, purchase_index, now) is None ==> r is Ok && settled(
            old(ctx),
            final(ctx),
            r->Ok_0,
            encode_utf8(listing_id@),
            units_requested,
            buyer_x25519_pubkey,
            now,
        ),
        old(ctx).listing_state.data.wf() ==> final(ctx).listing_state.data.wf(),
{
    if !ctx.listing_state.data.marketplace.same(&ctx.marketplace.key) {
        return Err(ErrorCode::WrongMarketplaceForListing);
    }
    if !ctx.listing_state.data.device.same(&ctx.device_registry.key) {
        return Err(ErrorCode::WrongDeviceForListing);
    }
    if !ctx.listing_state.data.token_mint.same(&ctx.usdc_mint) {
        return Err(ErrorCode::WrongMintForListing);
    }
    if !ctx.device_registry.data.is_active {
        return Err(ErrorCode::DeviceInactive);
    }
    if !ctx.treasury.same(&ctx.marketplace.data.treasury) {
        return Err(ErrorCode::WrongTreasuryAuthority);
    }
    if !ctx.buyer_ata.owner.same(&ctx.buyer) {
        return Err(ErrorCode::AtaWrongOwner);
    }
    if !ctx.buyer_ata.mint.same(&ctx.usdc_mint) {
        return Err(ErrorCode::AtaWrongMint);
    }
    if !ctx.seller_ata.owner.same(&ctx.listing_state.data.seller) {
        return Err(ErrorCode::AtaWrongOwner);
    }
    if !ctx.seller_ata.mint.same(&ctx.usdc_mint) {
        return Err(ErrorCode::AtaWrongMint);
    }
    if !ctx.treasury_ata.owner.same(&ctx.treasury) {
        return Err(ErrorCode::AtaWrongOwner);
    }
    if !ctx.treasury_ata.mint.same(&ctx.usdc_mint) {
        return Err(ErrorCode::AtaWrongMint);
    }
    if purchase_index != ctx.listing_state.data.purchase_count {
        return Err(ErrorCode::PurchaseIndexMismatch);
    }
    if units_requested == 0 {
        return Err(ErrorCode::InvalidUnitsRequested);
    }
    if ctx.listing_state.data.status != STATUS_ACTIVE {
        return Err(ErrorCode::ListingNotActive);
    }
    if ctx.listing_state.data.seller.same(&ctx.buyer) {
        return Err(ErrorCode::CannotBuyOwnListing);
    }
    if let Some(expiry) = ctx.listing_state.data.expires_at {
        if now > expiry {
            return Err(ErrorCode::ListingExpired);
        }
    }
    if units_requested > ctx.listing_state.data.remaining_units {
        return Err(ErrorCode::InsufficientUnits);
    }
    let price_for_units: u64 = match ctx.listing_state.data.price_per_unit.checked_mul(units_requested) {
        Some(p) => p,
        None => {
            return Err(ErrorCode::MathOverflow);
        },
    };
    if ctx.buyer_ata.amount < price_for_units {
        return Err(ErrorCode::InsufficientFunds);
    }
    let fee: u64 = match compute_fee(price_for_units, ctx.marketplace.data.seller_fee) {
        Some(f) => f,
        None => {
            return Err(ErrorCode::MathOverflow);
        },
    };
    let amount_to_seller: u64 = price_for_units - fee;
    let next_count: u64 = match ctx.listing_state.data.purchase_count.checked_add(1) {
        Some(c) => c,
        None => {
            return Err(ErrorCode::MathOverflow);
        },
    };

    let remaining: u64 = ctx.listing_state.data.remaining_units - units_requested;
    ctx.listing_state.data.remaining_units = remaining;
    ctx.listing_state.data.updated_at = now;
    ctx.listing_state.data.buyer = Some(ctx.buyer);
    if remaining == 0 {
        ctx.listing_state.data.status = STATUS_SOLD_OUT;
        ctx.listing_state.data.sold_at = Some(now);
    }
    ctx.listing_state.data.purchase_count = next_count;

    let record = PurchaseRecord {
        listing: ctx.listing_state.key,
        buyer: ctx.buyer,
        units_purchased: units_requested,
        price_paid: price_for_units,
        fee,
        timestamp: now,
        buyer_x25519_pubkey,
        dek_capsule_for_mxe_cid: ctx.listing_state.data.dek_capsule_for_mxe_cid.clone(),
        dek_capsule_for_buyer_cid: String::new(),
    };
    let fee_transfer = Transfer {
        from: ctx.buyer_ata_key,
        to: ctx.treasury_ata_key,
        authority: ctx.buyer,
        amount: fee,
    };
    let seller_transfer = Transfer {
        from: ctx.buyer_ata_key,
        to: ctx.seller_ata_key,
        authority: ctx.buyer,
        amount: amount_to_seller,
    };
    let purchased = ListingPurchased {
        listing_id: listing_id_bytes(listing_id.as_str()),
        buyer: ctx.buyer,
        seller: ctx.listing_state.data.seller,
        units_purchased: units_requested,
        price_paid: price_for_units,
        fee,
        remaining_units: remaining,
        timestamp: now,
    };
    let finalized = PurchaseFinalized {
        listing: ctx.listing_state.key,
        record: ctx.purchase_record_key,
        buyer: ctx.buyer,
        buyer_x25519_pubkey,
        dek_capsule_for_mxe_cid: ctx.listing_state.data.dek_capsule_for_mxe_cid.clone(),
        timestamp: now,
    };
    Ok(Settlement { record, fee_transfer, seller_transfer, purchased, finalized })
}

/// What a settled purchase has changed and what it hands back.
pub open spec fn settled(
    before: &PurchaseListing,
    after: &PurchaseListing,
    out: Settlement,
    listing_id: Seq<u8>,
    units_requested: u64,
    buyer_x25519_pubkey: [u8; 32],
    now: i64,
) -> bool {
    let listing = before.listing_state.data@;
    let price = price_for_units(listing.price_per_unit, units_requested as nat);
    let fee = fee_for_price(price, before.marketplace.data.seller_fee as nat);
    &&& *after == (PurchaseListing {
        listing_state: Account {
            key: before.listing_state.key,
            data: settled_state(before.listing_state.data, before.buyer, units_requested, now),
        },
        ..*before
    })
    &&& after.listing_state.data@ == settled_listing(
        listing,
        before.buyer@,
        units_requested as nat,
        now as int,
    )
    &&& out.record.listing == before.listing_state.key
    &&& out.record.buyer == before.buyer
    &&& out.record.buyer_x25519_pubkey == buyer_x25519_pubkey
    &&& out.record.dek_capsule_for_mxe_cid == before.listing_state.data.dek_capsule_for_mxe_cid
    &&& out.record@ == purchase_record_of(
        before.listing_state.key@,
        listing,
        before.buyer@,
        units_requested as nat,
        before.marketplace.data.seller_fee as nat,
        buyer_x25519_pubkey@,
        now as int,
    )
    &&& out.record@.wf()
    &&& !out.record@.is_finalized()
    &&& out.fee_transfer == (Transfer {
        from: before.buyer_ata_key,
        to: before.treasury_ata_key,
        authority: before.buyer,
        amount: fee as u64,
    })
    &&& out.seller_transfer == (Transfer {
        from: before.buyer_ata_key,
        to: before.seller_ata_key,
        authority: before.buyer,
        amount: (price - fee) as u64,
    })
    &&& out.fee_transfer.amount + out.seller_transfer.amount == price
    &&& out.purchased.listing_id@ == listing_id_field(listing_id)
    &&& out.purchased.buyer == before.buyer
    &&& out.purchased.seller == before.listing_state.data.seller
    &&& out.purchased.units_purchased == units_requested
    &&& out.purchased.price_paid == price
    &&& out.purchased.fee == fee
    &&& out.purchased.remaining_units == listing.remaining_units - units_requested
    &&& out.purchased.timestamp == now
    &&& out.finalized.listing == before.listing_state.key
    &&& out.finalized.record == before.purchase_record_key
    &&& out.finalized.buyer == before.buyer
    &&& out.finalized.buyer_x25519_pubkey == buyer_x25519_pubkey
    &&& out.finalized.dek_capsule_for_mxe_cid == before.listing_state.data.dek_capsule_for_mxe_cid
    &&& out.finalized.timestamp == now
}

} // verus!
