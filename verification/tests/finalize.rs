use chain_sensors::identity::Identity;
use chain_sensors::instructions::finalize_purchase::{handler, ErrorCode, FinalizePurchase};
use chain_sensors::state::account::Account;
use chain_sensors::state::listing::{ListingState, STATUS_ACTIVE};
use chain_sensors::state::marketplace::Marketplace;
use chain_sensors::state::purchase_record::{HandoffState, PurchaseRecord};

fn id(n: u8) -> Identity {
    Identity::new([n; 32])
}

const ADMIN: u8 = 1;
const SELLER: u8 = 4;
const BUYER: u8 = 5;
const MARKETPLACE: u8 = 6;
const LISTING: u8 = 8;
const RECORD: u8 = 12;

fn accounts(authority: u8) -> FinalizePurchase {
    FinalizePurchase {
        authority: id(authority),
        marketplace: Account {
            key: id(MARKETPLACE),
            data: Marketplace {
                admin: id(ADMIN),
                treasury: id(2),
                treasury_bump: 254,
                seller_fee: 250,
                token_mint: id(3),
                is_active: true,
                bump: 255,
                name: "TestMarket".to_string(),
                created_at: 1_000,
            },
        },
        listing_state: Account {
            key: id(LISTING),
            data: ListingState {
                seller: id(SELLER),
                marketplace: id(MARKETPLACE),
                device: id(7),
                device_id: "device1".to_string(),
                listing_id: "listing1".to_string(),
                data_cid: "bafy-data".to_string(),
                dek_capsule_for_mxe_cid: "bafy-mxe-capsule".to_string(),
                price_per_unit: 100,
                status: STATUS_ACTIVE,
                total_data_units: 1000,
                remaining_units: 800,
                token_mint: id(3),
                created_at: 1_000,
                updated_at: 2_000,
                expires_at: None,
                bump: 252,
                buyer: Some(id(BUYER)),
                purchase_count: 1,
                sold_at: None,
            },
        },
        purchase_record: Account {
            key: id(RECORD),
            data: PurchaseRecord {
                listing: id(LISTING),
                buyer: id(BUYER),
                units_purchased: 200,
                price_paid: 20_000,
                fee: 500,
                timestamp: 2_000,
                buyer_x25519_pubkey: [9; 32],
                dek_capsule_for_mxe_cid: "bafy-mxe-capsule".to_string(),
                dek_capsule_for_buyer_cid: String::new(),
            },
        },
    }
}

#[test]
fn seller_binds_the_capsule() {
    let mut ctx = accounts(SELLER);
    let notice = handler(&mut ctx, "bafy-buyer-capsule".to_string(), 5_000).unwrap();
    assert_eq!(ctx.purchase_record.data.dek_capsule_for_buyer_cid, "bafy-buyer-capsule");
    assert_eq!(notice.listing, id(LISTING));
    assert_eq!(notice.record, id(RECORD));
    assert_eq!(notice.buyer, id(BUYER));
    assert_eq!(notice.dek_capsule_for_buyer_cid, "bafy-buyer-capsule");
    assert_eq!(notice.authority, id(SELLER));
    assert_eq!(notice.timestamp, 5_000);
    let mut expected = accounts(SELLER);
    expected.purchase_record.data.dek_capsule_for_buyer_cid = "bafy-buyer-capsule".to_string();
    assert_eq!(ctx, expected);
}

#[test]
fn admin_binds_the_capsule() {
    let mut ctx = accounts(ADMIN);
    let notice = handler(&mut ctx, "cid".to_string(), 5_000).unwrap();
    assert_eq!(notice.authority, id(ADMIN));
    assert_eq!(ctx.purchase_record.data.dek_capsule_for_buyer_cid, "cid");
}

#[test]
fn second_finalize_fails_and_keeps_the_first_capsule() {
    let mut ctx = accounts(SELLER);
    handler(&mut ctx, "first-cid".to_string(), 5_000).unwrap();
    let err = handler(&mut ctx, "second-cid".to_string(), 6_000).unwrap_err();
    assert_eq!(err, ErrorCode::AlreadyFinalized);
    assert_eq!(ctx.purchase_record.data.dek_capsule_for_buyer_cid, "first-cid");
    ctx.authority = id(ADMIN);
    let err = handler(&mut ctx, "third-cid".to_string(), 7_000).unwrap_err();
    assert_eq!(err, ErrorCode::AlreadyFinalized);
    assert_eq!(ctx.purchase_record.data.dek_capsule_for_buyer_cid, "first-cid");
}

#[test]
fn stranger_cannot_finalize() {
    let mut ctx = accounts(BUYER);
    let err = handler(&mut ctx, "cid".to_string(), 5_000).unwrap_err();
    assert_eq!(err, ErrorCode::UnauthorizedFinalize);
    assert_eq!(ctx, accounts(BUYER));
}

#[test]
fn record_of_another_listing_is_refused() {
    let mut ctx = accounts(SELLER);
    ctx.purchase_record.data.listing = id(99);
    assert_eq!(handler(&mut ctx, "cid".to_string(), 5_000).unwrap_err(), ErrorCode::RecordListingMismatch);
}

#[test]
fn listing_of_another_marketplace_is_refused() {
    let mut ctx = accounts(SELLER);
    ctx.listing_state.data.marketplace = id(99);
    assert_eq!(
        handler(&mut ctx, "cid".to_string(), 5_000).unwrap_err(),
        ErrorCode::WrongMarketplaceForListing
    );
}

#[test]
fn record_without_custody_capsule_is_refused() {
    let mut ctx = accounts(SELLER);
    ctx.purchase_record.data.dek_capsule_for_mxe_cid = String::new();
    assert_eq!(
        handler(&mut ctx, "cid".to_string(), 5_000).unwrap_err(),
        ErrorCode::MissingMxeCapsuleOnRecord
    );
}

#[test]
fn empty_capsule_is_refused() {
    let mut ctx = accounts(SELLER);
    assert_eq!(handler(&mut ctx, String::new(), 5_000).unwrap_err(), ErrorCode::CidEmpty);
    assert_eq!(ctx, accounts(SELLER));
}

#[test]
fn capsule_of_more_than_64_bytes_is_refused() {
    let mut ctx = accounts(SELLER);
    assert_eq!(handler(&mut ctx, "a".repeat(65), 5_000).unwrap_err(), ErrorCode::CidTooLong);
    assert_eq!(ctx, accounts(SELLER));
    let notice = handler(&mut ctx, "a".repeat(64), 5_000).unwrap();
    assert_eq!(notice.dek_capsule_for_buyer_cid.len(), 64);
}

#[test]
fn capsule_length_counts_bytes_not_characters() {
    let mut ctx = accounts(SELLER);
    // 33 characters of two bytes each: 66 bytes.
    assert_eq!(handler(&mut ctx, "é".repeat(33), 5_000).unwrap_err(), ErrorCode::CidTooLong);
    assert!(handler(&mut ctx, "é".repeat(32), 5_000).is_ok());
}

#[test]
fn validity_of_the_capsule_is_checked_before_the_write_once_guard() {
    let mut ctx = accounts(SELLER);
    handler(&mut ctx, "first-cid".to_string(), 5_000).unwrap();
    assert_eq!(handler(&mut ctx, String::new(), 6_000).unwrap_err(), ErrorCode::CidEmpty);
    assert_eq!(handler(&mut ctx, "a".repeat(65), 6_000).unwrap_err(), ErrorCode::CidTooLong);
}

#[test]
fn handoff_states() {
    let mut ctx = accounts(SELLER);
    let record = &ctx.purchase_record.data;
    assert!(!record.is_finalized());
    assert_eq!(record.handoff_state(false, false), HandoffState::Purchased);
    assert_eq!(record.handoff_state(true, false), HandoffState::ResealRequested);
    assert_eq!(record.handoff_state(true, true), HandoffState::ResealDelivered);
    handler(&mut ctx, "cid".to_string(), 5_000).unwrap();
    let record = &ctx.purchase_record.data;
    assert!(record.is_finalized());
    assert_eq!(record.handoff_state(false, false), HandoffState::Finalized);
    assert_eq!(record.handoff_state(true, true), HandoffState::Finalized);
}

#[test]
fn messages_of_the_finalize_errors() {
    assert_eq!(
        ErrorCode::AlreadyFinalized.message(),
        "Purchase record already finalized (buyer capsule present)."
    );
    assert_eq!(
        ErrorCode::UnauthorizedFinalize.message(),
        "Only the listing's seller or marketplace admin may finalize."
    );
    assert_eq!(ErrorCode::CidTooLong.message(), "Buyer capsule CID exceeds 64 chars.");
}
