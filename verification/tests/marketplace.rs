use chain_sensors::compressed::program::{
    initialize, initialize_with, ErrorCode, Initialize,
};
use chain_sensors::identity::Identity;
use chain_sensors::instructions::cancel_device::{
    handler as cancel_device, CancelDevice, ErrorCode as CancelDeviceError,
};
use chain_sensors::instructions::initialize::{
    ErrorCode as InitError, Initialize as Founding, InitializeBumps,
};
use chain_sensors::instructions::update_marketplace::{
    handler as update_marketplace, ErrorCode as UpdateError, UpdateMarketplace,
};
use chain_sensors::pda::treasury_address;
use chain_sensors::state::account::Account;
use chain_sensors::state::device_registry::{DeviceMetadata, DeviceRegistry};
use chain_sensors::state::marketplace::Marketplace;

fn id(n: u8) -> Identity {
    Identity::new([n; 32])
}

const ADMIN: u8 = 1;
const MINT: u8 = 3;
const PROGRAM: u8 = 60;

fn blank() -> Marketplace {
    Marketplace {
        admin: id(0),
        treasury: id(0),
        treasury_bump: 0,
        seller_fee: 0,
        token_mint: id(0),
        is_active: false,
        bump: 0,
        name: String::new(),
        created_at: 0,
    }
}

fn accounts() -> Initialize {
    let (treasury, _) = treasury_address(&id(ADMIN), &id(PROGRAM)).unwrap();
    Initialize {
        admin: id(ADMIN),
        marketplace: blank(),
        treasury,
        usdc_mint: id(MINT),
        marketplace_bump: 255,
        program_id: id(PROGRAM),
    }
}

fn initialize_marketplace(name: &str, seller_fee: u16) -> Result<Marketplace, ErrorCode> {
    let mut ctx = accounts();
    initialize(&mut ctx, name.to_string(), seller_fee, 1_000)?;
    Ok(ctx.marketplace)
}

#[test]
fn test_initialize_marketplace_success() {
    let marketplace = initialize_marketplace("TestMarket", 500).unwrap();
    assert_eq!(marketplace.admin, id(ADMIN));
    assert_eq!(marketplace.name, "TestMarket");
    assert_eq!(marketplace.seller_fee, 500);
    assert!(marketplace.is_active);
}

#[test]
fn test_initialize_marketplace_name_too_long() {
    let name = "a".repeat(33);
    let result = initialize_marketplace(&name, 500);
    assert!(result.is_err());
    assert_eq!(result.err().unwrap(), ErrorCode::NameTooLong);
}

#[test]
fn test_initialize_marketplace_name_empty() {
    let result = initialize_marketplace("", 500);
    assert!(result.is_err());
    assert_eq!(result.err().unwrap(), ErrorCode::NameEmpty);
}

#[test]
fn test_initialize_marketplace_invalid_name_chars() {
    let result = initialize_marketplace("Invalid@Name", 500);
    assert!(result.is_err());
    assert_eq!(result.err().unwrap(), ErrorCode::InvalidNameChars);
}

#[test]
fn test_initialize_marketplace_invalid_fee() {
    let result = initialize_marketplace("TestMarket", 10001);
    assert!(result.is_err());
    assert_eq!(result.err().unwrap(), ErrorCode::InvalidFee);
}

#[test]
fn founded_marketplace_holds_what_it_was_founded_with() {
    let mut ctx = accounts();
    let treasury = ctx.treasury;
    let (_, treasury_bump) = treasury_address(&id(ADMIN), &id(PROGRAM)).unwrap();
    assert_eq!(initialize(&mut ctx, "Test Market_1".to_string(), 10_000, 1_000), Ok(()));
    assert_eq!(
        ctx.marketplace,
        Marketplace {
            admin: id(ADMIN),
            treasury,
            treasury_bump,
            seller_fee: 10_000,
            token_mint: id(MINT),
            is_active: true,
            bump: 255,
            name: "Test Market_1".to_string(),
            created_at: 1_000,
        }
    );
}

#[test]
fn treasury_must_be_the_derived_one() {
    let mut ctx = accounts();
    ctx.treasury = id(2);
    assert_eq!(
        initialize(&mut ctx, "TestMarket".to_string(), 500, 1_000),
        Err(ErrorCode::InvalidTreasury)
    );
    assert_eq!(ctx.marketplace, blank());

    let mut ctx = accounts();
    ctx.treasury = id(2);
    assert_eq!(
        initialize_with(&mut ctx, None, "TestMarket".to_string(), 500, 1_000),
        Err(ErrorCode::InvalidTreasury)
    );
    assert_eq!(
        initialize_with(&mut ctx, Some((id(9), 250)), "TestMarket".to_string(), 500, 1_000),
        Err(ErrorCode::InvalidTreasury)
    );
    assert_eq!(
        initialize_with(&mut ctx, Some((id(2), 250)), "TestMarket".to_string(), 500, 1_000),
        Ok(())
    );
    assert_eq!(ctx.marketplace.treasury, id(2));
    assert_eq!(ctx.marketplace.treasury_bump, 250);
}

#[test]
fn checks_of_the_compressed_founding_come_in_their_order() {
    let mut ctx = accounts();
    let long_bad = "@".repeat(33);
    assert_eq!(initialize(&mut ctx, long_bad, 10_001, 1), Err(ErrorCode::NameTooLong));
    assert_eq!(initialize(&mut ctx, "@".to_string(), 10_001, 1), Err(ErrorCode::InvalidFee));
    assert_eq!(initialize(&mut ctx, "@".to_string(), 10_000, 1), Err(ErrorCode::InvalidNameChars));
    assert_eq!(ctx.marketplace, blank());
}

fn founding() -> Founding {
    Founding { admin: id(ADMIN), marketplace: blank(), treasury: id(2), usdc_mint: id(MINT) }
}

#[test]
fn founding_with_given_bump_seeds() {
    let mut ctx = founding();
    let bumps = InitializeBumps { marketplace: 255, treasury: 254 };
    assert_eq!(ctx.init("Sensors 2_go".to_string(), 250, &bumps, 1_000), Ok(()));
    assert_eq!(
        ctx.marketplace,
        Marketplace {
            admin: id(ADMIN),
            treasury: id(2),
            treasury_bump: 254,
            seller_fee: 250,
            token_mint: id(MINT),
            is_active: true,
            bump: 255,
            name: "Sensors 2_go".to_string(),
            created_at: 1_000,
        }
    );
}

#[test]
fn founding_checks_come_in_their_order() {
    let bumps = InitializeBumps { marketplace: 255, treasury: 254 };
    let mut ctx = founding();
    assert_eq!(ctx.init(String::new(), 10_001, &bumps, 1), Err(InitError::NameEmpty));
    assert_eq!(ctx.init("@".repeat(33), 10_001, &bumps, 1), Err(InitError::NameTooLong));
    assert_eq!(ctx.init("a@b".to_string(), 10_001, &bumps, 1), Err(InitError::InvalidNameChars));
    assert_eq!(ctx.init("ab".to_string(), 10_001, &bumps, 1), Err(InitError::InvalidFee));
    assert_eq!(ctx, founding());
    assert_eq!(ctx.init("a".repeat(32), 10_000, &bumps, 1), Ok(()));
}

#[test]
fn letters_and_digits_of_any_script_may_stand_in_a_name() {
    let bumps = InitializeBumps { marketplace: 255, treasury: 254 };
    let mut ctx = founding();
    assert_eq!(ctx.init("Märkte ٣".to_string(), 1, &bumps, 1), Ok(()));
    let mut ctx = founding();
    assert_eq!(ctx.init("a-b".to_string(), 1, &bumps, 1), Err(InitError::InvalidNameChars));
    let mut ctx = founding();
    // Eleven characters of three bytes each: 33 bytes.
    assert_eq!(ctx.init("市".repeat(11), 1, &bumps, 1), Err(InitError::NameTooLong));
}

fn update_accounts(admin: u8) -> UpdateMarketplace {
    UpdateMarketplace {
        admin: id(admin),
        marketplace: Account {
            key: id(6),
            data: Marketplace {
                admin: id(ADMIN),
                treasury: id(2),
                treasury_bump: 254,
                seller_fee: 250,
                token_mint: id(MINT),
                is_active: true,
                bump: 255,
                name: "TestMarket".to_string(),
                created_at: 1_000,
            },
        },
    }
}

#[test]
fn admin_changes_fee_and_activity() {
    let mut ctx = update_accounts(ADMIN);
    assert_eq!(update_marketplace(&mut ctx, Some(10_000), Some(false)), Ok(()));
    assert_eq!(ctx.marketplace.data.seller_fee, 10_000);
    assert!(!ctx.marketplace.data.is_active);
    assert_eq!(update_marketplace(&mut ctx, None, Some(true)), Ok(()));
    assert_eq!(ctx.marketplace.data.seller_fee, 10_000);
    assert!(ctx.marketplace.data.is_active);
    assert_eq!(update_marketplace(&mut ctx, Some(0), None), Ok(()));
    assert_eq!(ctx.marketplace.data.seller_fee, 0);
    assert!(ctx.marketplace.data.is_active);
    assert_eq!(update_marketplace(&mut ctx, None, None), Ok(()));
    let mut expected = update_accounts(ADMIN);
    expected.marketplace.data.seller_fee = 0;
    assert_eq!(ctx, expected);
}

#[test]
fn refused_changes_leave_the_marketplace_as_it_was() {
    let mut ctx = update_accounts(ADMIN);
    assert_eq!(update_marketplace(&mut ctx, Some(10_001), Some(false)), Err(UpdateError::InvalidFee));
    assert_eq!(ctx, update_accounts(ADMIN));
    let mut ctx = update_accounts(99);
    assert_eq!(update_marketplace(&mut ctx, Some(1), Some(false)), Err(UpdateError::Unauthorized));
    assert_eq!(ctx, update_accounts(99));
}

fn device_accounts(owner: u8) -> CancelDevice {
    CancelDevice {
        owner: id(owner),
        marketplace: update_accounts(ADMIN).marketplace,
        device_registry: Account {
            key: id(7),
            data: DeviceRegistry {
                owner: id(4),
                marketplace: id(6),
                device_id: "device1".to_string(),
                ek_pubkey_hash: [1; 32],
                is_active: true,
                price_per_unit: 100,
                total_data_units: 1000,
                data_cid: "cid123".to_string(),
                access_key_hash: [2; 32],
                metadata: DeviceMetadata {
                    device_type: "sensor".to_string(),
                    location: "Room1".to_string(),
                    data_type: "temperature".to_string(),
                    data_unit: "celsius".to_string(),
                },
                created_at: 1_000,
                updated_at: 1_000,
                expires_at: None,
                bump: 253,
            },
        },
    }
}

#[test]
fn owner_deactivates_a_device() {
    let mut ctx = device_accounts(4);
    assert_eq!(cancel_device(&mut ctx, "device1".to_string(), 7_000), Ok(()));
    let mut expected = device_accounts(4);
    expected.device_registry.data.is_active = false;
    expected.device_registry.data.updated_at = 7_000;
    assert_eq!(ctx, expected);
    assert_eq!(
        cancel_device(&mut ctx, "device1".to_string(), 8_000),
        Err(CancelDeviceError::DeviceAlreadyInactive)
    );
    assert_eq!(ctx, expected);
}

#[test]
fn deactivation_checks_come_in_their_order() {
    let mut ctx = device_accounts(99);
    ctx.marketplace.data.is_active = false;
    assert_eq!(cancel_device(&mut ctx, String::new(), 1), Err(CancelDeviceError::MarketplaceInactive));
    ctx.marketplace.data.is_active = true;
    assert_eq!(cancel_device(&mut ctx, String::new(), 1), Err(CancelDeviceError::Unauthorized));
    let mut ctx = device_accounts(4);
    assert_eq!(cancel_device(&mut ctx, String::new(), 1), Err(CancelDeviceError::DeviceIdEmpty));
    assert_eq!(cancel_device(&mut ctx, "d".repeat(33), 1), Err(CancelDeviceError::DeviceIdTooLong));
    assert_eq!(ctx, device_accounts(4));
    assert_eq!(cancel_device(&mut ctx, "d".repeat(32), 1), Ok(()));
}
