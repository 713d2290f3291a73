//! The operations of the compressed registry: the founding of a marketplace
//! whose treasury is checked against its derived address, and the
//! registration of a device of fixed width.

use vstd::prelude::*;
use crate::identity::{all_zero, Identity};
use crate::pda::{program_address, treasury_address, Tag};
use crate::state::account::Account;
use crate::state::device_registry::CompressedDeviceRegistry;
use crate::state::marketplace::{Marketplace, MAX_FEE_BPS, MAX_NAME_LEN};
use crate::instructions::initialize::founded_marketplace;
use crate::text::{all_name_chars, byte_len, is_name_text, stored_len};

verus! {

/// The seed of the authority that signs for the program.
pub fn cpi_authority_pda_seed() -> (r: Vec<u8>)
    ensures
        r@ == seq![
            99u8, 112u8, 105u8, 95u8, 97u8, 117u8, 116u8, 104u8, 111u8, 114u8, 105u8, 116u8, 121u8,
        ],
{
    vec![99u8, 112u8, 105u8, 95u8, 97u8, 117u8, 116u8, 104u8, 111u8, 114u8, 105u8, 116u8, 121u8]
}

/// Why an operation of the compressed registry was refused.
#[derive(Clone, Copy, Debug, PartialEq, Eq, Structural)]
pub enum ErrorCode {
    /// Marketplace name exceeds 32 bytes
    NameTooLong,
    /// Seller fee exceeds 100% (10,000 basis points)
    InvalidFee,
    /// Marketplace name cannot be empty
    NameEmpty,
    /// Marketplace name contains invalid characters
    InvalidNameChars,
    /// Marketplace is not active
    MarketplaceInactive,
    /// Device ID cannot be empty
    DeviceIdEmpty,
    /// Device ID exceeds 32 bytes
    DeviceIdTooLong,
    /// Device type exceeds 32 bytes
    DeviceTypeTooLong,
    /// Data type exceeds 32 bytes
    DataTypeTooLong,
    /// Invalid treasury account
    InvalidTreasury,
    /// Invalid account index
    InvalidAccountIndex,
    /// Listing ID cannot be empty
    ListingIdEmpty,
    /// Device ID cannot be empty
    DeviceIdEmptyListing,
    /// Data CID cannot be empty
    DataCidEmpty,
    /// Price per unit must be greater than zero
    InvalidPrice,
    /// Total data units must be greater than zero
    InvalidDataUnits,
    /// Invalid listing address
    InvalidListingPda,
    /// Only the seller can cancel the listing
    CancelUnauthorized,
}

impl ErrorCode {
    /// The message that goes with the error.
    pub open spec fn spec_message(self) -> Seq<char> {
        match self {
            ErrorCode::NameTooLong => "Marketplace name exceeds 32 characters"@,
            ErrorCode::InvalidFee => "Seller fee exceeds 100% (10,000 basis points)"@,
            ErrorCode::NameEmpty => "Marketplace name cannot be empty"@,
            ErrorCode::InvalidNameChars => "Marketplace name contains invalid characters"@,
            ErrorCode::MarketplaceInactive => "Marketplace is not active"@,
            ErrorCode::DeviceIdEmpty => "Device ID cannot be empty"@,
            ErrorCode::DeviceIdTooLong => "Device ID exceeds 32 characters"@,
            ErrorCode::DeviceTypeTooLong => "Device type exceeds 32 characters"@,
            ErrorCode::DataTypeTooLong => "Data type exceeds 32 characters"@,
            ErrorCode::InvalidTreasury => "Invalid treasury account"@,
            ErrorCode::InvalidAccountIndex => "Invalid account index"@,
            ErrorCode::ListingIdEmpty => "Listing ID cannot be empty"@,
            ErrorCode::DeviceIdEmptyListing => "Device ID cannot be empty"@,
            ErrorCode::DataCidEmpty => "Data CID cannot be empty"@,
            ErrorCode::InvalidPrice => "Price per unit must be greater than zero"@,
            ErrorCode::InvalidDataUnits => "Total data units must be greater than zero"@,
            ErrorCode::InvalidListingPda => "Invalid Listing PDA"@,
            ErrorCode::CancelUnauthorized => "Only the seller can cancel the listing"@,
        }
    }

    /// The message that goes with the error, for the one who made the
    /// request.
    pub fn message(&self) -> (r: &'static str)
        ensures
            r@ == self.spec_message(),
    {
        match self {
            ErrorCode::NameTooLong => "Marketplace name exceeds 32 characters",
            ErrorCode::InvalidFee => "Seller fee exceeds 100% (10,000 basis points)",
            ErrorCode::NameEmpty => "Marketplace name cannot be empty",
            ErrorCode::InvalidNameChars => "Marketplace name contains invalid characters",
            ErrorCode::MarketplaceInactive => "Marketplace is not active",
            ErrorCode::DeviceIdEmpty => "Device ID cannot be empty",
            ErrorCode::DeviceIdTooLong => "Device ID exceeds 32 characters",
            ErrorCode::DeviceTypeTooLong => "Device type exceeds 32 characters",
            ErrorCode::DataTypeTooLong => "Data type exceeds 32 characters",
            ErrorCode::InvalidTreasury => "Invalid treasury account",
            ErrorCode::InvalidAccountIndex => "Invalid account index",
            ErrorCode::ListingIdEmpty => "Listing ID cannot be empty",
            ErrorCode::DeviceIdEmptyListing => "Device ID cannot be empty",
            ErrorCode::DataCidEmpty => "Data CID cannot be empty",
            ErrorCode::InvalidPrice => "Price per unit must be greater than zero",
            ErrorCode::InvalidDataUnits => "Total data units must be greater than zero",
            ErrorCode::InvalidListingPda => "Invalid Listing PDA",
            ErrorCode::CancelUnauthorized => "Only the seller can cancel the listing",
        }
    }
}

/// The accounts of the founding of a marketplace.
#[derive(Debug, PartialEq, Eq)]
pub struct Initialize {
    pub admin: Identity,
    /// The record of the marketplace, to be filled.
    pub marketplace: Marketplace,
    /// The account that the request names as the treasury's authority.
    pub treasury: Identity,
    /// The settlement currency.
    pub usdc_mint: Identity,
    /// The bump seed of the marketplace's address.
    pub marketplace_bump: u8,
    /// The program that owns the marketplace.
    pub program_id: Identity,
}

/// The accounts of the registration of a device.
#[derive(Debug, PartialEq, Eq)]
pub struct GenericAccounts {
    pub signer: Identity,
    pub marketplace: Account<Marketplace>,
}

/// The first check that the founding fails, in the order in which the
/// checks are made, or `None` where it passes them all. `derived` is the
/// address of the treasury's authority as the ledger derives it for the
/// admin.
pub open spec fn initialize_error(
    ctx: &Initialize,
    name: Seq<char>,
    seller_fee: u16,
    derived: Option<(Seq<u8>, u8)>,
) -> Option<ErrorCode> {
    if stored_len(name) > MAX_NAME_LEN {
        Some(ErrorCode::NameTooLong)
    } else if seller_fee > MAX_FEE_BPS {
        Some(ErrorCode::InvalidFee)
    } else if !is_name_text(name) {
        Some(ErrorCode::InvalidNameChars)
    } else if name.len() == 0 {
        Some(ErrorCode::NameEmpty)
    } else if derived is None || derived->Some_0.0 != ctx.treasury@ {
        Some(ErrorCode::InvalidTreasury)
    } else {
        None
    }
}

/// The model of a derived address.
pub open spec fn derived_view(derived: Option<(Identity, u8)>) -> Option<(Seq<u8>, u8)> {
    match derived {
        Some(pair) => Some((pair.0@, pair.1)),
        None => None,
    }
}

/// Founds the marketplace under `name` with a fee of `seller_fee` basis
/// points, at the moment `now`, where `derived` is the address of the
/// treasury's authority as the ledger derives it for the admin.
///
/// The founding is refused with the first check it fails, and then nothing
/// has changed: the name must fit in 32 bytes, the fee must not exceed the
/// whole price, the name must hold only letters, digits, spaces and
/// underscores and must not be empty, and the treasury that the request
/// names must be the derived one.
pub fn initialize_with(
    ctx: &mut Initialize,
    derived: Option<(Identity, u8)>,
    name: String,
    seller_fee: u16,
    now: i64,
) -> (r: Result<(), ErrorCode>)
    ensures
        match initialize_error(old(ctx), name@, seller_fee, derived_view(derived)) {
            Some(e) => r == Err::<(), ErrorCode>(e) && *final(ctx) == *old(ctx),
            None => {
                &&& r is Ok
                &&& *final(ctx) == (Initialize {
                    marketplace: founded_marketplace(
                        old(ctx).admin,
                        old(ctx).treasury,
                        old(ctx).usdc_mint,
                        name,
                        seller_fee,
                        old(ctx).marketplace_bump,
                        derived->Some_0.1,
                        now,
                    ),
                    ..*old(ctx)
                })
                &&& final(ctx).marketplace.wf()
            },
        },
{
    if byte_len(name.as_str()) > MAX_NAME_LEN {
        return Err(ErrorCode::NameTooLong);
    }
    if seller_fee > MAX_FEE_BPS {
        return Err(ErrorCode::InvalidFee);
    }
    if !all_name_chars(name.as_str()) {
        return Err(ErrorCode::InvalidNameChars);
    }
    if name.as_str().is_empty() {
        return Err(ErrorCode::NameEmpty);
    }
    let treasury_bump = match derived {
        Some((treasury_pda, treasury_bump)) => {
            if !treasury_pda.same(&ctx.treasury) {
                return Err(ErrorCode::InvalidTreasury);
            }
            treasury_bump
        },
        None => {
            return Err(ErrorCode::InvalidTreasury);
        },
    };
    ctx.marketplace = Marketplace {
        admin: ctx.admin,
        treasury: ctx.treasury,
        treasury_bump,
        seller_fee,
        token_mint: ctx.usdc_mint,
        is_active: true,
        bump: ctx.marketplace_bump,
        name,
        created_at: now,
    };
    Ok(())
}

/// Founds the marketplace under `name` with a fee of `seller_fee` basis
/// points, at the moment `now`: the address of the treasury's authority is
/// derived for the admin, and the founding goes on with it as
/// [`initialize_with`] says.
pub fn initialize(ctx: &mut Initialize, name: String, seller_fee: u16, now: i64) -> (r: Result<
    (),
    ErrorCode,
>)
    ensures
        match initialize_error(
            old(ctx),
            name@,
            seller_fee,
            program_address(
                seq![Tag::Treasury.spec_bytes(), old(ctx).admin@],
                old(ctx).program_id@,
            ),
        ) {
            Some(e) => r == Err::<(), ErrorCode>(e) && *final(ctx) == *old(ctx),
            None => {
                &&& r is Ok
                &&& *final(ctx) == (Initialize {
                    marketplace: founded_marketplace(
                        old(ctx).admin,
                        old(ctx).treasury,
                        old(ctx).usdc_mint,
                        name,
                        seller_fee,
                        old(ctx).marketplace_bump,
                        program_address(
                            seq![Tag::Treasury.spec_bytes(), old(ctx).admin@],
                            old(ctx).program_id@,
                        )->Some_0.1,
                        now,
                    ),
                    ..*old(ctx)
                })
                &&& final(ctx).marketplace.wf()
            },
        },
{
    let derived = treasury_address(&ctx.admin, &ctx.program_id);
    initialize_with(ctx, derived, name, seller_fee, now)
}

/// Whether every byte of an array is zero.
pub open spec fn is_blank(bytes: Seq<u8>) -> bool {
    forall|j: int| 0 <= j < bytes.len() ==> bytes[j] == 0
}

/// The first check that the registration fails, in the order in which the
/// checks are made, or `None` where it passes them all.
pub open spec fn register_device_error(
    ctx: &GenericAccounts,
    device_id: [u8; 32],
    device_type: [u8; 32],
    data_type: [u8; 32],
) -> Option<ErrorCode> {
    if !ctx.marketplace.data.is_active {
        Some(ErrorCode::MarketplaceInactive)
    } else if is_blank(device_id@) {
        Some(ErrorCode::DeviceIdEmpty)
    } else if is_blank(device_type@) {
        Some(ErrorCode::DeviceTypeTooLong)
    } else if is_blank(data_type@) {
        Some(ErrorCode::DataTypeTooLong)
    } else {
        None
    }
}

/// Registers a device of fixed width under a marketplace, at the moment
/// `now`.
///
/// The marketplace must be active, and neither the identifier nor the type
/// of the device nor the type of its data may be all zero: the registration
/// is refused with the first of these that fails. Otherwise the result is
/// the device, owned by the signer.
pub fn register_device(
    ctx: &GenericAccounts,
    bump: u8,
    device_id: [u8; 32],
    ek_pubkey_hash: [u8; 32],
    device_type: [u8; 32],
    data_type: [u8; 32],
    now: i64,
) -> (r: Result<CompressedDeviceRegistry, ErrorCode>)
    ensures
        match register_device_error(ctx, device_id, device_type, data_type) {
            Some(e) => r == Err::<CompressedDeviceRegistry, ErrorCode>(e),
            None => r == Ok::<CompressedDeviceRegistry, ErrorCode>(
                CompressedDeviceRegistry {
                    owner: ctx.signer,
                    marketplace: ctx.marketplace.key,
                    device_id,
                    ek_pubkey_hash,
                    bump,
                    device_type,
                    created_at: now,
                    data_type,
                },
            ),
        },
{
    if !ctx.marketplace.data.is_active {
        return Err(ErrorCode::MarketplaceInactive);
    }
    if all_zero(device_id.as_slice()) {
        return Err(ErrorCode::DeviceIdEmpty);
    }
    if all_zero(device_type.as_slice()) {
        return Err(ErrorCode::DeviceTypeTooLong);
    }
    if all_zero(data_type.as_slice()) {
        return Err(ErrorCode::DataTypeTooLong);
    }
    Ok(
        CompressedDeviceRegistry {
            owner: ctx.signer,
            marketplace: ctx.marketplace.key,
            device_id,
            ek_pubkey_hash,
            bump,
            device_type,
            created_at: now,
            data_type,
        },
    )
}

} // verus!
