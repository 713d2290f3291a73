//! The registration of a device by its owner.

use vstd::prelude::*;
use crate::identity::Identity;
use crate::state::account::Account;
use crate::state::device_registry::{DeviceMetadata, DeviceRegistry, MAX_DEVICE_ID_LEN};
use crate::state::marketplace::Marketplace;
use crate::state::purchase_record::MAX_CID_LEN;
use crate::text::{byte_len, stored_len};

verus! {

/// The longest text of a device's metadata, in bytes.
pub const MAX_METADATA_LEN: usize = 32;

/// Why the registration of a device was refused.
#[derive(Clone, Copy, Debug, PartialEq, Eq, Structural)]
pub enum ErrorCode {
    /// Marketplace is not active
    MarketplaceInactive,
    /// Device ID cannot be empty
    DeviceIdEmpty,
    /// Device ID exceeds 32 bytes
    DeviceIdTooLong,
    /// Device type exceeds 32 bytes
    DeviceTypeTooLong,
    /// Location exceeds 32 bytes
    LocationTooLong,
    /// Data type exceeds 32 bytes
    DataTypeTooLong,
    /// Data unit exceeds 32 bytes
    DataUnitTooLong,
    /// Data CID exceeds 64 bytes
    DataCidTooLong,
    /// Price per unit must be greater than zero
    InvalidPrice,
    /// Total data units must be greater than zero
    InvalidDataUnits,
    /// Hashing error
    HashingError,
    /// Missing Merkle tree account among the remaining accounts
    MissingMerkleTreeAccount,
    /// Missing queue account among the remaining accounts
    MissingQueueAccount,
    /// Invalid proof format
    InvalidProofFormat,
}

impl ErrorCode {
    /// The message that goes with the error.
    pub open spec fn spec_message(self) -> Seq<char> {
        match self {
            ErrorCode::MarketplaceInactive => "Marketplace is not active"@,
            ErrorCode::DeviceIdEmpty => "Device ID cannot be empty"@,
            ErrorCode::DeviceIdTooLong => "Device ID exceeds 32 characters"@,
            ErrorCode::DeviceTypeTooLong => "Device type exceeds 32 characters"@,
            ErrorCode::LocationTooLong => "Location exceeds 32 characters"@,
            ErrorCode::DataTypeTooLong => "Data type exceeds 32 characters"@,
            ErrorCode::DataUnitTooLong => "Data unit exceeds 32 characters"@,
            ErrorCode::DataCidTooLong => "Data CID exceeds 64 characters"@,
            ErrorCode::InvalidPrice => "Price per unit must be greater than zero"@,
            ErrorCode::InvalidDataUnits => "Total data units must be greater than zero"@,
            ErrorCode::HashingError => "Hashing error"@,
            ErrorCode::MissingMerkleTreeAccount => "Missing Merkle tree account in remaining_accounts"@,
            ErrorCode::MissingQueueAccount => "Missing queue account in remaining_accounts"@,
            ErrorCode::InvalidProofFormat => "Invalid proof format"@,
        }
    }

    /// The message that goes with the error, for the one who made the
    /// request.
    pub fn message(&self) -> (r: &'static str)
        ensures
            r@ == self.spec_message(),
    {
        match self {
            ErrorCode::MarketplaceInactive => "Marketplace is not active",
            ErrorCode::DeviceIdEmpty => "Device ID cannot be empty",
            ErrorCode::DeviceIdTooLong => "Device ID exceeds 32 characters",
            ErrorCode::DeviceTypeTooLong => "Device type exceeds 32 characters",
            ErrorCode::LocationTooLong => "Location exceeds 32 characters",
            ErrorCode::DataTypeTooLong => "Data type exceeds 32 characters",
            ErrorCode::DataUnitTooLong => "Data unit exceeds 32 characters",
            ErrorCode::DataCidTooLong => "Data CID exceeds 64 characters",
            ErrorCode::InvalidPrice => "Price per unit must be greater than zero",
            ErrorCode::InvalidDataUnits => "Total data units must be greater than zero",
            ErrorCode::HashingError => "Hashing error",
            ErrorCode::MissingMerkleTreeAccount => "Missing Merkle tree account in remaining_accounts",
            ErrorCode::MissingQueueAccount => "Missing queue account in remaining_accounts",
            ErrorCode::InvalidProofFormat => "Invalid proof format",
        }
    }
}

/// The accounts of the registration of a device.
#[derive(Debug, PartialEq, Eq)]
pub struct RegisterDevice {
    pub owner: Identity,
    pub marketplace: Account<Marketplace>,
}

/// The first check that the registration fails, in the order in which the
/// checks are made, or `None` where it passes them all.
pub open spec fn register_device_error(
    ctx: &RegisterDevice,
    device_id: Seq<char>,
    device_type: Seq<char>,
    location: Seq<char>,
    data_type: Seq<char>,
    data_unit: Seq<char>,
    price_per_unit: u64,
    total_data_units: u64,
    data_cid: Seq<char>,
) -> Option<ErrorCode> {
    if !ctx.marketplace.data.is_active {
        Some(ErrorCode::MarketplaceInactive)
    } else if device_id.len() == 0 {
        Some(ErrorCode::DeviceIdEmpty)
    } else if stored_len(device_id) > MAX_DEVICE_ID_LEN {
        Some(ErrorCode::DeviceIdTooLong)
    } else if stored_len(device_type) > MAX_METADATA_LEN {
        Some(ErrorCode::DeviceTypeTooLong)
    } else if stored_len(location) > MAX_METADATA_LEN {
        Some(ErrorCode::LocationTooLong)
    } else if stored_len(data_type) > MAX_METADATA_LEN {
        Some(ErrorCode::DataTypeTooLong)
    } else if stored_len(data_unit) > MAX_METADATA_LEN {
        Some(ErrorCode::DataUnitTooLong)
    } else if stored_len(data_cid) > MAX_CID_LEN {
        Some(ErrorCode::DataCidTooLong)
    } else if price_per_unit == 0 {
        Some(ErrorCode::InvalidPrice)
    } else if total_data_units == 0 {
        Some(ErrorCode::InvalidDataUnits)
    } else {
        None
    }
}

/// The device that a successful registration yields: active, owned by the
/// one who registered it, and holding what it was registered with.
pub open spec fn registered_device(
    ctx: &RegisterDevice,
    device_id: String,
    ek_pubkey_hash: [u8; 32],
    device_type: String,
    location: String,
    data_type: String,
    data_unit: String,
    price_per_unit: u64,
    total_data_units: u64,
    data_cid: String,
    access_key_hash: [u8; 32],
    expires_at: Option<i64>,
    bump: u8,
    now: i64,
) -> DeviceRegistry {
    DeviceRegistry {
        owner: ctx.owner,
        marketplace: ctx.marketplace.key,
        device_id: device_id,
        ek_pubkey_hash: ek_pubkey_hash,
        is_active: true,
        price_per_unit: price_per_unit,
        total_data_units: total_data_units,
        data_cid: data_cid,
        access_key_hash: access_key_hash,
        metadata: DeviceMetadata {
            device_type: device_type,
            location: location,
            data_type: data_type,
            data_unit: data_unit,
        },
        created_at: now,
        updated_at: now,
        expires_at: expires_at,
        bump: bump,
    }
}

/// Registers a device under a marketplace, at the moment `now`.
///
/// The registration is refused with the first check it fails: the
/// marketplace must be active, the device identifier must not be empty,
/// every text must fit (32 bytes, the locator of the data 64), and price
/// and units must not be zero. Otherwise the result is the device, active
/// and owned by the one who registered it.
pub fn handler(
    ctx: &RegisterDevice,
    device_id: String,
    ek_pubkey_hash: [u8; 32],
    device_type: String,
    location: String,
    data_type: String,
    data_unit: String,
    price_per_unit: u64,
    total_data_units: u64,
    data_cid: String,
    access_key_hash: [u8; 32],
    expires_at: Option<i64>,
    bump: u8,
    now: i64,
) -> (r: Result<DeviceRegistry, ErrorCode>)
    ensures
        match register_device_error(
            ctx,
            device_id@,
            device_type@,
            location@,
            data_type@,
            data_unit@,
            price_per_unit,
            total_data_units,
            data_cid@,
        ) {
            Some(e) => r == Err::<DeviceRegistry, ErrorCode>(e),
            None => r == Ok::<DeviceRegistry, ErrorCode>(
                registered_device(
                    ctx,
                    device_id,
                    ek_pubkey_hash,
                    device_type,
                    location,
                    data_type,
                    data_unit,
                    price_per_unit,
                    total_data_units,
                    data_cid,
                    access_key_hash,
                    expires_at,
                    bump,
                    now,
                ),
            ),
        },
{
    if !ctx.marketplace.data.is_active {
        return Err(ErrorCode::MarketplaceInactive);
    }
    if device_id.as_str().is_empty() {
        return Err(ErrorCode::DeviceIdEmpty);
    }
    if byte_len(device_id.as_str()) > MAX_DEVICE_ID_LEN {
        return Err(ErrorCode::DeviceIdTooLong);
    }
    if byte_len(device_type.as_str()) > MAX_METADATA_LEN {
        return Err(ErrorCode::DeviceTypeTooLong);
    }
    if byte_len(location.as_str()) > MAX_METADATA_LEN {
        return Err(ErrorCode::LocationTooLong);
    }
    if byte_len(data_type.as_str()) > MAX_METADATA_LEN {
        return Err(ErrorCode::DataTypeTooLong);
    }
    if byte_len(data_unit.as_str()) > MAX_METADATA_LEN {
        return Err(ErrorCode::DataUnitTooLong);
    }
    if byte_len(data_cid.as_str()) > MAX_CID_LEN {
        return Err(ErrorCode::DataCidTooLong);
    }
    if price_per_unit == 0 {
        return Err(ErrorCode::InvalidPrice);
    }
    if total_data_units == 0 {
        return Err(ErrorCode::InvalidDataUnits);
    }
    Ok(
        DeviceRegistry {
            owner: ctx.owner,
            marketplace: ctx.marketplace.key,
            device_id,
            ek_pubkey_hash,
            is_active: true,
            price_per_unit,
            total_data_units,
            data_cid,
            access_key_hash,
            metadata: DeviceMetadata { device_type, location, data_type, data_unit },
            created_at: now,
            updated_at: now,
            expires_at,
            bump,
        },
    )
}

} // verus!
