//! The device registry entries that listings refer to.

use vstd::prelude::*;
use crate::identity::Identity;

verus! {

/// The longest device identifier, in bytes.
pub const MAX_DEVICE_ID_LEN: usize = 32;

/// What a device says of itself.
#[derive(Debug, PartialEq, Eq)]
pub struct DeviceMetadata {
    pub device_type: String,
    pub location: String,
    pub data_type: String,
    pub data_unit: String,
}

/// A registered device and its owner.
#[derive(Debug, PartialEq, Eq)]
pub struct DeviceRegistry {
    pub owner: Identity,
    pub marketplace: Identity,
    pub device_id: String,
    pub ek_pubkey_hash: [u8; 32],
    /// Listings of an inactive device cannot be bought.
    pub is_active: bool,
    pub price_per_unit: u64,
    pub total_data_units: u64,
    pub data_cid: String,
    pub access_key_hash: [u8; 32],
    pub metadata: DeviceMetadata,
    pub created_at: i64,
    pub updated_at: i64,
    pub expires_at: Option<i64>,
    pub bump: u8,
}

/// A registered device in the fixed-width form that is stored compressed.
#[derive(Clone, Copy, Debug, PartialEq, Eq)]
pub struct CompressedDeviceRegistry {
    pub owner: Identity,
    pub marketplace: Identity,
    pub device_id: [u8; 32],
    pub ek_pubkey_hash: [u8; 32],
    pub bump: u8,
    pub device_type: [u8; 32],
    pub created_at: i64,
    pub data_type: [u8; 32],
}

} // verus!
