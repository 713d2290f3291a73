//! The deactivation of a device by its owner.

use vstd::prelude::*;
use crate::identity::Identity;
use crate::state::account::Account;
use crate::state::device_registry::{DeviceRegistry, MAX_DEVICE_ID_LEN};
use crate::state::marketplace::Marketplace;
use crate::text::{byte_len, stored_len};

verus! {

/// Why the deactivation of a device was refused.
#[derive(Clone, Copy, Debug, PartialEq, Eq, Structural)]
pub enum ErrorCode {
    /// Marketplace is not active
    MarketplaceInactive,
    /// Only the device owner can deactivate the device
    Unauthorized,
    /// Device is already inactive
    DeviceAlreadyInactive,
    /// Device ID cannot be empty
    DeviceIdEmpty,
    /// Device ID exceeds 32 bytes
    DeviceIdTooLong,
}

impl ErrorCode {
    /// The message that goes with the error.
    pub open spec fn spec_message(self) -> Seq<char> {
        match self {
            ErrorCode::MarketplaceInactive => "Marketplace is not active"@,
            ErrorCode::Unauthorized => "Only the device owner can deactivate the device"@,
            ErrorCode::DeviceAlreadyInactive => "Device is already inactive"@,
            ErrorCode::DeviceIdEmpty => "Device ID cannot be empty"@,
            ErrorCode::DeviceIdTooLong => "Device ID exceeds 32 characters"@,
        }
    }

    /// The message that goes with the error, for the one who made the
    /// request.
    pub fn message(&self) -> (r: &'static str)
        ensures
            r@ == self.spec_message(),
    {
        match self {
            ErrorCode::MarketplaceInactive => "Marketplace is not active",
            ErrorCode::Unauthorized => "Only the device owner can deactivate the device",
            ErrorCode::DeviceAlreadyInactive => "Device is already inactive",
            ErrorCode::DeviceIdEmpty => "Device ID cannot be empty",
            ErrorCode::DeviceIdTooLong => "Device ID exceeds 32 characters",
        }
    }
}

/// The accounts of the deactivation of a device.
#[derive(Debug, PartialEq, Eq)]
pub struct CancelDevice {
    pub owner: Identity,
    pub marketplace: Account<Marketplace>,
    pub device_registry: Account<DeviceRegistry>,
}

/// The first check that the deactivation fails, in the order in which the
/// checks are made, or `None` where it passes them all.
pub open spec fn cancel_device_error(ctx: &CancelDevice, device_id: Seq<char>) -> Option<ErrorCode> {
    if !ctx.marketplace.data.is_active {
        Some(ErrorCode::MarketplaceInactive)
    } else if ctx.device_registry.data.owner != ctx.owner {
        Some(ErrorCode::Unauthorized)
    } else if !ctx.device_registry.data.is_active {
        Some(ErrorCode::DeviceAlreadyInactive)
    } else if device_id.len() == 0 {
        Some(ErrorCode::DeviceIdEmpty)
    } else if stored_len(device_id) > MAX_DEVICE_ID_LEN {
        Some(ErrorCode::DeviceIdTooLong)
    } else {
        None
    }
}

/// Deactivates a device, at the moment `now`: from then on no listing of
/// it can be bought.
///
/// A refused deactivation leaves everything as it was. Otherwise the
/// device is inactive and carries the moment, and nothing else has changed.
pub fn handler(ctx: &mut CancelDevice, device_id: String, now: i64) -> (r: Result<(), ErrorCode>)
    ensures
        match cancel_device_error(old(ctx), device_id@) {
            Some(e) => r == Err::<(), ErrorCode>(e) && *final(ctx) == *old(ctx),
            None => {
                &&& r is Ok
                &&& *final(ctx) == (CancelDevice {
                    device_registry: Account {
                        key: old(ctx).device_registry.key,
                        data: DeviceRegistry {
                            is_active: false,
                            updated_at: now,
                            ..old(ctx).device_registry.data
                        },
                    },
                    ..*old(ctx)
                })
            },
        },
{
    if !ctx.marketplace.data.is_active {
        return Err(ErrorCode::MarketplaceInactive);
    }
    if !ctx.device_registry.data.owner.same(&ctx.owner) {
        return Err(ErrorCode::Unauthorized);
    }
    if !ctx.device_registry.data.is_active {
        return Err(ErrorCode::DeviceAlreadyInactive);
    }
    if device_id.as_str().is_empty() {
        return Err(ErrorCode::DeviceIdEmpty);
    }
    if byte_len(device_id.as_str()) > MAX_DEVICE_ID_LEN {
        return Err(ErrorCode::DeviceIdTooLong);
    }
    ctx.device_registry.data.is_active = false;
    ctx.device_registry.data.updated_at = now;
    Ok(())
}

} // verus!
