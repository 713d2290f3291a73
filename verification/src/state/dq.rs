//! Data-quality configuration and state of a device.

use vstd::prelude::*;
use crate::identity::Identity;

verus! {

/// The stored size of a [`DqConfig`], header included.
pub const DQ_CONFIG_SPACE: usize = 125;

/// The stored size of a [`DqState`], header included.
pub const DQ_STATE_SPACE: usize = 140;

/// The thresholds by which a device's data quality is judged.
#[derive(Clone, Copy, Debug, PartialEq, Eq)]
pub struct DqConfig {
    pub bump: u8,
    pub device: Identity,
    /// The only identity that may publish metrics for the device.
    pub authority: Identity,
    pub expected_rate_hz: u32,
    pub stale_threshold_ms: u32,
    pub var_hi_q16_16: u32,
    pub var_lo_q16_16: u32,
    pub eps_q16_16: u32,
    pub reserved: [u8; 32],
}

/// The latest data-quality results of a device.
#[derive(Clone, Copy, Debug, PartialEq, Eq)]
pub struct DqState {
    pub bump: u8,
    pub device: Identity,
    pub last_window_start: i64,
    pub last_window_end: i64,
    pub last_quality_bps: u16,
    pub last_accuracy_u8: u8,
    /// The number of windows published, held at its maximum once reached.
    pub window_count: u64,
    pub last_updated_ts: i64,
    /// The digest of the latest encrypted accuracy score.
    pub last_acc_ciphertext_hash: [u8; 32],
    /// The nonce of the latest accuracy request, low byte first.
    pub last_acc_nonce_le: [u8; 16],
    pub reserved: [u8; 16],
}

} // verus!
