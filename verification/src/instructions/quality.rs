//! The data-quality records of a device: their first values, and the
//! publishing of the metrics of one window of readings.

use vstd::prelude::*;
use crate::identity::Identity;
use crate::state::dq::{DqConfig, DqState};

verus! {

/// The readings of the window vary more than the device's upper threshold.
pub const FLAG_NOISY: u8 = 1;

/// The readings of the window vary less than the device's lower threshold.
pub const FLAG_STUCK: u8 = 2;

/// Why the publishing of metrics was refused.
#[derive(Clone, Copy, Debug, PartialEq, Eq, Structural)]
pub enum ErrorCode {
    /// Unauthorized caller
    Unauthorized,
}

impl ErrorCode {
    /// The message that goes with the error.
    pub open spec fn spec_message(self) -> Seq<char> {
        match self {
            ErrorCode::Unauthorized => "Unauthorized caller"@,
        }
    }

    /// The message that goes with the error, for the one who made the
    /// request.
    pub fn message(&self) -> (r: &'static str)
        ensures
            r@ == self.spec_message(),
    {
        match self {
            ErrorCode::Unauthorized => "Unauthorized caller",
        }
    }
}

/// The notice of the metrics of one window.
#[derive(Clone, Copy, Debug, PartialEq, Eq)]
pub struct DataQualityEvent {
    pub device: Identity,
    pub listing: Identity,
    pub window_start: i64,
    pub window_end: i64,
    pub field_completeness_bps: u16,
    pub packet_completeness_bps: u16,
    pub stale_ratio_bps: u16,
    pub delay_p50_ms: u32,
    pub delay_p90_ms: u32,
    pub delay_p99_ms: u32,
    pub rolling_var_q16_16: u32,
    pub flags: u8,
    pub accuracy_score_opt: Option<u8>,
    pub quality_score_bps_opt: Option<u16>,
}

/// The accounts with which a device's data-quality records are set up.
#[derive(Clone, Copy, Debug, PartialEq, Eq)]
pub struct InitDqForDevice {
    pub device: Identity,
    pub dq_config: DqConfig,
    pub dq_state: DqState,
    /// The bump seeds of the addresses of the two records.
    pub dq_config_bump: u8,
    pub dq_state_bump: u8,
}

/// The accounts with which metrics are published.
#[derive(Clone, Copy, Debug, PartialEq, Eq)]
pub struct PublishQualityMetrics {
    pub device: Identity,
    pub listing: Identity,
    pub dq_config: DqConfig,
    pub dq_state: DqState,
    /// The signer: it must be the authority of the configuration.
    pub authority: Identity,
}

/// Sets up the data-quality records of a device: the configuration takes
/// the thresholds and the authority, and the state starts with no window
/// published and every result at zero.
pub fn init_dq_for_device_handler(
    ctx: &mut InitDqForDevice,
    authority: Identity,
    expected_rate_hz: u32,
    stale_threshold_ms: u32,
    var_hi_q16_16: u32,
    var_lo_q16_16: u32,
    eps_q16_16: u32,
)
    ensures
        final(ctx).dq_config == (DqConfig {
            bump: old(ctx).dq_config_bump,
            device: old(ctx).device,
            authority: authority,
            expected_rate_hz: expected_rate_hz,
            stale_threshold_ms: stale_threshold_ms,
            var_hi_q16_16: var_hi_q16_16,
            var_lo_q16_16: var_lo_q16_16,
            eps_q16_16: eps_q16_16,
            reserved: old(ctx).dq_config.reserved,
        }),
        final(ctx).dq_state.bump == old(ctx).dq_state_bump,
        final(ctx).dq_state.device == old(ctx).device,
        final(ctx).dq_state.last_window_start == 0,
        final(ctx).dq_state.last_window_end == 0,
        final(ctx).dq_state.last_quality_bps == 0,
        final(ctx).dq_state.last_accuracy_u8 == 0,
        final(ctx).dq_state.window_count == 0,
        final(ctx).dq_state.last_updated_ts == 0,
        final(ctx).dq_state.last_acc_ciphertext_hash@ == Seq::new(32, |i: int| 0u8),
        final(ctx).dq_state.last_acc_nonce_le@ == Seq::new(16, |i: int| 0u8),
        final(ctx).dq_state.reserved@ == Seq::new(16, |i: int| 0u8),
        final(ctx).device == old(ctx).device,
        final(ctx).dq_config_bump == old(ctx).dq_config_bump,
        final(ctx).dq_state_bump == old(ctx).dq_state_bump,
{
    ctx.dq_config.bump = ctx.dq_config_bump;
    ctx.dq_config.device = ctx.device;
    ctx.dq_config.authority = authority;
    ctx.dq_config.expected_rate_hz = expected_rate_hz;
    ctx.dq_config.stale_threshold_ms = stale_threshold_ms;
    ctx.dq_config.var_hi_q16_16 = var_hi_q16_16;
    ctx.dq_config.var_lo_q16_16 = var_lo_q16_16;
    ctx.dq_config.eps_q16_16 = eps_q16_16;

    ctx.dq_state.bump = ctx.dq_state_bump;
    ctx.dq_state.device = ctx.device;
    ctx.dq_state.last_window_start = 0;
    ctx.dq_state.last_window_end = 0;
    ctx.dq_state.last_quality_bps = 0;
    ctx.dq_state.last_accuracy_u8 = 0;
    ctx.dq_state.window_count = 0;
    ctx.dq_state.last_updated_ts = 0;
    ctx.dq_state.last_acc_ciphertext_hash = [0u8; 32];
    ctx.dq_state.last_acc_nonce_le = [0u8; 16];
    ctx.dq_state.reserved = [0u8; 16];
    assert(ctx.dq_state.last_acc_ciphertext_hash@ =~= Seq::new(32, |i: int| 0u8));
    assert(ctx.dq_state.last_acc_nonce_le@ =~= Seq::new(16, |i: int| 0u8));
    assert(ctx.dq_state.reserved@ =~= Seq::new(16, |i: int| 0u8));
}

/// The data-quality state after the metrics of one more window.
pub open spec fn published_state(
    state: DqState,
    window_start: i64,
    window_end: i64,
    accuracy_score_opt: Option<u8>,
    quality_score_bps_opt: Option<u16>,
    now: i64,
) -> DqState {
    DqState {
        last_window_start: window_start,
        last_window_end: window_end,
        window_count: if state.window_count == u64::MAX {
            u64::MAX
        } else {
            (state.window_count + 1) as u64
        },
        last_updated_ts: now,
        last_quality_bps: match quality_score_bps_opt {
            Some(q) => q,
            None => state.last_quality_bps,
        },
        last_accuracy_u8: match accuracy_score_opt {
            Some(a) => a,
            None => state.last_accuracy_u8,
        },
        ..state
    }
}

/// Publishes the metrics of one window of a device's readings, at the
/// moment `now`.
///
/// Only the authority of the device's configuration may publish; any other
/// signer is refused and nothing changes. Otherwise the state takes the
/// window, counts it (the count stops at its maximum), takes the moment and
/// the scores that are given, and the result is the notice of the metrics
/// as they were given.
pub fn publish_quality_metrics_handler(
    ctx: &mut PublishQualityMetrics,
    window_start: i64,
    window_end: i64,
    field_completeness_bps: u16,
    packet_completeness_bps: u16,
    stale_ratio_bps: u16,
    delay_p50_ms: u32,
    delay_p90_ms: u32,
    delay_p99_ms: u32,
    rolling_var_q16_16: u32,
    flags: u8,
    accuracy_score_opt: Option<u8>,
    quality_score_bps_opt: Option<u16>,
    now: i64,
) -> (r: Result<DataQualityEvent, ErrorCode>)
    ensures
        old(ctx).dq_config.authority != old(ctx).authority ==> r == Err::<
            DataQualityEvent,
            ErrorCode,
        >(ErrorCode::Unauthorized) && *final(ctx) == *old(ctx),
        old(ctx).dq_config.authority == old(ctx).authority ==> {
            &&& r == Ok::<DataQualityEvent, ErrorCode>(
                DataQualityEvent {
                    device: old(ctx).device,
                    listing: old(ctx).listing,
                    window_start,
                    window_end,
                    field_completeness_bps,
                    packet_completeness_bps,
                    stale_ratio_bps,
                    delay_p50_ms,
                    delay_p90_ms,
                    delay_p99_ms,
                    rolling_var_q16_16,
                    flags,
                    accuracy_score_opt,
                    quality_score_bps_opt,
                },
            )
            &&& *final(ctx) == (PublishQualityMetrics {
                dq_state: published_state(
                    old(ctx).dq_state,
                    window_start,
                    window_end,
                    accuracy_score_opt,
                    quality_score_bps_opt,
                    now,
                ),
                ..*old(ctx)
            })
        },
{
    if !ctx.dq_config.authority.same(&ctx.authority) {
        return Err(ErrorCode::Unauthorized);
    }
    ctx.dq_state.last_window_start = window_start;
    ctx.dq_state.last_window_end = window_end;
    ctx.dq_state.window_count = ctx.dq_state.window_count.saturating_add(1);
    ctx.dq_state.last_updated_ts = now;
    if let Some(q) = quality_score_bps_opt {
        ctx.dq_state.last_quality_bps = q;
    }
    if let Some(a) = accuracy_score_opt {
        ctx.dq_state.last_accuracy_u8 = a;
    }
    Ok(
        DataQualityEvent {
            device: ctx.device,
            listing: ctx.listing,
            window_start,
            window_end,
            field_completeness_bps,
            packet_completeness_bps,
            stale_ratio_bps,
            delay_p50_ms,
            delay_p90_ms,
            delay_p99_ms,
            rolling_var_q16_16,
            flags,
            accuracy_score_opt,
            quality_score_bps_opt,
        },
    )
}

} // verus!
