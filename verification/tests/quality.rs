use chain_sensors::identity::Identity;
use chain_sensors::instructions::quality::{
    init_dq_for_device_handler, publish_quality_metrics_handler, DataQualityEvent, ErrorCode,
    InitDqForDevice, PublishQualityMetrics, FLAG_NOISY, FLAG_STUCK,
};
use chain_sensors::state::dq::{DqConfig, DqState, DQ_CONFIG_SPACE, DQ_STATE_SPACE};
use chain_sensors::state::job::{job_seed, QUALITY_JOB_SIZE};

fn id(n: u8) -> Identity {
    Identity::new([n; 32])
}

fn config() -> DqConfig {
    DqConfig {
        bump: 9,
        device: id(7),
        authority: id(20),
        expected_rate_hz: 10,
        stale_threshold_ms: 500,
        var_hi_q16_16: 300,
        var_lo_q16_16: 3,
        eps_q16_16: 1,
        reserved: [0; 32],
    }
}

fn state(window_count: u64) -> DqState {
    DqState {
        bump: 3,
        device: id(7),
        last_window_start: 10,
        last_window_end: 20,
        last_quality_bps: 9_000,
        last_accuracy_u8: 80,
        window_count,
        last_updated_ts: 30,
        last_acc_ciphertext_hash: [5; 32],
        last_acc_nonce_le: [6; 16],
        reserved: [0; 16],
    }
}

#[test]
fn records_start_at_zero() {
    let mut ctx = InitDqForDevice {
        device: id(7),
        dq_config: DqConfig { reserved: [4; 32], ..config() },
        dq_state: state(17),
        dq_config_bump: 201,
        dq_state_bump: 202,
    };
    init_dq_for_device_handler(&mut ctx, id(21), 50, 1_000, 400, 4, 2);
    assert_eq!(
        ctx.dq_config,
        DqConfig {
            bump: 201,
            device: id(7),
            authority: id(21),
            expected_rate_hz: 50,
            stale_threshold_ms: 1_000,
            var_hi_q16_16: 400,
            var_lo_q16_16: 4,
            eps_q16_16: 2,
            reserved: [4; 32],
        }
    );
    assert_eq!(
        ctx.dq_state,
        DqState {
            bump: 202,
            device: id(7),
            last_window_start: 0,
            last_window_end: 0,
            last_quality_bps: 0,
            last_accuracy_u8: 0,
            window_count: 0,
            last_updated_ts: 0,
            last_acc_ciphertext_hash: [0; 32],
            last_acc_nonce_le: [0; 16],
            reserved: [0; 16],
        }
    );
}

fn publish(ctx: &mut PublishQualityMetrics, accuracy: Option<u8>, quality: Option<u16>) -> Result<DataQualityEvent, ErrorCode> {
    publish_quality_metrics_handler(
        ctx, 100, 200, 9_900, 9_800, 50, 5, 9, 12, 77, FLAG_NOISY | FLAG_STUCK, accuracy, quality, 250,
    )
}

fn publish_accounts(authority: u8, window_count: u64) -> PublishQualityMetrics {
    PublishQualityMetrics {
        device: id(7),
        listing: id(8),
        dq_config: config(),
        dq_state: state(window_count),
        authority: id(authority),
    }
}

#[test]
fn metrics_of_a_window_are_published() {
    let mut ctx = publish_accounts(20, 4);
    let event = publish(&mut ctx, Some(90), Some(9_500)).unwrap();
    assert_eq!(
        event,
        DataQualityEvent {
            device: id(7),
            listing: id(8),
            window_start: 100,
            window_end: 200,
            field_completeness_bps: 9_900,
            packet_completeness_bps: 9_800,
            stale_ratio_bps: 50,
            delay_p50_ms: 5,
            delay_p90_ms: 9,
            delay_p99_ms: 12,
            rolling_var_q16_16: 77,
            flags: 3,
            accuracy_score_opt: Some(90),
            quality_score_bps_opt: Some(9_500),
        }
    );
    assert_eq!(
        ctx.dq_state,
        DqState {
            last_window_start: 100,
            last_window_end: 200,
            last_quality_bps: 9_500,
            last_accuracy_u8: 90,
            window_count: 5,
            last_updated_ts: 250,
            ..state(4)
        }
    );
    assert_eq!(ctx.dq_config, config());
}

#[test]
fn scores_that_are_not_given_stay() {
    let mut ctx = publish_accounts(20, 4);
    publish(&mut ctx, None, None).unwrap();
    assert_eq!(ctx.dq_state.last_quality_bps, 9_000);
    assert_eq!(ctx.dq_state.last_accuracy_u8, 80);
    assert_eq!(ctx.dq_state.window_count, 5);
}

#[test]
fn window_count_stops_at_its_maximum() {
    let mut ctx = publish_accounts(20, u64::MAX - 1);
    publish(&mut ctx, None, None).unwrap();
    assert_eq!(ctx.dq_state.window_count, u64::MAX);
    publish(&mut ctx, None, None).unwrap();
    assert_eq!(ctx.dq_state.window_count, u64::MAX);
}

#[test]
fn only_the_authority_publishes() {
    let mut ctx = publish_accounts(99, 4);
    assert_eq!(publish(&mut ctx, Some(90), Some(9_500)), Err(ErrorCode::Unauthorized));
    assert_eq!(ctx, publish_accounts(99, 4));
}

#[test]
fn sizes_and_seeds_of_the_records() {
    assert_eq!(DQ_CONFIG_SPACE, 8 + 1 + 32 + 32 + 4 + 4 + 4 + 4 + 4 + 32);
    assert_eq!(DQ_STATE_SPACE, 8 + 1 + 32 + 8 + 8 + 2 + 1 + 8 + 8 + 32 + 16 + 16);
    assert_eq!(QUALITY_JOB_SIZE, 16 + 1 + 8);
    assert_eq!(job_seed(), b"quality_job".to_vec());
    assert_eq!(FLAG_NOISY, 1 << 0);
    assert_eq!(FLAG_STUCK, 1 << 1);
}
