use chain_sensors::circuits::{add_together, compute_accuracy_score as score, reseal_dek, InputValues};
use chain_sensors::computation::{
    Argument, CallbackAccount, Circuit, ComputationOutputs, ErrorCode,
};
use chain_sensors::identity::Identity;
use chain_sensors::instructions::compute_accuracy::{
    compute_accuracy_score, compute_accuracy_score_callback, compute_accuracy_score_for,
    init_accuracy_score_comp_def, ComputeAccuracyScore, ComputeAccuracyScoreCallback,
};
use chain_sensors::state::dq::DqState;
use chain_sensors::state::job::QualityJob;

fn id(n: u8) -> Identity {
    Identity::new([n; 32])
}

const ONE: u32 = 65_536;

fn accounts() -> ComputeAccuracyScore {
    ComputeAccuracyScore {
        job_pda: QualityJob { nonce: 0, bump: 7, created_at: 0 },
        device: id(7),
        listing_state: id(8),
        program_id: id(60),
    }
}

fn state() -> DqState {
    DqState {
        bump: 3,
        device: id(7),
        last_window_start: 10,
        last_window_end: 20,
        last_quality_bps: 9_000,
        last_accuracy_u8: 80,
        window_count: 4,
        last_updated_ts: 30,
        last_acc_ciphertext_hash: [0; 32],
        last_acc_nonce_le: [0; 16],
        reserved: [0; 16],
    }
}

#[test]
fn request_for_a_known_state_address() {
    let mut ctx = accounts();
    let request =
        compute_accuracy_score_for(&mut ctx, id(61), 5, [1; 32], [2; 32], [3; 32], [4; 32], 99, 4_000);
    assert_eq!(request.computation_offset, 5);
    assert_eq!(request.comp_def_offset, Circuit::ComputeAccuracyScore.offset());
    assert_eq!(
        request.args,
        vec![
            Argument::ArcisPubkey([4; 32]),
            Argument::PlaintextU128(99),
            Argument::EncryptedU32([1; 32]),
            Argument::EncryptedU32([2; 32]),
            Argument::EncryptedU32([3; 32]),
        ]
    );
    assert_eq!(
        request.callback_accounts,
        vec![
            CallbackAccount { pubkey: id(7), is_writable: false },
            CallbackAccount { pubkey: id(8), is_writable: false },
            CallbackAccount { pubkey: id(61), is_writable: true },
        ]
    );
    assert_eq!(ctx.job_pda, QualityJob { nonce: 99, bump: 7, created_at: 4_000 });
    assert_eq!(ctx.device, id(7));
}

#[test]
fn request_derives_the_state_address() {
    let mut ctx = accounts();
    let request =
        compute_accuracy_score(&mut ctx, 5, [1; 32], [2; 32], [3; 32], [4; 32], 99, 4_000).unwrap();
    let program = anchor_lang::prelude::Pubkey::new_from_array([60; 32]);
    let (expected, _) =
        anchor_lang::prelude::Pubkey::find_program_address(&[b"dqstate", &[7u8; 32]], &program);
    assert_eq!(request.callback_accounts.len(), 3);
    assert_eq!(request.callback_accounts[2].pubkey.bytes, expected.to_bytes());
    assert!(request.callback_accounts[2].is_writable);
    assert_ne!(request.callback_accounts[2].pubkey, id(7));
    assert_eq!(ctx.job_pda.nonce, 99);
    assert_eq!(ctx.job_pda.created_at, 4_000);
}

#[test]
fn callback_commits_to_the_digest_of_the_ciphertext() {
    let mut ctx = ComputeAccuracyScoreCallback {
        job_pda: QualityJob { nonce: 0x0102, bump: 7, created_at: 4_000 },
        dq_state: state(),
    };
    let event =
        compute_accuracy_score_callback(&mut ctx, ComputationOutputs::Success(Vec::new()), 5_000).unwrap();
    let empty_digest: [u8; 32] = [
        0xc5, 0xd2, 0x46, 0x01, 0x86, 0xf7, 0x23, 0x3c, 0x92, 0x7e, 0x7d, 0xb2, 0xdc, 0xc7, 0x03, 0xc0,
        0xe5, 0x00, 0xb6, 0x53, 0xca, 0x82, 0x27, 0x3b, 0x7b, 0xfa, 0xd8, 0x04, 0x5d, 0x85, 0xa4, 0x70,
    ];
    assert_eq!(event.accuracy_score, empty_digest);
    assert_eq!(event.nonce, [2, 1, 0, 0, 0, 0, 0, 0, 0, 0, 0, 0, 0, 0, 0, 0]);
    assert_eq!(event.computation_type, "accuracy");
    let mut expected = state();
    expected.last_acc_ciphertext_hash = empty_digest;
    expected.last_acc_nonce_le = event.nonce;
    expected.last_updated_ts = 5_000;
    assert_eq!(ctx.dq_state, expected);
    assert_eq!(ctx.job_pda, QualityJob { nonce: 0x0102, bump: 7, created_at: 4_000 });

    let bytes = vec![7u8; 80];
    let event =
        compute_accuracy_score_callback(&mut ctx, ComputationOutputs::Success(bytes.clone()), 6_000)
            .unwrap();
    assert_eq!(event.accuracy_score, anchor_lang::solana_program::keccak::hash(&bytes).to_bytes());
    assert_ne!(event.accuracy_score, empty_digest);
    assert_eq!(ctx.dq_state.last_acc_ciphertext_hash, event.accuracy_score);
}

#[test]
fn aborted_score_changes_nothing() {
    let mut ctx = ComputeAccuracyScoreCallback {
        job_pda: QualityJob { nonce: 0x0102, bump: 7, created_at: 4_000 },
        dq_state: state(),
    };
    assert_eq!(
        compute_accuracy_score_callback(&mut ctx, ComputationOutputs::Failure, 5_000),
        Err(ErrorCode::AbortedComputation)
    );
    assert_eq!(ctx.dq_state, state());
}

#[test]
fn definition_of_the_accuracy_circuit() {
    let init = init_accuracy_score_comp_def();
    assert_eq!(init.circuit, Circuit::ComputeAccuracyScore);
    assert!(init.finalize_during_callback);
    assert_eq!(init.cu_amount, 0);
    assert_eq!(init.circuit_source_override, None);
    assert_eq!(init.finalize_authority, None);
}

#[test]
fn sum_of_two_bytes() {
    assert_eq!(add_together(InputValues { v1: 1, v2: 2 }), 3);
    assert_eq!(add_together(InputValues { v1: 255, v2: 255 }), 510);
    assert_eq!(add_together(InputValues { v1: 0, v2: 0 }), 0);
}

#[test]
fn limbs_pass_through_the_reseal_circuit() {
    assert_eq!(reseal_dek([1, 2, 3, u64::MAX]), [1, 2, 3, u64::MAX]);
}

#[test]
fn accuracy_scores() {
    assert_eq!(score(0, 0, 0), 100);
    assert_eq!(score(ONE, ONE, 0), 100);
    assert_eq!(score(ONE, ONE, ONE / 2), 33);
    assert_eq!(score(ONE, ONE, ONE), 11);
    assert_eq!(score(2 * ONE, ONE, ONE / 4), 28);
    assert_eq!(score(3 * ONE / 2, ONE, ONE / 8), 61);
    assert_eq!(score(72_089, ONE, 3_276), 96);
}

#[test]
fn accuracy_score_at_its_edges() {
    assert_eq!(score(100, 100, 50), 100);
    assert_eq!(score(0, 0, 127), 100);
    assert_eq!(score(0, 0, 128), 99);
    assert_eq!(score(100, 100, 128), 99);
    assert_eq!(score(u32::MAX, 0, u32::MAX), 0);
    assert_eq!(score(0, u32::MAX, u32::MAX), 0);
    assert_eq!(score(u32::MAX, u32::MAX, u32::MAX), 0);
}
