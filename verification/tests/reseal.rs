use chain_sensors::computation::{
    Argument, CallbackAccount, Circuit, ComputationOutputs, ErrorCode, SharedEncryptedStruct,
};
use chain_sensors::endian::{u128_le_bytes, u64_le_bytes};
use chain_sensors::identity::Identity;
use chain_sensors::instructions::reseal_dek::{
    assert_called_by_arcium, handler, init_reseal_dek_comp_def, reseal_dek_callback,
    ResealDek, ResealDekCallback, ResealOutput,
};
use chain_sensors::state::job::QualityJob;

fn id(n: u8) -> Identity {
    Identity::new([n; 32])
}

const ARCIUM: u8 = 50;
const LISTING: u8 = 8;
const RECORD: u8 = 12;

#[test]
fn request_carries_nonce_limbs_and_key() {
    let mut ctx = ResealDek {
        listing_state: id(LISTING),
        purchase_record: id(RECORD),
        sign_pda_account_bump: 0,
        derived_sign_pda_bump: 251,
        job_pda: QualityJob { nonce: 0, bump: 7, created_at: 0 },
    };
    let nonce = 0x0102_0304_0506_0708_090a_0b0c_0d0e_0f10u128;
    let request = handler(&mut ctx, 77, nonce, [9; 32], [1; 32], [2; 32], [3; 32], [4; 32], 4_000);
    assert_eq!(request.computation_offset, 77);
    assert_eq!(request.comp_def_offset, 4067419964);
    assert_eq!(
        request.args,
        vec![
            Argument::PlaintextU128(nonce),
            Argument::EncryptedU64([1; 32]),
            Argument::EncryptedU64([2; 32]),
            Argument::EncryptedU64([3; 32]),
            Argument::EncryptedU64([4; 32]),
            Argument::ArcisPubkey([9; 32]),
        ]
    );
    assert_eq!(
        request.callback_accounts,
        vec![
            CallbackAccount { pubkey: id(LISTING), is_writable: false },
            CallbackAccount { pubkey: id(RECORD), is_writable: true },
        ]
    );
    assert_eq!(
        ctx,
        ResealDek {
            listing_state: id(LISTING),
            purchase_record: id(RECORD),
            sign_pda_account_bump: 251,
            derived_sign_pda_bump: 251,
            job_pda: QualityJob { nonce, bump: 7, created_at: 4_000 },
        }
    );
}

#[test]
fn routing_keys_of_the_circuits() {
    assert_eq!(Circuit::AddTogether.name(), "add_together");
    assert_eq!(Circuit::ComputeAccuracyScore.name(), "compute_accuracy_score");
    assert_eq!(Circuit::ResealDek.name(), "reseal_dek");
    assert_eq!(Circuit::AddTogether.offset(), 4005749700);
    assert_eq!(Circuit::ComputeAccuracyScore.offset(), 4272079562);
    assert_eq!(Circuit::ResealDek.offset(), 4067419964);
    assert_eq!(Circuit::ResealDek.offset(), arcium_anchor::comp_def_offset("reseal_dek"));
}

#[test]
fn provenance_of_a_callback() {
    let arcium = id(ARCIUM);
    let other = id(51);
    assert_eq!(assert_called_by_arcium(0, &arcium, None, &arcium), Ok(()));
    assert_eq!(assert_called_by_arcium(3, &arcium, Some(&other), &arcium), Ok(()));
    assert_eq!(assert_called_by_arcium(1, &other, Some(&arcium), &arcium), Ok(()));
    assert_eq!(assert_called_by_arcium(0, &other, None, &arcium), Err(ErrorCode::Unauthorized));
    assert_eq!(assert_called_by_arcium(0, &other, Some(&arcium), &arcium), Err(ErrorCode::Unauthorized));
    assert_eq!(assert_called_by_arcium(1, &other, Some(&other), &arcium), Err(ErrorCode::Unauthorized));
    assert_eq!(assert_called_by_arcium(1, &other, None, &arcium), Err(ErrorCode::Unauthorized));
}

fn callback_accounts(current: u8, index: u16, previous: Option<u8>) -> ResealDekCallback {
    ResealDekCallback {
        arcium_program: id(ARCIUM),
        instruction_index: index,
        current_program: id(current),
        previous_program: previous.map(id),
        listing_state: id(LISTING),
        purchase_record: id(RECORD),
    }
}

fn output() -> SharedEncryptedStruct {
    SharedEncryptedStruct {
        encryption_key: [21; 32],
        nonce: 0x0102_0304_0506_0708_090a_0b0c_0d0e_0f10,
        ciphertexts: [[31; 32], [32; 32], [33; 32], [34; 32]],
    }
}

#[test]
fn result_of_a_reseal_becomes_a_notice() {
    let ctx = callback_accounts(ARCIUM, 0, None);
    let notice = reseal_dek_callback(&ctx, ComputationOutputs::Success(output())).unwrap();
    assert_eq!(
        notice,
        ResealOutput {
            listing: id(LISTING),
            record: id(RECORD),
            encryption_key: [21; 32],
            nonce: [16, 15, 14, 13, 12, 11, 10, 9, 8, 7, 6, 5, 4, 3, 2, 1],
            c0: [31; 32],
            c1: [32; 32],
            c2: [33; 32],
            c3: [34; 32],
        }
    );
}

#[test]
fn aborted_computation_is_an_error_of_its_own() {
    let ctx = callback_accounts(51, 2, Some(ARCIUM));
    assert_eq!(
        reseal_dek_callback(&ctx, ComputationOutputs::Failure),
        Err(ErrorCode::AbortedComputation)
    );
}

#[test]
fn untrusted_caller_is_refused_whatever_it_carries() {
    let ctx = callback_accounts(51, 2, Some(52));
    assert_eq!(
        reseal_dek_callback(&ctx, ComputationOutputs::Success(output())),
        Err(ErrorCode::Unauthorized)
    );
    assert_eq!(reseal_dek_callback(&ctx, ComputationOutputs::Failure), Err(ErrorCode::Unauthorized));
}

#[test]
fn nonce_bytes_come_low_byte_first() {
    assert_eq!(u128_le_bytes(1), [1, 0, 0, 0, 0, 0, 0, 0, 0, 0, 0, 0, 0, 0, 0, 0]);
    assert_eq!(u128_le_bytes(0), [0; 16]);
    assert_eq!(u128_le_bytes(u128::MAX), [255; 16]);
    assert_eq!(u128_le_bytes(0x1234), 0x1234u128.to_le_bytes());
    let n = 0x0102_0304_0506_0708_090a_0b0c_0d0e_0f10u128;
    assert_eq!(u128_le_bytes(n), n.to_le_bytes());
    assert_eq!(u64_le_bytes(258), [2, 1, 0, 0, 0, 0, 0, 0]);
    assert_eq!(u64_le_bytes(u64::MAX), [255; 8]);
    assert_eq!(u64_le_bytes(0x0102_0304_0506_0708), 0x0102_0304_0506_0708u64.to_le_bytes());
}

#[test]
fn definition_of_the_reseal_circuit() {
    let init = init_reseal_dek_comp_def();
    assert_eq!(init.circuit, Circuit::ResealDek);
    assert!(!init.finalize_during_callback);
    assert_eq!(init.cu_amount, 0);
    assert_eq!(init.finalize_authority, None);
    let source = init.circuit_source_override.unwrap();
    assert_eq!(
        source.source,
        "https://github.com/RedaRahmani/ChainSensors-V1/releases/download/v0.1.0/reseal_dek.arcis"
    );
    assert_eq!(
        source.hash,
        [
            168, 104, 243, 119, 239, 175, 108, 148, 212, 136, 204, 96, 132, 179, 193, 113, 149, 206,
            164, 33, 43, 238, 48, 253, 85, 155, 187, 16, 44, 116, 252, 217
        ]
    );
}
