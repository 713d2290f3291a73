//! The accuracy score of a device's reading: the request that asks the
//! secure computation for it, and the callback that commits to the
//! encrypted result without ever decrypting it.

use vstd::prelude::*;
use crate::computation::{
    circuit_offset, Argument, CallbackAccount, Circuit, CompDefInit, ComputationOutputs, ErrorCode,
    QueuedComputation,
};
use crate::endian::{le_bytes, u128_le_bytes};
use crate::identity::Identity;
use crate::keccak::{keccak256, keccak_hash};
use crate::pda::{dq_state_address, program_address, Tag};
use crate::state::dq::DqState;
use crate::state::job::QualityJob;

verus! {

/// The accounts of a request for an accuracy score.
#[derive(Clone, Copy, Debug, PartialEq, Eq)]
pub struct ComputeAccuracyScore {
    /// The job record of the request, stored under the request's identity.
    pub job_pda: QualityJob,
    pub device: Identity,
    pub listing_state: Identity,
    /// The program that owns the data-quality records.
    pub program_id: Identity,
}

/// The accounts of the callback.
#[derive(Clone, Copy, Debug, PartialEq, Eq)]
pub struct ComputeAccuracyScoreCallback {
    pub job_pda: QualityJob,
    pub dq_state: DqState,
}

/// The notice of a committed accuracy score.
#[derive(Debug, PartialEq, Eq)]
pub struct QualityScoreEvent {
    /// The digest of the encrypted score.
    pub accuracy_score: [u8; 32],
    /// The nonce of the request, low byte first.
    pub nonce: [u8; 16],
    pub computation_type: String,
}

/// The arguments of a request for an accuracy score, in the order in which
/// the circuit reads them: the public key, the nonce, and the encrypted
/// reading, mean and standard deviation.
pub open spec fn accuracy_args(
    encrypted_reading_q16_16: [u8; 32],
    encrypted_mean_q16_16: [u8; 32],
    encrypted_std_q16_16: [u8; 32],
    pub_key: [u8; 32],
    nonce: u128,
) -> Seq<Argument> {
    seq![
        Argument::ArcisPubkey(pub_key),
        Argument::PlaintextU128(nonce),
        Argument::EncryptedU32(encrypted_reading_q16_16),
        Argument::EncryptedU32(encrypted_mean_q16_16),
        Argument::EncryptedU32(encrypted_std_q16_16),
    ]
}

/// The accounts that the callback of a request for an accuracy score is
/// handed: the device and the listing, to be read, and the device's
/// data-quality state, to be written.
pub open spec fn accuracy_callback_accounts(
    device: Identity,
    listing: Identity,
    dq_state: Identity,
) -> Seq<CallbackAccount> {
    seq![
        CallbackAccount { pubkey: device, is_writable: false },
        CallbackAccount { pubkey: listing, is_writable: false },
        CallbackAccount { pubkey: dq_state, is_writable: true },
    ]
}

/// Builds the request for an accuracy score, at the moment `now`, for a
/// device whose data-quality state is stored under `dq_state_pda`.
///
/// The job record keeps the nonce and the moment; nothing else changes.
pub fn compute_accuracy_score_for(
    ctx: &mut ComputeAccuracyScore,
    dq_state_pda: Identity,
    computation_offset: u64,
    encrypted_reading_q16_16: [u8; 32],
    encrypted_mean_q16_16: [u8; 32],
    encrypted_std_q16_16: [u8; 32],
    pub_key: [u8; 32],
    nonce: u128,
    now: i64,
) -> (r: QueuedComputation)
    ensures
        r.computation_offset == computation_offset,
        r.comp_def_offset == circuit_offset(Circuit::ComputeAccuracyScore.spec_name()),
        r.args@ == accuracy_args(
            encrypted_reading_q16_16,
            encrypted_mean_q16_16,
            encrypted_std_q16_16,
            pub_key,
            nonce,
        ),
        r.callback_accounts@ == accuracy_callback_accounts(
            old(ctx).device,
            old(ctx).listing_state,
            dq_state_pda,
        ),
        *final(ctx) == (ComputeAccuracyScore {
            job_pda: QualityJob { nonce: nonce, created_at: now, bump: old(ctx).job_pda.bump },
            ..*old(ctx)
        }),
{
    ctx.job_pda.nonce = nonce;
    ctx.job_pda.created_at = now;

    let mut args: Vec<Argument> = Vec::new();
    args.push(Argument::ArcisPubkey(pub_key));
    args.push(Argument::PlaintextU128(nonce));
    args.push(Argument::EncryptedU32(encrypted_reading_q16_16));
    args.push(Argument::EncryptedU32(encrypted_mean_q16_16));
    args.push(Argument::EncryptedU32(encrypted_std_q16_16));
    assert(args@ =~= accuracy_args(
        encrypted_reading_q16_16,
        encrypted_mean_q16_16,
        encrypted_std_q16_16,
        pub_key,
        nonce,
    ));

    let mut callback_accounts: Vec<CallbackAccount> = Vec::new();
    callback_accounts.push(CallbackAccount { pubkey: ctx.device, is_writable: false });
    callback_accounts.push(CallbackAccount { pubkey: ctx.listing_state, is_writable: false });
    callback_accounts.push(CallbackAccount { pubkey: dq_state_pda, is_writable: true });
    assert(callback_accounts@ =~= accuracy_callback_accounts(
        ctx.device,
        ctx.listing_state,
        dq_state_pda,
    ));

    QueuedComputation {
        computation_offset,
        comp_def_offset: Circuit::ComputeAccuracyScore.offset(),
        args,
        callback_accounts,
    }
}

/// Builds the request for an accuracy score, at the moment `now`: the
/// address of the device's data-quality state is derived, and the request
/// is built for it.
///
/// Where the ledger derives no address for the device, there is no request
/// and nothing has changed.
pub fn compute_accuracy_score(
    ctx: &mut ComputeAccuracyScore,
    computation_offset: u64,
    encrypted_reading_q16_16: [u8; 32],
    encrypted_mean_q16_16: [u8; 32],
    encrypted_std_q16_16: [u8; 32],
    pub_key: [u8; 32],
    nonce: u128,
    now: i64,
) -> (r: Option<QueuedComputation>)
    ensures
        r is None <==> program_address(
            seq![Tag::DqState.spec_bytes(), old(ctx).device@],
            old(ctx).program_id@,
        ) is None,
        r is None ==> *final(ctx) == *old(ctx),
        r matches Some(request) ==> {
            &&& request.computation_offset == computation_offset
            &&& request.comp_def_offset == circuit_offset(Circuit::ComputeAccuracyScore.spec_name())
            &&& request.args@ == accuracy_args(
                encrypted_reading_q16_16,
                encrypted_mean_q16_16,
                encrypted_std_q16_16,
                pub_key,
                nonce,
            )
            &&& request.callback_accounts@.len() == 3
            &&& request.callback_accounts@ == accuracy_callback_accounts(
                old(ctx).device,
                old(ctx).listing_state,
                request.callback_accounts@[2].pubkey,
            )
            &&& request.callback_accounts@[2].pubkey@ == program_address(
                seq![Tag::DqState.spec_bytes(), old(ctx).device@],
                old(ctx).program_id@,
            )->Some_0.0
            &&& *final(ctx) == (ComputeAccuracyScore {
                job_pda: QualityJob { nonce: nonce, created_at: now, bump: old(ctx).job_pda.bump },
                ..*old(ctx)
            })
        },
{
    match dq_state_address(&ctx.device, &ctx.program_id) {
        Some((dq_state_pda, _)) => {
            let request = compute_accuracy_score_for(
                ctx,
                dq_state_pda,
                computation_offset,
                encrypted_reading_q16_16,
                encrypted_mean_q16_16,
                encrypted_std_q16_16,
                pub_key,
                nonce,
                now,
            );
            Some(request)
        },
        None => None,
    }
}

/// The data-quality state after the commitment to an encrypted score with
/// the digest `digest`, for the request with the nonce `nonce`.
pub open spec fn committed_state(state: DqState, digest: [u8; 32], nonce_le: [u8; 16], now: i64) -> DqState {
    DqState {
        last_acc_ciphertext_hash: digest,
        last_acc_nonce_le: nonce_le,
        last_updated_ts: now,
        ..state
    }
}

/// Takes the result of a request for an accuracy score, at the moment
/// `now`. `output` holds the encrypted score in its stored form.
///
/// Where the computation failed, the callback is refused as aborted and
/// nothing has changed. Otherwise the device's data-quality state holds the
/// digest of the encrypted score, the nonce of the request and the moment,
/// and the result is the notice of the same digest and nonce.
pub fn compute_accuracy_score_callback(
    ctx: &mut ComputeAccuracyScoreCallback,
    output: ComputationOutputs<Vec<u8>>,
    now: i64,
) -> (r: Result<QualityScoreEvent, ErrorCode>)
    ensures
        match output {
            ComputationOutputs::Failure => r == Err::<QualityScoreEvent, ErrorCode>(
                ErrorCode::AbortedComputation,
            ) && *final(ctx) == *old(ctx),
            ComputationOutputs::Success(enc_bytes) => {
                &&& r is Ok
                &&& r->Ok_0.accuracy_score@ == keccak256(enc_bytes@)
                &&& r->Ok_0.nonce@ == le_bytes(old(ctx).job_pda.nonce as nat, 16)
                &&& r->Ok_0.computation_type@ == "accuracy"@
                &&& final(ctx).job_pda == old(ctx).job_pda
                &&& final(ctx).dq_state == committed_state(
                    old(ctx).dq_state,
                    r->Ok_0.accuracy_score,
                    r->Ok_0.nonce,
                    now,
                )
            },
        },
{
    let enc_bytes = match output {
        ComputationOutputs::Success(enc_bytes) => enc_bytes,
        ComputationOutputs::Failure => {
            return Err(ErrorCode::AbortedComputation);
        },
    };
    let digest = keccak_hash(enc_bytes.as_slice());
    let nonce_le = u128_le_bytes(ctx.job_pda.nonce);
    ctx.dq_state.last_acc_ciphertext_hash = digest;
    ctx.dq_state.last_acc_nonce_le = nonce_le;
    ctx.dq_state.last_updated_ts = now;
    Ok(
        QualityScoreEvent {
            accuracy_score: digest,
            nonce: nonce_le,
            computation_type: "accuracy".to_owned(),
        },
    )
}

/// What the definition of the accuracy circuit is registered with: it is
/// kept on the ledger and finalized during the callback.
pub fn init_accuracy_score_comp_def() -> (r: CompDefInit)
    ensures
        r.circuit == Circuit::ComputeAccuracyScore,
        r.finalize_during_callback,
        r.cu_amount == 0,
        r.circuit_source_override is None,
        r.finalize_authority is None,
{
    CompDefInit {
        circuit: Circuit::ComputeAccuracyScore,
        finalize_during_callback: true,
        cu_amount: 0,
        circuit_source_override: None,
        finalize_authority: None,
    }
}

} // verus!
