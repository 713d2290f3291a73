//! The handoff of a data key to a buyer: the request that asks the secure
//! computation to reseal the key, and the callback that takes its result.

use vstd::prelude::*;
use crate::computation::{
    circuit_offset, Argument, CallbackAccount, Circuit, CompDefInit, ComputationOutputs, ErrorCode,
    OffChainCircuitSource, QueuedComputation, SharedEncryptedStruct,
};
use crate::endian::{le_bytes, u128_le_bytes};
use crate::identity::Identity;
use crate::state::job::QualityJob;

verus! {

/// The accounts of a request to reseal, as the ledger hands them over.
#[derive(Clone, Copy, Debug, PartialEq, Eq)]
pub struct ResealDek {
    /// The listing that the purchase was made against.
    pub listing_state: Identity,
    /// The purchase whose key is resealed.
    pub purchase_record: Identity,
    /// The bump seed kept with the account that signs the request.
    pub sign_pda_account_bump: u8,
    /// The bump seed that the ledger derived for that account.
    pub derived_sign_pda_bump: u8,
    /// The job record of the request, stored under the request's identity.
    pub job_pda: QualityJob,
}

/// The accounts of the callback, as the ledger hands them over, and what
/// the transaction's list of instructions says of the caller.
#[derive(Clone, Copy, Debug, PartialEq, Eq)]
pub struct ResealDekCallback {
    /// The program of the secure computation: the only trusted caller.
    pub arcium_program: Identity,
    /// The index of the running instruction in its transaction.
    pub instruction_index: u16,
    /// The program of the running instruction.
    pub current_program: Identity,
    /// The program of the instruction before it, where there is one.
    pub previous_program: Option<Identity>,
    pub listing_state: Identity,
    pub purchase_record: Identity,
}

/// The notice that carries a resealed key, piece by piece.
#[derive(Clone, Copy, Debug, PartialEq, Eq)]
pub struct ResealOutput {
    pub listing: Identity,
    pub record: Identity,
    pub encryption_key: [u8; 32],
    pub nonce: [u8; 16],
    pub c0: [u8; 32],
    pub c1: [u8; 32],
    pub c2: [u8; 32],
    pub c3: [u8; 32],
}

/// The arguments of a request to reseal, in the order in which the circuit
/// reads them: the nonce, the four limbs of the sealed key, and the buyer's
/// public key.
pub open spec fn reseal_args(
    nonce: u128,
    buyer_x25519_pubkey: [u8; 32],
    c0: [u8; 32],
    c1: [u8; 32],
    c2: [u8; 32],
    c3: [u8; 32],
) -> Seq<Argument> {
    seq![
        Argument::PlaintextU128(nonce),
        Argument::EncryptedU64(c0),
        Argument::EncryptedU64(c1),
        Argument::EncryptedU64(c2),
        Argument::EncryptedU64(c3),
        Argument::ArcisPubkey(buyer_x25519_pubkey),
    ]
}

/// The accounts that the callback of a request to reseal is handed: the
/// listing, to be read, and the purchase record, to be written.
pub open spec fn reseal_callback_accounts(listing: Identity, record: Identity) -> Seq<CallbackAccount> {
    seq![
        CallbackAccount { pubkey: listing, is_writable: false },
        CallbackAccount { pubkey: record, is_writable: true },
    ]
}

/// Builds the request that asks the secure computation to reseal a data key
/// for a buyer, at the moment `now`.
///
/// The request carries the nonce, the limbs of the sealed key and the
/// buyer's public key, and names the listing and the purchase record for
/// the callback. The job record keeps the nonce and the moment, so that the
/// result can be told apart when it arrives; the signing account takes the
/// bump seed that the ledger derived.
pub fn handler(
    ctx: &mut ResealDek,
    computation_offset: u64,
    nonce: u128,
    buyer_x25519_pubkey: [u8; 32],
    c0: [u8; 32],
    c1: [u8; 32],
    c2: [u8; 32],
    c3: [u8; 32],
    now: i64,
) -> (r: QueuedComputation)
    ensures
        r.computation_offset == computation_offset,
        r.comp_def_offset == circuit_offset(Circuit::ResealDek.spec_name()),
        r.args@ == reseal_args(nonce, buyer_x25519_pubkey, c0, c1, c2, c3),
        r.callback_accounts@ == reseal_callback_accounts(
            old(ctx).listing_state,
            old(ctx).purchase_record,
        ),
        *final(ctx) == (ResealDek {
            sign_pda_account_bump: old(ctx).derived_sign_pda_bump,
            job_pda: QualityJob { nonce: nonce, created_at: now, bump: old(ctx).job_pda.bump },
            ..*old(ctx)
        }),
{
    let mut args: Vec<Argument> = Vec::new();
    args.push(Argument::PlaintextU128(nonce));
    args.push(Argument::EncryptedU64(c0));
    args.push(Argument::EncryptedU64(c1));
    args.push(Argument::EncryptedU64(c2));
    args.push(Argument::EncryptedU64(c3));
    args.push(Argument::ArcisPubkey(buyer_x25519_pubkey));
    assert(args@ =~= reseal_args(nonce, buyer_x25519_pubkey, c0, c1, c2, c3));

    let mut callback_accounts: Vec<CallbackAccount> = Vec::new();
    callback_accounts.push(CallbackAccount { pubkey: ctx.listing_state, is_writable: false });
    callback_accounts.push(CallbackAccount { pubkey: ctx.purchase_record, is_writable: true });
    assert(callback_accounts@ =~= reseal_callback_accounts(ctx.listing_state, ctx.purchase_record));

    ctx.sign_pda_account_bump = ctx.derived_sign_pda_bump;
    ctx.job_pda.nonce = nonce;
    ctx.job_pda.created_at = now;

    QueuedComputation {
        computation_offset,
        comp_def_offset: Circuit::ResealDek.offset(),
        args,
        callback_accounts,
    }
}

/// Whether a callback comes from the secure computation: its own
/// instruction, or the one just before it, runs that program.
pub open spec fn called_by_arcium(
    instruction_index: u16,
    current_program: Identity,
    previous_program: Option<Identity>,
    arcium_program: Identity,
) -> bool {
    current_program == arcium_program || (instruction_index > 0 && previous_program == Some(
        arcium_program,
    ))
}

/// Checks where a callback comes from, by the transaction's list of
/// instructions: `current_program` runs the instruction at
/// `instruction_index`, and `previous_program` the one before it, where
/// there is one. Any other caller is refused as unauthorized.
pub fn assert_called_by_arcium(
    instruction_index: u16,
    current_program: &Identity,
    previous_program: Option<&Identity>,
    arcium_program: &Identity,
) -> (r: Result<(), ErrorCode>)
    ensures
        called_by_arcium(
            instruction_index,
            *current_program,
            match previous_program {
                Some(p) => Some(*p),
                None => None,
            },
            *arcium_program,
        ) ==> r is Ok,
        !called_by_arcium(
            instruction_index,
            *current_program,
            match previous_program {
                Some(p) => Some(*p),
                None => None,
            },
            *arcium_program,
        ) ==> r == Err::<(), ErrorCode>(ErrorCode::Unauthorized),
{
    if current_program.same(arcium_program) {
        return Ok(());
    }
    if instruction_index > 0 {
        if let Some(previous) = previous_program {
            if previous.same(arcium_program) {
                return Ok(());
            }
        }
    }
    Err(ErrorCode::Unauthorized)
}

/// The notice for a resealed key that arrived for a purchase.
pub open spec fn reseal_notice(
    ctx: &ResealDekCallback,
    out: SharedEncryptedStruct,
    notice: ResealOutput,
) -> bool {
    &&& notice.listing == ctx.listing_state
    &&& notice.record == ctx.purchase_record
    &&& notice.encryption_key == out.encryption_key
    &&& notice.nonce@ == le_bytes(out.nonce as nat, 16)
    &&& notice.c0 == out.ciphertexts[0]
    &&& notice.c1 == out.ciphertexts[1]
    &&& notice.c2 == out.ciphertexts[2]
    &&& notice.c3 == out.ciphertexts[3]
}

/// Takes the result of a request to reseal.
///
/// A callback that does not come from the secure computation is refused as
/// unauthorized, whatever it carries. One that does is refused as aborted
/// where the computation failed; where it succeeded, the result is the
/// notice that carries the resealed key for the purchase. The purchase
/// record itself is not written here.
pub fn reseal_dek_callback(
    ctx: &ResealDekCallback,
    output: ComputationOutputs<SharedEncryptedStruct>,
) -> (r: Result<ResealOutput, ErrorCode>)
    ensures
        !called_by_arcium(
            ctx.instruction_index,
            ctx.current_program,
            ctx.previous_program,
            ctx.arcium_program,
        ) ==> r == Err::<ResealOutput, ErrorCode>(ErrorCode::Unauthorized),
        called_by_arcium(
            ctx.instruction_index,
            ctx.current_program,
            ctx.previous_program,
            ctx.arcium_program,
        ) ==> match output {
            ComputationOutputs::Success(out) => r is Ok && reseal_notice(ctx, out, r->Ok_0),
            ComputationOutputs::Failure => r == Err::<ResealOutput, ErrorCode>(
                ErrorCode::AbortedComputation,
            ),
        },
{
    let previous = match &ctx.previous_program {
        Some(p) => Some(p),
        None => None,
    };
    match assert_called_by_arcium(
        ctx.instruction_index,
        &ctx.current_program,
        previous,
        &ctx.arcium_program,
    ) {
        Ok(()) => {},
        Err(e) => {
            return Err(e);
        },
    }
    let out = match output {
        ComputationOutputs::Success(out) => out,
        ComputationOutputs::Failure => {
            return Err(ErrorCode::AbortedComputation);
        },
    };
    Ok(
        ResealOutput {
            listing: ctx.listing_state,
            record: ctx.purchase_record,
            encryption_key: out.encryption_key,
            nonce: u128_le_bytes(out.nonce),
            c0: out.ciphertexts[0],
            c1: out.ciphertexts[1],
            c2: out.ciphertexts[2],
            c3: out.ciphertexts[3],
        },
    )
}

/// The digest of the reseal circuit's definition, as it was published.
pub open spec fn reseal_circuit_hash() -> Seq<u8> {
    seq![
        168u8, 104u8, 243u8, 119u8, 239u8, 175u8, 108u8, 148u8, 212u8, 136u8, 204u8, 96u8, 132u8,
        179u8, 193u8, 113u8, 149u8, 206u8, 164u8, 33u8, 43u8, 238u8, 48u8, 253u8, 85u8, 155u8,
        187u8, 16u8, 44u8, 116u8, 252u8, 217u8,
    ]
}

/// What the definition of the reseal circuit is registered with: it is kept
/// off the ledger, under its published address and digest, and is not
/// finalized during the callback.
pub fn init_reseal_dek_comp_def() -> (r: CompDefInit)
    ensures
        r.circuit == Circuit::ResealDek,
        !r.finalize_during_callback,
        r.cu_amount == 0,
        r.finalize_authority is None,
        r.circuit_source_override is Some,
        r.circuit_source_override->Some_0.source@
            == "https://github.com/RedaRahmani/ChainSensors-V1/releases/download/v0.1.0/reseal_dek.arcis"@,
        r.circuit_source_override->Some_0.hash@ == reseal_circuit_hash(),
{
    let hash: [u8; 32] = [
        168, 104, 243, 119, 239, 175, 108, 148, 212, 136, 204, 96, 132, 179, 193, 113, 149, 206,
        164, 33, 43, 238, 48, 253, 85, 155, 187, 16, 44, 116, 252, 217,
    ];
    assert(hash@ =~= reseal_circuit_hash());
    CompDefInit {
        circuit: Circuit::ResealDek,
        finalize_during_callback: false,
        cu_amount: 0,
        circuit_source_override: Some(
            OffChainCircuitSource {
                source: "https://github.com/RedaRahmani/ChainSensors-V1/releases/download/v0.1.0/reseal_dek.arcis".to_owned(),
                hash,
            },
        ),
        finalize_authority: None,
    }
}

} // verus!
