//! The registration of a device that is stored compressed: the device is
//! validated as any device is, and the request is checked and put into the
//! form in which the ledger takes it, with its proof.

use vstd::prelude::*;
use vstd::slice::slice_to_vec;
use vstd::utf8::encode_utf8;
use crate::compressed::types::{
    AddressMerkleContext, AnchorCompressedProof, CompressedProof, NewAddressParams,
    PackedAddressMerkleContext,
};
use crate::identity::Identity;
use crate::instructions::register_device::{
    handler as register, register_device_error, registered_device, ErrorCode,
    RegisterDevice as Registrant,
};
use crate::pda::{seeds_view, Tag};
use crate::state::account::Account;
use crate::state::device_registry::DeviceRegistry;
use crate::state::marketplace::Marketplace;

verus! {

/// The accounts of the registration of a compressed device.
#[derive(Debug, PartialEq, Eq)]
pub struct RegisterDevice {
    pub owner: Identity,
    pub marketplace: Account<Marketplace>,
    /// The further accounts of the request, which the indices of the
    /// address tree and of its queue point into.
    pub remaining_accounts: Vec<Identity>,
}

/// What a registration leaves to be stored and to be proved to the ledger.
#[derive(Debug, PartialEq, Eq)]
pub struct DeviceRegistration {
    pub device_registry: DeviceRegistry,
    /// The seeds that name the device: the tag, the marketplace, the
    /// device identifier.
    pub address_seeds: Vec<Vec<u8>>,
    pub address_merkle_context: AddressMerkleContext,
    pub new_address_params: NewAddressParams,
    pub proof: CompressedProof,
    pub merkle_tree_index: u8,
    /// The bump seed of the authority that signs for the program.
    pub signer_bump: u8,
}

impl RegisterDevice {
    /// The one who registers, without the further accounts of the request.
    pub open spec fn registrant(&self) -> Registrant {
        Registrant { owner: self.owner, marketplace: self.marketplace }
    }
}

/// The first check that the registration fails, in the order in which the
/// checks are made, or `None` where it passes them all: the checks of any
/// registration come first, then the two indices.
pub open spec fn compressed_registration_error(
    ctx: &RegisterDevice,
    device_id: Seq<char>,
    device_type: Seq<char>,
    location: Seq<char>,
    data_type: Seq<char>,
    data_unit: Seq<char>,
    price_per_unit: u64,
    total_data_units: u64,
    data_cid: Seq<char>,
    packed: PackedAddressMerkleContext,
) -> Option<ErrorCode> {
    let first = register_device_error(
        &ctx.registrant(),
        device_id,
        device_type,
        location,
        data_type,
        data_unit,
        price_per_unit,
        total_data_units,
        data_cid,
    );
    if first is Some {
        first
    } else if packed.address_merkle_tree_pubkey_index >= ctx.remaining_accounts@.len() {
        Some(ErrorCode::MissingMerkleTreeAccount)
    } else if packed.address_queue_pubkey_index >= ctx.remaining_accounts@.len() {
        Some(ErrorCode::MissingQueueAccount)
    } else {
        None
    }
}

/// What a successful registration yields beside the device.
pub open spec fn is_registration_request(
    ctx: &RegisterDevice,
    out: DeviceRegistration,
    device_id: Seq<char>,
    proof: AnchorCompressedProof,
    address_merkle_tree_root_index: u16,
    packed: PackedAddressMerkleContext,
    merkle_tree_index: u8,
    bump: u8,
) -> bool {
    &&& seeds_view(out.address_seeds@) == seq![
        Tag::Device.spec_bytes(),
        ctx.marketplace.key@,
        encode_utf8(device_id),
    ]
    &&& out.address_merkle_context == (AddressMerkleContext {
        address_merkle_tree_pubkey: ctx.remaining_accounts@[packed.address_merkle_tree_pubkey_index as int],
        address_queue_pubkey: ctx.remaining_accounts@[packed.address_queue_pubkey_index as int],
    })
    &&& out.new_address_params == (NewAddressParams {
        address_merkle_tree_account_index: packed.address_merkle_tree_pubkey_index,
        address_queue_account_index: packed.address_queue_pubkey_index,
        address_merkle_tree_root_index: address_merkle_tree_root_index,
    })
    &&& out.proof.a == proof.a
    &&& out.proof.b@ == proof.b0@ + proof.b1@
    &&& out.proof.c == proof.c
    &&& out.merkle_tree_index == merkle_tree_index
    &&& out.signer_bump == bump
}

/// Registers a compressed device under a marketplace, at the moment `now`.
///
/// The registration is refused with the first check it fails: those of any
/// registration, then that the indices of the address tree and of its
/// queue point at accounts of the request. Otherwise the result holds the
/// active device, which does not expire, the seeds and accounts from which
/// its address is derived, and the proof in the form the ledger takes.
pub fn handler(
    ctx: RegisterDevice,
    device_id: String,
    ek_pubkey_hash: [u8; 32],
    device_type: String,
    location: String,
    data_type: String,
    data_unit: String,
    price_per_unit: u64,
    total_data_units: u64,
    data_cid: String,
    access_key_hash: [u8; 32],
    proof: AnchorCompressedProof,
    address_merkle_tree_root_index: u16,
    packed_address_merkle_context: PackedAddressMerkleContext,
    merkle_tree_index: u8,
    bump: u8,
    now: i64,
) -> (r: Result<DeviceRegistration, ErrorCode>)
    ensures
        match compressed_registration_error(
            &ctx,
            device_id@,
            device_type@,
            location@,
            data_type@,
            data_unit@,
            price_per_unit,
            total_data_units,
            data_cid@,
            packed_address_merkle_context,
        ) {
            Some(e) => r == Err::<DeviceRegistration, ErrorCode>(e),
            None => r is Ok && r->Ok_0.device_registry == registered_device(
                &ctx.registrant(),
                device_id,
                ek_pubkey_hash,
                device_type,
                location,
                data_type,
                data_unit,
                price_per_unit,
                total_data_units,
                data_cid,
                access_key_hash,
                None,
                bump,
                now,
            ) && is_registration_request(
                &ctx,
                r->Ok_0,
                device_id@,
                proof,
                address_merkle_tree_root_index,
                packed_address_merkle_context,
                merkle_tree_index,
                bump,
            ),
        },
{
    let RegisterDevice { owner, marketplace, remaining_accounts } = ctx;
    let marketplace_key = marketplace.key;
    let device_id_bytes = slice_to_vec(device_id.as_str().as_bytes());
    let registrant = Registrant { owner, marketplace };
    let device_registry = match register(
        &registrant,
        device_id,
        ek_pubkey_hash,
        device_type,
        location,
        data_type,
        data_unit,
        price_per_unit,
        total_data_units,
        data_cid,
        access_key_hash,
        None,
        bump,
        now,
    ) {
        Ok(device) => device,
        Err(e) => {
            return Err(e);
        },
    };
    let tree_index = packed_address_merkle_context.address_merkle_tree_pubkey_index as usize;
    let queue_index = packed_address_merkle_context.address_queue_pubkey_index as usize;
    if tree_index >= remaining_accounts.len() {
        return Err(ErrorCode::MissingMerkleTreeAccount);
    }
    if queue_index >= remaining_accounts.len() {
        return Err(ErrorCode::MissingQueueAccount);
    }
    let address_merkle_context = AddressMerkleContext {
        address_merkle_tree_pubkey: remaining_accounts[tree_index],
        address_queue_pubkey: remaining_accounts[queue_index],
    };

    let mut address_seeds: Vec<Vec<u8>> = Vec::new();
    address_seeds.push(Tag::Device.bytes());
    address_seeds.push(slice_to_vec(marketplace_key.bytes.as_slice()));
    address_seeds.push(device_id_bytes);
    assert(seeds_view(address_seeds@) =~= seq![
        Tag::Device.spec_bytes(),
        marketplace_key@,
        encode_utf8(device_registry.device_id@),
    ]);

    Ok(
        DeviceRegistration {
            device_registry,
            address_seeds,
            address_merkle_context,
            new_address_params: NewAddressParams {
                address_merkle_tree_account_index: packed_address_merkle_context.address_merkle_tree_pubkey_index,
                address_queue_account_index: packed_address_merkle_context.address_queue_pubkey_index,
                address_merkle_tree_root_index,
            },
            proof: proof.to_compressed_proof(),
            merkle_tree_index,
            signer_bump: bump,
        },
    )
}

} // verus!
