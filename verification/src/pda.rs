//! Deterministic addresses of the persistent records, derived from stable
//! seeds and the identity of the owning program, so that every record can
//! be found again from the keys that name it.

use vstd::prelude::*;
use vstd::slice::slice_to_vec;
use vstd::utf8::encode_utf8;
use crate::endian::{le_bytes, u64_le_bytes};
use crate::identity::Identity;

verus! {

/// The address and bump seed that the ledger derives for a list of seeds
/// under a program, or `None` where it derives none.
pub uninterp spec fn program_address(seeds: Seq<Seq<u8>>, program_id: Seq<u8>) -> Option<(Seq<u8>, u8)>;

/// The seeds that a list of byte vectors holds.
pub open spec fn seeds_view(seeds: Seq<Vec<u8>>) -> Seq<Seq<u8>> {
    Seq::new(seeds.len(), |i: int| seeds[i]@)
}

/// `Pubkey::try_find_program_address` of `anchor_lang`: the derived address
/// and its bump seed are a function of the seeds and the program identity.
/// Nothing is claimed of which seeds derive an address.
#[verifier::external_body]
fn try_find_program_address(seeds: &Vec<Vec<u8>>, program_id: &Identity) -> (r: Option<(Identity, u8)>)
    ensures
        r matches Some(found) ==> program_address(seeds_view(seeds@), program_id@) == Some(
            (found.0@, found.1),
        ),
        r is None ==> program_address(seeds_view(seeds@), program_id@) is None,
{
    let parts: Vec<&[u8]> = seeds.iter().map(|s| s.as_slice()).collect();
    let program = anchor_lang::prelude::Pubkey::new_from_array(program_id.bytes);
    match anchor_lang::prelude::Pubkey::try_find_program_address(&parts, &program) {
        Some((key, bump)) => Some((Identity { bytes: key.to_bytes() }, bump)),
        None => None,
    }
}

/// Whether `found` is what the ledger derives for `seeds` under the program.
pub open spec fn is_address_of(
    found: Option<(Identity, u8)>,
    seeds: Seq<Seq<u8>>,
    program_id: Identity,
) -> bool {
    match found {
        Some(pair) => program_address(seeds, program_id@) == Some((pair.0@, pair.1)),
        None => program_address(seeds, program_id@) is None,
    }
}

/// The seed that marks the kind of a record.
#[derive(Clone, Copy, Debug, PartialEq, Eq, Structural)]
pub enum Tag {
    Marketplace,
    Treasury,
    Device,
    Listing,
    Purchase,
    QualityJob,
    DqConfig,
    DqState,
}

impl Tag {
    /// The bytes of the tag.
    pub open spec fn spec_bytes(self) -> Seq<u8> {
        match self {
            Tag::Marketplace => seq![
                109u8, 97u8, 114u8, 107u8, 101u8, 116u8, 112u8, 108u8, 97u8, 99u8, 101u8,
            ],
            Tag::Treasury => seq![116u8, 114u8, 101u8, 97u8, 115u8, 117u8, 114u8, 121u8],
            Tag::Device => seq![100u8, 101u8, 118u8, 105u8, 99u8, 101u8],
            Tag::Listing => seq![108u8, 105u8, 115u8, 116u8, 105u8, 110u8, 103u8],
            Tag::Purchase => seq![112u8, 117u8, 114u8, 99u8, 104u8, 97u8, 115u8, 101u8],
            Tag::QualityJob => seq![
                113u8, 117u8, 97u8, 108u8, 105u8, 116u8, 121u8, 95u8, 106u8, 111u8, 98u8,
            ],
            Tag::DqConfig => seq![100u8, 113u8, 99u8, 102u8, 103u8],
            Tag::DqState => seq![100u8, 113u8, 115u8, 116u8, 97u8, 116u8, 101u8],
        }
    }

    /// The bytes of the tag: its name in lower case.
    pub fn bytes(&self) -> (r: Vec<u8>)
        ensures
            r@ == self.spec_bytes(),
    {
        match self {
            Tag::Marketplace => vec![
                109u8, 97u8, 114u8, 107u8, 101u8, 116u8, 112u8, 108u8, 97u8, 99u8, 101u8,
            ],
            Tag::Treasury => vec![116u8, 114u8, 101u8, 97u8, 115u8, 117u8, 114u8, 121u8],
            Tag::Device => vec![100u8, 101u8, 118u8, 105u8, 99u8, 101u8],
            Tag::Listing => vec![108u8, 105u8, 115u8, 116u8, 105u8, 110u8, 103u8],
            Tag::Purchase => vec![112u8, 117u8, 114u8, 99u8, 104u8, 97u8, 115u8, 101u8],
            Tag::QualityJob => vec![
                113u8, 117u8, 97u8, 108u8, 105u8, 116u8, 121u8, 95u8, 106u8, 111u8, 98u8,
            ],
            Tag::DqConfig => vec![100u8, 113u8, 99u8, 102u8, 103u8],
            Tag::DqState => vec![100u8, 113u8, 115u8, 116u8, 97u8, 116u8, 101u8],
        }
    }
}

/// The address of the record that is named by a tag and further seeds, in
/// this order, under the program.
pub fn find_address(tag: Tag, keys: Vec<Vec<u8>>, program_id: &Identity) -> (r: Option<(Identity, u8)>)
    ensures
        is_address_of(r, seq![tag.spec_bytes()] + seeds_view(keys@), *program_id),
{
    let mut seeds: Vec<Vec<u8>> = Vec::new();
    seeds.push(tag.bytes());
    let ghost head = seeds_view(seeds@);
    assert(head =~= seq![tag.spec_bytes()]);
    let mut keys = keys;
    let ghost tail = seeds_view(keys@);
    seeds.append(&mut keys);
    assert(seeds_view(seeds@) =~= head + tail);
    try_find_program_address(&seeds, program_id)
}

/// The address of a marketplace: one for each admin.
pub fn marketplace_address(admin: &Identity, program_id: &Identity) -> (r: Option<(Identity, u8)>)
    ensures
        is_address_of(r, seq![Tag::Marketplace.spec_bytes(), admin@], *program_id),
{
    let mut keys: Vec<Vec<u8>> = Vec::new();
    keys.push(slice_to_vec(admin.bytes.as_slice()));
    assert(seeds_view(keys@) =~= seq![admin@]);
    assert(seq![Tag::Marketplace.spec_bytes()] + seq![admin@] =~= seq![
        Tag::Marketplace.spec_bytes(),
        admin@,
    ]);
    find_address(Tag::Marketplace, keys, program_id)
}

/// The address of the authority over a marketplace's treasury: one for
/// each admin.
pub fn treasury_address(admin: &Identity, program_id: &Identity) -> (r: Option<(Identity, u8)>)
    ensures
        is_address_of(r, seq![Tag::Treasury.spec_bytes(), admin@], *program_id),
{
    let mut keys: Vec<Vec<u8>> = Vec::new();
    keys.push(slice_to_vec(admin.bytes.as_slice()));
    assert(seeds_view(keys@) =~= seq![admin@]);
    assert(seq![Tag::Treasury.spec_bytes()] + seq![admin@] =~= seq![
        Tag::Treasury.spec_bytes(),
        admin@,
    ]);
    find_address(Tag::Treasury, keys, program_id)
}

/// The address of a device: one for each marketplace and device identifier.
pub fn device_address(marketplace: &Identity, device_id: &str, program_id: &Identity) -> (r: Option<
    (Identity, u8),
>)
    ensures
        is_address_of(
            r,
            seq![Tag::Device.spec_bytes(), marketplace@, encode_utf8(device_id@)],
            *program_id,
        ),
{
    let mut keys: Vec<Vec<u8>> = Vec::new();
    keys.push(slice_to_vec(marketplace.bytes.as_slice()));
    keys.push(slice_to_vec(device_id.as_bytes()));
    assert(seeds_view(keys@) =~= seq![marketplace@, encode_utf8(device_id@)]);
    assert(seq![Tag::Device.spec_bytes()] + seq![marketplace@, encode_utf8(device_id@)] =~= seq![
        Tag::Device.spec_bytes(),
        marketplace@,
        encode_utf8(device_id@),
    ]);
    find_address(Tag::Device, keys, program_id)
}

/// The address of a listing: one for each marketplace, seller and device
/// identifier.
pub fn listing_address(
    marketplace: &Identity,
    seller: &Identity,
    device_id: &str,
    program_id: &Identity,
) -> (r: Option<(Identity, u8)>)
    ensures
        is_address_of(
            r,
            seq![Tag::Listing.spec_bytes(), marketplace@, seller@, encode_utf8(device_id@)],
            *program_id,
        ),
{
    let mut keys: Vec<Vec<u8>> = Vec::new();
    keys.push(slice_to_vec(marketplace.bytes.as_slice()));
    keys.push(slice_to_vec(seller.bytes.as_slice()));
    keys.push(slice_to_vec(device_id.as_bytes()));
    assert(seeds_view(keys@) =~= seq![marketplace@, seller@, encode_utf8(device_id@)]);
    assert(seq![Tag::Listing.spec_bytes()] + seq![marketplace@, seller@, encode_utf8(device_id@)]
        =~= seq![Tag::Listing.spec_bytes(), marketplace@, seller@, encode_utf8(device_id@)]);
    find_address(Tag::Listing, keys, program_id)
}

/// The address of a purchase record: one for each listing and ordinal index
/// of a purchase, the index taken as eight bytes, low byte first.
pub fn purchase_record_address(listing: &Identity, purchase_index: u64, program_id: &Identity) -> (r:
    Option<(Identity, u8)>)
    ensures
        is_address_of(
            r,
            seq![Tag::Purchase.spec_bytes(), listing@, le_bytes(purchase_index as nat, 8)],
            *program_id,
        ),
{
    let mut keys: Vec<Vec<u8>> = Vec::new();
    keys.push(slice_to_vec(listing.bytes.as_slice()));
    keys.push(slice_to_vec(u64_le_bytes(purchase_index).as_slice()));
    assert(seeds_view(keys@) =~= seq![listing@, le_bytes(purchase_index as nat, 8)]);
    assert(seq![Tag::Purchase.spec_bytes()] + seq![listing@, le_bytes(purchase_index as nat, 8)]
        =~= seq![Tag::Purchase.spec_bytes(), listing@, le_bytes(purchase_index as nat, 8)]);
    find_address(Tag::Purchase, keys, program_id)
}

/// The address of a job record: one for each request to the secure
/// computation, named by the identity of the computation.
pub fn job_address(computation: &Identity, program_id: &Identity) -> (r: Option<(Identity, u8)>)
    ensures
        is_address_of(r, seq![Tag::QualityJob.spec_bytes(), computation@], *program_id),
{
    let mut keys: Vec<Vec<u8>> = Vec::new();
    keys.push(slice_to_vec(computation.bytes.as_slice()));
    assert(seeds_view(keys@) =~= seq![computation@]);
    assert(seq![Tag::QualityJob.spec_bytes()] + seq![computation@] =~= seq![
        Tag::QualityJob.spec_bytes(),
        computation@,
    ]);
    find_address(Tag::QualityJob, keys, program_id)
}

/// The address of a device's data-quality configuration.
pub fn dq_config_address(device: &Identity, program_id: &Identity) -> (r: Option<(Identity, u8)>)
    ensures
        is_address_of(r, seq![Tag::DqConfig.spec_bytes(), device@], *program_id),
{
    let mut keys: Vec<Vec<u8>> = Vec::new();
    keys.push(slice_to_vec(device.bytes.as_slice()));
    assert(seeds_view(keys@) =~= seq![device@]);
    assert(seq![Tag::DqConfig.spec_bytes()] + seq![device@] =~= seq![
        Tag::DqConfig.spec_bytes(),
        device@,
    ]);
    find_address(Tag::DqConfig, keys, program_id)
}

/// The address of a device's data-quality state.
pub fn dq_state_address(device: &Identity, program_id: &Identity) -> (r: Option<(Identity, u8)>)
    ensures
        is_address_of(r, seq![Tag::DqState.spec_bytes(), device@], *program_id),
{
    let mut keys: Vec<Vec<u8>> = Vec::new();
    keys.push(slice_to_vec(device.bytes.as_slice()));
    assert(seeds_view(keys@) =~= seq![device@]);
    assert(seq![Tag::DqState.spec_bytes()] + seq![device@] =~= seq![
        Tag::DqState.spec_bytes(),
        device@,
    ]);
    find_address(Tag::DqState, keys, program_id)
}

} // verus!
