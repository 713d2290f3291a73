//! The record of one purchase: written once at settlement, and once more
//! when the capsule for the buyer is bound to it.

use vstd::prelude::*;
use crate::identity::Identity;

verus! {

/// The longest content locator, in bytes.
pub const MAX_CID_LEN: usize = 64;

/// The record of one settled purchase.
#[derive(Debug, PartialEq, Eq)]
pub struct PurchaseRecord {
    /// The listing that the purchase was made against.
    pub listing: Identity,
    pub buyer: Identity,
    pub units_purchased: u64,
    /// The gross price, before the fee is taken.
    pub price_paid: u64,
    pub fee: u64,
    pub timestamp: i64,
    /// The buyer's ephemeral public key, to which the key is resealed.
    pub buyer_x25519_pubkey: [u8; 32],
    /// The capsule under the marketplace's custody, copied from the listing.
    pub dek_capsule_for_mxe_cid: String,
    /// The capsule for the buyer: empty until it is bound, then fixed.
    pub dek_capsule_for_buyer_cid: String,
}

/// The model of a [`PurchaseRecord`].
pub struct PurchaseRecordView {
    pub listing: Seq<u8>,
    pub buyer: Seq<u8>,
    pub units_purchased: nat,
    pub price_paid: nat,
    pub fee: nat,
    pub timestamp: int,
    pub buyer_x25519_pubkey: Seq<u8>,
    pub dek_capsule_for_mxe_cid: Seq<char>,
    pub dek_capsule_for_buyer_cid: Seq<char>,
}

impl View for PurchaseRecord {
    type V = PurchaseRecordView;

    open spec fn view(&self) -> PurchaseRecordView {
        PurchaseRecordView {
            listing: self.listing@,
            buyer: self.buyer@,
            units_purchased: self.units_purchased as nat,
            price_paid: self.price_paid as nat,
            fee: self.fee as nat,
            timestamp: self.timestamp as int,
            buyer_x25519_pubkey: self.buyer_x25519_pubkey@,
            dek_capsule_for_mxe_cid: self.dek_capsule_for_mxe_cid@,
            dek_capsule_for_buyer_cid: self.dek_capsule_for_buyer_cid@,
        }
    }
}

/// How far the handoff of the data key to the buyer has come.
#[derive(Clone, Copy, Debug, PartialEq, Eq, Structural)]
pub enum HandoffState {
    /// The purchase is settled; nothing has been asked of the secure
    /// computation yet.
    Purchased,
    /// A request to reseal the key has been submitted.
    ResealRequested,
    /// The secure computation has returned the resealed key.
    ResealDelivered,
    /// The capsule for the buyer is bound to the record: the end.
    Finalized,
}

impl PurchaseRecordView {
    /// How far the handoff has come, for a record of which it is known
    /// whether a request was submitted and whether its result has arrived.
    pub open spec fn handoff_state(self, requested: bool, delivered: bool) -> HandoffState {
        if self.is_finalized() {
            HandoffState::Finalized
        } else if delivered {
            HandoffState::ResealDelivered
        } else if requested {
            HandoffState::ResealRequested
        } else {
            HandoffState::Purchased
        }
    }

    /// The capsule for the buyer has been bound to the record.
    pub open spec fn is_finalized(self) -> bool {
        self.dek_capsule_for_buyer_cid.len() > 0
    }

    /// The fee is part of the price, so that fee and remainder add up to it.
    pub open spec fn wf(self) -> bool {
        self.fee <= self.price_paid
    }
}

impl PurchaseRecord {
    /// Whether the capsule for the buyer has been bound to the record.
    pub fn is_finalized(&self) -> (r: bool)
        ensures
            r == self@.is_finalized(),
    {
        !self.dek_capsule_for_buyer_cid.as_str().is_empty()
    }

    /// How far the handoff of the data key has come: `requested` says
    /// whether a job record exists for the purchase, `delivered` whether the
    /// result of the request has arrived. A record that holds the buyer's
    /// capsule is finalized whatever else is known of it.
    pub fn handoff_state(&self, requested: bool, delivered: bool) -> (r: HandoffState)
        ensures
            r == self@.handoff_state(requested, delivered),
    {
        if self.is_finalized() {
            HandoffState::Finalized
        } else if delivered {
            HandoffState::ResealDelivered
        } else if requested {
            HandoffState::ResealRequested
        } else {
            HandoffState::Purchased
        }
    }
}

} // verus!
