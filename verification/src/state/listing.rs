//! The listing: the inventory of one sellable stream of sensor data.

use vstd::prelude::*;
use crate::identity::Identity;

verus! {

/// The listing is open to purchases.
pub const STATUS_ACTIVE: u8 = 0;

/// Every unit of the listing has been sold.
pub const STATUS_SOLD_OUT: u8 = 1;

/// The seller has withdrawn the listing.
pub const STATUS_CANCELLED: u8 = 2;

/// A listing: what a seller offers of one device's data, and how much of
/// it is left. It is created once, taken down by purchases, withdrawn at
/// most once, and never deleted.
#[derive(Debug, PartialEq, Eq)]
pub struct ListingState {
    pub seller: Identity,
    pub marketplace: Identity,
    pub device: Identity,
    pub device_id: String,
    pub listing_id: String,
    /// The locator of the encrypted stream.
    pub data_cid: String,
    /// The locator of the data key sealed under the marketplace's custody.
    pub dek_capsule_for_mxe_cid: String,
    pub price_per_unit: u64,
    pub status: u8,
    pub total_data_units: u64,
    pub remaining_units: u64,
    /// The settlement currency, copied from the marketplace at creation.
    pub token_mint: Identity,
    pub created_at: i64,
    pub updated_at: i64,
    /// The last moment at which a purchase is accepted, if there is one.
    pub expires_at: Option<i64>,
    pub bump: u8,
    /// The buyer of the latest purchase.
    pub buyer: Option<Identity>,
    /// The number of purchases settled so far: the index of the next one.
    pub purchase_count: u64,
    pub sold_at: Option<i64>,
}

/// The model of a [`ListingState`].
pub struct ListingView {
    pub seller: Seq<u8>,
    pub marketplace: Seq<u8>,
    pub device: Seq<u8>,
    pub device_id: Seq<char>,
    pub listing_id: Seq<char>,
    pub data_cid: Seq<char>,
    pub dek_capsule_for_mxe_cid: Seq<char>,
    pub price_per_unit: nat,
    pub status: u8,
    pub total_data_units: nat,
    pub remaining_units: nat,
    pub token_mint: Seq<u8>,
    pub created_at: int,
    pub updated_at: int,
    pub expires_at: Option<int>,
    pub bump: u8,
    pub buyer: Option<Seq<u8>>,
    pub purchase_count: nat,
    pub sold_at: Option<int>,
}

/// The model of an optional moment.
pub open spec fn moment_view(t: Option<i64>) -> Option<int> {
    match t {
        Some(v) => Some(v as int),
        None => None,
    }
}

/// The model of an optional identity.
pub open spec fn identity_view(id: Option<Identity>) -> Option<Seq<u8>> {
    match id {
        Some(v) => Some(v@),
        None => None,
    }
}

impl View for ListingState {
    type V = ListingView;

    open spec fn view(&self) -> ListingView {
        ListingView {
            seller: self.seller@,
            marketplace: self.marketplace@,
            device: self.device@,
            device_id: self.device_id@,
            listing_id: self.listing_id@,
            data_cid: self.data_cid@,
            dek_capsule_for_mxe_cid: self.dek_capsule_for_mxe_cid@,
            price_per_unit: self.price_per_unit as nat,
            status: self.status,
            total_data_units: self.total_data_units as nat,
            remaining_units: self.remaining_units as nat,
            token_mint: self.token_mint@,
            created_at: self.created_at as int,
            updated_at: self.updated_at as int,
            expires_at: moment_view(self.expires_at),
            bump: self.bump,
            buyer: identity_view(self.buyer),
            purchase_count: self.purchase_count as nat,
            sold_at: moment_view(self.sold_at),
        }
    }
}

impl ListingView {
    /// What holds of every listing from its creation on: the inventory is
    /// never oversold, and the listing is sold out exactly when nothing
    /// remains, which is exactly when the moment of the last sale is set.
    pub open spec fn wf(self) -> bool {
        &&& self.price_per_unit > 0
        &&& self.total_data_units > 0
        &&& self.remaining_units <= self.total_data_units
        &&& self.status == STATUS_ACTIVE || self.status == STATUS_SOLD_OUT || self.status
            == STATUS_CANCELLED
        &&& self.status == STATUS_SOLD_OUT <==> self.remaining_units == 0
        &&& self.sold_at is Some <==> self.status == STATUS_SOLD_OUT
    }

    /// Whether the listing is open to purchases.
    pub open spec fn is_active(self) -> bool {
        self.status == STATUS_ACTIVE
    }
}

impl ListingState {
    /// The listing's model is well formed.
    pub open spec fn wf(&self) -> bool {
        self@.wf()
    }

    /// Whether the listing is open to purchases.
    pub fn is_active(&self) -> (r: bool)
        ensures
            r == self@.is_active(),
    {
        self.status == STATUS_ACTIVE
    }

    /// Whether every unit has been sold.
    pub fn is_sold_out(&self) -> (r: bool)
        ensures
            r == (self.status == STATUS_SOLD_OUT),
    {
        self.status == STATUS_SOLD_OUT
    }

    /// Whether the seller has withdrawn the listing.
    pub fn is_cancelled(&self) -> (r: bool)
        ensures
            r == (self.status == STATUS_CANCELLED),
    {
        self.status == STATUS_CANCELLED
    }
}

} // verus!
