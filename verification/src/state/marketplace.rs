//! The marketplace registry entry that settlement reads.

use vstd::prelude::*;
use crate::identity::Identity;

verus! {

/// The largest fee, in basis points: the whole price.
pub const MAX_FEE_BPS: u16 = 10_000;

/// The longest marketplace name, in bytes.
pub const MAX_NAME_LEN: usize = 32;

/// A marketplace: its admin, its treasury, its currency and its fee.
#[derive(Debug, PartialEq, Eq)]
pub struct Marketplace {
    pub admin: Identity,
    /// The authority over the treasury's payment account, not a spendable account.
    pub treasury: Identity,
    pub treasury_bump: u8,
    /// The fee taken from each sale, in basis points.
    pub seller_fee: u16,
    /// The settlement currency.
    pub token_mint: Identity,
    pub is_active: bool,
    pub bump: u8,
    pub name: String,
    pub created_at: i64,
}

/// The model of a [`Marketplace`].
pub struct MarketplaceView {
    pub admin: Seq<u8>,
    pub treasury: Seq<u8>,
    pub treasury_bump: u8,
    pub seller_fee: nat,
    pub token_mint: Seq<u8>,
    pub is_active: bool,
    pub bump: u8,
    pub name: Seq<char>,
    pub created_at: int,
}

impl View for Marketplace {
    type V = MarketplaceView;

    open spec fn view(&self) -> MarketplaceView {
        MarketplaceView {
            admin: self.admin@,
            treasury: self.treasury@,
            treasury_bump: self.treasury_bump,
            seller_fee: self.seller_fee as nat,
            token_mint: self.token_mint@,
            is_active: self.is_active,
            bump: self.bump,
            name: self.name@,
            created_at: self.created_at as int,
        }
    }
}

impl Marketplace {
    /// The fee never exceeds the whole price.
    pub open spec fn wf(&self) -> bool {
        self.seller_fee <= MAX_FEE_BPS
    }
}

} // verus!
