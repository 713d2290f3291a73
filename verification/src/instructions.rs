//! The operations of the marketplace, one module each.

pub mod purchase_listing;
pub mod finalize_purchase;
pub mod create_listing;
pub mod cancel_listing;
pub mod reseal_dek;
pub mod compute_accuracy;
pub mod quality;
pub mod update_marketplace;
pub mod cancel_device;
pub mod initialize;
pub mod register_device;
