//! The persistent records of the marketplace and their mathematical models.

pub mod account;
pub mod marketplace;
pub mod device_registry;
pub mod listing;
pub mod purchase_record;
pub mod job;
pub mod dq;
