//! The variant of the registry that keeps its devices compressed: records
//! of fixed width, stored as leaves of a tree, with a proof for each change.

pub mod types;
pub mod compressed_account_helpers;
pub mod program;
pub mod register_device;
