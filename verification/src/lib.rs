//! Settlement, inventory and key-handoff rules of a marketplace for metered
//! sensor data, with the proofs of what each operation returns and changes.

pub mod identity;
pub mod text;
pub mod endian;
pub mod pda;
pub mod keccak;
pub mod computation;
pub mod circuits;
pub mod state;
pub mod instructions;
pub mod history;
pub mod compressed;
