//! Exhaustive precomputation tables that map every numeric passcode of a fixed
//! keyspace to its key-derivation digest under a known salt.
pub mod argon2;
pub mod backend;
pub mod fill;
pub mod pbkdf2;
pub mod table;

pub use table::gen_empty_table;
