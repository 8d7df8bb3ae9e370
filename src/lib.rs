//! A keyless Taproot commitment: an internal point that nobody holds a key
//! for, derived from a public seed by iterated hashing, committed to a single
//! script leaf, and a transaction that spends it through that leaf.

pub mod encoding;
pub mod nums;
pub mod address;
pub mod script;
pub mod taproot;
pub mod spend;
