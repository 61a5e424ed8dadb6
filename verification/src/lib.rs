//! Accounting core of a tokenized vault: a pool of an underlying fungible
//! asset represented as transferable shares, with overflow-safe, consistently
//! rounded conversion between asset amounts and share amounts in the
//! deposit / mint / withdraw / redeem style of share-based vaults.

pub mod laws;
pub mod metadata;
pub mod primitives;
pub mod vault_asset;
