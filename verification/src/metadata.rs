//! The per-asset metadata registry: lookup for registered vault assets and
//! the validated update path for penalty bounds.

use std::collections::HashMap;

use vstd::prelude::*;

use crate::primitives::{AssetId, Metadata};
use crate::vault_asset::VaultError;

verus! {

broadcast use vstd::std_specs::hash::group_hash_axioms;

/// Metadata of every asset registered as a vault asset, keyed by the
/// underlying asset's id. Every record it holds has ordered penalty bounds.
pub struct MetadataRegistry {
    table: HashMap<AssetId, Metadata>,
}

impl View for MetadataRegistry {
    type V = Map<AssetId, Metadata>;

    closed spec fn view(&self) -> Map<AssetId, Metadata> {
        self.table@
    }
}

impl MetadataRegistry {
    /// Every stored record satisfies the penalty-bound ordering.
    pub open spec fn well_formed(&self) -> bool {
        forall|asset: AssetId| self@.contains_key(asset) ==> (#[trigger] self@[asset]).valid()
    }

    /// A registry with no registered assets.
    pub fn new() -> (r: MetadataRegistry)
        ensures
            r@ == Map::<AssetId, Metadata>::empty(),
            r.well_formed(),
    {
        MetadataRegistry { table: HashMap::new() }
    }

    /// Returns the metadata of a registered vault asset, and `UnknownAsset`
    /// for every id that is not registered.
    pub fn get(&self, asset: AssetId) -> (r: Result<Metadata, VaultError>)
        ensures
            self@.contains_key(asset) ==> r == Ok::<Metadata, VaultError>(self@[asset]),
            !self@.contains_key(asset) ==> r == Err::<Metadata, VaultError>(
                VaultError::UnknownAsset,
            ),
    {
        match self.table.get(&asset) {
            Some(m) => Ok(*m),
            None => Err(VaultError::UnknownAsset),
        }
    }

    /// Records metadata for an asset, creating or replacing its entry, after
    /// validating the penalty-bound ordering: an update whose bounds are out
    /// of order is rejected and leaves the registry unchanged.
    pub fn set(&mut self, asset: AssetId, metadata: Metadata) -> (r: Result<(), VaultError>)
        ensures
            metadata.valid() ==> r == Ok::<(), VaultError>(())
                && final(self)@ == old(self)@.insert(asset, metadata),
            !metadata.valid() ==> r == Err::<(), VaultError>(VaultError::InvalidMetadata)
                && final(self)@ == old(self)@,
            old(self).well_formed() ==> final(self).well_formed(),
    {
        if metadata.min_penalty_ratio > metadata.max_penalty_ratio {
            return Err(VaultError::InvalidMetadata);
        }
        self.table.insert(asset, metadata);
        Ok(())
    }
}

} // verus!
