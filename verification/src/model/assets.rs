//! The asset index: named asset objects addressed by content hash.

use vstd::prelude::*;

verus! {

/// The asset index: each entry pairs an asset name with its object.
/// Names are unique, as they come from the keys of the remote index.
#[derive(Debug)]
pub struct AssetIndex {
    /// The asset objects, keyed by their name.
    pub objects: Vec<(String, AssetObject)>,
}

/// One asset: its content hash and its size in bytes.
#[derive(Debug)]
pub struct AssetObject {
    /// The content hash, also the asset's path on the resource server.
    pub hash: String,
    /// The asset's size in bytes.
    pub size: u64,
}

} // verus!
