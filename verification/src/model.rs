//! The version-catalog data model: manifests, version packages, asset
//! indexes, library rules and the Fabric loader metadata.  Plain data;
//! the HTTP fetching and JSON decoding that fill these values live with
//! the driver, outside the verified library.

use vstd::prelude::*;

pub mod argument;
pub mod assets;
pub mod fabric;
pub mod file;
pub mod rule;
pub mod version;

verus! {

/// The catalog URL that lists every published game version.
pub const VERSION_MANIFEST_V2: &'static str =
    "https://piston-meta.mojang.com/mc/game/version_manifest_v2.json";

/// The version manifest: the newest version names and the full list.
#[derive(Debug)]
pub struct VersionManifestV2 {
    /// The newest release and snapshot names.
    pub latest: VersionManifestLatest,
    /// Every published version, newest first.
    pub versions: Vec<VersionManifestVersion>,
}

/// The newest release and snapshot names of the catalog.
#[derive(Debug)]
pub struct VersionManifestLatest {
    /// The newest release version name.
    pub release: String,
    /// The newest snapshot version name.
    pub snapshot: String,
}

/// One catalog entry: a version name, its kind and its package URL.
#[derive(Debug)]
pub struct VersionManifestVersion {
    /// The version name, such as a release number.
    pub id: String,
    /// Release, snapshot, or one of the old pre-release kinds.
    pub kind: VersionType,
    /// Where the full version package can be fetched.
    pub url: String,
}

/// The kind of a published version.
#[derive(Debug, Clone, Copy, PartialEq, Eq, Structural)]
pub enum VersionType {
    /// A stable release.
    Release,
    /// A development snapshot.
    Snapshot,
    /// A beta from before the release era.
    OldBeta,
    /// An alpha from before the release era.
    OldAlpha,
}

impl VersionManifestV2 {
    /// The catalog entry with the given version name, by index.
    pub fn find_version(&self, id: &str) -> (r: Option<usize>)
        ensures
            (r matches Some(i) ==> i < self.versions@.len() && self.versions@[i as int].id@
                == id@),
            (r is None ==> forall|i: int|
                0 <= i < self.versions@.len() ==> self.versions@[i].id@ != id@),
    {
        let mut k: usize = 0;
        while k < self.versions.len()
            invariant
                k <= self.versions@.len(),
                forall|i: int| 0 <= i < k ==> self.versions@[i].id@ != id@,
            decreases self.versions@.len() - k,
        {
            if crate::strutil::str_eq(self.versions[k].id.as_str(), id) {
                return Some(k);
            }
            k = k + 1;
        }
        None
    }
}

} // verus!
