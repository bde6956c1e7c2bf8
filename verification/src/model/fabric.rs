//! The Fabric loader metadata: loader versions per game version, the
//! launcher metadata and the libraries it asks for.

use vstd::prelude::*;

verus! {

/// One Fabric loader offering for a game version.
#[derive(Debug)]
pub struct FabricVersionGame {
    /// The loader version.
    pub loader: LoaderFabricVersion,
    /// The intermediary mappings version.
    pub intermediary: FabricVersion,
}

/// The launcher metadata for one game/loader pair.
#[derive(Debug)]
pub struct FabricVerisonGameLoader {
    /// The loader version.
    pub loader: FabricVersion,
    /// The intermediary mappings version.
    pub intermediary: FabricVersion,
    /// What the launcher needs: libraries and main classes.
    pub launcher_meta: FabricLauncherMeta,
}

/// A loader version with its build number.
#[derive(Debug)]
pub struct LoaderFabricVersion {
    /// The plain version.
    pub version: FabricVersion,
    /// The separator between version and build, usually `+build.`.
    pub separator: String,
    /// The build number.
    pub build: u32,
}

/// A Fabric artifact version.
#[derive(Debug)]
pub struct FabricVersion {
    /// The artifact's maven coordinates.
    pub maven: String,
    /// The plain version text.
    pub version: String,
    /// Whether the version is marked stable.
    pub stable: bool,
}

/// What the launcher needs for one loader version.
#[derive(Debug)]
pub struct FabricLauncherMeta {
    /// The metadata format version.
    pub version: u8,
    /// The lowest Java version the loader runs on.
    pub min_java_version: u8,
    /// The libraries the loader needs.
    pub libraries: FabricLibraries,
    /// The main classes for client and server.
    pub main_class: FabricMainClasses,
}

/// The loader's libraries, by side.
#[derive(Debug)]
pub struct FabricLibraries {
    /// Libraries needed on both sides.
    pub common: Vec<FabricLibrary>,
    /// Libraries needed on the client.
    pub client: Vec<FabricLibrary>,
    /// Libraries needed on the server.
    pub server: Vec<FabricLibrary>,
}

/// One library the loader needs.
#[derive(Debug)]
pub struct FabricLibrary {
    /// The library's maven coordinates.
    pub name: String,
    /// The repository to fetch it from.
    pub url: String,
    /// The library's content hash.
    pub sha1: String,
    /// The library's size in bytes.
    pub size: u64,
}

/// The main classes for client and server.
#[derive(Debug)]
pub struct FabricMainClasses {
    /// The client's main class.
    pub client: String,
    /// The server's main class.
    pub server: String,
}

/// The Fabric maven repository.
pub const FABRIC_MAVEN: &'static str = "https://maven.fabricmc.net/";

/// The endpoint listing loader versions.
pub const FABRIC_VERSIONS_LOADER: &'static str = "https://meta.fabricmc.net/v2/versions/loader";

/// The endpoint listing loader versions; concatenated with a game
/// version it lists that version's loaders, and with a game and a
/// loader version it gives the launcher metadata.
pub const FABRIC_VERSIONS_GAME: &'static str = "https://meta.fabricmc.net/v2/versions/loader";

} // verus!
