//! The full version package: arguments, asset index, downloads,
//! libraries, logging configuration and Java requirements of one game
//! version.

use vstd::prelude::*;

use crate::model::argument::Argument;
use crate::model::file::BaseMojapiFile;
use crate::model::file::MojapiArtifact;
use crate::model::file::MojapiFile;
use crate::model::rule::Rule;
use crate::model::rule::spec_rule_matches;
use crate::model::VersionType;

verus! {

/// One game version's full package.
#[derive(Debug)]
pub struct VersionPackage {
    /// The launch arguments.
    pub arguments: VersionArguments,
    /// Where the asset index lives and what it hashes to.
    pub asset_index: VersionAssetIndex,
    /// The downloadable jars of this version.
    pub downloads: VersionDownloads,
    /// The version name.
    pub id: String,
    /// The Java runtime this version needs.
    pub java_version: JavaVersion,
    /// The libraries this version needs.
    pub libraries: Vec<VersionLibrary>,
    /// The logging configuration.
    pub logging: VersionLogging,
    /// The main class to launch.
    pub main_class: String,
    /// Release, snapshot, or one of the old pre-release kinds.
    pub kind: VersionType,
}

/// The launch arguments, split by consumer.
#[derive(Debug)]
pub struct VersionArguments {
    /// Arguments handed to the game.
    pub game: Vec<Argument>,
    /// Arguments handed to the Java runtime.
    pub jvm: Vec<Argument>,
}

/// The logging configuration of a version.
#[derive(Debug)]
pub struct VersionLogging {
    /// The client side's logging configuration.
    pub client: VersionLoggingClient,
}

/// The client's logging configuration.
#[derive(Debug)]
pub struct VersionLoggingClient {
    /// The JVM argument that installs the configuration file.
    pub argument: String,
    /// The configuration file to download.
    pub file: MojapiFile,
    /// The configuration's kind tag.
    pub kind: String,
}

/// Where the asset index lives.
#[derive(Debug)]
pub struct VersionAssetIndex {
    /// The index's name.
    pub id: String,
    /// The index file's content hash.
    pub sha1: String,
    /// The index file's size in bytes.
    pub size: u64,
    /// The total size of all assets it lists.
    pub total_size: u64,
    /// Where the index can be fetched.
    pub url: String,
}

/// The downloadable jars of a version.
#[derive(Debug)]
pub struct VersionDownloads {
    /// The client jar.
    pub client: BaseMojapiFile,
    /// The client's mappings.
    pub client_mappings: BaseMojapiFile,
    /// The server jar.
    pub server: BaseMojapiFile,
    /// The server's mappings.
    pub server_mappings: BaseMojapiFile,
}

/// One library of a version, possibly gated by rules.
#[derive(Debug)]
pub struct VersionLibrary {
    /// The artifact to download.
    pub downloads: VersionLibraryDownloads,
    /// The library's maven coordinates.
    pub name: String,
    /// The rules gating the library; an empty list gates nothing.
    pub rules: Vec<Rule>,
}

/// The downloadable artifact of a library.
#[derive(Debug)]
pub struct VersionLibraryDownloads {
    /// The artifact: file and repository path.
    pub artifact: MojapiArtifact,
}

/// The Java runtime a version needs.
#[derive(Debug)]
pub struct JavaVersion {
    /// The runtime component's name.
    pub component: String,
    /// The major Java version.
    pub major_version: u64,
}

/// Whether every rule of the library allows `current_os`.
pub open spec fn spec_library_allowed(lib: VersionLibrary, current_os: Seq<char>) -> bool {
    forall|i: int| 0 <= i < lib.rules@.len() ==> spec_rule_matches(lib.rules@[i], current_os)
}

impl VersionLibrary {
    /// Whether this library applies on the operating system named
    /// `current_os`: every one of its rules must allow it, and a library
    /// without rules always applies.
    pub fn check(&self, current_os: &str) -> (r: bool)
        ensures
            r == spec_library_allowed(*self, current_os@),
    {
        let mut k: usize = 0;
        while k < self.rules.len()
            invariant
                k <= self.rules@.len(),
                forall|i: int| 0 <= i < k ==> spec_rule_matches(self.rules@[i], current_os@),
            decreases self.rules@.len() - k,
        {
            if !self.rules[k].check(current_os) {
                return false;
            }
            k = k + 1;
        }
        true
    }
}

} // verus!
