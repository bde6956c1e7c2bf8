//! Downloadable files of a version package: hash, size and URL, with or
//! without an identifier and a library path.

use vstd::prelude::*;

verus! {

/// A downloadable file: hash, size and URL.
#[derive(Debug)]
pub struct BaseMojapiFile {
    /// The file's content hash.
    pub sha1: String,
    /// The file's size in bytes.
    pub size: u64,
    /// Where the file can be fetched.
    pub url: String,
}

/// A downloadable file that also carries an identifier.
#[derive(Debug)]
pub struct MojapiFile {
    /// Hash, size and URL of the file.
    pub base: BaseMojapiFile,
    /// The file's identifier in the package.
    pub id: String,
}

/// A library artifact: a downloadable file plus its repository path.
#[derive(Debug)]
pub struct MojapiArtifact {
    /// Hash, size and URL of the artifact.
    pub base: MojapiFile,
    /// The artifact's path below the libraries directory.
    pub path: String,
}

} // verus!
