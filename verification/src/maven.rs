//! Maven coordinates: parsing `group:artifact:version` strings and
//! building the artifact's file name, repository path and URL.

use vstd::prelude::*;

use crate::strutil::spec_join;
use crate::strutil::spec_split;
use crate::strutil::split_char;
use crate::strutil::join;

verus! {

/// A maven coordinate: group, artifact and version.
#[derive(Debug, PartialEq, Eq)]
pub struct MavenVersion {
    /// The group identifier, dot-separated.
    pub group: String,
    /// The artifact identifier.
    pub artifact: String,
    /// The version text.
    pub version: String,
}

impl Clone for MavenVersion {
    /// A clone is equal to the original.
    fn clone(&self) -> (r: Self)
        ensures
            r == *self,
    {
        MavenVersion {
            group: self.group.clone(),
            artifact: self.artifact.clone(),
            version: self.version.clone(),
        }
    }
}

/// The first three colon-separated segments of a coordinate text, or
/// nothing where there are fewer than three.
pub open spec fn spec_maven_triple(s: Seq<char>) -> Option<(Seq<char>, Seq<char>, Seq<char>)> {
    let ps = spec_split(s, ':');
    if ps.len() >= 3 {
        Some((ps[0], ps[1], ps[2]))
    } else {
        None
    }
}

/// The artifact file name of a coordinate: `artifact-version.jar`.
pub open spec fn spec_maven_filename_of(artifact: Seq<char>, version: Seq<char>) -> Seq<char> {
    artifact + "-"@ + version + ".jar"@
}

/// The repository path of a coordinate: the group with each dot
/// replaced by a slash, then the artifact, the version and the file
/// name, slash-separated.
pub open spec fn spec_maven_path_of(
    group: Seq<char>,
    artifact: Seq<char>,
    version: Seq<char>,
) -> Seq<char> {
    spec_join(spec_split(group, '.'), "/"@) + "/"@ + artifact + "/"@ + version + "/"@
        + spec_maven_filename_of(artifact, version)
}

/// The artifact file name: `artifact-version.jar`.
pub open spec fn spec_maven_filename(m: MavenVersion) -> Seq<char> {
    spec_maven_filename_of(m.artifact@, m.version@)
}

/// The repository path: the group with each dot replaced by a slash,
/// then the artifact, the version and the file name, slash-separated.
pub open spec fn spec_maven_path(m: MavenVersion) -> Seq<char> {
    spec_maven_path_of(m.group@, m.artifact@, m.version@)
}

impl MavenVersion {
    /// Parse `group:artifact:version`.  Returns the first three
    /// colon-separated segments, and `None` where the text has fewer
    /// than three.
    pub fn parse(s: &str) -> (r: Option<Self>)
        ensures
            (r is Some <==> spec_maven_triple(s@) is Some),
            (r matches Some(m) ==> spec_maven_triple(s@) == Some(
                (m.group@, m.artifact@, m.version@),
            )),
            (r matches Some(m) ==> {
                &&& spec_split(s@, ':').len() >= 3
                &&& m.group@ == spec_split(s@, ':')[0]
                &&& m.artifact@ == spec_split(s@, ':')[1]
                &&& m.version@ == spec_split(s@, ':')[2]
            }),
            (r is None ==> spec_split(s@, ':').len() < 3),
    {
        let mut parts = split_char(s, ':');
        if parts.len() < 3 {
            return None;
        }
        let version = parts.remove(2);
        let artifact = parts.remove(1);
        let group = parts.remove(0);
        Some(MavenVersion { group, artifact, version })
    }

    /// The artifact's file name, `artifact-version.jar`.
    pub fn get_filename(&self) -> (r: String)
        ensures
            r@ == spec_maven_filename(*self),
    {
        let mut r = self.artifact.clone();
        r.append("-");
        r.append(self.version.as_str());
        r.append(".jar");
        r
    }

    /// The artifact's path below a repository root: the group with dots
    /// replaced by slashes, then artifact, version and file name.
    pub fn get_path(&self) -> (r: String)
        ensures
            r@ == spec_maven_path(*self),
    {
        let dirs = split_char(self.group.as_str(), '.');
        let mut r = join(&dirs, "/");
        proof {
            assert(dirs@.map(|i: int, p: String| p@) =~= spec_split(self.group@, '.'));
        }
        r.append("/");
        r.append(self.artifact.as_str());
        r.append("/");
        r.append(self.version.as_str());
        r.append("/");
        r.append(self.artifact.as_str());
        r.append("-");
        r.append(self.version.as_str());
        r.append(".jar");
        r
    }

    /// The artifact's URL below the given repository.
    pub fn get_url(&self, repo: &str) -> (r: String)
        ensures
            r@ == repo@ + "/"@ + spec_maven_path(*self),
    {
        let mut r = repo.to_owned();
        r.append("/");
        let path = self.get_path();
        r.append(path.as_str());
        r
    }

    /// The coordinate written out again: `group:artifact:version`.
    pub fn to_text(&self) -> (r: String)
        ensures
            r@ == self.group@ + ":"@ + self.artifact@ + ":"@ + self.version@,
    {
        let mut r = self.group.clone();
        r.append(":");
        r.append(self.artifact.as_str());
        r.append(":");
        r.append(self.version.as_str());
        r
    }
}

} // verus!
