//! The command-line surface as plain data: which command was asked
//! for, with which options, and the decisions those options imply.
//! Argument reading itself is the driver's work; it fills these values
//! and carries out the plans made here.

use vstd::prelude::*;

use crate::config::MinecraftConfig;
use crate::download::Download;
use crate::strutil::spec_last_segment;
use crate::strutil::last_segment;
use crate::sync::filter::SyncFilter;

verus! {

/// A parsed invocation: the command and the instance it acts on.
#[derive(Debug)]
pub struct Cli {
    /// The command to run.
    pub command: CliCommand,
    /// The instance name the command acts on.
    pub instance: String,
}

/// Which command was asked for.
#[derive(Debug)]
pub enum CliCommand {
    /// Start the instance.
    Run,
    /// Create a new instance.
    Init(CliInit),
    /// Synchronize content.
    Sync(CliSync),
    /// Download packages onto the instance.
    Upgrade(CliUpgrade),
    /// Remove or disable packages.
    Remove(CliRemove),
}

/// Options of the instance-creation command.
#[derive(Debug)]
pub struct CliInit {
    /// The game version, when given.
    pub version: Option<String>,
    /// The Fabric loader version, when given.
    pub fabric: Option<String>,
    /// The instance directory, when given.
    pub directory: Option<String>,
    /// The Java path, when given.
    pub java: Option<String>,
    /// The libraries path, when given.
    pub libraries: Option<String>,
    /// The player name, when given.
    pub username: Option<String>,
}

/// Options of the synchronization command.
#[derive(Debug)]
pub struct CliSync {
    /// Refresh the content index first.
    pub refresh: bool,
    /// Upgrade all content.
    pub upgrade: bool,
    /// What to do besides: search, install, or nothing.
    pub operand: SyncOperand,
    /// The loader to restrict a search to, when given.
    pub loader: Option<String>,
}

/// What a synchronization invocation does.
#[derive(Debug)]
pub enum SyncOperand {
    /// Search the remote catalog.
    Search {
        /// What to search for.
        filter: SyncFilter,
        /// How to sort the results, when given.
        sort: Option<SortKey>,
    },
    /// Install the selected packages.
    Install(Vec<SyncFilter>),
    /// Only the flags apply.
    Nothing,
}

/// How search results are ordered.
#[derive(Debug, Clone, Copy, PartialEq, Eq, Structural)]
pub enum SortKey {
    /// By how well they match.
    Relevance,
    /// By download count.
    Downloads,
    /// By follower count.
    Follows,
    /// By creation time.
    Newest,
    /// By update time.
    Updated,
}

/// Options of the package-download command.
#[derive(Debug)]
pub struct CliUpgrade {
    /// The packages: catalog URLs or local files.
    pub packages: Vec<String>,
    /// What kind of content they are.
    pub kind: UpgradeKind,
}

/// What kind of content a download brings.
#[derive(Debug, Clone, Copy, PartialEq, Eq, Structural)]
pub enum UpgradeKind {
    /// Game modifications, landing under `mods`.
    Mod,
    /// Resource packs, landing under `resourcepacks`.
    Resourcepack,
}

impl Default for UpgradeKind {
    /// Packages are game modifications unless said otherwise.
    fn default() -> (r: Self)
        ensures
            r is Mod,
    {
        UpgradeKind::Mod
    }
}

/// Options of the removal command.
#[derive(Debug)]
pub struct CliRemove {
    /// Disable instead of removing.
    pub disable: bool,
    /// Which packages to act on.
    pub packages: Vec<SyncFilter>,
}

/// An ASCII upper-case letter folded to lower case; any other
/// character unchanged.
pub open spec fn spec_fold_char(c: char) -> char {
    if 65 <= c as u32 <= 90 {
        ((c as u32 + 32) as char)
    } else {
        c
    }
}

/// The text with ASCII letters folded to lower case.
pub open spec fn spec_fold(s: Seq<char>) -> Seq<char> {
    s.map(|i: int, c: char| spec_fold_char(c))
}

/// Whether two texts read the same up to ASCII case.
pub fn eq_ignore_case(a: &str, b: &str) -> (r: bool)
    ensures
        r == (spec_fold(a@) == spec_fold(b@)),
{
    let alen = a.unicode_len();
    let blen = b.unicode_len();
    if alen != blen {
        proof {
            assert(spec_fold(a@).len() != spec_fold(b@).len());
        }
        return false;
    }
    let mut k: usize = 0;
    while k < alen
        invariant
            alen == a@.len(),
            blen == b@.len(),
            alen == blen,
            k <= alen,
            forall|i: int| 0 <= i < k ==> spec_fold_char(a@[i]) == spec_fold_char(b@[i]),
        decreases alen - k,
    {
        let ca = a.get_char(k);
        let cb = b.get_char(k);
        let ua = ca as u32;
        let ub = cb as u32;
        let fa = if 65 <= ua && ua <= 90 {
            ua + 32
        } else {
            ua
        };
        let fb = if 65 <= ub && ub <= 90 {
            ub + 32
        } else {
            ub
        };
        if fa != fb {
            proof {
                assert(spec_fold(a@)[k as int] != spec_fold(b@)[k as int]);
            }
            return false;
        }
        proof {
            assert(spec_fold_char(a@[k as int]) == spec_fold_char(b@[k as int]));
        }
        k = k + 1;
    }
    proof {
        assert(spec_fold(a@) =~= spec_fold(b@));
    }
    true
}

/// The sort key a search option names, read without regard to ASCII
/// case; nothing for an unrecognized name.
pub fn parse_sort(s: &str) -> (r: Option<SortKey>)
    ensures
        (r == Some(SortKey::Relevance) <==> spec_fold(s@) == spec_fold("relevance"@)),
        (r == Some(SortKey::Downloads) <==> spec_fold(s@) == spec_fold("downloads"@)),
        (r == Some(SortKey::Follows) <==> spec_fold(s@) == spec_fold("follows"@)),
        (r == Some(SortKey::Newest) <==> spec_fold(s@) == spec_fold("newest"@)),
        (r == Some(SortKey::Updated) <==> spec_fold(s@) == spec_fold("updated"@)),
        (r is None <==> {
            &&& spec_fold(s@) != spec_fold("relevance"@)
            &&& spec_fold(s@) != spec_fold("downloads"@)
            &&& spec_fold(s@) != spec_fold("follows"@)
            &&& spec_fold(s@) != spec_fold("newest"@)
            &&& spec_fold(s@) != spec_fold("updated"@)
        }),
    {
        proof {
            reveal_strlit("relevance");
            reveal_strlit("downloads");
            reveal_strlit("follows");
            reveal_strlit("newest");
            reveal_strlit("updated");
            assert(spec_fold("relevance"@)[0] == 'r' && spec_fold("downloads"@)[0] == 'd');
            assert(spec_fold("follows"@)[0] == 'f' && spec_fold("updated"@)[0] == 'u');
            assert(spec_fold("relevance"@) != spec_fold("downloads"@));
            assert(spec_fold("follows"@) != spec_fold("updated"@));
        }
        if eq_ignore_case(s, "relevance") {
            Some(SortKey::Relevance)
        } else if eq_ignore_case(s, "downloads") {
            Some(SortKey::Downloads)
        } else if eq_ignore_case(s, "follows") {
            Some(SortKey::Follows)
        } else if eq_ignore_case(s, "newest") {
            Some(SortKey::Newest)
        } else if eq_ignore_case(s, "updated") {
            Some(SortKey::Updated)
        } else {
            None
        }
    }

/// The loader a search restricts to: the explicit option when given,
/// and the instance's own loader otherwise.
pub fn search_loader(loader: Option<String>, config: &MinecraftConfig) -> (r: Option<String>)
    ensures
        (loader matches Some(l) ==> (r matches Some(x) && x == l)),
        (loader is None && config.fabric is Some ==> (r matches Some(x) && x@ == "fabric"@)),
        (loader is None && config.fabric is None ==> r is None),
{
    match loader {
        Some(l) => Some(l),
        None => config.get_loader_type(),
    }
}

/// What an uninterpreted URL test yields for a package argument: the
/// result depends on the text alone.
pub uninterp spec fn spec_url_ok(s: Seq<char>) -> bool;

/// Relies on `reqwest::Url::parse`: whether the text is an absolute
/// URL the client can request.
#[verifier::external_body]
fn url_parses(s: &str) -> (r: bool)
    ensures
        r == spec_url_ok(s@),
{
    reqwest::Url::parse(s).is_ok()
}

/// One step of a package download: fetch a remote file, or copy a
/// local one.
#[derive(Debug)]
pub enum UpgradeAction {
    /// Fetch the descriptor's URL to its destination.
    Fetch(Download),
    /// Copy the local file at the first path to the second.
    CopyLocal(String, String),
}

impl UpgradeKind {
    /// The directory this kind of content lands in below the instance
    /// directory.
    pub fn dest_dir(&self, minecraft_dir: &str) -> (r: String)
        ensures
            (self is Mod ==> r@ == minecraft_dir@ + "/mods"@),
            (self is Resourcepack ==> r@ == minecraft_dir@ + "/resourcepacks"@),
    {
        let mut r = minecraft_dir.to_owned();
        match self {
            UpgradeKind::Mod => r.append("/mods"),
            UpgradeKind::Resourcepack => r.append("/resourcepacks"),
        }
        r
    }
}

impl CliUpgrade {
    /// Plan the package downloads: each package that reads as a URL is
    /// fetched to the content directory under its last path segment;
    /// every other package names a local file to copy there under its
    /// last path segment.
    #[verifier::loop_isolation(false)]
    pub fn plan(&self, minecraft_dir: &str) -> (r: Vec<UpgradeAction>)
        ensures
            r@.len() == self.packages@.len(),
            (forall|i: int|
                #![trigger r@[i]]
                0 <= i < r@.len() ==> {
                    let dest = (if self.kind is Mod {
                        minecraft_dir@ + "/mods"@
                    } else {
                        minecraft_dir@ + "/resourcepacks"@
                    }) + "/"@ + spec_last_segment(self.packages@[i]@);
                    if spec_url_ok(self.packages@[i]@) {
                        r@[i] matches UpgradeAction::Fetch(d) && d.url@ == self.packages@[i]@
                            && d.filename@ == dest && d.name is None
                    } else {
                        r@[i] matches UpgradeAction::CopyLocal(src, to) && src@
                            == self.packages@[i]@ && to@ == dest
                    }
                }),
    {
        let dir = self.kind.dest_dir(minecraft_dir);
        let mut r: Vec<UpgradeAction> = Vec::new();
        let mut k: usize = 0;
        while k < self.packages.len()
            invariant
                k <= self.packages@.len(),
                r@.len() == k,
                forall|i: int|
                    #![trigger r@[i]]
                    0 <= i < k ==> {
                        let dest = (if self.kind is Mod {
                            minecraft_dir@ + "/mods"@
                        } else {
                            minecraft_dir@ + "/resourcepacks"@
                        }) + "/"@ + spec_last_segment(self.packages@[i]@);
                        if spec_url_ok(self.packages@[i]@) {
                            r@[i] matches UpgradeAction::Fetch(d) && d.url@
                                == self.packages@[i]@ && d.filename@ == dest && d.name is None
                        } else {
                            r@[i] matches UpgradeAction::CopyLocal(src, to) && src@
                                == self.packages@[i]@ && to@ == dest
                        }
                    },
            decreases self.packages@.len() - k,
        {
            let pkg = &self.packages[k];
            let seg = last_segment(pkg.as_str());
            let mut dest = dir.clone();
            dest.append("/");
            dest.append(seg);
            if url_parses(pkg.as_str()) {
                r.push(UpgradeAction::Fetch(Download::new(pkg.as_str(), dest.as_str(), None)));
            } else {
                r.push(UpgradeAction::CopyLocal(pkg.clone(), dest));
            }
            k = k + 1;
        }
        r
    }
}

} // verus!
