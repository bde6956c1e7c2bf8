//! Content synchronization: the index of installed packages, the
//! filters that select entries of it, and the decisions that keep the
//! index in step with the files on disk and the remote catalog.
//!
//! The index itself, entry selection and every index mutation are
//! verified here; reading directories, hashing files and talking to the
//! remote catalog are the driver's work, which feeds the results in as
//! plain values.

pub mod filter;
pub mod version;

use vstd::prelude::*;

use crate::strutil::spec_ends_with;
use crate::strutil::spec_rfind;
use crate::strutil::spec_trim_end_matches;
use crate::strutil::str_eq;
use crate::strutil::ends_with;
use crate::strutil::rfind_char;
use crate::strutil::trim_end_matches;
use crate::sync::filter::SyncFilter;
use crate::sync::filter::VersionFilter;
use crate::sync::filter::VersionOp;
use crate::sync::version::VersionTuple;

verus! {

/// What kind of content an index entry is.
#[derive(Debug, Clone, Copy, PartialEq, Eq, Structural)]
pub enum IndexEntryKind {
    /// A game modification, installed under `mods`.
    Mod,
    /// A resource pack, installed under `resourcepacks`.
    Resourcepack,
}

/// One installed package: its identity, version, origin and file.
#[derive(Debug)]
pub struct SyncIndexEntry {
    /// The package's identifier.
    pub id: String,
    /// The installed version.
    pub version: String,
    /// The remote catalog's project identifier, when known.
    pub modrinth_project: Option<String>,
    /// The remote catalog's version identifier, when known.
    pub modrinth_version_id: Option<String>,
    /// The installed file's name.
    pub file: String,
    /// Whether the package is currently disabled.
    pub disabled: bool,
    /// What kind of content the package is.
    pub kind: IndexEntryKind,
}

/// The index of installed packages.
#[derive(Debug)]
pub struct SyncIndex {
    /// The installed packages, in index order.
    pub packages: Vec<SyncIndexEntry>,
}

/// A numeric code for each comparison operator, so that the meaning of
/// an uninterpreted version comparison can be stated over plain values.
pub open spec fn op_code(op: VersionOp) -> u8 {
    match op {
        VersionOp::Eq => 0,
        VersionOp::Ne => 1,
        VersionOp::Gt => 2,
        VersionOp::Ge => 3,
        VersionOp::Lt => 4,
        VersionOp::Le => 5,
    }
}

/// What comparing two version texts under an operator code yields:
/// `None` where either text is no valid version, the comparison's truth
/// otherwise.  The result depends on the three arguments alone.
pub uninterp spec fn version_cmp(a: Seq<char>, b: Seq<char>, op: u8) -> Option<bool>;

/// Relies on `version_compare::compare_to`: whether version `a`
/// compares to version `b` as the operator says, and an error — mapped
/// to `None` — where either text is no valid version number.
#[verifier::external_body]
fn compare_versions(a: &str, b: &str, op: VersionOp) -> (r: Option<bool>)
    ensures
        r == version_cmp(a@, b@, op_code(op)),
{
    let cmp = match op {
        VersionOp::Eq => version_compare::Cmp::Eq,
        VersionOp::Ne => version_compare::Cmp::Ne,
        VersionOp::Gt => version_compare::Cmp::Gt,
        VersionOp::Ge => version_compare::Cmp::Ge,
        VersionOp::Lt => version_compare::Cmp::Lt,
        VersionOp::Le => version_compare::Cmp::Le,
    };
    version_compare::compare_to(a, b, cmp).ok()
}

/// Whether an index entry is selected by a filter: the identifiers must
/// read the same, and the entry's version must satisfy the filter's
/// restriction — any version, the exact same text under `Eq`, or a true
/// version comparison under the other operators.
pub open spec fn spec_entry_matches(e: SyncIndexEntry, f: SyncFilter) -> bool {
    &&& e.id@ == f.name@
    &&& (match f.version {
        Option::None => true,
        Option::Some(VersionFilter::Any) => true,
        Option::Some(VersionFilter::Op(v, op)) => if op is Eq {
            e.version@ == v@
        } else {
            version_cmp(e.version@, v@, op_code(op)) == Some(true)
        },
    })
}

/// Whether the entry at `i` is selected.
fn entry_matches(e: &SyncIndexEntry, f: &SyncFilter) -> (r: bool)
    ensures
        r == spec_entry_matches(*e, *f),
{
    if !str_eq(e.id.as_str(), f.name.as_str()) {
        return false;
    }
    match &f.version {
        None => true,
        Some(VersionFilter::Any) => true,
        Some(VersionFilter::Op(v, op)) => match op {
            VersionOp::Eq => str_eq(e.version.as_str(), v.as_str()),
            _ => match compare_versions(e.version.as_str(), v.as_str(), *op) {
                Some(true) => true,
                _ => false,
            },
        },
    }
}

/// The first position whose entry's file name reads `filename`.
pub open spec fn spec_find_file(pkgs: Seq<SyncIndexEntry>, filename: Seq<char>) -> Option<int>
    decreases pkgs.len(),
{
    if pkgs.len() == 0 {
        None
    } else if pkgs.first().file@ == filename {
        Some(0)
    } else {
        match spec_find_file(pkgs.drop_first(), filename) {
            Some(i) => Some(i + 1),
            None => None,
        }
    }
}

/// A position that holds `filename` with none before it is what
/// `spec_find_file` returns.
proof fn lemma_find_file_at(pkgs: Seq<SyncIndexEntry>, filename: Seq<char>, i: int)
    requires
        0 <= i < pkgs.len(),
        pkgs[i].file@ == filename,
        forall|j: int| 0 <= j < i ==> pkgs[j].file@ != filename,
    ensures
        spec_find_file(pkgs, filename) == Some(i),
    decreases pkgs.len(),
{
    if i > 0 {
        lemma_find_file_at(pkgs.drop_first(), filename, i - 1);
    }
}

/// Where no entry holds `filename`, `spec_find_file` returns `None`.
proof fn lemma_find_file_none(pkgs: Seq<SyncIndexEntry>, filename: Seq<char>)
    requires
        forall|j: int| 0 <= j < pkgs.len() ==> pkgs[j].file@ != filename,
    ensures
        spec_find_file(pkgs, filename) is None,
    decreases pkgs.len(),
{
    if pkgs.len() > 0 {
        lemma_find_file_none(pkgs.drop_first(), filename);
    }
}

/// The kind a local file's name implies: `.jar` is a package,
/// `.zip` a resource pack.
pub open spec fn spec_local_kind(trimmed: Seq<char>) -> IndexEntryKind {
    if spec_ends_with(trimmed, ".jar"@) {
        IndexEntryKind::Mod
    } else {
        IndexEntryKind::Resourcepack
    }
}

/// How recording a local file changes the package list: an indexed file
/// keeps its entry with only the version text replaced; a new file
/// appends an entry carrying the parsed name and version, the file
/// name, the disabled flag and the implied kind, with no catalog
/// identifiers.
pub open spec fn spec_applied_local(
    old_pkgs: Seq<SyncIndexEntry>,
    new_pkgs: Seq<SyncIndexEntry>,
    filename: Seq<char>,
    disabled: bool,
    nm: Seq<char>,
    ver: Seq<char>,
    kind: IndexEntryKind,
) -> bool {
    match spec_find_file(old_pkgs, filename) {
        Option::Some(i) => {
            &&& new_pkgs.len() == old_pkgs.len()
            &&& (forall|j: int| 0 <= j < old_pkgs.len() && j != i ==> new_pkgs[j] == old_pkgs[j])
            &&& new_pkgs[i].version@ == ver
            &&& new_pkgs[i].id == old_pkgs[i].id
            &&& new_pkgs[i].file == old_pkgs[i].file
            &&& new_pkgs[i].disabled == old_pkgs[i].disabled
            &&& new_pkgs[i].kind == old_pkgs[i].kind
            &&& new_pkgs[i].modrinth_project == old_pkgs[i].modrinth_project
            &&& new_pkgs[i].modrinth_version_id == old_pkgs[i].modrinth_version_id
        },
        Option::None => {
            &&& new_pkgs.len() == old_pkgs.len() + 1
            &&& (forall|j: int| 0 <= j < old_pkgs.len() ==> new_pkgs[j] == old_pkgs[j])
            &&& new_pkgs.last().id@ == nm
            &&& new_pkgs.last().version@ == ver
            &&& new_pkgs.last().file@ == filename
            &&& new_pkgs.last().disabled == disabled
            &&& new_pkgs.last().kind == kind
            &&& new_pkgs.last().modrinth_project is None
            &&& new_pkgs.last().modrinth_version_id is None
        },
    }
}

impl SyncIndex {

    /// The position of the entry whose file name reads `filename`.
    pub fn find_by_file(&self, filename: &str) -> (r: Option<usize>)
        ensures
            (r matches Some(i) ==> spec_find_file(self.packages@, filename@) == Some(i as int)
                && i < self.packages@.len() && self.packages@[i as int].file@ == filename@),
            (r is None ==> spec_find_file(self.packages@, filename@) is None),
    {
        let mut k: usize = 0;
        while k < self.packages.len()
            invariant
                k <= self.packages@.len(),
                forall|j: int| 0 <= j < k ==> self.packages@[j].file@ != filename@,
            decreases self.packages@.len() - k,
        {
            if str_eq(self.packages[k].file.as_str(), filename) {
                proof {
                    lemma_find_file_at(self.packages@, filename@, k as int);
                }
                return Some(k);
            }
            k = k + 1;
        }
        proof {
            lemma_find_file_none(self.packages@, filename@);
        }
        None
    }

    /// The positions of the entries a filter selects, in index order.
    ///
    /// A filter without a version restriction that would select more
    /// than one entry is ambiguous and selects nothing; in every other
    /// case the result holds exactly the matching positions.
    pub fn find_packages(&self, filter: &SyncFilter) -> (r: Vec<usize>)
        ensures
            (filter.version is None && (exists|a: int, b: int|
                0 <= a < b < self.packages@.len() && spec_entry_matches(
                    self.packages@[a],
                    *filter,
                ) && spec_entry_matches(self.packages@[b], *filter)) ==> r@.len() == 0),
            (!(filter.version is None && (exists|a: int, b: int|
                0 <= a < b < self.packages@.len() && spec_entry_matches(
                    self.packages@[a],
                    *filter,
                ) && spec_entry_matches(self.packages@[b], *filter))) ==> {
                &&& (forall|j: int|
                    0 <= j < r@.len() ==> r@[j] < self.packages@.len() && spec_entry_matches(
                        self.packages@[r@[j] as int],
                        *filter,
                    ))
                &&& (forall|a: int, b: int| 0 <= a < b < r@.len() ==> r@[a] < r@[b])
                &&& (forall|i: int|
                    0 <= i < self.packages@.len() && spec_entry_matches(
                        self.packages@[i],
                        *filter,
                    ) ==> r@.contains(i as usize))
            }),
    {
        let mut indices: Vec<usize> = Vec::new();
        let mut k: usize = 0;
        while k < self.packages.len()
            invariant
                k <= self.packages@.len(),
                forall|j: int|
                    0 <= j < indices@.len() ==> indices@[j] < k && spec_entry_matches(
                        self.packages@[indices@[j] as int],
                        *filter,
                    ),
                forall|a: int, b: int| 0 <= a < b < indices@.len() ==> indices@[a] < indices@[b],
                forall|i: int|
                    0 <= i < k && spec_entry_matches(self.packages@[i], *filter)
                        ==> indices@.contains(i as usize),
            decreases self.packages@.len() - k,
        {
            if entry_matches(&self.packages[k], filter) {
                let ghost before = indices@;
                indices.push(k);
                proof {
                    assert(indices@.last() == k);
                    assert forall|i: int|
                        0 <= i < k + 1 && spec_entry_matches(self.packages@[i], *filter)
                            implies indices@.contains(i as usize) by {
                        if i < k {
                            assert(before.contains(i as usize));
                            let w = choose|w: int| 0 <= w < before.len() && before[w] == i as usize;
                            assert(indices@[w] == i as usize);
                        } else {
                            assert(indices@[indices@.len() - 1] == i as usize);
                        }
                    }
                }
            }
            k = k + 1;
        }
        if filter.version.is_none() && indices.len() > 1 {
            proof {
                assert(spec_entry_matches(self.packages@[indices@[0] as int], *filter)
                    && spec_entry_matches(self.packages@[indices@[1] as int], *filter)
                    && indices@[0] < indices@[1]);
            }
            return Vec::new();
        }
        proof {
            if filter.version is None {
                if exists|a: int, b: int|
                    0 <= a < b < self.packages@.len() && spec_entry_matches(
                        self.packages@[a],
                        *filter,
                    ) && spec_entry_matches(self.packages@[b], *filter) {
                    let (a, b) = choose|a: int, b: int|
                        0 <= a < b < self.packages@.len() && spec_entry_matches(
                            self.packages@[a],
                            *filter,
                        ) && spec_entry_matches(self.packages@[b], *filter);
                    assert(indices@.contains(a as usize));
                    assert(indices@.contains(b as usize));
                    let wa = choose|w: int|
                        0 <= w < indices@.len() && indices@[w] == a as usize;
                    let wb = choose|w: int|
                        0 <= w < indices@.len() && indices@[w] == b as usize;
                    assert(wa != wb);
                    assert(indices@.len() > 1);
                }
            }
        }
        indices
    }

    /// Update the entry at `i` with what the remote catalog reports for
    /// its file: the project and version identifiers and the version
    /// text.  Everything else about the entry, and every other entry,
    /// stays as it was.
    pub fn update_remote(&mut self, i: usize, project_id: &str, version_id: &str, version: &str)
        requires
            i < old(self).packages@.len(),
        ensures
            final(self).packages@.len() == old(self).packages@.len(),
            (forall|j: int|
                0 <= j < old(self).packages@.len() && j != i ==> final(self).packages@[j]
                    == old(self).packages@[j]),
            ({
                let e = final(self).packages@[i as int];
                let o = old(self).packages@[i as int];
                &&& (e.modrinth_project matches Some(p) && p@ == project_id@)
                &&& (e.modrinth_version_id matches Some(v) && v@ == version_id@)
                &&& e.version@ == version@
                &&& e.id == o.id
                &&& e.file == o.file
                &&& e.disabled == o.disabled
                &&& e.kind == o.kind
            }),
    {
        let entry = &self.packages[i];
        let updated = SyncIndexEntry {
            id: entry.id.clone(),
            version: version.to_owned(),
            modrinth_project: Some(project_id.to_owned()),
            modrinth_version_id: Some(version_id.to_owned()),
            file: entry.file.clone(),
            disabled: entry.disabled,
            kind: entry.kind,
        };
        self.packages.set(i, updated);
    }

    /// Append an entry for a file the remote catalog knows: identified
    /// by the catalog's project slug, carrying the catalog identifiers
    /// and the reported version.
    pub fn insert_remote(
        &mut self,
        slug: String,
        filename: &str,
        disabled: bool,
        project_id: &str,
        version_id: &str,
        version: &str,
        kind: IndexEntryKind,
    )
        ensures
            final(self).packages@.len() == old(self).packages@.len() + 1,
            (forall|j: int|
                0 <= j < old(self).packages@.len() ==> final(self).packages@[j] == old(
                    self,
                ).packages@[j]),
            ({
                let e = final(self).packages@.last();
                &&& e.id == slug
                &&& e.file@ == filename@
                &&& e.disabled == disabled
                &&& (e.modrinth_project matches Some(p) && p@ == project_id@)
                &&& (e.modrinth_version_id matches Some(v) && v@ == version_id@)
                &&& e.version@ == version@
                &&& e.kind == kind
            }),
    {
        self.packages.push(
            SyncIndexEntry {
                id: slug,
                version: version.to_owned(),
                modrinth_project: Some(project_id.to_owned()),
                modrinth_version_id: Some(version_id.to_owned()),
                file: filename.to_owned(),
                disabled,
                kind,
            },
        );
    }

    /// Record a file the remote catalog does not know.
    ///
    /// The file name, without any trailing `.disabled`, decides the
    /// kind — `.jar` is a package, `.zip` a resource pack, anything
    /// else is unsupported and leaves the index unchanged with `Ok(false)`.
    /// The name then parses into a name/version pair; a name in which
    /// no version can be found is an error.  A file already indexed
    /// only has its version updated; a new file is appended.
    pub fn apply_local(&mut self, filename: &str, disabled: bool) -> (r: Result<bool, ()>)
        ensures
            ({
                let trimmed = spec_trim_end_matches(filename@, ".disabled"@);
                let parsed = crate::sync::version::spec_parse_tuple(trimmed);
                let known_kind = spec_ends_with(trimmed, ".jar"@) || spec_ends_with(
                    trimmed,
                    ".zip"@,
                );
                &&& (r is Err <==> parsed is None)
                &&& (r == Ok::<bool, ()>(false) <==> (parsed is Some && !known_kind))
                &&& ((r is Err || r == Ok::<bool, ()>(false)) ==> *final(self) == *old(self))
                &&& (r == Ok::<bool, ()>(true) ==> (parsed matches Some((nm, ver))
                    && spec_applied_local(
                    old(self).packages@,
                    final(self).packages@,
                    filename@,
                    disabled,
                    nm,
                    ver,
                    spec_local_kind(trimmed),
                )))
            }),
    {
        let trimmed = trim_end_matches(filename, ".disabled");
        let tuple = match VersionTuple::parse(trimmed) {
            Some(t) => t,
            None => {
                return Err(());
            },
        };
        let kind = if ends_with(trimmed, ".jar") {
            IndexEntryKind::Mod
        } else if ends_with(trimmed, ".zip") {
            IndexEntryKind::Resourcepack
        } else {
            return Ok(false);
        };
        match self.find_by_file(filename) {
            Some(i) => {
                let entry = &self.packages[i];
                let updated = SyncIndexEntry {
                    id: entry.id.clone(),
                    version: tuple.version,
                    modrinth_project: match &entry.modrinth_project {
                        Some(p) => Some(p.clone()),
                        None => None,
                    },
                    modrinth_version_id: match &entry.modrinth_version_id {
                        Some(v) => Some(v.clone()),
                        None => None,
                    },
                    file: entry.file.clone(),
                    disabled: entry.disabled,
                    kind: entry.kind,
                };
                self.packages.set(i, updated);
            },
            None => {
                self.packages.push(
                    SyncIndexEntry {
                        id: tuple.name,
                        version: tuple.version,
                        modrinth_project: None,
                        modrinth_version_id: None,
                        file: filename.to_owned(),
                        disabled,
                        kind,
                    },
                );
            },
        }
        Ok(true)
    }

    /// Whether the index holds no packages yet, in which case it should
    /// be refreshed from disk before it is used.
    pub fn needs_refresh(&self) -> (r: bool)
        ensures
            r == (self.packages@.len() == 0),
    {
        self.packages.is_empty()
    }

    /// The lock file's path for a configuration file: the final
    /// extension gains a `lock.` prefix, so `default.toml` becomes
    /// `default.lock.toml`; a path without an extension gains
    /// `.lock.toml` whole.
    pub fn get_lock_path(normal_config_path: &str) -> (r: String)
        ensures
            r@ == spec_lock_path(normal_config_path@),
    {
        let n = normal_config_path.unicode_len();
        proof {
            crate::strutil::lemma_spec_rfind(normal_config_path@, '/');
        }
        let fname_start: usize = match rfind_char(normal_config_path, '/') {
            None => 0,
            Some(i) => i + 1,
        };
        let fname = normal_config_path.substring_char(fname_start, n);
        proof {
            crate::strutil::lemma_spec_rfind(fname@, '.');
        }
        let dot = rfind_char(fname, '.');
        match dot {
            Some(i) => {
                if i > 0 {
                    let flen = fname.unicode_len();
                    let base = normal_config_path.substring_char(0, fname_start + i);
                    let ext = fname.substring_char(i + 1, flen);
                    let mut r = base.to_owned();
                    r.append(".lock.");
                    r.append(ext);
                    r
                } else {
                    let mut r = normal_config_path.to_owned();
                    r.append(".lock.toml");
                    r
                }
            },
            None => {
                let mut r = normal_config_path.to_owned();
                r.append(".lock.toml");
                r
            },
        }
    }
}

/// The lock file's path: the text up to the file name's final dot, then
/// `.lock.` and the extension; a file name without an extension (or
/// with only a leading dot) keeps the whole path and gains `.lock.toml`.
pub open spec fn spec_lock_path(s: Seq<char>) -> Seq<char> {
    let fname_start = match spec_rfind(s, '/') {
        Option::None => 0int,
        Option::Some(i) => i + 1,
    };
    let fname = s.subrange(fname_start, s.len() as int);
    match spec_rfind(fname, '.') {
        Option::Some(i) => if i > 0 {
            s.subrange(0, fname_start + i) + ".lock."@ + fname.subrange(i + 1, fname.len() as int)
        } else {
            s + ".lock.toml"@
        },
        Option::None => s + ".lock.toml"@,
    }
}

impl SyncIndexEntry {
    /// The directory the entry's file lives in below the instance
    /// directory: packages under `mods`, resource packs under
    /// `resourcepacks`.
    pub fn get_namespace(&self, prefix: &str) -> (r: String)
        ensures
            (self.kind is Mod ==> r@ == prefix@ + "/mods"@),
            (self.kind is Resourcepack ==> r@ == prefix@ + "/resourcepacks"@),
    {
        let mut r = prefix.to_owned();
        match self.kind {
            IndexEntryKind::Mod => r.append("/mods"),
            IndexEntryKind::Resourcepack => r.append("/resourcepacks"),
        }
        r
    }

    /// The entry's file path below the instance directory.
    pub fn file_path(&self, prefix: &str) -> (r: String)
        ensures
            (self.kind is Mod ==> r@ == prefix@ + "/mods/"@ + self.file@),
            (self.kind is Resourcepack ==> r@ == prefix@ + "/resourcepacks/"@ + self.file@),
    {
        let mut r = self.get_namespace(prefix);
        r.append("/");
        r.append(self.file.as_str());
        proof {
            reveal_strlit("/mods");
            reveal_strlit("/resourcepacks");
            reveal_strlit("/");
            reveal_strlit("/mods/");
            reveal_strlit("/resourcepacks/");
            if self.kind is Mod {
                assert(prefix@ + "/mods"@ + "/"@ + self.file@ =~= prefix@ + "/mods/"@
                    + self.file@);
            } else {
                assert(prefix@ + "/resourcepacks"@ + "/"@ + self.file@ =~= prefix@
                    + "/resourcepacks/"@ + self.file@);
            }
        }
        r
    }

    /// Mark the entry disabled: its file name gains the `.disabled`
    /// suffix the file itself is renamed to.
    pub fn mark_disabled(&mut self)
        ensures
            final(self).disabled,
            final(self).file@ == old(self).file@ + ".disabled"@,
            final(self).id == old(self).id,
            final(self).version == old(self).version,
            final(self).modrinth_project == old(self).modrinth_project,
            final(self).modrinth_version_id == old(self).modrinth_version_id,
            final(self).kind == old(self).kind,
    {
        self.disabled = true;
        self.file.append(".disabled");
    }

    /// Mark the entry enabled: every trailing `.disabled` leaves its
    /// file name, matching the name the file is renamed back to.
    pub fn mark_enabled(&mut self)
        ensures
            !final(self).disabled,
            final(self).file@ == spec_trim_end_matches(old(self).file@, ".disabled"@),
            final(self).id == old(self).id,
            final(self).version == old(self).version,
            final(self).modrinth_project == old(self).modrinth_project,
            final(self).modrinth_version_id == old(self).modrinth_version_id,
            final(self).kind == old(self).kind,
    {
        self.disabled = false;
        let enabled = trim_end_matches(self.file.as_str(), ".disabled").to_owned();
        self.file = enabled;
    }
}

} // verus!
