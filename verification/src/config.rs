//! The instance configuration: what the user wrote, the resolved form
//! the launcher runs with, and the planning of every download and
//! launch argument an instance needs.
//!
//! Reading and writing the configuration file, fetching catalogs and
//! checking the filesystem stay with the driver; it hands the results
//! in as plain values and performs the transfers this module plans.

use vstd::prelude::*;

use crate::download::Download;
use crate::maven::MavenVersion;
use crate::model::fabric::FabricVerisonGameLoader;
use crate::model::fabric::FabricLibrary;
use crate::model::version::VersionPackage;
use crate::strutil::spec_split;
use crate::strutil::split_char;

verus! {

/// The `minecraft` section: version, instance directory, and the
/// optional Fabric loader.
#[derive(Debug)]
pub struct MinecraftConfig {
    /// The game version to run.
    pub version: String,
    /// The instance's game directory.
    pub directory: String,
    /// The Fabric loader section, when the instance uses Fabric.
    pub fabric: Option<FabricConfig>,
}

/// The `fabric` section: which loader version to use.
#[derive(Debug)]
pub struct FabricConfig {
    /// The loader version.
    pub version: String,
}

/// The `paths` section: where libraries, assets and Java live.
#[derive(Debug)]
pub struct PathsConfig {
    /// The libraries directory, when set.
    pub libraries: Option<String>,
    /// The assets directory, when set.
    pub assets: Option<String>,
    /// The Java installation directory, when set.
    pub java: Option<String>,
}

/// The `args` section: memory bounds and extra arguments.
#[derive(Debug)]
pub struct ArgsConfig {
    /// The minimum heap size, when set.
    pub mem_min: Option<String>,
    /// The maximum heap size, when set.
    pub mem_max: Option<String>,
    /// Extra JVM arguments, space-separated.
    pub jvm: String,
    /// Extra game arguments, space-separated.
    pub game: String,
}

/// Which logging configuration the instance runs with.
#[derive(Debug)]
pub enum Log4jConfig {
    /// The game's own logging configuration, downloaded beside the
    /// libraries.
    Vanilla,
    /// No logging configuration.
    Disabled,
    /// A configuration file the user supplies.
    Custom(String),
}

/// The configuration as read from the instance file, before the
/// version catalog and the default paths are folded in.
#[derive(Debug)]
pub struct UnresolvedConfig {
    /// The `minecraft` section.
    pub minecraft: MinecraftConfig,
    /// The `paths` section.
    pub paths: PathsConfig,
    /// The `args` section.
    pub args: ArgsConfig,
    /// The logging configuration.
    pub log4j: Log4jConfig,
    /// The player name, when set.
    pub username: Option<String>,
    /// The player identifier, when set.
    pub uuid: Option<String>,
}

/// Which mod loader the instance runs.
#[derive(Debug)]
pub enum ModLoader {
    /// No loader: the plain game.
    Vanilla,
    /// The Fabric loader, at the given version.
    Fabric {
        /// The loader version.
        version: String,
    },
}

/// The resolved configuration the launcher runs with.
#[derive(Debug)]
pub struct Config {
    /// The resolved version package.
    pub version: VersionPackage,
    /// The libraries directory.
    pub libraries_path: String,
    /// The Java installation directory.
    pub java_path: String,
    /// The instance's game directory.
    pub minecraft_dir: String,
    /// The assets directory.
    pub assets_path: String,
    /// Extra JVM arguments.
    pub jvm_args: Vec<String>,
    /// Extra game arguments.
    pub game_args: Vec<String>,
    /// Which mod loader the instance runs.
    pub modloader: ModLoader,
    /// The logging configuration.
    pub log4j: Log4jConfig,
    /// The player name, when set.
    pub username: Option<String>,
    /// The player identifier, when set.
    pub uuid: Option<String>,
    /// The minimum heap size.
    pub mem_min: String,
    /// The maximum heap size.
    pub mem_max: String,
}

/// The arguments a launch needs: JVM arguments, the main class, and
/// game arguments, in the order they are passed.
#[derive(Debug)]
pub struct JavaArgs {
    /// The JVM arguments.
    pub jvm: Vec<String>,
    /// The main class.
    pub main: String,
    /// The game arguments.
    pub game: Vec<String>,
}

impl Clone for JavaArgs {
    /// A clone holds the same arguments and main class.
    fn clone(&self) -> (r: Self)
        ensures
            r.jvm@ == self.jvm@,
            r.main == self.main,
            r.game@ == self.game@,
    {
        let r = JavaArgs { jvm: self.jvm.clone(), main: self.main.clone(), game: self.game.clone() };
        proof {
            assert forall|i: int| 0 <= i < self.jvm@.len() implies r.jvm@[i] == self.jvm@[i] by {
                assert(cloned::<String>(self.jvm@[i], r.jvm@[i]));
            }
            assert forall|i: int| 0 <= i < self.game@.len() implies r.game@[i]
                == self.game@[i] by {
                assert(cloned::<String>(self.game@[i], r.game@[i]));
            }
            assert(r.jvm@ =~= self.jvm@);
            assert(r.game@ =~= self.game@);
        }
        r
    }
}

impl MinecraftConfig {
    /// The loader's catalog name: `fabric` where a Fabric section is
    /// present, nothing otherwise.
    pub fn get_loader_type(&self) -> (r: Option<String>)
        ensures
            (self.fabric is Some ==> (r matches Some(s) && s@ == "fabric"@)),
            (self.fabric is None ==> r is None),
    {
        match &self.fabric {
            Some(_) => Some("fabric".to_owned()),
            None => None,
        }
    }
}

/// The logging configuration file's path below the base path.
pub open spec fn spec_log4j_file(base_path: Seq<char>) -> Seq<char> {
    base_path + "/log4j2.vanilla.xml"@
}

impl Log4jConfig {
    /// Queue the logging configuration's download: the game's own
    /// configuration file lands beside the libraries; the other
    /// variants download nothing.
    pub fn download(&self, base_path: &str, version: &VersionPackage, queue: &mut Vec<Download>)
        ensures
            (self is Vanilla ==> {
                &&& final(queue)@.len() == old(queue)@.len() + 1
                &&& final(queue)@.drop_last() == old(queue)@
                &&& final(queue)@.last().url@ == version.logging.client.file.base.url@
                &&& final(queue)@.last().filename@ == spec_log4j_file(base_path@)
                &&& final(queue)@.last().name is None
            }),
            (!(self is Vanilla) ==> final(queue)@ == old(queue)@),
    {
        match self {
            Log4jConfig::Vanilla => {
                let mut filename = base_path.to_owned();
                filename.append("/log4j2.vanilla.xml");
                queue.push(
                    Download::new(
                        version.logging.client.file.base.url.as_str(),
                        filename.as_str(),
                        None,
                    ),
                );
                proof {
                    assert(queue@.drop_last() =~= old(queue)@);
                }
            },
            Log4jConfig::Disabled => {
            },
            Log4jConfig::Custom(_) => {
            },
        }
    }

    /// The logging configuration file's path: the game's own below the
    /// base path, the user's as given, or nothing.
    pub fn get_path(&self, base_path: &str) -> (r: Option<String>)
        ensures
            (self is Vanilla ==> (r matches Some(p) && p@ == spec_log4j_file(base_path@))),
            ((self matches Log4jConfig::Disabled) ==> r is None),
            (self matches Log4jConfig::Custom(c) ==> (r matches Some(p) && p@ == c@)),
    {
        match self {
            Log4jConfig::Vanilla => {
                let mut p = base_path.to_owned();
                p.append("/log4j2.vanilla.xml");
                Some(p)
            },
            Log4jConfig::Disabled => None,
            Log4jConfig::Custom(path) => Some(path.clone()),
        }
    }
}

/// Why planning or resolving an instance failed.
#[derive(Debug, Clone, Copy, PartialEq, Eq, Structural)]
pub enum ConfigError {
    /// No Java path was configured and none could be found.
    MissingJavaPath,
    /// A library name is no valid maven coordinate.
    InvalidLibraryName,
    /// The loader metadata is needed but was not supplied.
    MissingFabricMeta,
}

/// The maven coordinate names the Fabric loader asks for: the client
/// libraries, then the common ones, then the loader and the
/// intermediary mappings.
pub open spec fn spec_fabric_names(meta: FabricVerisonGameLoader) -> Seq<Seq<char>> {
    meta.launcher_meta.libraries.client@.map(|i: int, l: FabricLibrary| l.name@)
        + meta.launcher_meta.libraries.common@.map(|i: int, l: FabricLibrary| l.name@) + seq![
        meta.loader.maven@,
        meta.intermediary.maven@,
    ]
}

/// The console appender the loader additionally needs, as a fixed
/// coordinate.
pub open spec fn spec_appender_triple() -> (Seq<char>, Seq<char>, Seq<char>) {
    ("net.minecrell"@, "terminalconsoleappender"@, "1.3.0"@)
}

/// The classpath entries for a list of coordinate names below the
/// libraries directory, or nothing where a name does not parse.
pub open spec fn spec_classpath_entries(
    names: Seq<Seq<char>>,
    libraries_path: Seq<char>,
) -> Option<Seq<Seq<char>>>
    decreases names.len(),
{
    if names.len() == 0 {
        Some(Seq::empty())
    } else {
        let init = spec_classpath_entries(names.drop_last(), libraries_path);
        let t = crate::maven::spec_maven_triple(names.last());
        if init is Some && t is Some {
            let triple = t->0;
            Some(
                init->0.push(
                    libraries_path + "/"@ + crate::maven::spec_maven_path_of(
                        triple.0,
                        triple.1,
                        triple.2,
                    ),
                ),
            )
        } else {
            None
        }
    }
}

/// Where some name does not parse, there are no classpath entries.
proof fn lemma_classpath_none(names: Seq<Seq<char>>, lp: Seq<char>)
    requires
        exists|i: int| 0 <= i < names.len() && crate::maven::spec_maven_triple(#[trigger] names[i]) is None,
    ensures
        spec_classpath_entries(names, lp) is None,
    decreases names.len(),
{
    let i = choose|i: int|
        0 <= i < names.len() && crate::maven::spec_maven_triple(#[trigger] names[i]) is None;
    if i < names.len() - 1 {
        assert(names.drop_last()[i] == names[i]);
        lemma_classpath_none(names.drop_last(), lp);
    }
}

impl ModLoader {
    /// The main class the instance launches: the version package's own
    /// for the plain game, the loader's client main class where Fabric
    /// runs — which needs the loader metadata to be supplied.
    pub fn get_main_class(
        &self,
        game_version: &VersionPackage,
        fabric_meta: Option<&FabricVerisonGameLoader>,
    ) -> (r: Result<String, ConfigError>)
        ensures
            (self is Vanilla ==> (r matches Ok(m) && m@ == game_version.main_class@)),
            (self is Fabric ==> (match fabric_meta {
                Option::Some(meta) => r matches Ok(m) && m@
                    == meta.launcher_meta.main_class.client@,
                Option::None => r == Err::<String, ConfigError>(ConfigError::MissingFabricMeta),
            })),
    {
        match self {
            ModLoader::Vanilla => Ok(game_version.main_class.clone()),
            ModLoader::Fabric { version: _ } => match fabric_meta {
                Some(meta) => Ok(meta.launcher_meta.main_class.client.clone()),
                None => Err(ConfigError::MissingFabricMeta),
            },
        }
    }

    /// The extra classpath entries the loader needs, below the
    /// libraries directory: none for the plain game; for Fabric, one
    /// entry per library the loader metadata names — client, common,
    /// loader, intermediary — plus the console appender.  A library
    /// name that is no maven coordinate is an error, as is missing
    /// metadata.
    #[verifier::loop_isolation(false)]
    pub fn build_classpath(
        &self,
        libraries_path: &str,
        fabric_meta: Option<&FabricVerisonGameLoader>,
    ) -> (r: Result<Vec<String>, ConfigError>)
        ensures
            (self is Vanilla ==> (r matches Ok(v) && v@.len() == 0)),
            (self is Fabric ==> (match fabric_meta {
                Option::Some(meta) => {
                    &&& (r is Ok <==> spec_classpath_entries(
                        spec_fabric_names(*meta),
                        libraries_path@,
                    ) is Some)
                    &&& (r matches Ok(v) ==> v@.map(|i: int, p: String| p@)
                        == spec_classpath_entries(spec_fabric_names(*meta), libraries_path@)->0.push(
                        libraries_path@ + "/"@ + crate::maven::spec_maven_path_of(
                            spec_appender_triple().0,
                            spec_appender_triple().1,
                            spec_appender_triple().2,
                        ),
                    ))
                },
                Option::None => r == Err::<Vec<String>, ConfigError>(
                    ConfigError::MissingFabricMeta,
                ),
            })),
    {
        match self {
            ModLoader::Vanilla => Ok(Vec::new()),
            ModLoader::Fabric { version: _ } => match fabric_meta {
                None => Err(ConfigError::MissingFabricMeta),
                Some(meta) => {
                    let names = fabric_names(meta);
                    let mut out: Vec<String> = Vec::new();
                    let ghost ns = spec_fabric_names(*meta);
                    let mut k: usize = 0;
                    proof {
                        assert(ns.take(0int) =~~= Seq::<Seq<char>>::empty());
                        assert(spec_classpath_entries(ns.take(0int), libraries_path@) == Some(
                            Seq::<Seq<char>>::empty(),
                        ));
                    }
                    while k < names.len()
                        invariant
                            k <= names@.len(),
                            names@.map(|i: int, p: String| p@) == ns,
                            spec_classpath_entries(ns.take(k as int), libraries_path@) == Some(
                                out@.map(|i: int, p: String| p@),
                            ),
                        decreases names@.len() - k,
                    {
                        proof {
                            assert(ns.take(k as int + 1).drop_last() =~~= ns.take(k as int));
                            assert(ns.take(k as int + 1).last() == ns[k as int]);
                        }
                        let m = match MavenVersion::parse(names[k].as_str()) {
                            Some(m) => m,
                            None => {
                                proof {
                                    assert(crate::maven::spec_maven_triple(ns[k as int]) is None);
                                    lemma_classpath_none(ns, libraries_path@);
                                }
                                return Err(ConfigError::InvalidLibraryName);
                            },
                        };
                        let mut entry = libraries_path.to_owned();
                        entry.append("/");
                        let p = m.get_path();
                        entry.append(p.as_str());
                        let ghost before = out@.map(|i: int, p: String| p@);
                        out.push(entry);
                        proof {
                            let ghost triple = crate::maven::spec_maven_triple(ns[k as int])->0;
                            assert(out@.map(|i: int, p: String| p@) =~~= before.push(
                                libraries_path@ + "/"@ + crate::maven::spec_maven_path_of(
                                    triple.0,
                                    triple.1,
                                    triple.2,
                                ),
                            ));
                        }
                        k = k + 1;
                    }
                    proof {
                        assert(ns.take(names@.len() as int) =~~= ns);
                    }
                    let appender = MavenVersion {
                        group: "net.minecrell".to_owned(),
                        artifact: "terminalconsoleappender".to_owned(),
                        version: "1.3.0".to_owned(),
                    };
                    let mut entry = libraries_path.to_owned();
                    entry.append("/");
                    let p = appender.get_path();
                    entry.append(p.as_str());
                    let ghost before = out@.map(|i: int, p: String| p@);
                    out.push(entry);
                    proof {
                        assert(out@.map(|i: int, p: String| p@) =~~= before.push(
                            libraries_path@ + "/"@ + crate::maven::spec_maven_path_of(
                                spec_appender_triple().0,
                                spec_appender_triple().1,
                                spec_appender_triple().2,
                            ),
                        ));
                    }
                    Ok(out)
                },
            },
        }
    }
}

/// The coordinate names the loader metadata lists, in classpath order.
fn fabric_names(meta: &FabricVerisonGameLoader) -> (r: Vec<String>)
    ensures
        r@.map(|i: int, p: String| p@) == spec_fabric_names(*meta),
{
    let mut r: Vec<String> = Vec::new();
    let mut k: usize = 0;
    while k < meta.launcher_meta.libraries.client.len()
        invariant
            k <= meta.launcher_meta.libraries.client@.len(),
            r@.map(|i: int, p: String| p@) =~= meta.launcher_meta.libraries.client@.take(
                k as int,
            ).map(|i: int, l: FabricLibrary| l.name@),
        decreases meta.launcher_meta.libraries.client@.len() - k,
    {
        let ghost before = r@.map(|i: int, p: String| p@);
        r.push(meta.launcher_meta.libraries.client[k].name.clone());
        proof {
            assert(r@.map(|i: int, p: String| p@) =~~= before.push(
                meta.launcher_meta.libraries.client@[k as int].name@,
            ));
            assert(meta.launcher_meta.libraries.client@.take(k as int + 1).map(
                |i: int, l: FabricLibrary| l.name@,
            ) =~~= meta.launcher_meta.libraries.client@.take(k as int).map(
                |i: int, l: FabricLibrary| l.name@,
            ).push(meta.launcher_meta.libraries.client@[k as int].name@));
        }
        k = k + 1;
    }
    let mut k2: usize = 0;
    while k2 < meta.launcher_meta.libraries.common.len()
        invariant
            k2 <= meta.launcher_meta.libraries.common@.len(),
            r@.map(|i: int, p: String| p@) =~= meta.launcher_meta.libraries.client@.map(
                |i: int, l: FabricLibrary| l.name@,
            ) + meta.launcher_meta.libraries.common@.take(k2 as int).map(
                |i: int, l: FabricLibrary| l.name@,
            ),
        decreases meta.launcher_meta.libraries.common@.len() - k2,
    {
        let ghost before = r@.map(|i: int, p: String| p@);
        r.push(meta.launcher_meta.libraries.common[k2].name.clone());
        proof {
            assert(r@.map(|i: int, p: String| p@) =~~= before.push(
                meta.launcher_meta.libraries.common@[k2 as int].name@,
            ));
            assert(meta.launcher_meta.libraries.common@.take(k2 as int + 1).map(
                |i: int, l: FabricLibrary| l.name@,
            ) =~~= meta.launcher_meta.libraries.common@.take(k2 as int).map(
                |i: int, l: FabricLibrary| l.name@,
            ).push(meta.launcher_meta.libraries.common@[k2 as int].name@));
        }
        k2 = k2 + 1;
    }
    let ghost before1 = r@.map(|i: int, p: String| p@);
    r.push(meta.loader.maven.clone());
    let ghost before2 = r@.map(|i: int, p: String| p@);
    r.push(meta.intermediary.maven.clone());
    proof {
        assert(meta.launcher_meta.libraries.client@.take(
            meta.launcher_meta.libraries.client@.len() as int,
        ) =~~= meta.launcher_meta.libraries.client@);
        assert(meta.launcher_meta.libraries.common@.take(
            meta.launcher_meta.libraries.common@.len() as int,
        ) =~~= meta.launcher_meta.libraries.common@);
        assert(before2 =~~= before1.push(meta.loader.maven@));
        assert(r@.map(|i: int, p: String| p@) =~~= before2.push(meta.intermediary.maven@));
        assert(r@.map(|i: int, p: String| p@) =~~= spec_fabric_names(*meta));
    }
    r
}


/// One planned transfer, as plain values: URL, destination, label.
pub open spec fn spec_dl(d: Download) -> (Seq<char>, Seq<char>, Option<Seq<char>>) {
    d.spec_view()
}

/// The client jar's path below the libraries directory.
pub open spec fn spec_client_jar_path(libraries_path: Seq<char>, id: Seq<char>) -> Seq<char> {
    libraries_path + "/net/minecraft/client/"@ + id + "/minecraft-"@ + id + "-client.jar"@
}

/// The client jar's label.
pub open spec fn spec_client_jar_name(id: Seq<char>) -> Seq<char> {
    "minecraft-"@ + id + "-client.jar"@
}

/// The transfers the version's own libraries need: one per library
/// that applies on this operating system and is not on disk yet, in
/// catalog order — from the artifact's URL to its path below the
/// libraries directory, labeled with the path's file name.
pub open spec fn spec_vanilla_lib_plan(
    libs: Seq<crate::model::version::VersionLibrary>,
    exists: Seq<bool>,
    libraries_path: Seq<char>,
    os: Seq<char>,
) -> Seq<(Seq<char>, Seq<char>, Option<Seq<char>>)>
    decreases libs.len(),
{
    if libs.len() == 0 || exists.len() == 0 {
        Seq::empty()
    } else {
        let init = spec_vanilla_lib_plan(libs.drop_last(), exists.drop_last(), libraries_path, os);
        let lib = libs.last();
        if crate::model::version::spec_library_allowed(lib, os) && !exists.last() {
            init.push(
                (
                    lib.downloads.artifact.base.base.url@,
                    libraries_path + "/"@ + lib.downloads.artifact.path@,
                    Some(crate::strutil::spec_last_segment(lib.downloads.artifact.path@)),
                ),
            )
        } else {
            init
        }
    }
}

/// The transfers the asset index needs: one per asset not on disk yet,
/// in index order — addressed by content hash on the resource server,
/// stored under the hash's first two characters below the assets
/// directory, labeled `assets:` and the hash.
pub open spec fn spec_asset_plan(
    objects: Seq<(String, crate::model::assets::AssetObject)>,
    exists: Seq<bool>,
    assets_path: Seq<char>,
) -> Seq<(Seq<char>, Seq<char>, Option<Seq<char>>)>
    decreases objects.len(),
{
    if objects.len() == 0 || exists.len() == 0 {
        Seq::empty()
    } else {
        let init = spec_asset_plan(objects.drop_last(), exists.drop_last(), assets_path);
        let hash = objects.last().1.hash@;
        if !exists.last() {
            init.push(
                (
                    "https://resources.download.minecraft.net/"@ + hash.subrange(0, 2) + "/"@
                        + hash,
                    assets_path + "/objects/"@ + hash.subrange(0, 2) + "/"@ + hash,
                    Some("assets:"@ + hash),
                ),
            )
        } else {
            init
        }
    }
}

impl Config {
    /// The client jar's path below the libraries directory.
    pub fn get_client_jar_path(&self) -> (r: String)
        ensures
            r@ == spec_client_jar_path(self.libraries_path@, self.version.id@),
    {
        let mut r = self.libraries_path.clone();
        r.append("/net/minecraft/client/");
        r.append(self.version.id.as_str());
        r.append("/minecraft-");
        r.append(self.version.id.as_str());
        r.append("-client.jar");
        r
    }

    /// Queue the client jar's transfer, unless the jar is already on
    /// disk: from the version's client download URL to the client jar
    /// path, labeled with the jar's file name.
    pub fn download_client(&self, jar_exists: bool, queue: &mut Vec<Download>)
        ensures
            (jar_exists ==> final(queue)@ == old(queue)@),
            (!jar_exists ==> {
                &&& final(queue)@.len() == old(queue)@.len() + 1
                &&& final(queue)@.drop_last() == old(queue)@
                &&& spec_dl(final(queue)@.last()) == (
                    self.version.downloads.client.url@,
                    spec_client_jar_path(self.libraries_path@, self.version.id@),
                    Some(spec_client_jar_name(self.version.id@)),
                )
            }),
    {
        if jar_exists {
            return ;
        }
        let path = self.get_client_jar_path();
        let mut name = "minecraft-".to_owned();
        name.append(self.version.id.as_str());
        name.append("-client.jar");
        queue.push(
            Download::new(self.version.downloads.client.url.as_str(), path.as_str(), Some(name)),
        );
        proof {
            assert(queue@.drop_last() =~= old(queue)@);
        }
    }

    /// Queue the transfers of every library of the version that
    /// applies on the operating system named `os` and is not on disk
    /// yet (`lib_exists` says which are, by catalog index).
    #[verifier::loop_isolation(false)]
    pub fn download_vanilla_libraries(
        &self,
        os: &str,
        lib_exists: &Vec<bool>,
        queue: &mut Vec<Download>,
    )
        requires
            lib_exists@.len() == self.version.libraries@.len(),
        ensures
            final(queue)@.map(|i: int, d: Download| spec_dl(d)) == old(queue)@.map(
                |i: int, d: Download| spec_dl(d),
            ) + spec_vanilla_lib_plan(
                self.version.libraries@,
                lib_exists@,
                self.libraries_path@,
                os@,
            ),
    {
        let ghost libs = self.version.libraries@;
        let ghost lp = self.libraries_path@;
        let mut k: usize = 0;
        proof {
            assert(spec_vanilla_lib_plan(libs.take(0int), lib_exists@.take(0int), lp, os@)
                =~~= Seq::empty());
        }
        while k < self.version.libraries.len()
            invariant
                k <= libs.len(),
                queue@.map(|i: int, d: Download| spec_dl(d)) =~~= old(queue)@.map(
                    |i: int, d: Download| spec_dl(d),
                ) + spec_vanilla_lib_plan(libs.take(k as int), lib_exists@.take(k as int), lp, os@),
            decreases libs.len() - k,
        {
            proof {
                assert(libs.take(k as int + 1).drop_last() =~~= libs.take(k as int));
                assert(lib_exists@.take(k as int + 1).drop_last() =~= lib_exists@.take(k as int));
                assert(libs.take(k as int + 1).last() == libs[k as int]);
            }
            let lib = &self.version.libraries[k];
            if lib.check(os) && !lib_exists[k] {
                let mut filename = self.libraries_path.clone();
                filename.append("/");
                filename.append(lib.downloads.artifact.path.as_str());
                let name = crate::strutil::last_segment(lib.downloads.artifact.path.as_str());
                let ghost before = queue@.map(|i: int, d: Download| spec_dl(d));
                queue.push(
                    Download::new(
                        lib.downloads.artifact.base.base.url.as_str(),
                        filename.as_str(),
                        Some(name.to_owned()),
                    ),
                );
                proof {
                    assert(queue@.map(|i: int, d: Download| spec_dl(d)) =~~= before.push(
                        spec_dl(queue@.last()),
                    ));
                }
            }
            k = k + 1;
        }
        proof {
            assert(libs.take(libs.len() as int) =~~= libs);
            assert(lib_exists@.take(lib_exists@.len() as int) =~= lib_exists@);
        }
    }

    /// Queue the transfers of every asset of the index that is not on
    /// disk yet (`exists` says which are, by index order).  Every hash
    /// must have at least the two leading characters the storage layout
    /// takes.
    #[verifier::loop_isolation(false)]
    pub fn download_assets(
        &self,
        index: &crate::model::assets::AssetIndex,
        exists: &Vec<bool>,
        queue: &mut Vec<Download>,
    )
        requires
            exists@.len() == index.objects@.len(),
            forall|i: int| 0 <= i < index.objects@.len() ==> index.objects@[i].1.hash@.len() >= 2,
        ensures
            final(queue)@.map(|i: int, d: Download| spec_dl(d)) == old(queue)@.map(
                |i: int, d: Download| spec_dl(d),
            ) + spec_asset_plan(index.objects@, exists@, self.assets_path@),
    {
        let ghost objs = index.objects@;
        let ghost ap = self.assets_path@;
        let mut k: usize = 0;
        proof {
            assert(spec_asset_plan(objs.take(0int), exists@.take(0int), ap) =~~= Seq::empty());
        }
        while k < index.objects.len()
            invariant
                k <= objs.len(),
                queue@.map(|i: int, d: Download| spec_dl(d)) =~~= old(queue)@.map(
                    |i: int, d: Download| spec_dl(d),
                ) + spec_asset_plan(objs.take(k as int), exists@.take(k as int), ap),
            decreases objs.len() - k,
        {
            proof {
                assert(objs.take(k as int + 1).drop_last() =~~= objs.take(k as int));
                assert(exists@.take(k as int + 1).drop_last() =~= exists@.take(k as int));
                assert(objs.take(k as int + 1).last() == objs[k as int]);
            }
            if !exists[k] {
                let hash = &index.objects[k].1.hash;
                let prefix2 = hash.as_str().substring_char(0, 2);
                let mut url = "https://resources.download.minecraft.net/".to_owned();
                url.append(prefix2);
                url.append("/");
                url.append(hash.as_str());
                let mut filename = self.assets_path.clone();
                filename.append("/objects/");
                filename.append(prefix2);
                filename.append("/");
                filename.append(hash.as_str());
                let mut label = "assets:".to_owned();
                label.append(hash.as_str());
                let ghost before = queue@.map(|i: int, d: Download| spec_dl(d));
                queue.push(Download::new(url.as_str(), filename.as_str(), Some(label)));
                proof {
                    assert(queue@.map(|i: int, d: Download| spec_dl(d)) =~~= before.push(
                        spec_dl(queue@.last()),
                    ));
                }
            }
            k = k + 1;
        }
        proof {
            assert(objs.take(objs.len() as int) =~~= objs);
            assert(exists@.take(exists@.len() as int) =~= exists@);
        }
    }
}


/// The coordinate triples of a list of names, or nothing where one
/// does not parse.
pub open spec fn spec_mavens_of(names: Seq<Seq<char>>) -> Option<
    Seq<(Seq<char>, Seq<char>, Seq<char>)>,
>
    decreases names.len(),
{
    if names.len() == 0 {
        Some(Seq::empty())
    } else {
        let init = spec_mavens_of(names.drop_last());
        let t = crate::maven::spec_maven_triple(names.last());
        if init is Some && t is Some {
            Some(init->0.push(t->0))
        } else {
            None
        }
    }
}

/// Where every name parses there are exactly as many triples as names.
proof fn lemma_mavens_len(names: Seq<Seq<char>>)
    ensures
        (spec_mavens_of(names) matches Some(ts) ==> ts.len() == names.len()),
    decreases names.len(),
{
    if names.len() > 0 {
        lemma_mavens_len(names.drop_last());
    }
}

/// Where some name does not parse, there are no coordinate triples.
proof fn lemma_mavens_none(names: Seq<Seq<char>>)
    requires
        exists|i: int|
            0 <= i < names.len() && crate::maven::spec_maven_triple(#[trigger] names[i]) is None,
    ensures
        spec_mavens_of(names) is None,
    decreases names.len(),
{
    let i = choose|i: int|
        0 <= i < names.len() && crate::maven::spec_maven_triple(#[trigger] names[i]) is None;
    if i < names.len() - 1 {
        assert(names.drop_last()[i] == names[i]);
        lemma_mavens_none(names.drop_last());
    }
}

/// The transfers the loader's libraries need: one per coordinate not
/// on disk yet, in order — fetched from the central repository for the
/// console appender's group and from the Fabric repository otherwise,
/// stored below the libraries directory, labeled with the coordinate.
pub open spec fn spec_fabric_lib_plan(
    triples: Seq<(Seq<char>, Seq<char>, Seq<char>)>,
    exists: Seq<bool>,
    libraries_path: Seq<char>,
) -> Seq<(Seq<char>, Seq<char>, Option<Seq<char>>)>
    decreases triples.len(),
{
    if triples.len() == 0 || exists.len() == 0 {
        Seq::empty()
    } else {
        let init = spec_fabric_lib_plan(triples.drop_last(), exists.drop_last(), libraries_path);
        let t = triples.last();
        if !exists.last() {
            let path = crate::maven::spec_maven_path_of(t.0, t.1, t.2);
            let repo = if t.0 == "net.minecrell"@ {
                "https://repo1.maven.org/maven2"@
            } else {
                crate::model::fabric::FABRIC_MAVEN@
            };
            init.push(
                (
                    repo + "/"@ + path,
                    libraries_path + "/"@ + path,
                    Some(t.0 + ":"@ + t.1 + ":"@ + t.2),
                ),
            )
        } else {
            init
        }
    }
}

/// Parse every coordinate the loader metadata names and append the
/// console appender: the coordinates the loader's libraries live at.
#[verifier::loop_isolation(false)]
fn fabric_mavens(meta: &FabricVerisonGameLoader) -> (r: Result<Vec<MavenVersion>, ConfigError>)
    ensures
        (r is Ok <==> spec_mavens_of(spec_fabric_names(*meta)) is Some),
        (r is Err ==> r == Err::<Vec<MavenVersion>, ConfigError>(ConfigError::InvalidLibraryName)),
        (r matches Ok(v) ==> v@.map(
            |i: int, m: MavenVersion| (m.group@, m.artifact@, m.version@),
        ) == spec_mavens_of(spec_fabric_names(*meta))->0.push(spec_appender_triple())),
{
    let names = fabric_names(meta);
    let ghost ns = spec_fabric_names(*meta);
    let mut out: Vec<MavenVersion> = Vec::new();
    let mut k: usize = 0;
    proof {
        assert(ns.take(0int) =~~= Seq::<Seq<char>>::empty());
    }
    while k < names.len()
        invariant
            k <= names@.len(),
            names@.map(|i: int, p: String| p@) == ns,
            spec_mavens_of(ns.take(k as int)) == Some(
                out@.map(|i: int, m: MavenVersion| (m.group@, m.artifact@, m.version@)),
            ),
        decreases names@.len() - k,
    {
        proof {
            assert(ns.take(k as int + 1).drop_last() =~~= ns.take(k as int));
            assert(ns.take(k as int + 1).last() == ns[k as int]);
        }
        let m = match MavenVersion::parse(names[k].as_str()) {
            Some(m) => m,
            None => {
                proof {
                    assert(crate::maven::spec_maven_triple(ns[k as int]) is None);
                    lemma_mavens_none(ns);
                }
                return Err(ConfigError::InvalidLibraryName);
            },
        };
        let ghost before = out@.map(|i: int, m: MavenVersion| (m.group@, m.artifact@, m.version@));
        let ghost t = crate::maven::spec_maven_triple(ns[k as int])->0;
        out.push(m);
        proof {
            assert(out@.map(|i: int, m: MavenVersion| (m.group@, m.artifact@, m.version@))
                =~~= before.push(t));
        }
        k = k + 1;
    }
    proof {
        assert(ns.take(names@.len() as int) =~~= ns);
    }
    let ghost before = out@.map(|i: int, m: MavenVersion| (m.group@, m.artifact@, m.version@));
    out.push(
        MavenVersion {
            group: "net.minecrell".to_owned(),
            artifact: "terminalconsoleappender".to_owned(),
            version: "1.3.0".to_owned(),
        },
    );
    proof {
        assert(out@.map(|i: int, m: MavenVersion| (m.group@, m.artifact@, m.version@))
            =~~= before.push(spec_appender_triple()));
    }
    Ok(out)
}

/// Queue the transfers of every loader library not on disk yet
/// (`exists` says which are, in coordinate order).
#[verifier::loop_isolation(false)]
fn download_fabric_libraries(
    libraries_path: &str,
    mavens: &Vec<MavenVersion>,
    exists: &Vec<bool>,
    queue: &mut Vec<Download>,
)
    requires
        exists@.len() == mavens@.len(),
    ensures
        final(queue)@.map(|i: int, d: Download| spec_dl(d)) == old(queue)@.map(
            |i: int, d: Download| spec_dl(d),
        ) + spec_fabric_lib_plan(
            mavens@.map(|i: int, m: MavenVersion| (m.group@, m.artifact@, m.version@)),
            exists@,
            libraries_path@,
        ),
{
    let ghost ts = mavens@.map(|i: int, m: MavenVersion| (m.group@, m.artifact@, m.version@));
    let mut k: usize = 0;
    proof {
        assert(spec_fabric_lib_plan(ts.take(0int), exists@.take(0int), libraries_path@)
            =~~= Seq::empty());
    }
    while k < mavens.len()
        invariant
            k <= mavens@.len(),
            queue@.map(|i: int, d: Download| spec_dl(d)) =~~= old(queue)@.map(
                |i: int, d: Download| spec_dl(d),
            ) + spec_fabric_lib_plan(ts.take(k as int), exists@.take(k as int), libraries_path@),
        decreases mavens@.len() - k,
    {
        proof {
            assert(ts.take(k as int + 1).drop_last() =~~= ts.take(k as int));
            assert(exists@.take(k as int + 1).drop_last() =~= exists@.take(k as int));
            assert(ts.take(k as int + 1).last() == ts[k as int]);
        }
        if !exists[k] {
            let m = &mavens[k];
            let repo = if crate::strutil::str_eq(m.group.as_str(), "net.minecrell") {
                "https://repo1.maven.org/maven2"
            } else {
                crate::model::fabric::FABRIC_MAVEN
            };
            let url = m.get_url(repo);
            let mut filename = libraries_path.to_owned();
            filename.append("/");
            let p = m.get_path();
            filename.append(p.as_str());
            let label = m.to_text();
            let ghost before = queue@.map(|i: int, d: Download| spec_dl(d));
            queue.push(Download::new(url.as_str(), filename.as_str(), Some(label)));
            proof {
                assert(queue@.map(|i: int, d: Download| spec_dl(d)) =~~= before.push(
                    spec_dl(queue@.last()),
                ));
            }
        }
        k = k + 1;
    }
    proof {
        assert(ts.take(ts.len() as int) =~~= ts);
        assert(exists@.take(exists@.len() as int) =~= exists@);
    }
}

/// The transfer the logging configuration needs, if any.
pub open spec fn spec_log4j_plan(
    cfg: Log4jConfig,
    libraries_path: Seq<char>,
    version: VersionPackage,
) -> Seq<(Seq<char>, Seq<char>, Option<Seq<char>>)> {
    match cfg {
        Log4jConfig::Vanilla => seq![
            (
                version.logging.client.file.base.url@,
                spec_log4j_file(libraries_path),
                None::<Seq<char>>,
            ),
        ],
        Log4jConfig::Disabled => Seq::empty(),
        Log4jConfig::Custom(_) => Seq::empty(),
    }
}


impl Config {
    /// Queue every library transfer the instance needs: the version's
    /// own libraries that apply on the operating system named `os` and
    /// are not on disk yet, then the logging configuration, then — for
    /// a Fabric instance — the loader's libraries that are not on disk
    /// yet.  A Fabric instance needs the loader metadata, and every
    /// library name in it must be a valid coordinate; on an error
    /// nothing is queued.
    pub fn download_libraries(
        &self,
        os: &str,
        lib_exists: &Vec<bool>,
        fabric_meta: Option<&FabricVerisonGameLoader>,
        fabric_exists: &Vec<bool>,
        queue: &mut Vec<Download>,
    ) -> (r: Result<(), ConfigError>)
        requires
            lib_exists@.len() == self.version.libraries@.len(),
            (self.modloader is Fabric ==> (fabric_meta matches Some(m) ==> fabric_exists@.len()
                == spec_fabric_names(*m).len() + 1)),
        ensures
            (r is Err ==> final(queue)@ == old(queue)@),
            (self.modloader is Vanilla ==> r is Ok),
            (self.modloader is Fabric ==> (match fabric_meta {
                Option::None => r == Err::<(), ConfigError>(ConfigError::MissingFabricMeta),
                Option::Some(m) => (r is Ok <==> spec_mavens_of(spec_fabric_names(*m)) is Some)
                    && (r is Err ==> r == Err::<(), ConfigError>(ConfigError::InvalidLibraryName)),
            })),
            (r is Ok ==> final(queue)@.map(|i: int, d: Download| spec_dl(d)) == old(queue)@.map(
                |i: int, d: Download| spec_dl(d),
            ) + spec_vanilla_lib_plan(
                self.version.libraries@,
                lib_exists@,
                self.libraries_path@,
                os@,
            ) + spec_log4j_plan(self.log4j, self.libraries_path@, self.version) + (
            match (self.modloader, fabric_meta) {
                (ModLoader::Fabric { version: _ }, Option::Some(m)) => spec_fabric_lib_plan(
                    spec_mavens_of(spec_fabric_names(*m))->0.push(spec_appender_triple()),
                    fabric_exists@,
                    self.libraries_path@,
                ),
                _ => Seq::empty(),
            })),
    {
        let is_fabric = match &self.modloader {
            ModLoader::Vanilla => false,
            ModLoader::Fabric { version: _ } => true,
        };
        let mavens: Option<Vec<MavenVersion>> = if is_fabric {
            match fabric_meta {
                None => {
                    return Err(ConfigError::MissingFabricMeta);
                },
                Some(meta) => match fabric_mavens(meta) {
                    Ok(v) => Some(v),
                    Err(e) => {
                        return Err(e);
                    },
                },
            }
        } else {
            None
        };
        let ghost base = queue@.map(|i: int, d: Download| spec_dl(d));
        let ghost vanilla_part = spec_vanilla_lib_plan(
            self.version.libraries@,
            lib_exists@,
            self.libraries_path@,
            os@,
        );
        self.download_vanilla_libraries(os, lib_exists, queue);
        let ghost after_vanilla = queue@.map(|i: int, d: Download| spec_dl(d));
        self.log4j.download(self.libraries_path.as_str(), &self.version, queue);
        proof {
            assert(queue@.map(|i: int, d: Download| spec_dl(d)) =~~= after_vanilla
                + spec_log4j_plan(self.log4j, self.libraries_path@, self.version));
        }
        let ghost after_log4j = queue@.map(|i: int, d: Download| spec_dl(d));
        match &mavens {
            Some(ms) => {
                proof {
                    match fabric_meta {
                        Option::Some(m) => {
                            lemma_mavens_len(spec_fabric_names(*m));
                            assert(ms@.map(
                                |i: int, m2: MavenVersion| (m2.group@, m2.artifact@, m2.version@),
                            ).len() == spec_fabric_names(*m).len() + 1);
                            assert(ms@.len() == spec_fabric_names(*m).len() + 1);
                        },
                        Option::None => {
                            assert(false);
                        },
                    }
                }
                download_fabric_libraries(self.libraries_path.as_str(), ms, fabric_exists, queue);
            },
            None => {
            },
        }
        proof {
            assert(queue@.map(|i: int, d: Download| spec_dl(d)) =~~= base + vanilla_part
                + spec_log4j_plan(self.log4j, self.libraries_path@, self.version) + (
            match (self.modloader, fabric_meta) {
                (ModLoader::Fabric { version: _ }, Option::Some(m)) => spec_fabric_lib_plan(
                    spec_mavens_of(spec_fabric_names(*m))->0.push(spec_appender_triple()),
                    fabric_exists@,
                    self.libraries_path@,
                ),
                _ => Seq::empty(),
            }));
        }
        Ok(())
    }
}

impl UnresolvedConfig {
    /// Fold the fetched version package and the fallback paths into the
    /// configuration the launcher runs with.
    ///
    /// Explicit paths win over the fallbacks; without a Java path from
    /// either side the instance cannot start.  The extra argument
    /// strings split on spaces; the heap bounds default to `512M` and
    /// `4G`; a Fabric section selects the Fabric loader.
    pub fn resolve(
        self,
        version: VersionPackage,
        java_fallback: Option<String>,
        libraries_fallback: String,
        assets_fallback: String,
    ) -> (r: Result<Config, ConfigError>)
        ensures
            (r is Ok <==> (self.paths.java is Some || java_fallback is Some)),
            (r is Err ==> r == Err::<Config, ConfigError>(ConfigError::MissingJavaPath)),
            (r matches Ok(c) ==> {
                &&& c.version == version
                &&& (match self.paths.java {
                    Option::Some(j) => c.java_path == j,
                    Option::None => java_fallback matches Some(j) && c.java_path == j,
                })
                &&& (match self.paths.libraries {
                    Option::Some(l) => c.libraries_path == l,
                    Option::None => c.libraries_path == libraries_fallback,
                })
                &&& (match self.paths.assets {
                    Option::Some(a) => c.assets_path == a,
                    Option::None => c.assets_path == assets_fallback,
                })
                &&& c.minecraft_dir == self.minecraft.directory
                &&& c.jvm_args@.map(|i: int, p: String| p@) == crate::strutil::spec_split(
                    self.args.jvm@,
                    ' ',
                )
                &&& c.game_args@.map(|i: int, p: String| p@) == crate::strutil::spec_split(
                    self.args.game@,
                    ' ',
                )
                &&& (match self.args.mem_min {
                    Option::Some(m) => c.mem_min == m,
                    Option::None => c.mem_min@ == "512M"@,
                })
                &&& (match self.args.mem_max {
                    Option::Some(m) => c.mem_max == m,
                    Option::None => c.mem_max@ == "4G"@,
                })
                &&& (match self.minecraft.fabric {
                    Option::Some(f) => c.modloader matches ModLoader::Fabric { version: v } && v
                        == f.version,
                    Option::None => c.modloader is Vanilla,
                })
                &&& c.log4j == self.log4j
                &&& c.username == self.username
                &&& c.uuid == self.uuid
            }),
    {
        let UnresolvedConfig { minecraft, paths, args, log4j, username, uuid } = self;
        let MinecraftConfig { version: _mc_version, directory, fabric } = minecraft;
        let java_path = match paths.java {
            Some(j) => j,
            None => match java_fallback {
                Some(j) => j,
                None => {
                    return Err(ConfigError::MissingJavaPath);
                },
            },
        };
        let libraries_path = match paths.libraries {
            Some(l) => l,
            None => libraries_fallback,
        };
        let assets_path = match paths.assets {
            Some(a) => a,
            None => assets_fallback,
        };
        let jvm_args = split_char(args.jvm.as_str(), ' ');
        let game_args = split_char(args.game.as_str(), ' ');
        let mem_min = match args.mem_min {
            Some(m) => m,
            None => "512M".to_owned(),
        };
        let mem_max = match args.mem_max {
            Some(m) => m,
            None => "4G".to_owned(),
        };
        let modloader = match fabric {
            Some(f) => ModLoader::Fabric { version: f.version },
            None => ModLoader::Vanilla,
        };
        proof {
            assert(jvm_args@.map(|i: int, p: String| p@) =~~= crate::strutil::spec_split(
                args.jvm@,
                ' ',
            ));
            assert(game_args@.map(|i: int, p: String| p@) =~~= crate::strutil::spec_split(
                args.game@,
                ' ',
            ));
        }
        Ok(
            Config {
                version,
                libraries_path,
                java_path,
                minecraft_dir: directory,
                assets_path,
                jvm_args,
                game_args,
                modloader,
                log4j,
                username,
                uuid,
                mem_min,
                mem_max,
            },
        )
    }
}


/// The classpath entries of the version's own libraries: one per
/// library that applies on this operating system — and, on a Fabric
/// instance, does not belong to the ASM group the loader replaces —
/// each the artifact's path below the libraries directory.
pub open spec fn spec_lib_classpath(
    libs: Seq<crate::model::version::VersionLibrary>,
    libraries_path: Seq<char>,
    os: Seq<char>,
    fabric: bool,
) -> Seq<Seq<char>>
    decreases libs.len(),
{
    if libs.len() == 0 {
        Seq::empty()
    } else {
        let init = spec_lib_classpath(libs.drop_last(), libraries_path, os, fabric);
        let lib = libs.last();
        if crate::model::version::spec_library_allowed(lib, os) && (fabric
            ==> !crate::strutil::spec_contains_sub(lib.name@, "ow2.asm:asm"@)) {
            init.push(libraries_path + "/"@ + lib.downloads.artifact.path@)
        } else {
            init
        }
    }
}

/// The arguments that are not blank, in order.
pub open spec fn spec_nonblank(args: Seq<Seq<char>>) -> Seq<Seq<char>>
    decreases args.len(),
{
    if args.len() == 0 {
        Seq::empty()
    } else {
        let init = spec_nonblank(args.drop_last());
        if !crate::strutil::spec_blank(args.last()) {
            init.push(args.last())
        } else {
            init
        }
    }
}

/// The logging configuration file's path, if the instance has one.
pub open spec fn spec_log4j_path(cfg: Log4jConfig, base_path: Seq<char>) -> Option<Seq<char>> {
    match cfg {
        Log4jConfig::Vanilla => Some(spec_log4j_file(base_path)),
        Log4jConfig::Disabled => None,
        Log4jConfig::Custom(c) => Some(c@),
    }
}

/// The player identifier used when none is configured.
pub open spec fn spec_default_uuid() -> Seq<char> {
    "12345678-1234-1234-1234-123456789012"@
}

/// The fixed game arguments of an instance, in order: version, game
/// directory, assets directory and index, player identifier (or the
/// default), a zero access token, and the account and version types.
pub open spec fn spec_game_fixed(c: Config) -> Seq<Seq<char>> {
    seq![
        "--version"@,
        c.version.id@,
        "--gameDir"@,
        c.minecraft_dir@,
        "--assetsDir"@,
        c.assets_path@,
        "--assetIndex"@,
        c.version.asset_index.id@,
        "--uuid"@,
        (match c.uuid {
            Option::Some(u) => u@,
            Option::None => spec_default_uuid(),
        }),
        "--accessToken"@,
        "0"@,
        "--userType"@,
        "msa"@,
        "--versionType"@,
        "release"@,
    ]
}

impl Config {
    /// Assemble the launch arguments.
    ///
    /// The JVM arguments are the heap bounds, the classpath — the
    /// client jar, then the loader's extra entries, then the version's
    /// own libraries that apply here, all colon-joined — the non-blank
    /// extra JVM arguments, and the logging configuration when the
    /// instance has one.  The game arguments are the fixed list, the
    /// player name when one is set, and the non-blank extra game
    /// arguments.  The main class is taken as given.
    #[verifier::loop_isolation(false)]
    pub fn args(&self, os: &str, classpath_extra: Vec<String>, main_class: String) -> (r: JavaArgs)
        ensures
            r.main == main_class,
            r.jvm@.map(|i: int, p: String| p@) == seq![
                "-Xms"@ + self.mem_min@,
                "-Xmx"@ + self.mem_max@,
                "-cp"@,
                crate::strutil::spec_join(
                    seq![spec_client_jar_path(self.libraries_path@, self.version.id@)]
                        + classpath_extra@.map(|i: int, p: String| p@) + spec_lib_classpath(
                        self.version.libraries@,
                        self.libraries_path@,
                        os@,
                        self.modloader is Fabric,
                    ),
                    ":"@,
                ),
            ] + spec_nonblank(self.jvm_args@.map(|i: int, p: String| p@)) + (
            match spec_log4j_path(self.log4j, self.libraries_path@) {
                Option::Some(p) => seq!["-Dlog4j.configurationFile="@ + p],
                Option::None => Seq::empty(),
            }),
            r.game@.map(|i: int, p: String| p@) == spec_game_fixed(*self) + (
            match self.username {
                Option::Some(u) => seq!["--username"@, u@],
                Option::None => Seq::empty(),
            }) + spec_nonblank(self.game_args@.map(|i: int, p: String| p@)),
    {
        let is_fabric = match &self.modloader {
            ModLoader::Vanilla => false,
            ModLoader::Fabric { version: _ } => true,
        };

        let mut cp: Vec<String> = Vec::new();
        cp.push(self.get_client_jar_path());
        let mut extra = classpath_extra;
        let ghost extra_views = extra@.map(|i: int, p: String| p@);
        cp.append(&mut extra);
        proof {
            assert(cp@.map(|i: int, p: String| p@) =~~= seq![
                spec_client_jar_path(self.libraries_path@, self.version.id@),
            ] + extra_views);
        }
        let ghost libs = self.version.libraries@;
        let ghost base_cp = cp@.map(|i: int, p: String| p@);
        let mut k: usize = 0;
        proof {
            assert(spec_lib_classpath(libs.take(0int), self.libraries_path@, os@, is_fabric)
                =~~= Seq::empty());
        }
        while k < self.version.libraries.len()
            invariant
                k <= libs.len(),
                cp@.map(|i: int, p: String| p@) =~~= base_cp + spec_lib_classpath(
                    libs.take(k as int),
                    self.libraries_path@,
                    os@,
                    is_fabric,
                ),
            decreases libs.len() - k,
        {
            proof {
                assert(libs.take(k as int + 1).drop_last() =~~= libs.take(k as int));
                assert(libs.take(k as int + 1).last() == libs[k as int]);
            }
            let lib = &self.version.libraries[k];
            let keep = lib.check(os) && (!is_fabric || !crate::strutil::contains_sub(
                lib.name.as_str(),
                "ow2.asm:asm",
            ));
            if keep {
                let mut entry = self.libraries_path.clone();
                entry.append("/");
                entry.append(lib.downloads.artifact.path.as_str());
                let ghost before = cp@.map(|i: int, p: String| p@);
                cp.push(entry);
                proof {
                    assert(cp@.map(|i: int, p: String| p@) =~~= before.push(
                        self.libraries_path@ + "/"@ + libs[k as int].downloads.artifact.path@,
                    ));
                }
            }
            k = k + 1;
        }
        proof {
            assert(libs.take(libs.len() as int) =~~= libs);
        }
        let cp_str = crate::strutil::join(&cp, ":");

        let mut jvm: Vec<String> = Vec::new();
        let mut xms = "-Xms".to_owned();
        xms.append(self.mem_min.as_str());
        jvm.push(xms);
        let mut xmx = "-Xmx".to_owned();
        xmx.append(self.mem_max.as_str());
        jvm.push(xmx);
        jvm.push("-cp".to_owned());
        jvm.push(cp_str);
        let ghost jvm_base = jvm@.map(|i: int, p: String| p@);
        proof {
            assert(jvm_base =~~= seq![
                "-Xms"@ + self.mem_min@,
                "-Xmx"@ + self.mem_max@,
                "-cp"@,
                crate::strutil::spec_join(
                    seq![spec_client_jar_path(self.libraries_path@, self.version.id@)]
                        + extra_views + spec_lib_classpath(
                        libs,
                        self.libraries_path@,
                        os@,
                        is_fabric,
                    ),
                    ":"@,
                ),
            ]);
        }
        let ghost jvm_views = self.jvm_args@.map(|i: int, p: String| p@);
        let mut k2: usize = 0;
        proof {
            assert(spec_nonblank(jvm_views.take(0int)) =~~= Seq::empty());
        }
        while k2 < self.jvm_args.len()
            invariant
                k2 <= jvm_views.len(),
                jvm@.map(|i: int, p: String| p@) =~~= jvm_base + spec_nonblank(
                    jvm_views.take(k2 as int),
                ),
            decreases jvm_views.len() - k2,
        {
            proof {
                assert(jvm_views.take(k2 as int + 1).drop_last() =~~= jvm_views.take(k2 as int));
                assert(jvm_views.take(k2 as int + 1).last() == jvm_views[k2 as int]);
            }
            if !crate::strutil::is_blank(self.jvm_args[k2].as_str()) {
                let ghost before = jvm@.map(|i: int, p: String| p@);
                jvm.push(self.jvm_args[k2].clone());
                proof {
                    assert(jvm@.map(|i: int, p: String| p@) =~~= before.push(
                        jvm_views[k2 as int],
                    ));
                }
            }
            k2 = k2 + 1;
        }
        proof {
            assert(jvm_views.take(jvm_views.len() as int) =~~= jvm_views);
        }
        match self.log4j.get_path(self.libraries_path.as_str()) {
            Some(p) => {
                let mut a = "-Dlog4j.configurationFile=".to_owned();
                a.append(p.as_str());
                let ghost before = jvm@.map(|i: int, p2: String| p2@);
                jvm.push(a);
                proof {
                    assert(jvm@.map(|i: int, p2: String| p2@) =~~= before.push(
                        "-Dlog4j.configurationFile="@ + p@,
                    ));
                }
            },
            None => {
            },
        }

        let mut game: Vec<String> = Vec::new();
        game.push("--version".to_owned());
        game.push(self.version.id.clone());
        game.push("--gameDir".to_owned());
        game.push(self.minecraft_dir.clone());
        game.push("--assetsDir".to_owned());
        game.push(self.assets_path.clone());
        game.push("--assetIndex".to_owned());
        game.push(self.version.asset_index.id.clone());
        game.push("--uuid".to_owned());
        match &self.uuid {
            Some(u) => game.push(u.clone()),
            None => game.push("12345678-1234-1234-1234-123456789012".to_owned()),
        }
        game.push("--accessToken".to_owned());
        game.push("0".to_owned());
        game.push("--userType".to_owned());
        game.push("msa".to_owned());
        game.push("--versionType".to_owned());
        game.push("release".to_owned());
        proof {
            assert(game@.map(|i: int, p: String| p@) =~~= spec_game_fixed(*self));
        }
        match &self.username {
            Some(u) => {
                let ghost before = game@.map(|i: int, p: String| p@);
                game.push("--username".to_owned());
                game.push(u.clone());
                proof {
                    assert(game@.map(|i: int, p: String| p@) =~~= before + seq![
                        "--username"@,
                        u@,
                    ]);
                }
            },
            None => {
            },
        }
        let ghost game_base = game@.map(|i: int, p: String| p@);
        let ghost game_views = self.game_args@.map(|i: int, p: String| p@);
        let mut k3: usize = 0;
        proof {
            assert(spec_nonblank(game_views.take(0int)) =~~= Seq::empty());
        }
        while k3 < self.game_args.len()
            invariant
                k3 <= game_views.len(),
                game@.map(|i: int, p: String| p@) =~~= game_base + spec_nonblank(
                    game_views.take(k3 as int),
                ),
            decreases game_views.len() - k3,
        {
            proof {
                assert(game_views.take(k3 as int + 1).drop_last() =~~= game_views.take(
                    k3 as int,
                ));
                assert(game_views.take(k3 as int + 1).last() == game_views[k3 as int]);
            }
            if !crate::strutil::is_blank(self.game_args[k3].as_str()) {
                let ghost before = game@.map(|i: int, p: String| p@);
                game.push(self.game_args[k3].clone());
                proof {
                    assert(game@.map(|i: int, p: String| p@) =~~= before.push(
                        game_views[k3 as int],
                    ));
                }
            }
            k3 = k3 + 1;
        }
        proof {
            assert(game_views.take(game_views.len() as int) =~~= game_views);
            assert(game@.map(|i: int, p: String| p@) =~~= spec_game_fixed(*self) + (
            match self.username {
                Option::Some(u) => seq!["--username"@, u@],
                Option::None => Seq::<Seq<char>>::empty(),
            }) + spec_nonblank(game_views));
            assert(jvm@.map(|i: int, p: String| p@) =~~= jvm_base + spec_nonblank(jvm_views) + (
            match spec_log4j_path(self.log4j, self.libraries_path@) {
                Option::Some(p) => seq!["-Dlog4j.configurationFile="@ + p],
                Option::None => Seq::<Seq<char>>::empty(),
            }));
        }
        JavaArgs { jvm, main: main_class, game }
    }
}


impl Default for PathsConfig {
    /// No explicit paths: everything falls back to the defaults.
    fn default() -> (r: Self)
        ensures
            r.libraries is None,
            r.assets is None,
            r.java is None,
    {
        PathsConfig { libraries: None, assets: None, java: None }
    }
}

impl Default for ArgsConfig {
    /// No heap bounds and no extra arguments.
    fn default() -> (r: Self)
        ensures
            r.mem_min is None,
            r.mem_max is None,
            r.jvm@.len() == 0,
            r.game@.len() == 0,
    {
        ArgsConfig { mem_min: None, mem_max: None, jvm: String::new(), game: String::new() }
    }
}

impl Default for Log4jConfig {
    /// The game's own logging configuration.
    fn default() -> (r: Self)
        ensures
            r is Vanilla,
    {
        Log4jConfig::Vanilla
    }
}

/// The configuration a freshly created instance starts with: the given
/// version, directory and loader, the given paths and player name, and
/// everything else at its default.
pub fn init_config(
    directory: String,
    minecraft_version: String,
    fabric: Option<String>,
    java_path: Option<String>,
    libraries: Option<String>,
    username: Option<String>,
) -> (r: UnresolvedConfig)
    ensures
        r.minecraft.directory == directory,
        r.minecraft.version == minecraft_version,
        (match fabric {
            Option::Some(v) => r.minecraft.fabric matches Some(f) && f.version == v,
            Option::None => r.minecraft.fabric is None,
        }),
        r.paths.java == java_path,
        r.paths.libraries == libraries,
        r.paths.assets is None,
        r.args.mem_min is None,
        r.args.mem_max is None,
        r.args.jvm@.len() == 0,
        r.args.game@.len() == 0,
        r.log4j is Vanilla,
        r.username == username,
        r.uuid is None,
{
    UnresolvedConfig {
        minecraft: MinecraftConfig {
            version: minecraft_version,
            directory,
            fabric: match fabric {
                Some(v) => Some(FabricConfig { version: v }),
                None => None,
            },
        },
        paths: PathsConfig { libraries, assets: None, java: java_path },
        args: ArgsConfig::default(),
        log4j: Log4jConfig::default(),
        username,
        uuid: None,
    }
}

} // verus!
