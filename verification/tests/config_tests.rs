//! Configuration resolution, download planning and launch-argument
//! assembly.

use startmc::config::ArgsConfig;
use startmc::config::Config;
use startmc::config::ConfigError;
use startmc::config::FabricConfig;
use startmc::config::Log4jConfig;
use startmc::config::MinecraftConfig;
use startmc::config::ModLoader;
use startmc::config::PathsConfig;
use startmc::config::UnresolvedConfig;
use startmc::config::init_config;
use startmc::download::Download;
use startmc::model::assets::AssetIndex;
use startmc::model::assets::AssetObject;
use startmc::model::argument::Argument;
use startmc::model::file::BaseMojapiFile;
use startmc::model::file::MojapiArtifact;
use startmc::model::file::MojapiFile;
use startmc::model::rule::Rule;
use startmc::model::rule::RuleAction;
use startmc::model::version::JavaVersion;
use startmc::model::version::VersionArguments;
use startmc::model::version::VersionAssetIndex;
use startmc::model::version::VersionDownloads;
use startmc::model::version::VersionLibrary;
use startmc::model::version::VersionLibraryDownloads;
use startmc::model::version::VersionLogging;
use startmc::model::version::VersionLoggingClient;
use startmc::model::version::VersionPackage;
use startmc::model::VersionType;

fn base_file(url: &str) -> BaseMojapiFile {
    BaseMojapiFile { sha1: "x".to_string(), size: 1, url: url.to_string() }
}

fn library(name: &str, path: &str, url: &str, rules: Vec<Rule>) -> VersionLibrary {
    VersionLibrary {
        downloads: VersionLibraryDownloads {
            artifact: MojapiArtifact {
                base: MojapiFile { base: base_file(url), id: "id".to_string() },
                path: path.to_string(),
            },
        },
        name: name.to_string(),
        rules,
    }
}

fn linux_rule() -> Rule {
    Rule {
        action: RuleAction::Allow,
        os: Some(vec![("name".to_string(), "linux".to_string())]),
        features: None,
    }
}

fn version_package() -> VersionPackage {
    VersionPackage {
        arguments: VersionArguments { game: vec![Argument::Static("--demo".to_string())], jvm: vec![] },
        asset_index: VersionAssetIndex {
            id: "17".to_string(),
            sha1: "s".to_string(),
            size: 1,
            total_size: 2,
            url: "https://assets.example/17.json".to_string(),
        },
        downloads: VersionDownloads {
            client: base_file("https://example/client.jar"),
            client_mappings: base_file("https://example/cm"),
            server: base_file("https://example/server.jar"),
            server_mappings: base_file("https://example/sm"),
        },
        id: "1.21.4".to_string(),
        java_version: JavaVersion { component: "java-runtime".to_string(), major_version: 21 },
        libraries: vec![
            library("a:a:1", "a/a/1/a-1.jar", "https://libs.example/a.jar", vec![]),
            library("b:b:2", "b/b/2/b-2.jar", "https://libs.example/b.jar", vec![linux_rule()]),
        ],
        logging: VersionLogging {
            client: VersionLoggingClient {
                argument: "-Dlog4j.configurationFile=${path}".to_string(),
                file: MojapiFile {
                    base: base_file("https://example/log4j.xml"),
                    id: "client-1.12.xml".to_string(),
                },
                kind: "log4j2-xml".to_string(),
            },
        },
        main_class: "net.minecraft.client.main.Main".to_string(),
        kind: VersionType::Release,
    }
}

fn unresolved(fabric: Option<&str>) -> UnresolvedConfig {
    UnresolvedConfig {
        minecraft: MinecraftConfig {
            version: "1.21.4".to_string(),
            directory: "/mc".to_string(),
            fabric: fabric.map(|v| FabricConfig { version: v.to_string() }),
        },
        paths: PathsConfig { libraries: None, assets: None, java: Some("/java".to_string()) },
        args: ArgsConfig {
            mem_min: None,
            mem_max: Some("8G".to_string()),
            jvm: "-XX:+UseG1GC  ".to_string(),
            game: "".to_string(),
        },
        log4j: Log4jConfig::Vanilla,
        username: Some("steve".to_string()),
        uuid: None,
    }
}

fn resolved() -> Config {
    unresolved(None)
        .resolve(
            version_package(),
            None,
            "/libs".to_string(),
            "/assets".to_string(),
        )
        .expect("resolves")
}

#[test]
fn resolve_fills_defaults() {
    let c = resolved();
    assert_eq!(c.java_path, "/java");
    assert_eq!(c.libraries_path, "/libs");
    assert_eq!(c.assets_path, "/assets");
    assert_eq!(c.minecraft_dir, "/mc");
    assert_eq!(c.mem_min, "512M");
    assert_eq!(c.mem_max, "8G");
    assert!(matches!(c.modloader, ModLoader::Vanilla));
    assert_eq!(c.jvm_args, vec!["-XX:+UseG1GC", "", ""]);
}

#[test]
fn resolve_needs_java() {
    let mut u = unresolved(None);
    u.paths.java = None;
    let r = u.resolve(version_package(), None, "/l".to_string(), "/a".to_string());
    assert!(matches!(r, Err(ConfigError::MissingJavaPath)));

    let mut u = unresolved(Some("0.16.10"));
    u.paths.java = None;
    let c = u
        .resolve(version_package(), Some("/env-java".to_string()), "/l".to_string(), "/a".to_string())
        .expect("fallback java");
    assert_eq!(c.java_path, "/env-java");
    assert!(matches!(c.modloader, ModLoader::Fabric { .. }));
}

#[test]
fn client_jar_planning() {
    let c = resolved();
    assert_eq!(
        c.get_client_jar_path(),
        "/libs/net/minecraft/client/1.21.4/minecraft-1.21.4-client.jar"
    );
    let mut queue: Vec<Download> = vec![];
    c.download_client(true, &mut queue);
    assert!(queue.is_empty());
    c.download_client(false, &mut queue);
    assert_eq!(queue.len(), 1);
    assert_eq!(queue[0].url, "https://example/client.jar");
    assert_eq!(
        queue[0].filename,
        "/libs/net/minecraft/client/1.21.4/minecraft-1.21.4-client.jar"
    );
    assert_eq!(queue[0].name.as_deref(), Some("minecraft-1.21.4-client.jar"));
}

#[test]
fn library_planning_respects_rules_and_disk() {
    let c = resolved();
    let mut queue: Vec<Download> = vec![];
    // On linux both libraries apply; the first is already on disk.
    c.download_libraries("linux", &vec![true, false], None, &vec![], &mut queue)
        .expect("plans");
    // The missing library and the logging configuration are queued.
    assert_eq!(queue.len(), 2);
    assert_eq!(queue[0].url, "https://libs.example/b.jar");
    assert_eq!(queue[0].filename, "/libs/b/b/2/b-2.jar");
    assert_eq!(queue[0].name.as_deref(), Some("b-2.jar"));
    assert_eq!(queue[1].url, "https://example/log4j.xml");
    assert_eq!(queue[1].filename, "/libs/log4j2.vanilla.xml");

    // On windows the gated library does not apply.
    let mut queue: Vec<Download> = vec![];
    c.download_libraries("windows", &vec![false, false], None, &vec![], &mut queue)
        .expect("plans");
    assert_eq!(queue.len(), 2);
    assert_eq!(queue[0].url, "https://libs.example/a.jar");
}

#[test]
fn asset_planning() {
    let c = resolved();
    let index = AssetIndex {
        objects: vec![
            (
                "icons/icon_16x16.png".to_string(),
                AssetObject { hash: "bdf48ef6b5d0d23bbb02e17d04865216179f510a".to_string(), size: 3 },
            ),
            (
                "minecraft/sounds/ambient.ogg".to_string(),
                AssetObject { hash: "c54debbbd63f23235d8e4a0a60a20a858b1205b3".to_string(), size: 4 },
            ),
        ],
    };
    let mut queue: Vec<Download> = vec![];
    c.download_assets(&index, &vec![true, false], &mut queue);
    assert_eq!(queue.len(), 1);
    assert_eq!(
        queue[0].url,
        "https://resources.download.minecraft.net/c5/c54debbbd63f23235d8e4a0a60a20a858b1205b3"
    );
    assert_eq!(
        queue[0].filename,
        "/assets/objects/c5/c54debbbd63f23235d8e4a0a60a20a858b1205b3"
    );
    assert_eq!(
        queue[0].name.as_deref(),
        Some("assets:c54debbbd63f23235d8e4a0a60a20a858b1205b3")
    );
}

#[test]
fn args_assembly() {
    let c = resolved();
    let args = c.args("linux", vec!["/libs/extra.jar".to_string()], "Main".to_string());
    assert_eq!(args.main, "Main");
    assert_eq!(args.jvm[0], "-Xms512M");
    assert_eq!(args.jvm[1], "-Xmx8G");
    assert_eq!(args.jvm[2], "-cp");
    assert_eq!(
        args.jvm[3],
        "/libs/net/minecraft/client/1.21.4/minecraft-1.21.4-client.jar:/libs/extra.jar:/libs/a/a/1/a-1.jar:/libs/b/b/2/b-2.jar"
    );
    assert_eq!(args.jvm[4], "-XX:+UseG1GC");
    assert_eq!(args.jvm[5], "-Dlog4j.configurationFile=/libs/log4j2.vanilla.xml");
    assert_eq!(args.jvm.len(), 6);
    assert_eq!(
        args.game,
        vec![
            "--version",
            "1.21.4",
            "--gameDir",
            "/mc",
            "--assetsDir",
            "/assets",
            "--assetIndex",
            "17",
            "--uuid",
            "12345678-1234-1234-1234-123456789012",
            "--accessToken",
            "0",
            "--userType",
            "msa",
            "--versionType",
            "release",
            "--username",
            "steve",
        ]
    );
}

#[test]
fn loader_main_class() {
    let c = resolved();
    let main = ModLoader::Vanilla
        .get_main_class(&c.version, None)
        .expect("vanilla main class");
    assert_eq!(main, "net.minecraft.client.main.Main");
    let fabric = ModLoader::Fabric { version: "0.16.10".to_string() };
    assert!(matches!(
        fabric.get_main_class(&c.version, None),
        Err(ConfigError::MissingFabricMeta)
    ));
    let cp = ModLoader::Vanilla.build_classpath("/libs", None).expect("empty");
    assert!(cp.is_empty());
}

#[test]
fn rule_checks_operating_system() {
    let r = linux_rule();
    assert!(r.check("linux"));
    assert!(!r.check("windows"));
    let open = Rule { action: RuleAction::Allow, os: None, features: None };
    assert!(open.check("windows"));
    let other = Rule {
        action: RuleAction::Allow,
        os: Some(vec![("arch".to_string(), "x86".to_string())]),
        features: None,
    };
    assert!(other.check("linux"));
}

#[test]
fn init_config_assembles_instance() {
    let c = init_config(
        "/mc".to_string(),
        "1.21.4".to_string(),
        Some("0.16.10".to_string()),
        Some("/java".to_string()),
        None,
        Some("alex".to_string()),
    );
    assert_eq!(c.minecraft.directory, "/mc");
    assert_eq!(c.minecraft.version, "1.21.4");
    assert_eq!(c.minecraft.fabric.as_ref().map(|f| f.version.as_str()), Some("0.16.10"));
    assert_eq!(c.paths.java.as_deref(), Some("/java"));
    assert!(matches!(c.log4j, Log4jConfig::Vanilla));
    assert_eq!(c.username.as_deref(), Some("alex"));
    assert_eq!(c.minecraft.get_loader_type().as_deref(), Some("fabric"));
}
