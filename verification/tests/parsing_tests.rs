//! Maven coordinates, file-name version parsing, cache file names and
//! lock paths.

use startmc::cache::normalize_cache_url;
use startmc::maven::MavenVersion;
use startmc::sync::SyncIndex;
use startmc::sync::version::VersionTuple;

#[test]
fn maven_parse_and_paths() {
    let m = MavenVersion::parse("net.fabricmc:fabric-loader:0.16.10").expect("parses");
    assert_eq!(m.group, "net.fabricmc");
    assert_eq!(m.artifact, "fabric-loader");
    assert_eq!(m.version, "0.16.10");
    assert_eq!(m.get_filename(), "fabric-loader-0.16.10.jar");
    assert_eq!(
        m.get_path(),
        "net/fabricmc/fabric-loader/0.16.10/fabric-loader-0.16.10.jar"
    );
    assert_eq!(
        m.get_url("https://maven.fabricmc.net"),
        "https://maven.fabricmc.net/net/fabricmc/fabric-loader/0.16.10/fabric-loader-0.16.10.jar"
    );
    assert_eq!(m.to_text(), "net.fabricmc:fabric-loader:0.16.10");
    assert!(MavenVersion::parse("only:two").is_none());
    assert!(MavenVersion::parse("").is_none());
}

#[test]
fn version_tuple_from_file_names() {
    let t = VersionTuple::parse("sodium-0.5.8.jar").expect("parses");
    assert_eq!(t.name, "sodium");
    assert_eq!(t.version, "0.5.8");

    let t = VersionTuple::parse("some-mod-1.2.3-beta.jar").expect("parses");
    assert_eq!(t.name, "somemod");
    assert_eq!(t.version, "1.2.3-beta");

    // Without a dash the stem is the name and the version is a zero.
    let t = VersionTuple::parse("plainmod.jar").expect("parses");
    assert_eq!(t.name, "plainmod");
    assert_eq!(t.version, "0.0.0");

    // Trailing slashes do not hide the file name.
    let t = VersionTuple::parse("plainmod/").expect("parses");
    assert_eq!(t.name, "plainmod");
    assert_eq!(t.version, "0.0.0");

    // No segment starts with a digit: there is no version to find.
    assert!(VersionTuple::parse("all-letters.jar").is_none());
}

#[test]
fn version_tuple_parse_eq() {
    let t = VersionTuple::parse_eq("sodium=0.5.8").expect("parses");
    assert_eq!(t.name, "sodium");
    assert_eq!(t.version, "0.5.8");
    let t = VersionTuple::parse_eq("sodium").expect("parses");
    assert_eq!(t.name, "sodium");
    assert_eq!(t.version, "");
}

#[test]
fn empty_inputs() {
    let t = VersionTuple::parse("").expect("empty name still parses");
    assert_eq!(t.name, "");
    assert_eq!(t.version, "0.0.0");
    let t = VersionTuple::parse_eq("").expect("parses");
    assert_eq!(t.name, "");
    assert_eq!(t.version, "");
    assert_eq!(normalize_cache_url(""), "");
    assert_eq!(normalize_cache_url("https://"), "");
}

#[test]
fn cache_file_name_normalization() {
    assert_eq!(
        normalize_cache_url("https://meta.fabricmc.net/v2/versions/loader/1.21.4/"),
        "meta.fabricmc.net__v2__versions__loader__1.21.4"
    );
    assert_eq!(normalize_cache_url("plain"), "plain");
}

#[test]
fn lock_path_for_config_files() {
    assert_eq!(SyncIndex::get_lock_path("default.toml"), "default.lock.toml");
    assert_eq!(
        SyncIndex::get_lock_path("default.startmc.toml"),
        "default.startmc.lock.toml"
    );
    assert_eq!(SyncIndex::get_lock_path("noext"), "noext.lock.toml");
    assert_eq!(
        SyncIndex::get_lock_path("dir.d/default.toml"),
        "dir.d/default.lock.toml"
    );
}
