//! The content index: selection by filter, refresh decisions and
//! entry state changes.

use std::str::FromStr;

use startmc::sync::IndexEntryKind;
use startmc::sync::SyncIndex;
use startmc::sync::SyncIndexEntry;
use startmc::sync::filter::SyncFilter;

fn entry(id: &str, version: &str, file: &str) -> SyncIndexEntry {
    SyncIndexEntry {
        id: id.to_string(),
        version: version.to_string(),
        modrinth_project: None,
        modrinth_version_id: None,
        file: file.to_string(),
        disabled: false,
        kind: IndexEntryKind::Mod,
    }
}

fn index() -> SyncIndex {
    SyncIndex {
        packages: vec![
            entry("sodium", "0.5.8", "sodium-0.5.8.jar"),
            entry("lithium", "0.12.0", "lithium-0.12.0.jar"),
            entry("sodium", "0.6.0", "sodium-0.6.0.jar"),
        ],
    }
}

#[test]
fn find_packages_by_name_and_version() {
    let idx = index();
    // An exact-version filter compares the version text.
    let f = SyncFilter::from_str("sodium=0.5.8").unwrap();
    assert_eq!(idx.find_packages(&f), vec![0]);
    // A greater-than filter goes through real version comparison.
    let f = SyncFilter::from_str("sodium>0.5.8").unwrap();
    assert_eq!(idx.find_packages(&f), vec![2]);
    let f = SyncFilter::from_str("sodium>=0.5.8").unwrap();
    assert_eq!(idx.find_packages(&f), vec![0, 2]);
    // The wildcard takes every version.
    let f = SyncFilter::from_str("sodium=*").unwrap();
    assert_eq!(idx.find_packages(&f), vec![0, 2]);
    let f = SyncFilter::from_str("lithium").unwrap();
    assert_eq!(idx.find_packages(&f), vec![1]);
}

#[test]
fn find_packages_ambiguous_name_selects_nothing() {
    let idx = index();
    let f = SyncFilter::from_str("sodium").unwrap();
    assert_eq!(idx.find_packages(&f), Vec::<usize>::new());
}

#[test]
fn refresh_updates_and_inserts() {
    let mut idx = index();
    assert!(!idx.needs_refresh());

    // A known file gets its catalog identifiers and version updated.
    idx.update_remote(0, "AANobbMI", "ver1", "0.5.9");
    assert_eq!(idx.packages[0].version, "0.5.9");
    assert_eq!(idx.packages[0].modrinth_project.as_deref(), Some("AANobbMI"));
    assert_eq!(idx.packages[0].id, "sodium");

    // A catalog hit for an unknown file appends an entry.
    idx.insert_remote(
        "iris".to_string(),
        "iris-1.7.0.jar",
        false,
        "YL57xq9U",
        "ver2",
        "1.7.0",
        IndexEntryKind::Mod,
    );
    assert_eq!(idx.packages.len(), 4);
    assert_eq!(idx.packages[3].id, "iris");
    assert_eq!(idx.packages[3].file, "iris-1.7.0.jar");

    // A local-only file parses into name and version and is appended.
    assert_eq!(idx.apply_local("fancymenu-3.5.0.jar.disabled", true), Ok(true));
    assert_eq!(idx.packages.len(), 5);
    assert_eq!(idx.packages[4].id, "fancymenu");
    assert_eq!(idx.packages[4].version, "3.5.0");
    assert!(idx.packages[4].disabled);
    assert_eq!(idx.packages[4].kind, IndexEntryKind::Mod);

    // A known local file only has its version updated.
    assert_eq!(idx.apply_local("lithium-0.12.0.jar", false), Ok(true));
    assert_eq!(idx.packages.len(), 5);
    assert_eq!(idx.packages[1].version, "0.12.0");

    // An unsupported extension changes nothing.
    assert_eq!(idx.apply_local("readme.txt", false), Ok(false));
    assert_eq!(idx.packages.len(), 5);
}

#[test]
fn entry_disable_enable_round_trip() {
    let mut e = entry("sodium", "0.5.8", "sodium-0.5.8.jar");
    assert_eq!(e.file_path("/mc"), "/mc/mods/sodium-0.5.8.jar");
    e.mark_disabled();
    assert!(e.disabled);
    assert_eq!(e.file, "sodium-0.5.8.jar.disabled");
    assert_eq!(e.file_path("/mc"), "/mc/mods/sodium-0.5.8.jar.disabled");
    e.mark_enabled();
    assert!(!e.disabled);
    assert_eq!(e.file, "sodium-0.5.8.jar");
    let mut rp = entry("pack", "1.0", "pack.zip");
    rp.kind = IndexEntryKind::Resourcepack;
    assert_eq!(rp.get_namespace("/mc"), "/mc/resourcepacks");
}

#[test]
fn find_by_file_prefers_first_match() {
    let idx = index();
    assert_eq!(idx.find_by_file("lithium-0.12.0.jar"), Some(1));
    assert_eq!(idx.find_by_file("absent.jar"), None);
}
