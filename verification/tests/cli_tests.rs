//! Command-line decisions: sort keys, loader selection, package
//! download planning, and the styled text fragments.

use startmc::cli::CliUpgrade;
use startmc::cli::SortKey;
use startmc::cli::UpgradeAction;
use startmc::cli::UpgradeKind;
use startmc::cli::parse_sort;
use startmc::cli::search_loader;
use startmc::config::FabricConfig;
use startmc::config::MinecraftConfig;
use startmc::style::ProgressBarOpts;
use startmc::style::StyleOptions;
use startmc::util::format::cols;
use startmc::util::format::green_arrow;

#[test]
fn sort_keys_parse_case_insensitively() {
    assert_eq!(parse_sort("relevance"), Some(SortKey::Relevance));
    assert_eq!(parse_sort("Downloads"), Some(SortKey::Downloads));
    assert_eq!(parse_sort("FOLLOWS"), Some(SortKey::Follows));
    assert_eq!(parse_sort("newest"), Some(SortKey::Newest));
    assert_eq!(parse_sort("updated"), Some(SortKey::Updated));
    assert_eq!(parse_sort("popular"), None);
}

#[test]
fn loader_facet_falls_back_to_instance() {
    let vanilla = MinecraftConfig {
        version: "1.21.4".to_string(),
        directory: "/mc".to_string(),
        fabric: None,
    };
    let fabric = MinecraftConfig {
        version: "1.21.4".to_string(),
        directory: "/mc".to_string(),
        fabric: Some(FabricConfig { version: "0.16.10".to_string() }),
    };
    assert_eq!(search_loader(Some("forge".to_string()), &fabric).as_deref(), Some("forge"));
    assert_eq!(search_loader(None, &fabric).as_deref(), Some("fabric"));
    assert_eq!(search_loader(None, &vanilla), None);
}

#[test]
fn upgrade_plan_fetches_urls_and_copies_files() {
    let up = CliUpgrade {
        packages: vec![
            "https://cdn.example/files/sodium-0.5.8.jar".to_string(),
            "local/lithium-0.12.0.jar".to_string(),
        ],
        kind: UpgradeKind::Mod,
    };
    let plan = up.plan("/mc");
    assert_eq!(plan.len(), 2);
    match &plan[0] {
        UpgradeAction::Fetch(d) => {
            assert_eq!(d.url, "https://cdn.example/files/sodium-0.5.8.jar");
            assert_eq!(d.filename, "/mc/mods/sodium-0.5.8.jar");
            assert!(d.name.is_none());
        }
        other => panic!("expected a fetch, got {other:?}"),
    }
    match &plan[1] {
        UpgradeAction::CopyLocal(src, to) => {
            assert_eq!(src, "local/lithium-0.12.0.jar");
            assert_eq!(to, "/mc/mods/lithium-0.12.0.jar");
        }
        other => panic!("expected a copy, got {other:?}"),
    }

    let rp = CliUpgrade { packages: vec!["pack.zip".to_string()], kind: UpgradeKind::Resourcepack };
    let plan = rp.plan("/mc");
    match &plan[0] {
        UpgradeAction::CopyLocal(_, to) => assert_eq!(to, "/mc/resourcepacks/pack.zip"),
        other => panic!("expected a copy, got {other:?}"),
    }
}

#[test]
fn styled_fragments_carry_escape_codes() {
    assert_eq!(cols(), "\u{1b}[1m\u{1b}[34m::\u{1b}[39m\u{1b}[0m");
    assert_eq!(green_arrow(), "\u{1b}[1m\u{1b}[32m==>\u{1b}[39m\u{1b}[0m");
}

#[test]
fn style_options_defaults() {
    let s = StyleOptions::default();
    assert!(s.main.enabled);
    assert!(!s.main.clear);
    assert!(s.child.enabled);
    assert!(s.child.clear);
    assert!(s.is_enabled());
    let hidden = StyleOptions::new(ProgressBarOpts::hidden(), ProgressBarOpts::hidden());
    assert!(!hidden.is_enabled());
    let pacman = ProgressBarOpts::with_pacman_style();
    assert_eq!(pacman.progress_chars.as_deref(), Some("#--"));
    let mut o = ProgressBarOpts::new(None, None, true, false);
    o.set_clear(true);
    assert!(o.clear);
    // The conversions into the rendering library's values hold.
    let _ = ProgressBarOpts::with_pacman_style().to_progress_style();
    let bar = ProgressBarOpts::hidden().to_progress_bar(10);
    assert!(bar.is_hidden());
}
