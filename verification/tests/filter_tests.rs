//! Package filter parsing.

use std::str::FromStr;

use startmc::sync::filter::SyncFilter;
use startmc::sync::filter::VersionFilter;
use startmc::sync::filter::VersionOp;

#[test]
fn test_no_version() {
    assert_eq!(
        SyncFilter::from_str("ident"),
        Ok(SyncFilter {
            name: "ident".to_string(),
            version: None,
        })
    );
}

#[test]
fn test_any_version() {
    assert_eq!(
        SyncFilter::from_str("ident=*"),
        Ok(SyncFilter {
            name: "ident".to_string(),
            version: Some(VersionFilter::Any),
        })
    );
}

#[test]
fn test_gt_version() {
    assert_eq!(
        SyncFilter::from_str("ident>1.0.0"),
        Ok(SyncFilter {
            name: "ident".to_string(),
            version: Some(VersionFilter::Op("1.0.0".to_string(), VersionOp::Gt)),
        })
    );
}

#[test]
fn test_eq_version() {
    assert_eq!(
        SyncFilter::from_str("ident=1.0.0"),
        Ok(SyncFilter {
            name: "ident".to_string(),
            version: Some(VersionFilter::Op("1.0.0".to_string(), VersionOp::Eq)),
        })
    );
}

#[test]
fn test_ge_version() {
    assert_eq!(
        SyncFilter::from_str("ident>=1.0.0"),
        Ok(SyncFilter {
            name: "ident".to_string(),
            version: Some(VersionFilter::Op("1.0.0".to_string(), VersionOp::Ge)),
        })
    );
}

#[test]
fn test_lt_version() {
    assert_eq!(
        SyncFilter::from_str("ident<1.0.0"),
        Ok(SyncFilter {
            name: "ident".to_string(),
            version: Some(VersionFilter::Op("1.0.0".to_string(), VersionOp::Lt)),
        })
    );
}

#[test]
fn test_le_version() {
    assert_eq!(
        SyncFilter::from_str("ident<=1.0.0"),
        Ok(SyncFilter {
            name: "ident".to_string(),
            version: Some(VersionFilter::Op("1.0.0".to_string(), VersionOp::Le)),
        })
    );
}

#[test]
fn test_ne_version() {
    assert_eq!(
        SyncFilter::from_str("ident!=1.0.0"),
        Ok(SyncFilter {
            name: "ident".to_string(),
            version: Some(VersionFilter::Op("1.0.0".to_string(), VersionOp::Ne)),
        })
    );
}

#[test]
fn test_empty_input() {
    assert_eq!(SyncFilter::from_str(""), Err("Empty input"));
}

#[test]
fn test_missing_identifier() {
    assert_eq!(SyncFilter::from_str("=*"), Err("Missing identifier"));
}

#[test]
fn test_missing_version() {
    assert_eq!(
        SyncFilter::from_str("ident>"),
        Err("Version string is empty")
    );
}
