//! Tests for the package catalog and the installed-release record.

use huber_install::Package;
use huber_install::PackageLookup;
use huber_install::Release;
use huber_install::ReleaseLookup;

#[test]
fn empty_catalog_has_nothing() {
    let pkgs = PackageLookup::new();
    assert!(!pkgs.has(&"foo".to_string()));
    assert!(pkgs.get(&"foo".to_string()).is_none());
}

#[test]
fn added_package_is_found_with_stored_default() {
    let mut pkgs = PackageLookup::new();
    pkgs.add(Package { name: "gh".to_string(), version: Some("2.4.0".to_string()) });
    pkgs.add(Package { name: "velero".to_string(), version: None });

    assert!(pkgs.has(&"gh".to_string()));
    assert!(pkgs.has(&"velero".to_string()));
    assert!(!pkgs.has(&"kubectl".to_string()));

    let gh = pkgs.get(&"gh".to_string()).unwrap();
    assert_eq!(gh.name, "gh".to_string());
    assert_eq!(gh.version, Some("2.4.0".to_string()));

    let velero = pkgs.get(&"velero".to_string()).unwrap();
    assert_eq!(velero.version, None);
}

#[test]
fn empty_record_has_no_release() {
    let rels = ReleaseLookup::new();
    assert!(!rels.has(&"gh".to_string()));
    let cur = rels.current(&Package { name: "gh".to_string(), version: None });
    assert_eq!(cur, None);
}

#[test]
fn create_installs_latest_when_no_version_requested() {
    let mut rels = ReleaseLookup::new();
    let pkg = Package { name: "gh".to_string(), version: None };
    let rel = rels.create(&pkg, &"2.4.0".to_string());
    assert_eq!(rel, Release { name: "gh".to_string(), version: "2.4.0".to_string() });
    assert!(rels.has(&"gh".to_string()));
    assert_eq!(rels.current(&pkg), Some(Release { name: "gh".to_string(), version: "2.4.0".to_string() }));
}

#[test]
fn create_installs_requested_version() {
    let mut rels = ReleaseLookup::new();
    let pkg = Package { name: "gh".to_string(), version: Some("1.9.2".to_string()) };
    let rel = rels.create(&pkg, &"2.4.0".to_string());
    assert_eq!(rel.version, "1.9.2".to_string());
}

#[test]
fn update_replaces_the_installed_version() {
    let mut rels = ReleaseLookup::new();
    let pkg = Package { name: "gh".to_string(), version: None };
    rels.create(&pkg, &"1.0.0".to_string());

    let upgraded = Package { name: "gh".to_string(), version: Some("2.0.0".to_string()) };
    let rel = rels.update(&upgraded, &"3.0.0".to_string());
    assert_eq!(rel.version, "2.0.0".to_string());
    assert_eq!(
        rels.current(&pkg),
        Some(Release { name: "gh".to_string(), version: "2.0.0".to_string() })
    );
}

#[test]
fn update_with_no_version_takes_latest() {
    let mut rels = ReleaseLookup::new();
    let pkg = Package { name: "gh".to_string(), version: None };
    rels.create(&pkg, &"1.0.0".to_string());
    let rel = rels.update(&pkg, &"1.2.0".to_string());
    assert_eq!(rel.version, "1.2.0".to_string());
}

#[test]
fn records_are_kept_per_package() {
    let mut rels = ReleaseLookup::new();
    let gh = Package { name: "gh".to_string(), version: None };
    let velero = Package { name: "velero".to_string(), version: None };
    rels.create(&gh, &"1.0".to_string());
    rels.create(&velero, &"5.0".to_string());
    rels.update(&gh, &"1.1".to_string());

    assert_eq!(rels.current(&gh), Some(Release { name: "gh".to_string(), version: "1.1".to_string() }));
    assert_eq!(
        rels.current(&velero),
        Some(Release { name: "velero".to_string(), version: "5.0".to_string() })
    );
}
