use cargo_upgrade::errors::Error;
use cargo_upgrade::manifest::Manifest;
use cargo_upgrade::upgrade::{
    choose_packages, is_manifest_name, newest_version_from, should_scan_directory, CrateInfo,
};

#[test]
fn error_variant_names() {
    assert_eq!(Error::IOError("a".to_string()).variant(), "IOError");
    assert_eq!(Error::SerializationError("a".to_string()).variant(), "SerializationError");
    assert_eq!(Error::DeserializationError("a".to_string()).variant(), "DeserializationError");
    assert_eq!(Error::CratesIOError("a".to_string()).variant(), "CratesIOError");
    assert_eq!(Error::CurlError("a".to_string()).variant(), "CurlError");
    assert_eq!(Error::TomlError("a".to_string()).variant(), "TomlError");
}

#[test]
fn error_render_joins_variant_and_message() {
    let e = Error::IOError("no such file".to_string());
    assert_eq!(e.render(), "IOError: no such file");
    assert_eq!(e.message(), "no such file");
}

#[test]
fn newest_version_takes_first_exact_match() {
    let results = vec![
        CrateInfo { name: "serde-extra".to_string(), max_version: "9.9.9".to_string() },
        CrateInfo { name: "serde".to_string(), max_version: "1.0.200".to_string() },
        CrateInfo { name: "serde".to_string(), max_version: "0.8.0".to_string() },
    ];
    assert_eq!(newest_version_from(&results, "serde").unwrap(), "1.0.200");
}

#[test]
fn newest_version_missing_package_is_an_error() {
    let results = vec![CrateInfo {
        name: "serde-extra".to_string(),
        max_version: "9.9.9".to_string(),
    }];
    let err = newest_version_from(&results, "serde").unwrap_err();
    assert_eq!(err.render(), "CratesIOError: serde not found in crates.io");
}

#[test]
fn newest_version_from_empty_results_is_an_error() {
    let results: Vec<CrateInfo> = Vec::new();
    let err = newest_version_from(&results, "anything").unwrap_err();
    assert_eq!(err.variant(), "CratesIOError");
}

#[test]
fn all_dependency_names_in_group_order() {
    let m = Manifest {
        dependencies: Some(vec!["a".to_string(), "b".to_string()]),
        dev_dependencies: None,
        build_dependencies: Some(vec!["c".to_string()]),
    };
    assert_eq!(m.all_dependency_names(), vec!["a", "b", "c"]);
}

#[test]
fn all_dependency_names_empty_manifest() {
    let m = Manifest { dependencies: None, dev_dependencies: None, build_dependencies: None };
    assert!(m.all_dependency_names().is_empty());
}

#[test]
fn explicit_packages_win_over_manifest_names() {
    let requested = vec!["serde".to_string()];
    let fallback = vec!["a".to_string(), "b".to_string()];
    assert_eq!(choose_packages(&requested, fallback), vec!["serde"]);
}

#[test]
fn manifest_names_used_when_nothing_requested() {
    let requested: Vec<String> = Vec::new();
    let fallback = vec!["a".to_string(), "b".to_string()];
    assert_eq!(choose_packages(&requested, fallback), vec!["a", "b"]);
}

#[test]
fn walk_skips_version_control_and_build_output() {
    assert!(!should_scan_directory(".git"));
    assert!(!should_scan_directory(".hg"));
    assert!(!should_scan_directory("node_modules"));
    assert!(!should_scan_directory("target"));
    assert!(should_scan_directory("src"));
    assert!(should_scan_directory("examples"));
}

#[test]
fn manifest_file_name_matching() {
    assert!(is_manifest_name("Cargo.toml"));
    assert!(!is_manifest_name("Cargo.lock"));
    assert!(!is_manifest_name("pyproject.toml"));
}
