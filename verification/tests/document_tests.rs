use cargo_upgrade::document::{edit_version, parse_document, serialize_document};
use cargo_upgrade::upgrade::upgrade_package;

fn sample() -> &'static str {
    "# project manifest\n\
     [package]\n\
     name = \"demo\"\n\
     version = \"0.1.0\"\n\
     \n\
     [dependencies]\n\
     serde = \"1.0.0\"\n\
     toml_edit = { version = \"0.2.0\", features = [\"x\"] }\n\
     local = { path = \"../x\" }\n\
     \n\
     # development-time helpers\n\
     [dev-dependencies]\n\
     serde = \"0.9.0\"\n"
}

#[test]
fn round_trip_identity() {
    let doc = parse_document(sample()).unwrap();
    assert_eq!(serialize_document(&doc), sample());
}

#[test]
fn round_trip_keeps_comments_and_order() {
    let text = "# leading\n[b]\nx = 1 # inline\n\n[a]\ny = \"z\"\n";
    let doc = parse_document(text).unwrap();
    assert_eq!(serialize_document(&doc), text);
}

#[test]
fn parse_failure_is_reported() {
    let err = parse_document("[dependencies\nserde = \"1\"").unwrap_err();
    assert_eq!(err.variant(), "TomlError");
}

#[test]
fn parse_refuses_text_the_parser_would_reformat() {
    let err = parse_document("a = 1").unwrap_err();
    assert_eq!(err.variant(), "TomlError");
    assert_eq!(err.message(), "document text is not preserved by the parser");
}

#[test]
fn simple_form_update() {
    let mut doc = parse_document(sample()).unwrap();
    let old = edit_version(&mut doc, "dependencies", "serde", "1.2.0");
    assert_eq!(old, Some("1.0.0".to_string()));
    let out = serialize_document(&doc);
    assert!(out.contains("serde = \"1.2.0\""));
}

#[test]
fn localized_mutation() {
    let mut doc = parse_document(sample()).unwrap();
    let old = edit_version(&mut doc, "dev-dependencies", "serde", "1.2.0");
    assert_eq!(old, Some("0.9.0".to_string()));
    let out = serialize_document(&doc);
    let expected = sample().replace("serde = \"0.9.0\"", "serde = \"1.2.0\"");
    assert_eq!(out, expected);
}

#[test]
fn detailed_form_update() {
    let mut doc = parse_document(sample()).unwrap();
    let old = edit_version(&mut doc, "dependencies", "toml_edit", "0.3.0");
    assert_eq!(old, Some("0.2.0".to_string()));
    let out = serialize_document(&doc);
    let expected = sample().replace("version = \"0.2.0\"", "version = \"0.3.0\"");
    assert_eq!(out, expected);
    assert!(out.contains("features = [\"x\"]"));
}

#[test]
fn absent_group_returns_not_found() {
    let mut doc = parse_document(sample()).unwrap();
    assert_eq!(edit_version(&mut doc, "build-dependencies", "serde", "9.9.9"), None);
    assert_eq!(serialize_document(&doc), sample());
}

#[test]
fn absent_package_returns_not_found() {
    let mut doc = parse_document(sample()).unwrap();
    assert_eq!(edit_version(&mut doc, "dependencies", "missing", "9.9.9"), None);
    assert_eq!(serialize_document(&doc), sample());
}

#[test]
fn unsupported_shape_is_left_alone() {
    let mut doc = parse_document(sample()).unwrap();
    assert_eq!(edit_version(&mut doc, "dependencies", "local", "9.9.9"), None);
    assert_eq!(serialize_document(&doc), sample());
}

#[test]
fn group_name_that_is_not_a_table_is_not_found() {
    let text = "dependencies = \"flat\"\n";
    let mut doc = parse_document(text).unwrap();
    assert_eq!(edit_version(&mut doc, "dependencies", "serde", "1.0.0"), None);
    assert_eq!(serialize_document(&doc), text);
}

#[test]
fn noop_suppression() {
    let mut doc = parse_document(sample()).unwrap();
    let changes = upgrade_package(&mut doc, "toml_edit", "0.2.0");
    assert!(changes.is_empty());
    let out = serialize_document(&doc);
    assert!(out.contains("version = \"0.2.0\""));
}

#[test]
fn multiple_groups_updated_independently() {
    let mut doc = parse_document(sample()).unwrap();
    let changes = upgrade_package(&mut doc, "serde", "1.2.0");
    assert_eq!(changes.len(), 2);
    assert_eq!(changes[0].group, "dependencies");
    assert_eq!(changes[0].old_version, "1.0.0");
    assert_eq!(changes[0].new_version, "1.2.0");
    assert_eq!(changes[1].group, "dev-dependencies");
    assert_eq!(changes[1].old_version, "0.9.0");
    assert_eq!(changes[1].new_version, "1.2.0");
    let out = serialize_document(&doc);
    assert!(!out.contains("1.0.0\""));
    assert!(!out.contains("0.9.0"));
}

#[test]
fn upgrade_reports_only_real_changes() {
    let text = "[dependencies]\npkg = \"2.0.0\"\n\n[dev-dependencies]\npkg = \"1.0.0\"\n";
    let mut doc = parse_document(text).unwrap();
    let changes = upgrade_package(&mut doc, "pkg", "2.0.0");
    assert_eq!(changes.len(), 1);
    assert_eq!(changes[0].group, "dev-dependencies");
    assert_eq!(changes[0].old_version, "1.0.0");
    let out = serialize_document(&doc);
    assert!(!out.contains("1.0.0"));
}
