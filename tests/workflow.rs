use hawk_cli::workflow::{classify_entry, entry_kind, has_workflow_ext, is_workflow_file, EntryKind, FileError, FileKind};

#[test]
fn file_kind_from_extension() {
    assert!(matches!(FileKind::from_path("a/b.json"), Ok(FileKind::JSON)));
    assert!(matches!(FileKind::from_path("a/b.yml"), Ok(FileKind::YAML)));
    assert!(matches!(FileKind::from_path("a/b.yaml"), Ok(FileKind::YAML)));
}

#[test]
fn file_kind_unsupported() {
    assert!(matches!(FileKind::from_path("a/b.toml"), Err(FileError::UnsupportedExtension)));
    assert!(matches!(FileKind::from_path("a/b"), Err(FileError::UnsupportedExtension)));
    assert!(matches!(FileKind::from_path("a/"), Err(FileError::UnsupportedExtension)));
}

#[test]
fn file_error_from_serde_errors() {
    let ye = serde_yaml::from_str::<serde_yaml::Value>("a: [").unwrap_err();
    assert!(matches!(FileError::from(ye), FileError::InvalidYAMLSyntax(_)));
    let je = serde_json::from_str::<serde_json::Value>("{").unwrap_err();
    assert!(matches!(FileError::from(je), FileError::InvalidJSONSyntax(_)));
}

#[test]
fn classify_valid_workflow() {
    match classify_entry("./api/wf/build.yml", Some("name: build\non: push\n")) {
        EntryKind::Valid(w) => assert_eq!(w.name, "build"),
        other => panic!("unexpected {:?}", other),
    }
}

#[test]
fn classify_not_workflow_by_extension() {
    assert!(matches!(classify_entry("./wf/readme.md", Some("name: x")), EntryKind::NotWorkflow));
    assert!(matches!(classify_entry("./wf/data.json", Some("{\"name\": \"x\"}")), EntryKind::NotWorkflow));
}

#[test]
fn classify_malformed_workflow() {
    assert!(matches!(classify_entry("./wf/a.yml", Some("on: push")), EntryKind::Malformed));
    assert!(matches!(classify_entry("./wf/a.yml", Some("name: [")), EntryKind::Malformed));
    assert!(matches!(classify_entry("./wf/a.yaml", Some("name: [1, 2]")), EntryKind::Malformed));
    assert!(matches!(classify_entry("./wf/a.yaml", None), EntryKind::Malformed));
}

#[test]
fn entry_kind_takes_name_entry() {
    match entry_kind("w/x.yaml", Some("deploy".to_string())) {
        EntryKind::Valid(w) => assert_eq!(w.name, "deploy"),
        other => panic!("unexpected {:?}", other),
    }
    assert!(matches!(entry_kind("w/x.yaml", None), EntryKind::Malformed));
    assert!(matches!(entry_kind("w/x.txt", Some("d".to_string())), EntryKind::NotWorkflow));
}

#[test]
fn workflow_file_check() {
    assert!(is_workflow_file("wf/build.yml", Some("name: build")));
    assert!(!is_workflow_file("wf/build.yml", Some("jobs: {}")));
    assert!(!is_workflow_file("wf/build.txt", Some("name: build")));
    assert!(!is_workflow_file("wf/build.yml", None));
    assert!(has_workflow_ext("x.yml"));
    assert!(!has_workflow_ext("x.yml.bak"));
}
