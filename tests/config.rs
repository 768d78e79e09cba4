use hawk_cli::config::{Config, Workspace, WorkspaceError};

fn ws(name: &str, path: &str) -> Workspace {
    Workspace { name: name.to_string(), path: path.to_string(), package_json: None }
}

#[test]
fn new_config_is_empty() {
    let c = Config::new(".github/workflows");
    assert_eq!(c.target, ".github/workflows");
    assert!(c.workspaces.is_empty());
}

#[test]
fn validate_accepts_distinct_safe_names() {
    let c = Config { workspaces: vec![ws("api", "./api"), ws("web", "./web")], target: "./out".into() };
    assert!(c.validate_workspaces().is_ok());
}

#[test]
fn validate_rejects_space_in_name() {
    let c = Config { workspaces: vec![ws("api", "./api"), ws("my app", "./app")], target: "./out".into() };
    match c.validate_workspaces() {
        Err(WorkspaceError::InvalidName(n)) => assert_eq!(n, "my app"),
        other => panic!("unexpected {:?}", other),
    }
}

#[test]
fn validate_rejects_slash_in_name() {
    let w = ws("a/b", "./a");
    assert!(matches!(w.validate_name(), Err(WorkspaceError::InvalidName(_))));
    assert!(ws("ab", "./a").validate_name().is_ok());
}

#[test]
fn validate_rejects_duplicate_scope() {
    let c = Config {
        workspaces: vec![ws("api", "./api"), ws("web", "./web"), ws("api", "./other")],
        target: "./out".into(),
    };
    match c.validate_workspaces() {
        Err(WorkspaceError::DuplicateName(n)) => assert_eq!(n, "api"),
        other => panic!("unexpected {:?}", other),
    }
}

#[test]
fn validate_reports_first_failure() {
    let c = Config {
        workspaces: vec![ws("a", "./a"), ws("a", "./b"), ws("bad name", "./c")],
        target: "./out".into(),
    };
    assert!(matches!(c.validate_workspaces(), Err(WorkspaceError::DuplicateName(_))));
}

#[test]
fn select_by_exact_scope() {
    let c = Config { workspaces: vec![ws("api", "./api"), ws("web", "./web")], target: "./out".into() };
    let sel = c.select_workspaces(Some("web"));
    assert_eq!(sel.len(), 1);
    assert_eq!(sel[0].name, "web");
    assert_eq!(sel[0].path, "./web");
    assert_eq!(c.select_workspaces(None).len(), 2);
    assert_eq!(c.select_workspaces(Some("we")).len(), 0);
    assert_eq!(c.select_workspaces(Some("*")).len(), 0);
}

#[test]
fn manifest_file_inside_directory() {
    let mut w = ws("api", "./api/wf");
    assert_eq!(w.manifest_file(true), None);
    w.package_json = Some("./api".into());
    assert_eq!(w.manifest_file(true), Some("./api/package.json".to_string()));
    assert_eq!(w.manifest_file(false), Some("./api".to_string()));
}

#[test]
fn manifest_name_replaces_scope() {
    let mut w = ws("api", "./api/wf");
    w.package_json = Some("./api/package.json".into());
    assert!(w.load_name_if_possible(Some("{\"name\": \"@acme/api\", \"version\": \"1.0.0\"}")).is_ok());
    assert_eq!(w.name, "@acme/api");
    assert_eq!(w.path, "./api/wf");
}

#[test]
fn manifest_without_name_is_an_error() {
    let mut w = ws("api", "./api/wf");
    w.package_json = Some("./api/package.json".into());
    match w.load_name_if_possible(Some("{\"version\": \"1.0.0\"}")) {
        Err(WorkspaceError::InvalidManifest(p)) => assert_eq!(p, "./api/package.json"),
        other => panic!("unexpected {:?}", other),
    }
    assert!(matches!(w.load_name_if_possible(Some("{")), Err(WorkspaceError::InvalidManifest(_))));
    assert_eq!(w.name, "api");
}

#[test]
fn manifest_missing_keeps_name() {
    let mut w = ws("api", "./api/wf");
    assert!(w.load_name_if_possible(Some("{\"name\": \"other\"}")).is_ok());
    assert_eq!(w.name, "api");
    w.package_json = Some("./api".into());
    assert!(w.load_name_if_possible(None).is_ok());
    assert_eq!(w.name, "api");
}

#[test]
fn duplicate_copies_every_field() {
    let mut w = ws("api", "./api/wf");
    w.package_json = Some("./api".into());
    let d = w.duplicate();
    assert_eq!(d.name, "api");
    assert_eq!(d.path, "./api/wf");
    assert_eq!(d.package_json, Some("./api".to_string()));
}
