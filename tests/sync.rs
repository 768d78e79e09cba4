use std::collections::BTreeMap;

use hawk_cli::config::Workspace;
use hawk_cli::sync::{
    bulk_plan, react, to_void_result, ChangeKind, Notification, Phase, SourceEntry, SyncAction,
    SyncWorker, Warning,
};

type Files = BTreeMap<String, Vec<u8>>;

fn apply(files: &mut Files, actions: &[SyncAction]) -> Result<(), String> {
    for a in actions {
        match a {
            SyncAction::Copy { source, target } => {
                let bytes = files.get(source).cloned().ok_or_else(|| source.clone())?;
                files.insert(target.clone(), bytes);
            }
            SyncAction::Delete { target } => {
                files.remove(target);
            }
        }
    }
    Ok(())
}

fn note(kind: ChangeKind, paths: &[&str]) -> Notification {
    Notification { kind, paths: paths.iter().map(|p| p.to_string()).collect(), first_is_dir: false }
}

fn entry(path: &str, content: Option<&str>) -> SourceEntry {
    SourceEntry { path: path.to_string(), content: content.map(|c| c.to_string()) }
}

fn copy_of(a: &SyncAction) -> (String, String) {
    match a {
        SyncAction::Copy { source, target } => (source.clone(), target.clone()),
        other => panic!("expected a copy, got {:?}", other),
    }
}

fn delete_of(a: &SyncAction) -> String {
    match a {
        SyncAction::Delete { target } => target.clone(),
        other => panic!("expected a delete, got {:?}", other),
    }
}

#[test]
fn removed_deletes_copy() {
    let r = react(&note(ChangeKind::Removed, &["./api/wf/build.yml"]), "./out", "api");
    assert_eq!(r.actions.len(), 1);
    assert_eq!(delete_of(&r.actions[0]), "./out/api--build.yml");
    assert_eq!(r.warning, None);
}

#[test]
fn create_and_modify_copy() {
    for kind in [ChangeKind::Create, ChangeKind::ContentModified] {
        let r = react(&note(kind, &["./api/wf/build.yml"]), "./out", "api");
        assert_eq!(r.actions.len(), 1);
        assert_eq!(
            copy_of(&r.actions[0]),
            ("./api/wf/build.yml".to_string(), "./out/api--build.yml".to_string())
        );
        assert_eq!(r.warning, None);
    }
}

#[test]
fn rename_copies_then_deletes() {
    let r = react(&note(ChangeKind::Renamed, &["./wf/old.yml", "./wf/new.yml"]), "./out", "web");
    assert_eq!(r.actions.len(), 2);
    assert_eq!(copy_of(&r.actions[0]), ("./wf/new.yml".to_string(), "./out/web--new.yml".to_string()));
    assert_eq!(delete_of(&r.actions[1]), "./out/web--old.yml");
    assert_eq!(r.warning, None);
}

#[test]
fn rename_final_state() {
    let mut files: Files = BTreeMap::new();
    files.insert("./wf/new.yml".into(), b"name: a".to_vec());
    files.insert("./out/web--old.yml".into(), b"name: a".to_vec());
    let r = react(&note(ChangeKind::Renamed, &["./wf/old.yml", "./wf/new.yml"]), "./out", "web");
    apply(&mut files, &r.actions).unwrap();
    assert_eq!(files.get("./out/web--new.yml"), Some(&b"name: a".to_vec()));
    assert!(!files.contains_key("./out/web--old.yml"));
}

#[test]
fn rename_with_one_path_is_warned() {
    let r = react(&note(ChangeKind::Renamed, &["./wf/old.yml"]), "./out", "web");
    assert!(r.actions.is_empty());
    assert_eq!(r.warning, Some(Warning::MissingPaths));
}

#[test]
fn unpaired_rename_is_unsupported() {
    let r = react(&note(ChangeKind::RenameUnpaired, &["./wf/x.yml"]), "./out", "web");
    assert!(r.actions.is_empty());
    assert_eq!(r.warning, Some(Warning::RenameUnsupported));
}

#[test]
fn empty_paths_are_warned() {
    let r = react(&note(ChangeKind::Create, &[]), "./out", "web");
    assert!(r.actions.is_empty());
    assert_eq!(r.warning, Some(Warning::MissingPaths));
}

#[test]
fn directories_and_other_events_are_ignored() {
    let mut n = note(ChangeKind::Create, &["./wf/sub"]);
    n.first_is_dir = true;
    let r = react(&n, "./out", "web");
    assert!(r.actions.is_empty());
    assert_eq!(r.warning, None);
    let r = react(&note(ChangeKind::Other, &["./wf/x.yml"]), "./out", "web");
    assert!(r.actions.is_empty());
    assert_eq!(r.warning, None);
}

#[test]
fn path_without_file_name_is_warned() {
    let r = react(&note(ChangeKind::Removed, &["./wf/"]), "./out", "web");
    assert!(r.actions.is_empty());
    assert_eq!(r.warning, Some(Warning::NoFileName));
}

#[test]
fn create_then_remove_round_trip() {
    let mut files: Files = BTreeMap::new();
    files.insert("./out/api--other.yml".into(), b"name: other".to_vec());
    let before = files.clone();
    files.insert("./api/wf/new.yml".into(), b"name: new".to_vec());
    let r = react(&note(ChangeKind::Create, &["./api/wf/new.yml"]), "./out", "api");
    apply(&mut files, &r.actions).unwrap();
    assert_eq!(files.get("./out/api--new.yml"), Some(&b"name: new".to_vec()));
    files.remove("./api/wf/new.yml");
    let r = react(&note(ChangeKind::Removed, &["./api/wf/new.yml"]), "./out", "api");
    apply(&mut files, &r.actions).unwrap();
    assert_eq!(files, before);
}

#[test]
fn repeated_delete_of_absent_entry() {
    let mut files: Files = BTreeMap::new();
    files.insert("./out/api--keep.yml".into(), b"x".to_vec());
    let before = files.clone();
    let r = react(&note(ChangeKind::Removed, &["./api/wf/gone.yml"]), "./out", "api");
    apply(&mut files, &r.actions).unwrap();
    apply(&mut files, &r.actions).unwrap();
    assert_eq!(files, before);
}

#[test]
fn bulk_plan_sorts_entries() {
    let entries = vec![
        entry("./api/wf/build.yml", Some("name: build")),
        entry("./api/wf/README.md", Some("# readme")),
        entry("./api/wf/broken.yaml", Some("on: push")),
        entry("./api/wf/deploy.yaml", Some("name: deploy")),
        entry("./api/wf/binary.yml", None),
    ];
    let plan = bulk_plan(&entries, "./out", "api");
    assert_eq!(plan.copies.len(), 2);
    assert_eq!(copy_of(&plan.copies[0]), ("./api/wf/build.yml".to_string(), "./out/api--build.yml".to_string()));
    assert_eq!(copy_of(&plan.copies[1]), ("./api/wf/deploy.yaml".to_string(), "./out/api--deploy.yaml".to_string()));
    assert_eq!(plan.skipped, vec!["./api/wf/README.md".to_string()]);
    assert_eq!(plan.malformed, vec!["./api/wf/broken.yaml".to_string(), "./api/wf/binary.yml".to_string()]);
}

#[test]
fn bulk_plan_of_empty_directory() {
    let plan = bulk_plan(&Vec::new(), "./out", "api");
    assert!(plan.copies.is_empty() && plan.skipped.is_empty() && plan.malformed.is_empty());
}

#[test]
fn bulk_sync_twice_changes_nothing() {
    let entries = vec![entry("./api/wf/build.yml", Some("name: build")), entry("./api/wf/x.txt", Some("x"))];
    let mut files: Files = BTreeMap::new();
    files.insert("./api/wf/build.yml".into(), b"name: build".to_vec());
    files.insert("./api/wf/x.txt".into(), b"x".to_vec());
    files.insert("./out/web--build.yml".into(), b"name: web".to_vec());
    let plan = bulk_plan(&entries, "./out", "api");
    apply(&mut files, &plan.copies).unwrap();
    let once = files.clone();
    apply(&mut files, &bulk_plan(&entries, "./out", "api").copies).unwrap();
    assert_eq!(files, once);
    assert_eq!(files.get("./out/api--build.yml"), Some(&b"name: build".to_vec()));
    assert_eq!(files.get("./out/web--build.yml"), Some(&b"name: web".to_vec()));
}

#[test]
fn concrete_scenario_bulk_then_delete() {
    let mut files: Files = BTreeMap::new();
    files.insert("./api/wf/build.yml".into(), b"name: build".to_vec());
    let ws = Workspace { name: "api".into(), path: "./api/wf".into(), package_json: None };
    let mut worker = SyncWorker::new(ws, "./out", true);
    assert!(worker.resolve_scope(None).is_ok());
    assert_eq!(worker.phase, Phase::BulkSyncing);
    let plan = worker.bulk_sync(&vec![entry("./api/wf/build.yml", Some("name: build"))]);
    apply(&mut files, &plan.copies).unwrap();
    assert_eq!(files.get("./out/api--build.yml"), files.get("./api/wf/build.yml"));
    assert_eq!(worker.phase, Phase::Watching);
    files.remove("./api/wf/build.yml");
    let r = worker.on_notification(&note(ChangeKind::Removed, &["./api/wf/build.yml"]));
    apply(&mut files, &r.actions).unwrap();
    assert!(!files.contains_key("./out/api--build.yml"));
    assert!(files.is_empty());
}

#[test]
fn worker_phases() {
    let ws = Workspace { name: "api".into(), path: "./api/wf".into(), package_json: Some("./api/package.json".into()) };
    let mut worker = SyncWorker::new(ws, "./out", false);
    assert_eq!(worker.phase, Phase::Initializing);
    let early = worker.on_notification(&note(ChangeKind::Create, &["./api/wf/a.yml"]));
    assert!(early.actions.is_empty());
    assert!(worker.bulk_sync(&vec![entry("./api/wf/a.yml", Some("name: a"))]).copies.is_empty());
    assert_eq!(worker.phase, Phase::Initializing);
    assert!(worker.resolve_scope(Some("{\"name\": \"core\"}")).is_ok());
    assert_eq!(worker.scope(), "core");
    let plan = worker.bulk_sync(&vec![entry("./api/wf/a.yml", Some("name: a"))]);
    assert_eq!(copy_of(&plan.copies[0]).1, "./out/core--a.yml");
    assert_eq!(worker.phase, Phase::Finished);
    assert!(worker.on_notification(&note(ChangeKind::Create, &["./api/wf/a.yml"])).actions.is_empty());
    worker.fail();
    assert_eq!(worker.phase, Phase::Failed);
}

#[test]
fn worker_fails_on_bad_manifest() {
    let ws = Workspace { name: "api".into(), path: "./api/wf".into(), package_json: Some("./api/package.json".into()) };
    let mut worker = SyncWorker::new(ws, "./out", true);
    assert!(worker.resolve_scope(Some("not json")).is_err());
    assert_eq!(worker.phase, Phase::Failed);
    assert_eq!(worker.scope(), "api");
}

#[test]
fn void_result_keeps_error() {
    let ok: std::io::Result<u64> = Ok(7);
    assert!(to_void_result(ok).is_ok());
    let err: std::io::Result<u64> = Err(std::io::Error::new(std::io::ErrorKind::NotFound, "gone"));
    let out = to_void_result(err);
    assert_eq!(out.unwrap_err().kind(), std::io::ErrorKind::NotFound);
}
