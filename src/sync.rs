//! The per-workspace synchronisation worker.
//!
//! A worker goes through `Initializing` (its scope is settled from its
//! manifest), `BulkSyncing` (every workflow file of the source directory is
//! copied to the target) and, when watching, `Watching` (each change
//! notification becomes copy and delete actions, in arrival order). An I/O
//! failure while carrying out an action ends the worker in `Failed`.
//!
//! The worker decides; its caller performs the actions. The effect of actions
//! on the files is modelled by `apply_actions` over a map from path to bytes.
use vstd::prelude::*;
use crate::paths::{target_of, target_filename};
use crate::workflow::{EntryKind, classify_entry, has_workflow_extension, yaml_name_entry};
use crate::config::{Workspace, WorkspaceError, loads_name};

verus! {

/// A change in the target directory.
#[derive(Debug, Clone)]
pub enum SyncAction {
    /// Copy the file at `source` to `target`, overwriting it.
    Copy { source: String, target: String },
    /// Remove `target` if it is there.
    Delete { target: String },
}

/// Drops the value of a successful I/O result and keeps its error.
pub fn to_void_result<T>(r: std::io::Result<T>) -> (out: std::io::Result<()>)
    ensures
        r is Ok <==> out is Ok,
        r matches Err(e) ==> out == Err::<(), std::io::Error>(e),
{
    match r {
        Ok(_) => Ok(()),
        Err(e) => Err(e),
    }
}

/// What a `SyncAction` does, over path text.
pub ghost enum ActionModel {
    Copy(Seq<char>, Seq<char>),
    Delete(Seq<char>),
}

impl View for SyncAction {
    type V = ActionModel;

    open spec fn view(&self) -> ActionModel {
        match self {
            SyncAction::Copy { source, target } => ActionModel::Copy(source@, target@),
            SyncAction::Delete { target } => ActionModel::Delete(target@),
        }
    }
}

pub open spec fn actions_model(v: Seq<SyncAction>) -> Seq<ActionModel> {
    v.map_values(|a: SyncAction| a@)
}

pub open spec fn paths_model(v: Seq<String>) -> Seq<Seq<char>> {
    v.map_values(|p: String| p@)
}

/// The files of the machine: path to contents.
pub type Files = Map<Seq<char>, Seq<u8>>;

/// The files after one action; `None` when a copy finds no source.
pub open spec fn apply_action(fs: Files, a: ActionModel) -> Option<Files> {
    match a {
        ActionModel::Copy(s, t) => if fs.contains_key(s) {
            Some(fs.insert(t, fs[s]))
        } else {
            None
        },
        ActionModel::Delete(t) => Some(fs.remove(t)),
    }
}

/// The files after a sequence of actions, carried out in order; `None` when
/// one of them fails.
pub open spec fn apply_actions(fs: Files, acts: Seq<ActionModel>) -> Option<Files>
    decreases acts.len(),
{
    if acts.len() == 0 {
        Some(fs)
    } else {
        match apply_action(fs, acts[0]) {
            Some(next) => apply_actions(next, acts.drop_first()),
            None => None,
        }
    }
}

/// The kind of a change notification, as the watcher reports it.
#[derive(Debug, Clone, Copy, PartialEq, Eq, Structural)]
pub enum ChangeKind {
    /// A file was created.
    Create,
    /// A file's content changed.
    ContentModified,
    /// A file was removed.
    Removed,
    /// A file was renamed; the paths are the old and the new name.
    Renamed,
    /// A rename whose other half is unknown. Not supported.
    RenameUnpaired,
    /// Anything else: ignored.
    Other,
}

/// One change notification.
#[derive(Debug, Clone)]
pub struct Notification {
    pub kind: ChangeKind,
    /// The paths it concerns, in the order the watcher gives them.
    pub paths: Vec<String>,
    /// Whether the first path is a directory.
    pub first_is_dir: bool,
}

/// Why a notification was passed over with a warning.
#[derive(Debug, Clone, Copy, PartialEq, Eq, Structural)]
pub enum Warning {
    /// It carries fewer paths than its kind needs.
    MissingPaths,
    /// An unpaired rename: not supported.
    RenameUnsupported,
    /// A path it concerns names no file.
    NoFileName,
}

/// What a worker does about one notification.
#[derive(Debug, Clone)]
pub struct Reaction {
    /// To be carried out in order.
    pub actions: Vec<SyncAction>,
    pub warning: Option<Warning>,
}

/// The actions that a notification of `kind` on `paths` leads to, for the
/// worker of `scope` copying into `target`.
pub open spec fn reaction_actions(
    kind: ChangeKind,
    paths: Seq<Seq<char>>,
    first_is_dir: bool,
    target: Seq<char>,
    scope: Seq<char>,
) -> Seq<ActionModel> {
    if paths.len() == 0 || first_is_dir {
        seq![]
    } else {
        match kind {
            ChangeKind::Removed => match target_of(paths[0], target, scope) {
                Some(t) => seq![ActionModel::Delete(t)],
                None => seq![],
            },
            ChangeKind::Create | ChangeKind::ContentModified => match target_of(
                paths[0],
                target,
                scope,
            ) {
                Some(t) => seq![ActionModel::Copy(paths[0], t)],
                None => seq![],
            },
            ChangeKind::Renamed => if paths.len() >= 2 {
                match (target_of(paths[1], target, scope), target_of(paths[0], target, scope)) {
                    (Some(to), Some(from)) => seq![
                        ActionModel::Copy(paths[1], to),
                        ActionModel::Delete(from),
                    ],
                    _ => seq![],
                }
            } else {
                seq![]
            },
            _ => seq![],
        }
    }
}

/// The warning, if any, that comes with the reaction to a notification.
pub open spec fn reaction_warning(
    kind: ChangeKind,
    paths: Seq<Seq<char>>,
    first_is_dir: bool,
    target: Seq<char>,
    scope: Seq<char>,
) -> Option<Warning> {
    if paths.len() == 0 {
        Some(Warning::MissingPaths)
    } else if first_is_dir {
        None
    } else {
        match kind {
            ChangeKind::Removed | ChangeKind::Create | ChangeKind::ContentModified => {
                if target_of(paths[0], target, scope) is None {
                    Some(Warning::NoFileName)
                } else {
                    None
                }
            },
            ChangeKind::Renamed => if paths.len() < 2 {
                Some(Warning::MissingPaths)
            } else if target_of(paths[1], target, scope) is None || target_of(
                paths[0],
                target,
                scope,
            ) is None {
                Some(Warning::NoFileName)
            } else {
                None
            },
            ChangeKind::RenameUnpaired => Some(Warning::RenameUnsupported),
            ChangeKind::Other => None,
        }
    }
}

fn quiet() -> (r: Reaction)
    ensures
        r.actions@.len() == 0,
        r.warning is None,
{
    Reaction { actions: Vec::new(), warning: None }
}

fn warned(w: Warning) -> (r: Reaction)
    ensures
        r.actions@.len() == 0,
        r.warning == Some(w),
{
    Reaction { actions: Vec::new(), warning: Some(w) }
}

/// The reaction of the worker of `scope`, copying into `target`, to `n`.
/// Removal deletes the copy; creation and content change copy the file;
/// a rename copies the new name, then deletes the copy of the old one.
pub fn react(n: &Notification, target: &str, scope: &str) -> (r: Reaction)
    ensures
        actions_model(r.actions@) == reaction_actions(
            n.kind,
            paths_model(n.paths@),
            n.first_is_dir,
            target@,
            scope@,
        ),
        r.warning == reaction_warning(
            n.kind,
            paths_model(n.paths@),
            n.first_is_dir,
            target@,
            scope@,
        ),
{
    let ghost paths = paths_model(n.paths@);
    if n.paths.len() == 0 {
        assert(actions_model(Seq::<SyncAction>::empty()) =~= seq![]);
        return warned(Warning::MissingPaths);
    }
    assert(paths[0] == n.paths@[0]@);
    let first = n.paths[0].as_str();
    if n.first_is_dir {
        assert(actions_model(Seq::<SyncAction>::empty()) =~= seq![]);
        return quiet();
    }
    let mut actions: Vec<SyncAction> = Vec::new();
    let mut warning: Option<Warning> = None;
    match n.kind {
        ChangeKind::Removed => match target_filename(first, target, scope) {
            Some(t) => actions.push(SyncAction::Delete { target: t }),
            None => warning = Some(Warning::NoFileName),
        },
        ChangeKind::Create | ChangeKind::ContentModified => match target_filename(
            first,
            target,
            scope,
        ) {
            Some(t) => actions.push(SyncAction::Copy { source: String::from_str(first), target: t }),
            None => warning = Some(Warning::NoFileName),
        },
        ChangeKind::Renamed => {
            if n.paths.len() < 2 {
                warning = Some(Warning::MissingPaths);
            } else {
                assert(paths[1] == n.paths@[1]@);
                let to = n.paths[1].as_str();
                match (target_filename(to, target, scope), target_filename(first, target, scope)) {
                    (Some(to_target), Some(from_target)) => {
                        actions.push(
                            SyncAction::Copy { source: String::from_str(to), target: to_target },
                        );
                        actions.push(SyncAction::Delete { target: from_target });
                    },
                    _ => warning = Some(Warning::NoFileName),
                }
            }
        },
        ChangeKind::RenameUnpaired => warning = Some(Warning::RenameUnsupported),
        ChangeKind::Other => {},
    }
    let r = Reaction { actions, warning };
    assert(actions_model(r.actions@) =~= reaction_actions(
        n.kind,
        paths,
        n.first_is_dir,
        target@,
        scope@,
    ));
    r
}

/// An entry of a source directory, with its text when it could be read as
/// text.
#[derive(Debug, Clone)]
pub struct SourceEntry {
    pub path: String,
    pub content: Option<String>,
}

/// The string `name` entry of an entry's document, if any.
pub open spec fn entry_name(e: SourceEntry) -> Option<Seq<char>> {
    match e.content {
        Some(t) => yaml_name_entry(t@),
        None => None,
    }
}

/// The copy that bulk synchronisation makes of entry `e`, if it is a
/// workflow file.
pub open spec fn entry_copy(e: SourceEntry, target: Seq<char>, scope: Seq<char>) -> Option<
    ActionModel,
> {
    if has_workflow_extension(e.path@) && entry_name(e) is Some {
        match target_of(e.path@, target, scope) {
            Some(t) => Some(ActionModel::Copy(e.path@, t)),
            None => None,
        }
    } else {
        None
    }
}

/// The path of `e` if it is skipped as no workflow file.
pub open spec fn entry_skipped(e: SourceEntry) -> Option<Seq<char>> {
    if !has_workflow_extension(e.path@) {
        Some(e.path@)
    } else {
        None
    }
}

/// The path of `e` if it looks like a workflow file but cannot be copied as
/// one.
pub open spec fn entry_malformed(e: SourceEntry, target: Seq<char>, scope: Seq<char>) -> Option<
    Seq<char>,
> {
    if has_workflow_extension(e.path@) && entry_copy(e, target, scope) is None {
        Some(e.path@)
    } else {
        None
    }
}

/// What bulk synchronisation of a source directory does.
#[derive(Debug, Clone)]
pub struct BulkPlan {
    /// One copy per workflow file, in the order of the entries.
    pub copies: Vec<SyncAction>,
    /// The entries that are no workflow files.
    pub skipped: Vec<String>,
    /// The entries that look like workflow files but are not valid ones.
    pub malformed: Vec<String>,
}

/// Whether `p` is the bulk plan for `entries`.
pub open spec fn is_bulk_plan(p: BulkPlan, entries: Seq<SourceEntry>, target: Seq<char>, scope: Seq<char>) -> bool {
    &&& actions_model(p.copies@) == entries.filter_map(|e: SourceEntry| entry_copy(e, target, scope))
    &&& paths_model(p.skipped@) == entries.filter_map(|e: SourceEntry| entry_skipped(e))
    &&& paths_model(p.malformed@) == entries.filter_map(
        |e: SourceEntry| entry_malformed(e, target, scope),
    )
}

/// Plans the bulk synchronisation of `entries` for the worker of `scope`
/// copying into `target`: workflow files are copied, other entries skipped,
/// malformed workflow files reported. Nothing is deleted.
pub fn bulk_plan(entries: &Vec<SourceEntry>, target: &str, scope: &str) -> (r: BulkPlan)
    ensures
        is_bulk_plan(r, entries@, target@, scope@),
{
    let ghost fc = |e: SourceEntry| entry_copy(e, target@, scope@);
    let ghost fs = |e: SourceEntry| entry_skipped(e);
    let ghost fm = |e: SourceEntry| entry_malformed(e, target@, scope@);
    let mut copies: Vec<SyncAction> = Vec::new();
    let mut skipped: Vec<String> = Vec::new();
    let mut malformed: Vec<String> = Vec::new();
    let mut i: usize = 0;
    while i < entries.len()
        invariant
            i <= entries@.len(),
            fc == (|e: SourceEntry| entry_copy(e, target@, scope@)),
            fs == (|e: SourceEntry| entry_skipped(e)),
            fm == (|e: SourceEntry| entry_malformed(e, target@, scope@)),
            actions_model(copies@) == entries@.subrange(0, i as int).filter_map(fc),
            paths_model(skipped@) == entries@.subrange(0, i as int).filter_map(fs),
            paths_model(malformed@) == entries@.subrange(0, i as int).filter_map(fm),
        decreases entries@.len() - i,
    {
        let e = &entries[i];
        let ghost before_c = copies@;
        let ghost before_s = skipped@;
        let ghost before_m = malformed@;
        let content: Option<&str> = match &e.content {
            Some(t) => Some(t.as_str()),
            None => None,
        };
        let kind = classify_entry(e.path.as_str(), content);
        match kind {
            EntryKind::NotWorkflow => skipped.push(e.path.clone()),
            EntryKind::Malformed => malformed.push(e.path.clone()),
            EntryKind::Valid(_) => match target_filename(e.path.as_str(), target, scope) {
                Some(t) => copies.push(SyncAction::Copy { source: e.path.clone(), target: t }),
                None => malformed.push(e.path.clone()),
            },
        }
        proof {
            let sub = entries@.subrange(0, i as int + 1);
            assert(sub.drop_last() =~= entries@.subrange(0, i as int));
            assert(sub.last() == *e);
            assert(actions_model(copies@) =~= sub.filter_map(fc));
            assert(paths_model(skipped@) =~= sub.filter_map(fs));
            assert(paths_model(malformed@) =~= sub.filter_map(fm));
        }
        i = i + 1;
    }
    assert(entries@.subrange(0, entries@.len() as int) =~= entries@);
    BulkPlan { copies, skipped, malformed }
}

/// Where a worker stands.
#[derive(Debug, Clone, Copy, PartialEq, Eq, Structural)]
pub enum Phase {
    /// Its scope is not settled yet.
    Initializing,
    /// It is to copy the source directory's workflow files.
    BulkSyncing,
    /// It turns change notifications into actions.
    Watching,
    /// It synchronised once and does not watch.
    Finished,
    /// An error ended it.
    Failed,
}

/// The worker of one workspace.
#[derive(Debug)]
pub struct SyncWorker {
    pub workspace: Workspace,
    /// The directory receiving the copies.
    pub target: String,
    /// Whether to watch after bulk synchronisation.
    pub watch: bool,
    pub phase: Phase,
}

fn empty_plan() -> (r: BulkPlan)
    ensures
        r.copies@.len() == 0,
        r.skipped@.len() == 0,
        r.malformed@.len() == 0,
{
    BulkPlan { copies: Vec::new(), skipped: Vec::new(), malformed: Vec::new() }
}

impl SyncWorker {
    /// A worker for `workspace`, copying into `target`.
    pub fn new(workspace: Workspace, target: &str, watch: bool) -> (r: SyncWorker)
        ensures
            r.workspace == workspace,
            r.target@ == target@,
            r.watch == watch,
            r.phase == Phase::Initializing,
    {
        SyncWorker { workspace, target: String::from_str(target), watch, phase: Phase::Initializing }
    }

    /// The scope the worker's copies are prefixed with.
    pub fn scope(&self) -> (r: &str)
        ensures
            r@ == self.workspace.name@,
    {
        self.workspace.name.as_str()
    }

    /// Settles the scope from the manifest text `manifest` (`None`: no
    /// manifest, or it could not be found), then moves on to bulk
    /// synchronisation; a manifest without a name fails the worker. Outside
    /// `Initializing` nothing changes.
    pub fn resolve_scope(&mut self, manifest: Option<&str>) -> (r: Result<(), WorkspaceError>)
        ensures
            final(self).target == old(self).target,
            final(self).watch == old(self).watch,
            old(self).phase == Phase::Initializing ==> {
                &&& loads_name(old(self).workspace, final(self).workspace, manifest, r)
                &&& final(self).phase == (if r is Ok {
                    Phase::BulkSyncing
                } else {
                    Phase::Failed
                })
            },
            old(self).phase != Phase::Initializing ==> *final(self) == *old(self) && r is Ok,
    {
        if self.phase != Phase::Initializing {
            return Ok(());
        }
        let r = self.workspace.load_name_if_possible(manifest);
        self.phase = match r {
            Ok(_) => Phase::BulkSyncing,
            Err(_) => Phase::Failed,
        };
        r
    }

    /// Plans the bulk synchronisation of the source directory, whose entries
    /// are `entries`, and moves on to `Watching`, or to `Finished` when not
    /// watching. Outside `BulkSyncing` the plan is empty and nothing changes.
    pub fn bulk_sync(&mut self, entries: &Vec<SourceEntry>) -> (r: BulkPlan)
        ensures
            final(self).workspace == old(self).workspace,
            final(self).target == old(self).target,
            final(self).watch == old(self).watch,
            old(self).phase == Phase::BulkSyncing ==> {
                &&& is_bulk_plan(r, entries@, old(self).target@, old(self).workspace.name@)
                &&& final(self).phase == (if old(self).watch {
                    Phase::Watching
                } else {
                    Phase::Finished
                })
            },
            old(self).phase != Phase::BulkSyncing ==> {
                &&& final(self).phase == old(self).phase
                &&& r.copies@.len() == 0
                &&& r.skipped@.len() == 0
                &&& r.malformed@.len() == 0
            },
    {
        if self.phase != Phase::BulkSyncing {
            return empty_plan();
        }
        let plan = bulk_plan(entries, self.target.as_str(), self.workspace.name.as_str());
        self.phase = if self.watch {
            Phase::Watching
        } else {
            Phase::Finished
        };
        plan
    }

    /// The reaction to notification `n` while watching; nothing in any other
    /// phase.
    pub fn on_notification(&self, n: &Notification) -> (r: Reaction)
        ensures
            self.phase == Phase::Watching ==> {
                &&& actions_model(r.actions@) == reaction_actions(
                    n.kind,
                    paths_model(n.paths@),
                    n.first_is_dir,
                    self.target@,
                    self.workspace.name@,
                )
                &&& r.warning == reaction_warning(
                    n.kind,
                    paths_model(n.paths@),
                    n.first_is_dir,
                    self.target@,
                    self.workspace.name@,
                )
            },
            self.phase != Phase::Watching ==> r.actions@.len() == 0 && r.warning is None,
    {
        if self.phase != Phase::Watching {
            return quiet();
        }
        react(n, self.target.as_str(), self.workspace.name.as_str())
    }

    /// Records that carrying out an action failed: the worker stops.
    pub fn fail(&mut self)
        ensures
            final(self).workspace == old(self).workspace,
            final(self).target == old(self).target,
            final(self).watch == old(self).watch,
            final(self).phase == Phase::Failed,
    {
        self.phase = Phase::Failed;
    }
}

} // verus!
