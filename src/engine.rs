//! Starting the synchronisation: the decisions of the orchestrator and of the
//! configuration watcher.
//!
//! The configuration is read once. Its workspaces are validated before any
//! worker exists, so that the scopes that keep the workers' writes apart are
//! known to be distinct; then one worker is made per selected workspace.
use vstd::prelude::*;
use crate::config::{Config, Workspace, WorkspaceError, all_valid, first_error, selects};
use crate::sync::{ChangeKind, Notification, Phase, SyncWorker};

verus! {

/// The workspaces that `scope` selects from `config`, in order.
pub open spec fn selected(config: Config, scope: Option<&str>) -> Seq<Workspace> {
    config.workspaces@.filter(|w: Workspace| selects(scope.deep_view(), w))
}

/// Validates `config`, keeps the workspaces that `scope` selects and makes
/// one worker for each, copying into the configured target.
pub fn plan_workers(config: &Config, scope: Option<&str>, watch: bool) -> (r: Result<
    Vec<SyncWorker>,
    WorkspaceError,
>)
    ensures
        r is Ok <==> all_valid(config.workspaces@),
        r matches Err(e) ==> first_error(config.workspaces@, e),
        r matches Ok(workers) ==> {
            &&& workers@.len() == selected(*config, scope).len()
            &&& forall|i: int|
                0 <= i < workers@.len() ==> {
                    &&& (#[trigger] workers@[i]).workspace == selected(*config, scope)[i]
                    &&& workers@[i].target@ == config.target@
                    &&& workers@[i].watch == watch
                    &&& workers@[i].phase == Phase::Initializing
                }
        },
{
    if let Err(e) = config.validate_workspaces() {
        return Err(e);
    }
    let mut chosen = config.select_workspaces(scope);
    let ghost sel = chosen@;
    let mut workers: Vec<SyncWorker> = Vec::new();
    let mut remaining: usize = chosen.len();
    // Workers are built from the back, so that each workspace moves out of
    // `chosen` without a copy and its worker goes in front of the others.
    while remaining > 0
        invariant
            remaining <= sel.len(),
            chosen@ == sel.subrange(0, remaining as int),
            workers@.len() == sel.len() - remaining,
            forall|i: int|
                0 <= i < workers@.len() ==> {
                    &&& (#[trigger] workers@[i]).workspace == sel[remaining + i]
                    &&& workers@[i].target@ == config.target@
                    &&& workers@[i].watch == watch
                    &&& workers@[i].phase == Phase::Initializing
                },
        decreases remaining,
    {
        let w = chosen.pop().unwrap();
        workers.insert(0, SyncWorker::new(w, config.target.as_str(), watch));
        remaining = remaining - 1;
    }
    Ok(workers)
}

/// Whether notification `n` on the configuration file calls for a restart:
/// the configuration is read once, so a change of its content only takes
/// effect after one.
pub fn restart_required(n: &Notification) -> (r: bool)
    ensures
        r == (n.kind == ChangeKind::ContentModified),
{
    n.kind == ChangeKind::ContentModified
}

} // verus!
