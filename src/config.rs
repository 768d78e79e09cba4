//! Workspaces and the configuration that lists them.
//!
//! A workspace's name is its scope: the prefix that keeps its copies apart
//! from those of other workspaces in the shared target directory. Scopes must
//! be filename-safe and unique; `Config::validate_workspaces` checks both
//! before any worker starts.
use vstd::prelude::*;
use crate::paths::{str_equal, scoped_path};

verus! {

/// A source directory of workflow files.
#[derive(Debug)]
pub struct Workspace {
    /// The scope: the prefix of this workspace's copies.
    pub name: String,
    /// The directory whose workflow files are synchronised.
    pub path: String,
    /// A `package.json` file, or a directory holding one, whose `name` takes
    /// the place of `name` when it can be read.
    pub package_json: Option<String>,
}

/// Why a workspace cannot be used.
#[derive(Debug, Clone)]
pub enum WorkspaceError {
    /// The name is not filename-safe (it holds a space or a `/`).
    InvalidName(String),
    /// The directory does not exist.
    InvalidPath(String),
    /// Another workspace before it has the same name.
    DuplicateName(String),
    /// The manifest at this path holds no string `name`.
    InvalidManifest(String),
}

/// The workspaces to synchronise and the directory receiving the copies.
#[derive(Debug)]
pub struct Config {
    pub workspaces: Vec<Workspace>,
    pub target: String,
}

/// A `pnpm-workspace.yaml` document: the package globs of a monorepo.
#[derive(Debug, Clone)]
pub struct PnpmWorkspace {
    pub packages: Vec<String>,
}

/// A name that may serve as a scope: it holds no space and no `/`.
pub open spec fn valid_scope(n: Seq<char>) -> bool {
    !n.contains(' ') && !n.contains('/')
}

/// Whether a workspace before the `i`-th has the `i`-th's name.
pub open spec fn name_taken(ws: Seq<Workspace>, i: int) -> bool {
    exists|j: int| 0 <= j < i && #[trigger] ws[j].name@ == ws[i].name@
}

/// Whether the `i`-th workspace passes validation.
pub open spec fn workspace_ok(ws: Seq<Workspace>, i: int) -> bool {
    valid_scope(ws[i].name@) && !name_taken(ws, i)
}

/// Whether `e` is the error that the `i`-th workspace fails validation with.
pub open spec fn is_error_at(e: WorkspaceError, ws: Seq<Workspace>, i: int) -> bool {
    if !valid_scope(ws[i].name@) {
        e matches WorkspaceError::InvalidName(n) && n@ == ws[i].name@
    } else {
        e matches WorkspaceError::DuplicateName(n) && n@ == ws[i].name@
    }
}

/// Whether every workspace passes validation.
pub open spec fn all_valid(ws: Seq<Workspace>) -> bool {
    forall|i: int| 0 <= i < ws.len() ==> workspace_ok(ws, i)
}

/// Whether `e` is the error of the first workspace that fails validation.
pub open spec fn first_error(ws: Seq<Workspace>, e: WorkspaceError) -> bool {
    exists|i: int|
        0 <= i < ws.len() && (forall|k: int| 0 <= k < i ==> workspace_ok(ws, k)) && !workspace_ok(ws, i)
            && is_error_at(e, ws, i)
}

/// Whether the scope selector lets workspace `w` through: no selector lets
/// every one through, a selector only the workspace named exactly so.
pub open spec fn selects(selector: Option<Seq<char>>, w: Workspace) -> bool {
    match selector {
        Some(s) => w.name@ == s,
        None => true,
    }
}

fn contains_char(s: &str, c: char) -> (r: bool)
    ensures
        r == s@.contains(c),
{
    let n = s.unicode_len();
    let mut i: usize = 0;
    while i < n
        invariant
            i <= n,
            n == s@.len(),
            forall|k: int| 0 <= k < i ==> s@[k] != c,
        decreases n - i,
    {
        if s.get_char(i) == c {
            return true;
        }
        i = i + 1;
    }
    false
}

impl Workspace {
    /// A copy of this workspace.
    pub fn duplicate(&self) -> (r: Workspace)
        ensures
            r == *self,
    {
        let package_json = match &self.package_json {
            Some(p) => Some(p.clone()),
            None => None,
        };
        Workspace { name: self.name.clone(), path: self.path.clone(), package_json }
    }

    /// Checks that the name can serve as a scope.
    pub fn validate_name(&self) -> (r: Result<(), WorkspaceError>)
        ensures
            valid_scope(self.name@) ==> r is Ok,
            !valid_scope(self.name@) ==> (r matches Err(WorkspaceError::InvalidName(n)) && n@
                == self.name@),
    {
        if contains_char(self.name.as_str(), ' ') || contains_char(self.name.as_str(), '/') {
            return Err(WorkspaceError::InvalidName(self.name.clone()));
        }
        Ok(())
    }

    /// The manifest file to read the name from: `package_json` itself, or the
    /// `package.json` inside it when it is a directory.
    pub fn manifest_file(&self, package_json_is_dir: bool) -> (r: Option<String>)
        ensures
            match self.package_json {
                Some(p) => r is Some && r->0@ == (if package_json_is_dir {
                    p@ + seq!['/', 'p', 'a', 'c', 'k', 'a', 'g', 'e', '.', 'j', 's', 'o', 'n']
                } else {
                    p@
                }),
                None => r is None,
            },
    {
        match &self.package_json {
            Some(p) => {
                if package_json_is_dir {
                    let mut f = p.clone();
                    f.append("/package.json");
                    proof {
                        reveal_strlit("/package.json");
                        assert("/package.json"@ =~= seq![
                            '/',
                            'p',
                            'a',
                            'c',
                            'k',
                            'a',
                            'g',
                            'e',
                            '.',
                            'j',
                            's',
                            'o',
                            'n',
                        ]);
                    }
                    Some(f)
                } else {
                    Some(p.clone())
                }
            },
            None => None,
        }
    }
}

/// The top-level `name` entry of a JSON document, when the text parses and
/// that entry is a string.
pub uninterp spec fn json_name_entry(text: Seq<char>) -> Option<Seq<char>>;

/// Relies on serde_json::from_str (into a serde_json::Value), then
/// Value::get("name") and Value::as_str: the document's `name` entry when the
/// text parses and the entry is a string. The outcome depends on the text alone.
#[verifier::external_body]
fn read_package_name(text: &str) -> (r: Option<String>)
    ensures
        r.deep_view() == json_name_entry(text@),
{
    match serde_json::from_str::<serde_json::Value>(text) {
        Ok(doc) => doc.get("name").and_then(serde_json::Value::as_str).map(String::from),
        Err(_) => None,
    }
}

/// Whether reading the manifest text `manifest` took workspace `before` to
/// `after` with outcome `r`.
pub open spec fn loads_name(
    before: Workspace,
    after: Workspace,
    manifest: Option<&str>,
    r: Result<(), WorkspaceError>,
) -> bool {
    &&& after.path == before.path
    &&& after.package_json == before.package_json
    &&& match (before.package_json, manifest) {
        (Some(p), Some(t)) => match json_name_entry(t@) {
            Some(n) => after.name@ == n && r is Ok,
            None => after.name == before.name && (r matches Err(WorkspaceError::InvalidManifest(m))
                && m@ == p@),
        },
        _ => after.name == before.name && r is Ok,
    }
}

impl Workspace {
    /// Takes the workspace's name from the `name` entry `name_entry` read from
    /// its manifest (`None`: the manifest holds none).
    pub fn apply_manifest_name(&mut self, name_entry: Option<String>) -> (r: Result<(), WorkspaceError>)
        ensures
            final(self).path == old(self).path,
            final(self).package_json == old(self).package_json,
            match name_entry {
                Some(n) => final(self).name == n && r is Ok,
                None => final(self).name == old(self).name && match old(self).package_json {
                    Some(p) => r matches Err(WorkspaceError::InvalidManifest(m)) && m@ == p@,
                    None => r is Ok,
                },
            },
    {
        match name_entry {
            Some(n) => {
                self.name = n;
                Ok(())
            },
            None => match &self.package_json {
                Some(p) => Err(WorkspaceError::InvalidManifest(p.clone())),
                None => Ok(()),
            },
        }
    }

    /// Takes the workspace's name from its manifest, whose text is `manifest`.
    /// Without a configured manifest, or when it could not be found (`None`),
    /// the name stays; a manifest without a string `name` is an error and
    /// leaves the name as it was.
    pub fn load_name_if_possible(&mut self, manifest: Option<&str>) -> (r: Result<(), WorkspaceError>)
        ensures
            loads_name(*old(self), *final(self), manifest, r),
    {
        if self.package_json.is_none() {
            return Ok(());
        }
        match manifest {
            Some(text) => {
                let name_entry = read_package_name(text);
                self.apply_manifest_name(name_entry)
            },
            None => Ok(()),
        }
    }
}

impl Config {
    /// A configuration with no workspaces, copying into `target`.
    pub fn new(target: &str) -> (r: Config)
        ensures
            r.target@ == target@,
            r.workspaces@.len() == 0,
    {
        Config { target: String::from_str(target), workspaces: Vec::new() }
    }

    /// Checks every workspace in order: its name must be a valid scope and
    /// differ from the names of those before it. The first that fails gives
    /// the error.
    pub fn validate_workspaces(&self) -> (r: Result<(), WorkspaceError>)
        ensures
            r is Ok <==> all_valid(self.workspaces@),
            r matches Err(e) ==> first_error(self.workspaces@, e),
    {
        let ws = &self.workspaces;
        let mut i: usize = 0;
        while i < ws.len()
            invariant
                ws == &self.workspaces,
                i <= ws@.len(),
                forall|k: int| 0 <= k < i ==> workspace_ok(ws@, k),
            decreases ws@.len() - i,
        {
            let w = &ws[i];
            if let Err(e) = w.validate_name() {
                assert(!workspace_ok(ws@, i as int));
                assert(is_error_at(e, ws@, i as int));
                return Err(e);
            }
            let mut j: usize = 0;
            while j < i
                invariant
                    ws == &self.workspaces,
                    j <= i < ws@.len(),
                    *w == ws@[i as int],
                    valid_scope(w.name@),
                    forall|k: int| 0 <= k < i ==> workspace_ok(ws@, k),
                    forall|k: int| 0 <= k < j ==> ws@[k].name@ != ws@[i as int].name@,
                decreases i - j,
            {
                if str_equal(ws[j].name.as_str(), w.name.as_str()) {
                    assert(ws@[j as int].name@ == ws@[i as int].name@);
                    assert(name_taken(ws@, i as int));
                    assert(!workspace_ok(ws@, i as int));
                    return Err(WorkspaceError::DuplicateName(w.name.clone()));
                }
                j = j + 1;
            }
            i = i + 1;
        }
        Ok(())
    }

    /// The workspaces that `scope` selects, in order: all of them without a
    /// selector, else those whose name equals it exactly.
    pub fn select_workspaces(&self, scope: Option<&str>) -> (r: Vec<Workspace>)
        ensures
            r@ == self.workspaces@.filter(|w: Workspace| selects(scope.deep_view(), w)),
    {
        let ghost pred = |w: Workspace| selects(scope.deep_view(), w);
        let ws = &self.workspaces;
        let mut r: Vec<Workspace> = Vec::new();
        let mut i: usize = 0;
        while i < ws.len()
            invariant
                ws == &self.workspaces,
                pred == (|w: Workspace| selects(scope.deep_view(), w)),
                i <= ws@.len(),
                r@ == ws@.subrange(0, i as int).filter(pred),
            decreases ws@.len() - i,
        {
            let keep = match scope {
                Some(s) => str_equal(ws[i].name.as_str(), s),
                None => true,
            };
            let ghost before = r@;
            if keep {
                r.push(ws[i].duplicate());
            }
            proof {
                let sub = ws@.subrange(0, i as int + 1);
                assert(sub.drop_last() =~= ws@.subrange(0, i as int));
                assert(sub.last() == ws@[i as int]);
                reveal(Seq::filter);
                assert(sub.filter(pred) == (if pred(sub.last()) {
                    before.push(sub.last())
                } else {
                    before
                }));
            }
            i = i + 1;
        }
        assert(ws@.subrange(0, ws@.len() as int) =~= ws@);
        r
    }
}

} // verus!
