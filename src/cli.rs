//! The command line, as the library sees it once it is parsed.
use vstd::prelude::*;

verus! {

/// Flags of the `copy` command.
#[derive(Debug, Clone)]
pub struct CopyFlags {
    /// Keep watching the workspaces after copying.
    pub watch: bool,
}

/// Flags of the `init` command.
#[derive(Debug, Clone)]
pub struct InitFlags {
    /// Write the configuration as JSON instead of YAML.
    pub json: bool,
    /// Discover the workspaces from `pnpm-workspace.yaml` or `package.json`.
    pub read_env: bool,
    /// The workflows directory inside each workspace.
    pub workflows: Option<String>,
}

/// The commands.
#[derive(Debug, Clone)]
pub enum Action {
    /// Delete the copies.
    Clean,
    /// Write a configuration file.
    Init(InitFlags),
    /// Copy the workflow files to the target, and maybe keep watching.
    Copy(CopyFlags),
    /// List the copies in the target.
    List,
}

/// The parsed command line.
#[derive(Debug, Clone)]
pub struct Args {
    /// The configuration file.
    pub config: Option<String>,
    pub action: Option<Action>,
    /// Restrict the work to the workspace with this name.
    pub scope: Option<String>,
}

/// The configuration file read when none is given.
pub open spec fn default_config_file() -> Seq<char> {
    seq!['h', 'a', 'w', 'k', '-', 'c', 'o', 'n', 'f', 'i', 'g', '.', 'y', 'a', 'm', 'l']
}

impl Args {
    /// The configuration file to read: the one given, else
    /// `hawk-config.yaml`.
    pub fn config_file(&self) -> (r: String)
        ensures
            r@ == match self.config {
                Some(c) => c@,
                None => default_config_file(),
            },
    {
        match &self.config {
            Some(c) => c.clone(),
            None => {
                proof {
                    reveal_strlit("hawk-config.yaml");
                    assert("hawk-config.yaml"@ =~= default_config_file());
                }
                String::from_str("hawk-config.yaml")
            },
        }
    }

    /// Whether the command needs an existing configuration file: all but
    /// `init` do.
    pub fn needs_config(&self) -> (r: bool)
        ensures
            r == !(self.action matches Some(Action::Init(_))),
    {
        match &self.action {
            Some(Action::Init(_)) => false,
            _ => true,
        }
    }

    /// Whether the workspaces are to be watched after copying: only
    /// `copy --watch` asks for it.
    pub fn watch(&self) -> (r: bool)
        ensures
            r == (self.action matches Some(Action::Copy(f)) && f.watch),
    {
        match &self.action {
            Some(Action::Copy(f)) => f.watch,
            _ => false,
        }
    }
}

} // verus!
