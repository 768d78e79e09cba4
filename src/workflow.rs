//! Recognising workflow files: a `yaml`/`yml` file whose document carries a
//! string `name` entry.
//!
//! A file whose extension does not match is "not a workflow"; one whose
//! extension matches but whose document cannot be read, does not parse or has
//! no string `name` is "malformed". Callers skip the first silently and warn
//! about the second.
use vstd::prelude::*;
use crate::paths::{extension, extension_of, str_equal};

verus! {

#[verifier::external_type_specification]
#[verifier::external_body]
pub struct ExYamlError(serde_yaml::Error);

#[verifier::external_type_specification]
#[verifier::external_body]
pub struct ExJsonError(serde_json::Error);

#[verifier::external_type_specification]
#[verifier::external_body]
pub struct ExIoError(std::io::Error);

/// A workflow definition, as far as synchronisation cares: its name.
#[derive(Debug, Clone)]
pub struct Workflow {
    pub name: String,
}

/// The document formats a configuration or workflow file may use.
#[derive(Debug, Clone, Copy, PartialEq, Eq, Structural)]
pub enum FileKind {
    JSON,
    YAML,
}

/// Why a document file could not be used.
#[derive(Debug)]
pub enum FileError {
    NotFound,
    UnsupportedExtension,
    InvalidYAMLSyntax(serde_yaml::Error),
    InvalidJSONSyntax(serde_json::Error),
    IO(std::io::Error),
}

pub open spec fn json_ext() -> Seq<char> {
    seq!['j', 's', 'o', 'n']
}

pub open spec fn yml_ext() -> Seq<char> {
    seq!['y', 'm', 'l']
}

pub open spec fn yaml_ext() -> Seq<char> {
    seq!['y', 'a', 'm', 'l']
}

/// The document format that a file with extension `ext` holds.
pub open spec fn kind_of_extension(ext: Option<Seq<char>>) -> Option<FileKind> {
    match ext {
        Some(e) => if e == json_ext() {
            Some(FileKind::JSON)
        } else if e == yml_ext() || e == yaml_ext() {
            Some(FileKind::YAML)
        } else {
            None
        },
        None => None,
    }
}

impl FileKind {
    /// The format of the file at `p`, read from its extension: `json`, or
    /// `yml` / `yaml`. Any other extension, or none, is unsupported.
    pub fn from_path(p: &str) -> (r: Result<FileKind, FileError>)
        ensures
            match kind_of_extension(extension(p@)) {
                Some(k) => r == Ok::<FileKind, FileError>(k),
                None => r matches Err(FileError::UnsupportedExtension),
            },
    {
        proof {
            reveal_strlit("json");
            reveal_strlit("yml");
            reveal_strlit("yaml");
            assert("json"@ =~= json_ext());
            assert("yml"@ =~= yml_ext());
            assert("yaml"@ =~= yaml_ext());
        }
        match extension_of(p) {
            Some(ext) => {
                if str_equal(ext.as_str(), "json") {
                    Ok(FileKind::JSON)
                } else if str_equal(ext.as_str(), "yml") || str_equal(ext.as_str(), "yaml") {
                    Ok(FileKind::YAML)
                } else {
                    Err(FileError::UnsupportedExtension)
                }
            },
            None => Err(FileError::UnsupportedExtension),
        }
    }
}

impl From<serde_yaml::Error> for FileError {
    fn from(e: serde_yaml::Error) -> (r: FileError) {
        FileError::InvalidYAMLSyntax(e)
    }
}

impl vstd::std_specs::convert::FromSpecImpl<serde_yaml::Error> for FileError {
    open spec fn obeys_from_spec() -> bool {
        true
    }

    open spec fn from_spec(e: serde_yaml::Error) -> FileError {
        FileError::InvalidYAMLSyntax(e)
    }
}

impl From<serde_json::Error> for FileError {
    fn from(e: serde_json::Error) -> (r: FileError) {
        FileError::InvalidJSONSyntax(e)
    }
}

impl vstd::std_specs::convert::FromSpecImpl<serde_json::Error> for FileError {
    open spec fn obeys_from_spec() -> bool {
        true
    }

    open spec fn from_spec(e: serde_json::Error) -> FileError {
        FileError::InvalidJSONSyntax(e)
    }
}

/// The top-level `name` entry of a YAML document, when the text parses and
/// that entry is a string.
pub uninterp spec fn yaml_name_entry(text: Seq<char>) -> Option<Seq<char>>;

/// Relies on serde_yaml::from_str (into a serde_yaml::Value), then
/// Value::get("name") and Value::as_str: the document's `name` entry when the
/// text parses and the entry is a string. The outcome depends on the text alone.
#[verifier::external_body]
fn read_name_entry(text: &str) -> (r: Option<String>)
    ensures
        r.deep_view() == yaml_name_entry(text@),
{
    match serde_yaml::from_str::<serde_yaml::Value>(text) {
        Ok(doc) => doc.get("name").and_then(serde_yaml::Value::as_str).map(String::from),
        Err(_) => None,
    }
}

/// What a directory entry is to the synchroniser.
#[derive(Debug, Clone)]
pub enum EntryKind {
    /// Its extension is not `yaml` / `yml`.
    NotWorkflow,
    /// Its extension matches, but it holds no readable document with a string
    /// `name`.
    Malformed,
    /// A workflow file with this definition.
    Valid(Workflow),
}

/// Whether `p` has a workflow file's extension.
pub open spec fn has_workflow_extension(p: Seq<char>) -> bool {
    extension(p) == Some(yaml_ext()) || extension(p) == Some(yml_ext())
}

/// Whether `r` is the kind of the entry at `p` whose document has
/// `name_entry` as its string `name` (`None`: unreadable, unparsable, or
/// without one).
pub open spec fn is_entry_kind(r: EntryKind, p: Seq<char>, name_entry: Option<Seq<char>>) -> bool {
    if !has_workflow_extension(p) {
        r is NotWorkflow
    } else {
        match name_entry {
            Some(n) => r matches EntryKind::Valid(w) && w.name@ == n,
            None => r is Malformed,
        }
    }
}

/// Whether the entry at `path` has a workflow file's extension.
pub fn has_workflow_ext(path: &str) -> (r: bool)
    ensures
        r == has_workflow_extension(path@),
{
    proof {
        reveal_strlit("yml");
        reveal_strlit("yaml");
        assert("yml"@ =~= yml_ext());
        assert("yaml"@ =~= yaml_ext());
    }
    match extension_of(path) {
        Some(ext) => str_equal(ext.as_str(), "yaml") || str_equal(ext.as_str(), "yml"),
        None => false,
    }
}

/// The kind of the entry at `path`, given the string `name` entry read from
/// its document (`None` when it could not be read or has none).
pub fn entry_kind(path: &str, name_entry: Option<String>) -> (r: EntryKind)
    ensures
        is_entry_kind(r, path@, name_entry.deep_view()),
{
    if !has_workflow_ext(path) {
        return EntryKind::NotWorkflow;
    }
    match name_entry {
        Some(name) => EntryKind::Valid(Workflow { name }),
        None => EntryKind::Malformed,
    }
}

/// Classifies the entry at `path` whose text is `content` (`None` when it
/// could not be read as text).
pub fn classify_entry(path: &str, content: Option<&str>) -> (r: EntryKind)
    ensures
        is_entry_kind(
            r,
            path@,
            match content {
                Some(t) => yaml_name_entry(t@),
                None => None,
            },
        ),
{
    if !has_workflow_ext(path) {
        return EntryKind::NotWorkflow;
    }
    let name_entry = match content {
        Some(text) => read_name_entry(text),
        None => None,
    };
    entry_kind(path, name_entry)
}

/// Whether the entry at `path` with text `content` is a workflow file to
/// synchronise.
pub fn is_workflow_file(filepath: &str, content: Option<&str>) -> (r: bool)
    ensures
        r == (has_workflow_extension(filepath@) && match content {
            Some(t) => yaml_name_entry(t@) is Some,
            None => false,
        }),
{
    let kind = classify_entry(filepath, content);
    match kind {
        EntryKind::Valid(_) => true,
        _ => false,
    }
}

} // verus!
