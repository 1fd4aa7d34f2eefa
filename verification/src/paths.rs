//! Where the configuration document may live.

use vstd::prelude::*;
use crate::error::{text_view, Failure, StoreError};

verus! {

/// What `std::path::Path::join` makes of a base path and a path to adjoin,
/// both given as text. Separators, roots and prefixes follow the rules of
/// the platform that the library is built for.
pub uninterp spec fn joined(base: Seq<char>, segment: Seq<char>) -> Seq<char>;

/// What `std::path::Path::parent` makes of a path given as text: the path
/// without its last component, or `None` where it has none to drop. What
/// counts as a component follows the rules of the platform that the library
/// is built for.
pub uninterp spec fn parent_of(path: Seq<char>) -> Option<Seq<char>>;

/// `std::path::Path::join`, on text.
///
/// Claims only that the result is the one `joined` names: the same base and
/// segment always give the same path. The result is valid Unicode because
/// both inputs are and `join` adds at most a separator between them, so the
/// conversion back to a `String` replaces nothing.
#[verifier::external_body]
pub(crate) fn join(base: &str, segment: &str) -> (path: String)
    ensures
        path@ == joined(base@, segment@),
{
    std::path::Path::new(base).join(segment).to_string_lossy().into_owned()
}

/// `std::path::Path::parent`, on text.
///
/// Claims only that the result is the one `parent_of` names. A parent is a
/// leading part of the path that ends where a component ends, so it is valid
/// Unicode when the path is, and the conversion back to a `String` replaces
/// nothing.
#[verifier::external_body]
pub(crate) fn parent(path: &str) -> (up: Option<String>)
    ensures
        up.deep_view() == parent_of(path@),
{
    match std::path::Path::new(path).parent() {
        Some(p) => Some(p.to_string_lossy().into_owned()),
        None => None,
    }
}

/// The name of the file that holds the document.
pub open spec fn document_name() -> Seq<char> {
    "config-templates.json"@
}

/// The data directory below a project root: `<root>/src/data`.
pub open spec fn data_dir_under(root: Seq<char>) -> Seq<char> {
    joined(joined(root, "src"@), "data"@)
}

/// The path of the document inside a data directory.
pub open spec fn document_in(dir: Seq<char>) -> Seq<char> {
    joined(dir, document_name())
}

/// The candidate that a project root contributes, if there is a root.
pub open spec fn candidate_under(root: Option<Seq<char>>) -> Seq<Seq<char>> {
    match root {
        Some(r) => seq![data_dir_under(r)],
        None => Seq::empty(),
    }
}

/// The directory two levels above the executable: the parent of the directory
/// that holds it. `None` where the executable's path is unknown or too short.
pub open spec fn root_above_executable(exe: Option<Seq<char>>) -> Option<Seq<char>> {
    match exe {
        Some(e) => match parent_of(e) {
            Some(exe_dir) => parent_of(exe_dir),
            None => None,
        },
        None => None,
    }
}

/// The candidate data directories, first choice first:
/// below the working directory; below its parent, if it has one;
/// below the directory two levels above the executable, if that is known.
/// Equal paths are kept, each in its place.
pub open spec fn candidate_paths(cwd: Seq<char>, exe: Option<Seq<char>>) -> Seq<Seq<char>> {
    seq![data_dir_under(cwd)]
        + candidate_under(parent_of(cwd))
        + candidate_under(root_above_executable(exe))
}

/// The document path of each directory of a list, in the same order.
pub open spec fn documents_in(dirs: Seq<Seq<char>>) -> Seq<Seq<char>> {
    Seq::new(dirs.len(), |i: int| document_in(dirs[i]))
}

/// How many entries of `list` stand at `index` or after it: what a scan
/// that has come to `index` has still to look at.
pub open spec fn entries_from(list: Seq<Seq<char>>, index: int) -> nat {
    if index < list.len() {
        (list.len() - index) as nat
    } else {
        0
    }
}

/// Builds `<root>/src/data`.
pub fn data_dir(root: &str) -> (dir: String)
    ensures
        dir@ == data_dir_under(root@),
{
    let src = join(root, "src");
    join(src.as_str(), "data")
}

/// Builds the path of the document inside `dir`.
pub fn document_path(dir: &str) -> (file: String)
    ensures
        file@ == document_in(dir@),
{
    join(dir, "config-templates.json")
}

/// Lists the candidate data directories for a working directory and, where it
/// is known, the path of the running executable.
///
/// The list depends on these two values alone, so the same values always give
/// the same candidates in the same order.
pub fn candidate_dirs(cwd: &str, exe: Option<&str>) -> (dirs: Vec<String>)
    ensures
        dirs.deep_view() == candidate_paths(cwd@, exe.deep_view()),
{
    let mut dirs: Vec<String> = Vec::new();
    dirs.push(data_dir(cwd));
    if let Some(up) = parent(cwd) {
        dirs.push(data_dir(up.as_str()));
    }
    if let Some(exe_path) = exe {
        if let Some(exe_dir) = parent(exe_path) {
            if let Some(root) = parent(exe_dir.as_str()) {
                dirs.push(data_dir(root.as_str()));
            }
        }
    }
    dirs
}

/// Turns a list of data directories into the list of their document paths.
pub fn document_paths(dirs: &Vec<String>) -> (files: Vec<String>)
    ensures
        files.deep_view() == documents_in(dirs.deep_view()),
{
    let mut files: Vec<String> = Vec::new();
    let mut i: usize = 0;
    while i < dirs.len()
        invariant
            i <= dirs.len(),
            files.len() == i,
            forall|k: int| 0 <= k < i ==> files[k]@ == document_in(#[trigger] dirs[k]@),
        decreases dirs.len() - i,
    {
        files.push(document_path(dirs[i].as_str()));
        i = i + 1;
    }
    files
}

/// The candidates for a working directory as the system reported it: the
/// list of `candidate_paths` where it is known, and a failure with the
/// system's words where it is not. An unknown executable costs one candidate
/// and is no failure.
pub open spec fn resolved(cwd: Result<Seq<char>, Seq<char>>, exe: Option<Seq<char>>) -> Result<
    Seq<Seq<char>>,
    Failure,
> {
    match cwd {
        Ok(dir) => Ok(candidate_paths(dir, exe)),
        Err(cause) => Err(Failure::Environment { cause }),
    }
}

/// The view of a list of candidates or of the failure to make one.
pub open spec fn resolution_view(found: Result<Vec<String>, StoreError>) -> Result<
    Seq<Seq<char>>,
    Failure,
> {
    match found {
        Ok(dirs) => Ok(dirs.deep_view()),
        Err(e) => Err(e@),
    }
}

/// Lists the candidate data directories from what the system reported:
/// `cwd` is the working directory or the reason why it is unknown, `exe` the
/// path of the running executable where that is known.
pub fn resolve(cwd: Result<String, String>, exe: Option<String>) -> (found: Result<
    Vec<String>,
    StoreError,
>)
    ensures
        resolution_view(found) == resolved(text_view(cwd), exe.deep_view()),
{
    match cwd {
        Ok(dir) => {
            let dirs = match &exe {
                Some(path) => candidate_dirs(dir.as_str(), Some(path.as_str())),
                None => candidate_dirs(dir.as_str(), None),
            };
            Ok(dirs)
        },
        Err(cause) => Err(StoreError::Environment { cause }),
    }
}

} // verus!
