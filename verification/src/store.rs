//! The two operations of the store: save the document, load it again.
//!
//! Each takes what the system reported of the process, resolves the
//! candidates from it and hands back the first step of the run.

use vstd::prelude::*;
use crate::error::{text_view, Failure};
use crate::load::{begin_load, Loading, LoadStep};
use crate::paths::{candidate_paths, document_paths, documents_in, resolve};
use crate::save::{begin_save, Saving, SaveStep};

verus! {

/// The first step of saving `content` for a process with the working
/// directory `cwd` and the executable `exe`.
pub open spec fn save_from(
    cwd: Result<Seq<char>, Seq<char>>,
    exe: Option<Seq<char>>,
    content: Seq<char>,
) -> Saving {
    match cwd {
        Ok(dir) => Saving::start(candidate_paths(dir, exe), content),
        Err(cause) => Saving::Done(Err(Failure::Environment { cause })),
    }
}

/// The first step of loading for a process with the working directory `cwd`
/// and the executable `exe`.
pub open spec fn load_from(cwd: Result<Seq<char>, Seq<char>>, exe: Option<Seq<char>>) -> Loading {
    match cwd {
        Ok(dir) => Loading::start(documents_in(candidate_paths(dir, exe))),
        Err(cause) => Loading::Done(Err(Failure::Environment { cause })),
    }
}

/// Starts saving `content`, all of it, as the one configuration document.
///
/// `cwd` is the working directory, or the system's words for why it is
/// unknown; `exe` is the path of the running executable where it is known.
/// An unknown working directory ends the save at once.
pub fn save_config_templates(
    cwd: Result<String, String>,
    exe: Option<String>,
    content: String,
) -> (step: SaveStep)
    ensures
        step@ == save_from(text_view(cwd), exe.deep_view(), content@),
{
    match resolve(cwd, exe) {
        Ok(dirs) => begin_save(dirs, content),
        Err(e) => SaveStep::Done(Err(e)),
    }
}

/// Starts loading the configuration document.
///
/// `cwd` and `exe` are as for `save_config_templates`. An unknown working
/// directory ends the load at once.
pub fn load_config_templates(cwd: Result<String, String>, exe: Option<String>) -> (step: LoadStep)
    ensures
        step@ == load_from(text_view(cwd), exe.deep_view()),
{
    match resolve(cwd, exe) {
        Ok(dirs) => begin_load(document_paths(&dirs)),
        Err(e) => LoadStep::Done(Err(e)),
    }
}

} // verus!
