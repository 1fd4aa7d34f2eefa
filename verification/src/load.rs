//! Loading the document, one step at a time.
//!
//! A load scans the candidate document paths in order and reads the first
//! one that is found on disk. Where none is found it hands back the empty
//! document: that no document was ever saved is not an error. As for a save,
//! each `LoadStep` names one request for the caller to carry out.

use vstd::prelude::*;
use crate::error::{document_view, text_view, Action, Failure, StoreError};
use crate::paths::entries_from;

verus! {

/// The document that stands for "no templates".
pub open spec fn empty_document() -> Seq<char> {
    "{\"templates\":[]}"@
}

/// In contracts, a load that asks whether the document path `index` is
/// found.
pub struct Seeking {
    pub files: Seq<Seq<char>>,
    pub index: int,
}

/// In contracts, a load that asks for the text of `file`.
pub struct Reading {
    pub file: Seq<char>,
}

/// In contracts, a load: the request it waits on, or its outcome.
pub enum Loading {
    Probe(Seeking),
    Read(Reading),
    Done(Result<Seq<char>, Failure>),
}

impl Seeking {
    /// The path that is asked about.
    pub open spec fn subject(self) -> Seq<char> {
        self.files[self.index]
    }

    /// The load after the probe was answered: a path that is found is the
    /// one to read, and no later path is looked at.
    pub open spec fn answered(self, found: bool) -> Loading {
        if found {
            Loading::Read(Reading { file: self.files[self.index] })
        } else {
            Loading::scan(self.files, self.index + 1)
        }
    }
}

impl Reading {
    /// The load after the disk answered: over, with the text as it was read
    /// or with the file's path and the system's words. A file that was
    /// found and cannot be read is an error; the scan does not go on past it.
    pub open spec fn answered(self, reply: Result<Seq<char>, Seq<char>>) -> Loading {
        match reply {
            Ok(text) => Loading::Done(Ok(text)),
            Err(cause) => Loading::Done(
                Err(Failure::Io { action: Action::ReadFile, path: self.file, cause }),
            ),
        }
    }
}

impl Loading {
    /// The load that turns to document path `index`, or settles for the
    /// empty document where the paths are exhausted.
    pub open spec fn scan(files: Seq<Seq<char>>, index: int) -> Loading {
        if 0 <= index < files.len() {
            Loading::Probe(Seeking { files, index })
        } else {
            Loading::Done(Ok(empty_document()))
        }
    }

    /// The first step of a load over the document paths `files`.
    pub open spec fn start(files: Seq<Seq<char>>) -> Loading {
        Loading::scan(files, 0)
    }

    /// A bound on the requests that this load can still make.
    pub open spec fn steps_left(self) -> nat {
        match self {
            Loading::Probe(seeking) => entries_from(seeking.files, seeking.index) + 2,
            Loading::Read(_) => 1,
            Loading::Done(_) => 0,
        }
    }
}

/// A load that waits to hear whether a document path is found on disk.
pub struct LoadProbe {
    files: Vec<String>,
    index: usize,
}

/// A load that waits for the text of the document.
pub struct LoadRead {
    file: String,
}

/// What a load needs next from its caller, or how it ended.
pub enum LoadStep {
    /// Tell whether `path()` is found, be it a directory or a file.
    Probe(LoadProbe),
    /// Read the file `path()` as text.
    Read(LoadRead),
    /// The load is over.
    Done(Result<String, StoreError>),
}

impl View for LoadProbe {
    type V = Seeking;

    closed spec fn view(&self) -> Seeking {
        Seeking { files: self.files.deep_view(), index: self.index as int }
    }
}

impl View for LoadRead {
    type V = Reading;

    closed spec fn view(&self) -> Reading {
        Reading { file: self.file@ }
    }
}

impl View for LoadStep {
    type V = Loading;

    open spec fn view(&self) -> Loading {
        match self {
            LoadStep::Probe(probe) => Loading::Probe(probe@),
            LoadStep::Read(read) => Loading::Read(read@),
            LoadStep::Done(outcome) => Loading::Done(document_view(*outcome)),
        }
    }
}

impl LoadProbe {
    #[verifier::type_invariant]
    spec fn well_formed(self) -> bool {
        self.index < self.files.len()
    }

    /// The path to look for.
    pub fn path(&self) -> (path: &str)
        ensures
            path@ == self@.subject(),
    {
        proof {
            use_type_invariant(self);
        }
        self.files[self.index].as_str()
    }

    /// Takes the answer to the probe and gives the next step.
    pub fn answer(self, found: bool) -> (next: LoadStep)
        ensures
            next@ == self@.answered(found),
    {
        proof {
            use_type_invariant(&self);
        }
        if found {
            let file = self.files[self.index].clone();
            LoadStep::Read(LoadRead { file })
        } else {
            scan(self.files, self.index + 1)
        }
    }
}

impl LoadRead {
    /// The file to read.
    pub fn path(&self) -> (path: &str)
        ensures
            path@ == self@.file,
    {
        self.file.as_str()
    }

    /// Takes the disk's answer and ends the load: with the text as it was
    /// read, or with the file's path and the system's words for the failure.
    pub fn answer(self, reply: Result<String, String>) -> (next: LoadStep)
        ensures
            next@ == self@.answered(text_view(reply)),
    {
        match reply {
            Ok(text) => LoadStep::Done(Ok(text)),
            Err(cause) => LoadStep::Done(
                Err(StoreError::Io { action: Action::ReadFile, path: self.file, cause }),
            ),
        }
    }
}

/// Turns to document path `index`, or settles for the empty document where
/// there is none.
fn scan(files: Vec<String>, index: usize) -> (step: LoadStep)
    ensures
        step@ == Loading::scan(files.deep_view(), index as int),
{
    if index < files.len() {
        LoadStep::Probe(LoadProbe { files, index })
    } else {
        LoadStep::Done(Ok(String::from_str("{\"templates\":[]}")))
    }
}

/// Starts a load over the candidate document paths `files`, first choice
/// first.
pub fn begin_load(files: Vec<String>) -> (step: LoadStep)
    ensures
        step@ == Loading::start(files.deep_view()),
{
    scan(files, 0)
}

} // verus!
