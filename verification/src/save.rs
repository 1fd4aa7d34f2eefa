//! Saving the document, one step at a time.
//!
//! A save scans the candidate directories in order and settles on the first
//! one that is found on disk or whose parent is. It creates the directory if
//! it is still missing and writes the document into it. The library cannot
//! touch the disk, so each `SaveStep` names one request; the caller carries it
//! out and hands the answer to the step, which gives the next one.

use vstd::prelude::*;
use crate::error::{outcome_view, reply_view, Action, Failure, StoreError};
use crate::paths::{document_in, document_path, entries_from, parent, parent_of};

verus! {

/// In contracts, a save that asks whether a path is found.
pub enum Probing {
    /// Is candidate `index` found?
    Candidate { dirs: Seq<Seq<char>>, index: int, content: Seq<char> },
    /// Candidate `index` is missing. Is its parent found?
    Parent { dirs: Seq<Seq<char>>, index: int, content: Seq<char> },
    /// `dir` is chosen. Is it found, or has it to be created?
    Chosen { dir: Seq<char>, content: Seq<char> },
}

/// In contracts, a save that asks for `dir` to be created, with every
/// missing ancestor.
pub struct Creating {
    pub dir: Seq<char>,
    pub content: Seq<char>,
}

/// In contracts, a save that asks for `content` to replace what the
/// document in `dir` holds.
pub struct Writing {
    pub dir: Seq<char>,
    pub content: Seq<char>,
}

/// In contracts, a save: the request it waits on, or its outcome.
pub enum Saving {
    Probe(Probing),
    Create(Creating),
    Write(Writing),
    Done(Result<(), Failure>),
}

impl Probing {
    /// The path that is asked about.
    pub open spec fn subject(self) -> Seq<char> {
        match self {
            Probing::Candidate { dirs, index, .. } => dirs[index],
            Probing::Parent { dirs, index, .. } => parent_of(dirs[index]).unwrap(),
            Probing::Chosen { dir, .. } => dir,
        }
    }

    /// The save after the probe was answered.
    ///
    /// A candidate that is found is chosen. One that is missing is chosen if
    /// it has a parent and the parent is found; otherwise the scan moves on
    /// to the next candidate. A chosen directory is written to if it is
    /// found, and created first if it is not.
    pub open spec fn answered(self, found: bool) -> Saving {
        match self {
            Probing::Candidate { dirs, index, content } => {
                if found {
                    Saving::Probe(Probing::Chosen { dir: dirs[index], content })
                } else if parent_of(dirs[index]) is Some {
                    Saving::Probe(Probing::Parent { dirs, index, content })
                } else {
                    Saving::scan(dirs, index + 1, content)
                }
            },
            Probing::Parent { dirs, index, content } => {
                if found {
                    Saving::Probe(Probing::Chosen { dir: dirs[index], content })
                } else {
                    Saving::scan(dirs, index + 1, content)
                }
            },
            Probing::Chosen { dir, content } => {
                if found {
                    Saving::Write(Writing { dir, content })
                } else {
                    Saving::Create(Creating { dir, content })
                }
            },
        }
    }
}

impl Creating {
    /// The save after the disk answered: on to the write, or over with the
    /// directory's path and the system's words.
    pub open spec fn answered(self, reply: Result<(), Seq<char>>) -> Saving {
        match reply {
            Ok(_) => Saving::Write(Writing { dir: self.dir, content: self.content }),
            Err(cause) => Saving::Done(
                Err(Failure::Io { action: Action::CreateDir, path: self.dir, cause }),
            ),
        }
    }
}

impl Writing {
    /// The file that is written.
    pub open spec fn file(self) -> Seq<char> {
        document_in(self.dir)
    }

    /// The save after the disk answered: over, with success or with the
    /// file's path and the system's words.
    pub open spec fn answered(self, reply: Result<(), Seq<char>>) -> Saving {
        match reply {
            Ok(_) => Saving::Done(Ok(())),
            Err(cause) => Saving::Done(
                Err(Failure::Io { action: Action::WriteFile, path: self.file(), cause }),
            ),
        }
    }
}

impl Saving {
    /// The save that turns to candidate `index`, or gives up where the
    /// candidates are exhausted.
    pub open spec fn scan(dirs: Seq<Seq<char>>, index: int, content: Seq<char>) -> Saving {
        if 0 <= index < dirs.len() {
            Saving::Probe(Probing::Candidate { dirs, index, content })
        } else {
            Saving::Done(Err(Failure::Resolution))
        }
    }

    /// The first step of saving `content` over the candidates `dirs`.
    pub open spec fn start(dirs: Seq<Seq<char>>, content: Seq<char>) -> Saving {
        Saving::scan(dirs, 0, content)
    }

    /// A bound on the requests that this save can still make.
    pub open spec fn steps_left(self) -> nat {
        match self {
            Saving::Probe(Probing::Candidate { dirs, index, .. }) => 2 * entries_from(dirs, index)
                + 5,
            Saving::Probe(Probing::Parent { dirs, index, .. }) => 2 * entries_from(dirs, index) + 4,
            Saving::Probe(Probing::Chosen { .. }) => 3,
            Saving::Create(_) => 2,
            Saving::Write(_) => 1,
            Saving::Done(_) => 0,
        }
    }
}

/// Which of its three questions a probe asks.
enum Question {
    Candidate,
    Parent,
    Chosen,
}

/// A save that waits to hear whether a path is found on disk.
pub struct SaveProbe {
    dirs: Vec<String>,
    index: usize,
    question: Question,
    path: String,
    content: String,
}

/// A save that waits for its data directory to be created.
pub struct SaveCreate {
    dir: String,
    content: String,
}

/// A save that waits for the document to be written.
pub struct SaveWrite {
    dir: String,
    file: String,
    content: String,
}

/// What a save needs next from its caller, or how it ended.
pub enum SaveStep {
    /// Tell whether `path()` is found, be it a directory or a file.
    Probe(SaveProbe),
    /// Create the directory `path()` with all its missing ancestors.
    Create(SaveCreate),
    /// Replace what the file `path()` holds with `content()`.
    Write(SaveWrite),
    /// The save is over.
    Done(Result<(), StoreError>),
}

impl View for SaveProbe {
    type V = Probing;

    closed spec fn view(&self) -> Probing {
        match self.question {
            Question::Candidate => Probing::Candidate {
                dirs: self.dirs.deep_view(),
                index: self.index as int,
                content: self.content@,
            },
            Question::Parent => Probing::Parent {
                dirs: self.dirs.deep_view(),
                index: self.index as int,
                content: self.content@,
            },
            Question::Chosen => Probing::Chosen {
                dir: self.dirs.deep_view()[self.index as int],
                content: self.content@,
            },
        }
    }
}

impl View for SaveCreate {
    type V = Creating;

    closed spec fn view(&self) -> Creating {
        Creating { dir: self.dir@, content: self.content@ }
    }
}

impl View for SaveWrite {
    type V = Writing;

    closed spec fn view(&self) -> Writing {
        Writing { dir: self.dir@, content: self.content@ }
    }
}

impl View for SaveStep {
    type V = Saving;

    open spec fn view(&self) -> Saving {
        match self {
            SaveStep::Probe(probe) => Saving::Probe(probe@),
            SaveStep::Create(create) => Saving::Create(create@),
            SaveStep::Write(write) => Saving::Write(write@),
            SaveStep::Done(outcome) => Saving::Done(outcome_view(*outcome)),
        }
    }
}

impl SaveProbe {
    #[verifier::type_invariant]
    spec fn well_formed(self) -> bool {
        &&& self.index < self.dirs.len()
        &&& self.question is Parent ==> parent_of(self.dirs[self.index as int]@) is Some
        &&& self.path@ == self@.subject()
    }

    /// The path to look for.
    pub fn path(&self) -> (path: &str)
        ensures
            path@ == self@.subject(),
    {
        proof {
            use_type_invariant(self);
        }
        self.path.as_str()
    }

    /// Takes the answer to the probe and gives the next step.
    pub fn answer(self, found: bool) -> (next: SaveStep)
        ensures
            next@ == self@.answered(found),
    {
        proof {
            use_type_invariant(&self);
        }
        let dirs = self.dirs;
        let index = self.index;
        let content = self.content;
        match self.question {
            Question::Candidate => {
                if found {
                    choose_candidate(dirs, index, content)
                } else {
                    match parent(dirs[index].as_str()) {
                        Some(up) => SaveStep::Probe(
                            SaveProbe { dirs, index, question: Question::Parent, path: up, content },
                        ),
                        None => scan(dirs, index + 1, content),
                    }
                }
            },
            Question::Parent => {
                if found {
                    choose_candidate(dirs, index, content)
                } else {
                    scan(dirs, index + 1, content)
                }
            },
            Question::Chosen => {
                let dir = self.path;
                if found {
                    let file = document_path(dir.as_str());
                    SaveStep::Write(SaveWrite { dir, file, content })
                } else {
                    SaveStep::Create(SaveCreate { dir, content })
                }
            },
        }
    }
}

impl SaveCreate {
    /// The directory to create.
    pub fn path(&self) -> (path: &str)
        ensures
            path@ == self@.dir,
    {
        self.dir.as_str()
    }

    /// Takes the disk's answer and gives the next step: the write after a
    /// success, the end of the save after a failure with the system's words
    /// for it.
    pub fn answer(self, reply: Result<(), String>) -> (next: SaveStep)
        ensures
            next@ == self@.answered(reply_view(reply)),
    {
        match reply {
            Ok(_) => {
                let file = document_path(self.dir.as_str());
                SaveStep::Write(SaveWrite { dir: self.dir, file, content: self.content })
            },
            Err(cause) => SaveStep::Done(
                Err(StoreError::Io { action: Action::CreateDir, path: self.dir, cause }),
            ),
        }
    }
}

impl SaveWrite {
    #[verifier::type_invariant]
    spec fn well_formed(self) -> bool {
        self.file@ == document_in(self.dir@)
    }

    /// The file to write.
    pub fn path(&self) -> (path: &str)
        ensures
            path@ == self@.file(),
    {
        proof {
            use_type_invariant(self);
        }
        self.file.as_str()
    }

    /// The text that the file is to hold afterwards, all of it.
    pub fn content(&self) -> (content: &str)
        ensures
            content@ == self@.content,
    {
        self.content.as_str()
    }

    /// Takes the disk's answer and ends the save: with success, or with the
    /// file's path and the system's words for the failure.
    pub fn answer(self, reply: Result<(), String>) -> (next: SaveStep)
        ensures
            next@ == self@.answered(reply_view(reply)),
    {
        proof {
            use_type_invariant(&self);
        }
        match reply {
            Ok(_) => SaveStep::Done(Ok(())),
            Err(cause) => SaveStep::Done(
                Err(StoreError::Io { action: Action::WriteFile, path: self.file, cause }),
            ),
        }
    }
}

/// Turns to candidate `index`, or gives up where there is none.
fn scan(dirs: Vec<String>, index: usize, content: String) -> (step: SaveStep)
    ensures
        step@ == Saving::scan(dirs.deep_view(), index as int, content@),
{
    if index < dirs.len() {
        let path = dirs[index].clone();
        SaveStep::Probe(SaveProbe { dirs, index, question: Question::Candidate, path, content })
    } else {
        SaveStep::Done(Err(StoreError::Resolution))
    }
}

/// Settles on candidate `index` and asks whether it has to be created.
fn choose_candidate(dirs: Vec<String>, index: usize, content: String) -> (step: SaveStep)
    requires
        index < dirs.len(),
    ensures
        step@ == Saving::Probe(
            Probing::Chosen { dir: dirs.deep_view()[index as int], content: content@ },
        ),
{
    let path = dirs[index].clone();
    SaveStep::Probe(SaveProbe { dirs, index, question: Question::Chosen, path, content })
}

/// Starts a save of `content` over the candidate directories `dirs`, first
/// choice first.
pub fn begin_save(dirs: Vec<String>, content: String) -> (step: SaveStep)
    ensures
        step@ == Saving::start(dirs.deep_view(), content@),
{
    scan(dirs, 0, content)
}

} // verus!
