//! A disk, as far as saving and loading can tell.
//!
//! The library never touches a disk: its caller does. This module describes
//! in contracts what a caller's disk is taken to do with each request, so
//! that whole runs of a save or a load can be spoken of. The model is static:
//! nothing but the run itself changes the disk while it lasts.

use vstd::prelude::*;
use crate::error::Failure;
use crate::load::Loading;
use crate::save::Saving;

verus! {

/// The state of a disk.
pub struct Disk {
    /// The directories.
    pub dirs: Set<Seq<char>>,
    /// The files that hold text, each with its text.
    pub files: Map<Seq<char>, Seq<char>>,
    /// The paths at which the disk refuses to create a directory or to write
    /// a file, each with the system's words for it.
    pub denied: Map<Seq<char>, Seq<char>>,
    /// The paths at which the disk refuses to read, each with the system's
    /// words for it.
    pub unreadable: Map<Seq<char>, Seq<char>>,
}

impl Disk {
    /// Whether something is found at `path`, a directory or a file.
    pub open spec fn found(self, path: Seq<char>) -> bool {
        self.dirs.contains(path) || self.files.contains_key(path)
    }

    /// The disk with one directory more.
    pub open spec fn with_dir(self, dir: Seq<char>) -> Disk {
        Disk { dirs: self.dirs.insert(dir), ..self }
    }

    /// The disk on which `file` holds `text` and nothing of what it held
    /// before.
    pub open spec fn with_file(self, file: Seq<char>, text: Seq<char>) -> Disk {
        Disk { files: self.files.insert(file, text), ..self }
    }

    /// What a request to create `dir` is answered, and the disk after it.
    /// A refusal leaves the disk as it was. Of the directories that the
    /// system may create on the way to `dir` the model keeps `dir` alone: a
    /// save asks for a directory only after its parent was found.
    pub open spec fn create_dir_all(self, dir: Seq<char>) -> (Result<(), Seq<char>>, Disk) {
        if self.denied.contains_key(dir) {
            (Err(self.denied[dir]), self)
        } else {
            (Ok(()), self.with_dir(dir))
        }
    }

    /// What a request to write `text` to `file` is answered, and the disk
    /// after it. A refusal leaves the disk as it was.
    pub open spec fn write(self, file: Seq<char>, text: Seq<char>) -> (Result<(), Seq<char>>, Disk) {
        if self.denied.contains_key(file) {
            (Err(self.denied[file]), self)
        } else {
            (Ok(()), self.with_file(file, text))
        }
    }

    /// What a request to read `file` is answered: its text, unless the disk
    /// refuses or no text is held there. The words of a refusal at a path
    /// outside `unreadable` are left open.
    pub open spec fn read_to_string(self, file: Seq<char>) -> Result<Seq<char>, Seq<char>> {
        if self.files.contains_key(file) && !self.unreadable.contains_key(file) {
            Ok(self.files[file])
        } else {
            Err(self.unreadable[file])
        }
    }
}

/// The outcome of a save that is carried on from `step` against `disk`, each
/// request answered as the disk answers it, and the disk it leaves.
pub open spec fn run_save(step: Saving, disk: Disk) -> (Result<(), Failure>, Disk)
    decreases step.steps_left(),
{
    match step {
        Saving::Probe(probing) => run_save(probing.answered(disk.found(probing.subject())), disk),
        Saving::Create(creating) => {
            let (reply, after) = disk.create_dir_all(creating.dir);
            run_save(creating.answered(reply), after)
        },
        Saving::Write(writing) => {
            let (reply, after) = disk.write(writing.file(), writing.content);
            run_save(writing.answered(reply), after)
        },
        Saving::Done(outcome) => (outcome, disk),
    }
}

/// The outcome of a load that is carried on from `step` against `disk`. A
/// load makes no request that changes the disk.
pub open spec fn run_load(step: Loading, disk: Disk) -> Result<Seq<char>, Failure>
    decreases step.steps_left(),
{
    match step {
        Loading::Probe(seeking) => run_load(seeking.answered(disk.found(seeking.subject())), disk),
        Loading::Read(reading) => run_load(
            reading.answered(disk.read_to_string(reading.file)),
            disk,
        ),
        Loading::Done(outcome) => outcome,
    }
}

} // verus!
