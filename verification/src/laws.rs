//! What saving and loading do, taken as whole runs against a disk.
//!
//! `save` and `load` below are the runs that a caller performs when it
//! carries out each request of the steps of `crate::save` and `crate::load`
//! and the disk answers as `crate::disk` describes. The proofs are about
//! those runs: they hold of a real disk as far as the model does.

use vstd::prelude::*;
use crate::disk::{run_load, run_save, Disk};
use crate::error::{Action, Failure};
use crate::load::{empty_document, Loading};
use crate::paths::{candidate_paths, document_in, documents_in, parent_of};
use crate::save::{Probing, Saving};
use crate::store::{load_from, save_from};

verus! {

/// A whole save of `content` over the candidates `dirs`: its outcome and the
/// disk it leaves.
pub open spec fn save(disk: Disk, dirs: Seq<Seq<char>>, content: Seq<char>) -> (
    Result<(), Failure>,
    Disk,
) {
    run_save(Saving::start(dirs, content), disk)
}

/// A whole load over the candidates `dirs`.
pub open spec fn load(disk: Disk, dirs: Seq<Seq<char>>) -> Result<Seq<char>, Failure> {
    run_load(Loading::start(documents_in(dirs)), disk)
}

/// Whether a save can settle on `dir`: it is found, or its parent is.
pub open spec fn usable(disk: Disk, dir: Seq<char>) -> bool {
    disk.found(dir) || (parent_of(dir) matches Some(up) && disk.found(up))
}

/// Whether no candidate is usable.
pub open spec fn none_usable(disk: Disk, dirs: Seq<Seq<char>>) -> bool {
    forall|k: int| 0 <= k < dirs.len() ==> !usable(disk, #[trigger] dirs[k])
}

/// Whether candidate `i` is usable and no candidate before it is.
pub open spec fn first_usable(disk: Disk, dirs: Seq<Seq<char>>, i: int) -> bool {
    &&& 0 <= i < dirs.len()
    &&& usable(disk, dirs[i])
    &&& forall|k: int| 0 <= k < i ==> !usable(disk, #[trigger] dirs[k])
}

/// Whether no candidate's document is found.
pub open spec fn none_stored(disk: Disk, dirs: Seq<Seq<char>>) -> bool {
    forall|k: int| 0 <= k < dirs.len() ==> !disk.found(document_in(#[trigger] dirs[k]))
}

/// Whether the document of candidate `i` is found and that of no candidate
/// before it is.
pub open spec fn first_stored(disk: Disk, dirs: Seq<Seq<char>>, i: int) -> bool {
    &&& 0 <= i < dirs.len()
    &&& disk.found(document_in(dirs[i]))
    &&& forall|k: int| 0 <= k < i ==> !disk.found(document_in(#[trigger] dirs[k]))
}

/// Writing the document into `dir`: the outcome and the disk afterwards.
pub open spec fn write_document(disk: Disk, dir: Seq<char>, content: Seq<char>) -> (
    Result<(), Failure>,
    Disk,
) {
    let file = document_in(dir);
    let (reply, after) = disk.write(file, content);
    match reply {
        Ok(_) => (Ok(()), after),
        Err(cause) => (Err(Failure::Io { action: Action::WriteFile, path: file, cause }), after),
    }
}

/// Storing the document in the chosen directory: the directory is created
/// if it is not found, and only then is the document written.
pub open spec fn store_in(disk: Disk, dir: Seq<char>, content: Seq<char>) -> (
    Result<(), Failure>,
    Disk,
) {
    if disk.found(dir) {
        write_document(disk, dir, content)
    } else {
        let (reply, after) = disk.create_dir_all(dir);
        match reply {
            Ok(_) => write_document(after, dir, content),
            Err(cause) => (
                Err(Failure::Io { action: Action::CreateDir, path: dir, cause }),
                after,
            ),
        }
    }
}

/// Reading the document at `file`.
pub open spec fn read_document(disk: Disk, file: Seq<char>) -> Result<Seq<char>, Failure> {
    match disk.read_to_string(file) {
        Ok(text) => Ok(text),
        Err(cause) => Err(Failure::Io { action: Action::ReadFile, path: file, cause }),
    }
}

/// Whether the disk keeps documents where they belong: a candidate's
/// document is found only if the candidate itself is.
pub open spec fn tidy(disk: Disk, dirs: Seq<Seq<char>>) -> bool {
    forall|k: int|
        0 <= k < dirs.len() && disk.found(document_in(#[trigger] dirs[k])) ==> disk.found(dirs[k])
}

/// Whether the candidates' paths can be told apart: no candidate is spelled
/// like a candidate's document, and two candidates whose documents are
/// spelled alike are spelled alike themselves.
pub open spec fn plainly_named(dirs: Seq<Seq<char>>) -> bool {
    forall|j: int, k: int|
        0 <= j < dirs.len() && 0 <= k < dirs.len() ==> {
            &&& #[trigger] dirs[j] != document_in(#[trigger] dirs[k])
            &&& document_in(dirs[j]) == document_in(dirs[k]) ==> dirs[j] == dirs[k]
        }
}

/// Whether `outcome` is the failure of a read at a path that the disk
/// refuses to read.
pub open spec fn read_refused(disk: Disk, outcome: Result<Seq<char>, Failure>) -> bool {
    outcome matches Err(Failure::Io { action: Action::ReadFile, path, cause })
        && disk.unreadable.contains_key(path) && cause == disk.unreadable[path]
}

/// The two operations of `crate::store`, started with a known working
/// directory, are the save and the load over the candidates of that
/// directory and of the executable. Started without one, they end at once
/// with the system's words and leave the disk alone.
pub proof fn operations_run_over_the_candidates(
    disk: Disk,
    cwd: Seq<char>,
    exe: Option<Seq<char>>,
    content: Seq<char>,
    cause: Seq<char>,
)
    ensures
        run_save(save_from(Ok(cwd), exe, content), disk) == save(
            disk,
            candidate_paths(cwd, exe),
            content,
        ),
        run_load(load_from(Ok(cwd), exe), disk) == load(disk, candidate_paths(cwd, exe)),
        run_save(save_from(Err(cause), exe, content), disk) == (
            Err::<(), Failure>(Failure::Environment { cause }),
            disk,
        ),
        run_load(load_from(Err(cause), exe), disk) == Err::<Seq<char>, Failure>(
            Failure::Environment { cause },
        ),
{
}

/// A save settles on the first candidate that is found or whose parent is,
/// creates it if it is not found, and writes the document there.
pub proof fn save_settles_on_first_usable(
    disk: Disk,
    dirs: Seq<Seq<char>>,
    content: Seq<char>,
    i: int,
)
    requires
        first_usable(disk, dirs, i),
    ensures
        save(disk, dirs, content) == store_in(disk, dirs[i], content),
{
    lemma_save_scan(disk, dirs, content, 0, i);
}

/// A save fails for want of a data directory exactly where no candidate is
/// found and no candidate's parent is, and it then leaves the disk as it
/// was.
pub proof fn save_without_usable_candidate_changes_nothing(
    disk: Disk,
    dirs: Seq<Seq<char>>,
    content: Seq<char>,
)
    ensures
        none_usable(disk, dirs) <==> save(disk, dirs, content).0 == Err::<(), Failure>(
            Failure::Resolution,
        ),
        none_usable(disk, dirs) ==> save(disk, dirs, content).1 == disk,
{
    let i = lemma_first_usable_from(disk, dirs, 0);
    if i == dirs.len() {
        lemma_save_scan_fails(disk, dirs, content, 0);
    } else {
        lemma_save_scan(disk, dirs, content, 0, i);
    }
}

/// A directory that a save settled on is found afterwards, whether it was
/// there before or had to be created, unless the disk refused to create it;
/// so a save that succeeds always leaves its directory behind. A directory
/// that had to be created is there before the document is written: the
/// write takes place on the disk that holds it.
pub proof fn save_leaves_its_directory(
    disk: Disk,
    dirs: Seq<Seq<char>>,
    content: Seq<char>,
    i: int,
)
    requires
        first_usable(disk, dirs, i),
    ensures
        disk.found(dirs[i]) || !disk.denied.contains_key(dirs[i]) ==> save(
            disk,
            dirs,
            content,
        ).1.found(dirs[i]),
        save(disk, dirs, content).0 is Ok ==> save(disk, dirs, content).1.found(dirs[i]),
        !disk.found(dirs[i]) && !disk.denied.contains_key(dirs[i]) ==> save(disk, dirs, content)
            == write_document(disk.with_dir(dirs[i]), dirs[i], content),
{
    save_settles_on_first_usable(disk, dirs, content, i);
}

/// A load reads the document of the first candidate that holds one, and
/// looks no further: what the disk answers to that read is the outcome.
pub proof fn load_reads_first_stored(disk: Disk, dirs: Seq<Seq<char>>, i: int)
    requires
        first_stored(disk, dirs, i),
    ensures
        load(disk, dirs) == read_document(disk, document_in(dirs[i])),
{
    lemma_load_scan(disk, dirs, 0, i);
}

/// Where no candidate holds a document, a load succeeds with the empty
/// document.
pub proof fn load_without_document_is_empty(disk: Disk, dirs: Seq<Seq<char>>)
    requires
        none_stored(disk, dirs),
    ensures
        load(disk, dirs) == Ok::<Seq<char>, Failure>(empty_document()),
{
    lemma_load_scan_empty(disk, dirs, 0);
}

/// A load that follows a successful save over the same candidates returns
/// exactly the text that was saved, unless the disk refuses to read it.
///
/// This is stated of a tidy disk and of plainly named candidates.
pub proof fn load_returns_what_was_saved(disk: Disk, dirs: Seq<Seq<char>>, content: Seq<char>)
    requires
        tidy(disk, dirs),
        plainly_named(dirs),
        save(disk, dirs, content).0 is Ok,
    ensures
        ({
            let after = save(disk, dirs, content).1;
            load(after, dirs) == Ok::<Seq<char>, Failure>(content) || read_refused(
                after,
                load(after, dirs),
            )
        }),
{
    save_without_usable_candidate_changes_nothing(disk, dirs, content);
    let i = lemma_first_usable_from(disk, dirs, 0);
    save_settles_on_first_usable(disk, dirs, content, i);
    let after = save(disk, dirs, content).1;
    let file = document_in(dirs[i]);
    // A document that is found ahead of the one just written was there
    // before the save, in a directory that was found: the save would have
    // settled on that directory.
    assert forall|k: int|
        0 <= k < i && after.found(document_in(#[trigger] dirs[k])) implies document_in(dirs[k])
        == file by {
        if document_in(dirs[k]) != file {
            assert(disk.found(document_in(dirs[k])));
            assert(usable(disk, dirs[k]));
        }
    }
    lemma_load_scan(after, dirs, 0, i);
}

/// A save keeps a tidy disk tidy, however it ends.
pub proof fn save_keeps_disk_tidy(disk: Disk, dirs: Seq<Seq<char>>, content: Seq<char>)
    requires
        tidy(disk, dirs),
        plainly_named(dirs),
    ensures
        tidy(save(disk, dirs, content).1, dirs),
{
    save_without_usable_candidate_changes_nothing(disk, dirs, content);
    let i = lemma_first_usable_from(disk, dirs, 0);
    if i < dirs.len() {
        save_settles_on_first_usable(disk, dirs, content, i);
        let after = save(disk, dirs, content).1;
        // A document that is found after the save was there before, or it
        // is the one just written, and then its directory is the one that
        // the save settled on.
        assert forall|k: int|
            0 <= k < dirs.len() && after.found(document_in(#[trigger] dirs[k])) implies after.found(
            dirs[k],
        ) by {
            if !disk.found(document_in(dirs[k])) {
                assert(document_in(dirs[k]) == document_in(dirs[i]));
                assert(dirs[k] == dirs[i]);
            }
        }
    }
}

/// After two saves in a row, the second of them successful, a load returns
/// exactly the text of the second, unless the disk refuses to read it: a
/// save replaces the document whole and keeps nothing of what was stored
/// before.
///
/// This is stated of a tidy disk and of plainly named candidates.
pub proof fn second_save_replaces_first(
    disk: Disk,
    dirs: Seq<Seq<char>>,
    first: Seq<char>,
    second: Seq<char>,
)
    requires
        tidy(disk, dirs),
        plainly_named(dirs),
        save(save(disk, dirs, first).1, dirs, second).0 is Ok,
    ensures
        ({
            let between = save(disk, dirs, first).1;
            let after = save(between, dirs, second).1;
            load(after, dirs) == Ok::<Seq<char>, Failure>(second) || read_refused(
                after,
                load(after, dirs),
            )
        }),
{
    save_keeps_disk_tidy(disk, dirs, first);
    load_returns_what_was_saved(save(disk, dirs, first).1, dirs, second);
}

/// The candidates depend on the working directory and the executable's path
/// alone: the same two values give the same directories in the same order.
pub proof fn candidates_are_determined(
    cwd: Seq<char>,
    exe: Option<Seq<char>>,
    other_cwd: Seq<char>,
    other_exe: Option<Seq<char>>,
)
    requires
        cwd == other_cwd,
        exe == other_exe,
    ensures
        candidate_paths(cwd, exe) == candidate_paths(other_cwd, other_exe),
{
}

/// Once a directory is chosen, the rest of the save is `store_in`.
proof fn lemma_store(disk: Disk, dir: Seq<char>, content: Seq<char>)
    ensures
        run_save(Saving::Probe(Probing::Chosen { dir, content }), disk) == store_in(
            disk,
            dir,
            content,
        ),
{
    reveal_with_fuel(run_save, 4);
}

/// A scan that starts at or before the first usable candidate stores the
/// document there.
proof fn lemma_save_scan(disk: Disk, dirs: Seq<Seq<char>>, content: Seq<char>, from: int, i: int)
    requires
        0 <= from <= i,
        first_usable(disk, dirs, i),
    ensures
        run_save(Saving::scan(dirs, from, content), disk) == store_in(disk, dirs[i], content),
    decreases i - from,
{
    reveal_with_fuel(run_save, 3);
    lemma_store(disk, dirs[i], content);
    if from < i {
        lemma_save_scan(disk, dirs, content, from + 1, i);
    }
}

/// A scan over candidates of which none is usable gives up and changes
/// nothing.
proof fn lemma_save_scan_fails(disk: Disk, dirs: Seq<Seq<char>>, content: Seq<char>, from: int)
    requires
        0 <= from,
        none_usable(disk, dirs),
    ensures
        run_save(Saving::scan(dirs, from, content), disk) == (
            Err::<(), Failure>(Failure::Resolution),
            disk,
        ),
    decreases dirs.len() - from,
{
    reveal_with_fuel(run_save, 3);
    if from < dirs.len() {
        lemma_save_scan_fails(disk, dirs, content, from + 1);
    }
}

/// Walks the candidates from `from` up to the first usable one, or to the
/// end of the list.
proof fn lemma_first_usable_from(disk: Disk, dirs: Seq<Seq<char>>, from: int) -> (i: int)
    requires
        0 <= from <= dirs.len(),
        forall|k: int| 0 <= k < from ==> !usable(disk, #[trigger] dirs[k]),
    ensures
        from <= i <= dirs.len(),
        i < dirs.len() ==> first_usable(disk, dirs, i),
        i == dirs.len() ==> none_usable(disk, dirs),
    decreases dirs.len() - from,
{
    if from == dirs.len() || usable(disk, dirs[from]) {
        from
    } else {
        lemma_first_usable_from(disk, dirs, from + 1)
    }
}

/// A scan reads document `i` if that one is found and every document found
/// on the way to it is spelled like it.
proof fn lemma_load_scan(disk: Disk, dirs: Seq<Seq<char>>, from: int, i: int)
    requires
        0 <= from <= i < dirs.len(),
        disk.found(document_in(dirs[i])),
        forall|k: int|
            from <= k < i && disk.found(document_in(#[trigger] dirs[k])) ==> document_in(dirs[k])
                == document_in(dirs[i]),
    ensures
        run_load(Loading::scan(documents_in(dirs), from), disk) == read_document(
            disk,
            document_in(dirs[i]),
        ),
    decreases i - from,
{
    reveal_with_fuel(run_load, 3);
    if from < i && !disk.found(document_in(dirs[from])) {
        lemma_load_scan(disk, dirs, from + 1, i);
    }
}

/// A scan over candidates of which none holds a document ends with the
/// empty document.
proof fn lemma_load_scan_empty(disk: Disk, dirs: Seq<Seq<char>>, from: int)
    requires
        0 <= from,
        none_stored(disk, dirs),
    ensures
        run_load(Loading::scan(documents_in(dirs), from), disk) == Ok::<Seq<char>, Failure>(
            empty_document(),
        ),
    decreases dirs.len() - from,
{
    reveal_with_fuel(run_load, 2);
    if from < dirs.len() {
        lemma_load_scan_empty(disk, dirs, from + 1);
    }
}

} // verus!
