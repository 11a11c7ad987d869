//! The creation of a pipe, run against a filesystem that refuses nothing
//! and that nobody else changes. The filesystem here is a model: it says
//! what the library expects of a well-behaved one, and the laws below hold
//! of the library's decisions under that expectation.

use vstd::prelude::*;
use crate::fifo::{fifo_step, FifoState};
use crate::path::PipePathView;
use crate::protocol::{PipeActionView, PipeEvent};

verus! {

/// What stands at a path.
pub enum Entry {
    Directory,
    Fifo,
    Other,
}

/// The paths that exist, each with what stands there.
pub struct Disk {
    pub entries: Map<Seq<char>, Entry>,
}

impl Disk {
    /// Whether anything exists at `path`.
    pub open spec fn has(self, path: Seq<char>) -> bool {
        self.entries.dom().contains(path)
    }

    /// The filesystem once the directory tree down to `dir` is there: what
    /// exists stays, and `dir` is added where nothing stood.
    pub open spec fn with_tree(self, dir: Seq<char>) -> Disk {
        if self.has(dir) {
            self
        } else {
            Disk { entries: self.entries.insert(dir, Entry::Directory) }
        }
    }

    /// Whether a special file can be created for `pipe`: nothing stands at
    /// its path, and the directory that holds it exists.
    pub open spec fn admits(self, pipe: PipePathView) -> bool {
        &&& !self.has(pipe.path)
        &&& pipe.parent matches Some(dir) && self.has(dir)
    }

    /// How the filesystem answers `request` about `pipe`, and what it is
    /// afterwards. Creating a directory tree always succeeds; creating the
    /// special file succeeds where the filesystem admits it, and returns -1
    /// otherwise.
    pub open spec fn answer(self, pipe: PipePathView, request: PipeActionView) -> (Disk, PipeEvent) {
        match request {
            PipeActionView::ProbeEntry => (self, PipeEvent::Exists(self.has(pipe.path))),
            PipeActionView::ProbeParent(dir) => (self, PipeEvent::Exists(self.has(dir))),
            PipeActionView::CreateParent(dir) => (self.with_tree(dir), PipeEvent::DirCreated),
            PipeActionView::MakeFifo { .. } => if self.admits(pipe) {
                (Disk { entries: self.entries.insert(pipe.path, Entry::Fifo) }, PipeEvent::Status(0))
            } else {
                (self, PipeEvent::Status(-1i32))
            },
            PipeActionView::Open(_) => (
                self,
                if self.has(pipe.path) {
                    PipeEvent::Opened
                } else {
                    PipeEvent::OpenFailed { code: None }
                },
            ),
            _ => (self, PipeEvent::Begin),
        }
    }

    /// The filesystem and the machine after at most `fuel` requests have
    /// been answered, starting with `request` in `state`.
    pub open spec fn serve(
        self,
        pipe: PipePathView,
        state: FifoState,
        request: PipeActionView,
        fuel: nat,
    ) -> (Disk, FifoState)
        decreases fuel,
    {
        if fuel == 0 || state is Finished {
            (self, state)
        } else {
            let answered = self.answer(pipe, request);
            let next = fifo_step(pipe, state, answered.1);
            answered.0.serve(pipe, next.0, next.1, (fuel - 1) as nat)
        }
    }

    /// One whole run of the creation of `pipe` on this filesystem: the
    /// filesystem afterwards, and the state in which the machine stops.
    pub open spec fn ensure(self, pipe: PipePathView) -> (Disk, FifoState) {
        let first = fifo_step(pipe, FifoState::Idle, PipeEvent::Begin);
        self.serve(pipe, first.0, first.1, 6)
    }
}

/// On a path that exists, a run succeeds and changes nothing.
pub proof fn lemma_ensure_keeps_what_exists(disk: Disk, pipe: PipePathView)
    requires
        disk.has(pipe.path),
    ensures
        disk.ensure(pipe) == (disk, FifoState::Finished(Ok(()))),
{
    reveal_with_fuel(Disk::serve, 3);
}

/// On a path that does not exist, one run creates what is missing of the
/// parent directory and then the special file, and succeeds. Nothing else
/// on the filesystem changes. The path must have a parent directory other
/// than itself, and must be free of NUL.
pub proof fn lemma_ensure_creates_tree_and_fifo(disk: Disk, pipe: PipePathView, dir: Seq<char>)
    requires
        !disk.has(pipe.path),
        pipe.parent == Some(dir),
        dir != pipe.path,
        pipe.c_path is Some,
    ensures
        disk.ensure(pipe).1 == FifoState::Finished(Ok(())),
        disk.ensure(pipe).0.entries == disk.with_tree(dir).entries.insert(pipe.path, Entry::Fifo),
        disk.ensure(pipe).0.has(dir),
        disk.ensure(pipe).0.entries[pipe.path] == Entry::Fifo,
{
    reveal_with_fuel(Disk::serve, 6);
    let grown = disk.with_tree(dir);
    assert(grown.has(dir));
    assert(!grown.has(pipe.path));
    assert(grown.admits(pipe));
}

/// Two runs on the same path both succeed, and the second changes nothing:
/// where the path did not exist before, the first run has made its one
/// special file, and the second finds it.
pub proof fn lemma_ensure_is_idempotent(disk: Disk, pipe: PipePathView, dir: Seq<char>)
    requires
        pipe.parent == Some(dir),
        dir != pipe.path,
        pipe.c_path is Some,
    ensures
        disk.ensure(pipe).1 == FifoState::Finished(Ok(())),
        disk.ensure(pipe).0.ensure(pipe) == (disk.ensure(pipe).0, FifoState::Finished(Ok(()))),
        !disk.has(pipe.path) ==> disk.ensure(pipe).0.entries[pipe.path] == Entry::Fifo,
{
    if disk.has(pipe.path) {
        lemma_ensure_keeps_what_exists(disk, pipe);
    } else {
        lemma_ensure_creates_tree_and_fifo(disk, pipe, dir);
    }
    let after = disk.ensure(pipe).0;
    assert(after.has(pipe.path));
    lemma_ensure_keeps_what_exists(after, pipe);
}

} // verus!
