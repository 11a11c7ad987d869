//! What the library asks of its caller, and what the caller answers. The
//! library decides; the caller touches the filesystem.

use vstd::prelude::*;
use crate::error::BackendError;

verus! {

/// How a pipe's special file is opened.
#[derive(Debug, Clone, Copy, PartialEq, Eq)]
pub struct OpenMode {
    /// The descriptor can be read from.
    pub read: bool,
    /// The descriptor can be written to.
    pub write: bool,
}

/// A request to the caller.
#[derive(Debug, PartialEq, Eq)]
pub enum PipeAction {
    /// Find out whether anything exists at the pipe's path, and answer with
    /// [`PipeEvent::Exists`].
    ProbeEntry,
    /// Find out whether this directory exists, and answer with
    /// [`PipeEvent::Exists`].
    ProbeParent(String),
    /// Create this directory and every missing directory above it, and
    /// answer with [`PipeEvent::DirCreated`] or [`PipeEvent::DirFailed`].
    CreateParent(String),
    /// Create a FIFO special file at `c_path`, a C string, with the
    /// permission bits `mode`, and answer with [`PipeEvent::Status`].
    MakeFifo { c_path: Vec<u8>, mode: u32 },
    /// Open the special file at the pipe's path, and answer with
    /// [`PipeEvent::Opened`] or [`PipeEvent::OpenFailed`].
    Open(OpenMode),
    /// Nothing is left to do: this is the outcome.
    Done(Result<(), BackendError>),
    /// The event answered no request; the last request still stands.
    Wait,
}

/// A [`PipeAction`] as plain values.
pub enum PipeActionView {
    ProbeEntry,
    ProbeParent(Seq<char>),
    CreateParent(Seq<char>),
    MakeFifo { c_path: Seq<u8>, mode: u32 },
    Open(OpenMode),
    Done(Result<(), BackendError>),
    Wait,
}

impl View for PipeAction {
    type V = PipeActionView;

    open spec fn view(&self) -> PipeActionView {
        match self {
            PipeAction::ProbeEntry => PipeActionView::ProbeEntry,
            PipeAction::ProbeParent(dir) => PipeActionView::ProbeParent(dir@),
            PipeAction::CreateParent(dir) => PipeActionView::CreateParent(dir@),
            PipeAction::MakeFifo { c_path, mode } => PipeActionView::MakeFifo {
                c_path: c_path@,
                mode: *mode,
            },
            PipeAction::Open(mode) => PipeActionView::Open(*mode),
            PipeAction::Done(result) => PipeActionView::Done(*result),
            PipeAction::Wait => PipeActionView::Wait,
        }
    }
}

/// What the caller reports back.
#[derive(Debug, Clone, Copy, PartialEq, Eq)]
pub enum PipeEvent {
    /// The caller wants the work started.
    Begin,
    /// Whether the probed path exists.
    Exists(bool),
    /// The directory tree is there.
    DirCreated,
    /// The directory tree could not be created; `code` is the operating
    /// system's error number, where it gave one.
    DirFailed { code: Option<i32> },
    /// What the call that creates the special file returned.
    Status(i32),
    /// The special file is open.
    Opened,
    /// The special file could not be opened; `code` is the operating
    /// system's error number, where it gave one.
    OpenFailed { code: Option<i32> },
}

} // verus!
