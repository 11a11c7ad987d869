//! Opening the two ends of a pipe. The reading end is opened so that it
//! outlives its writers; the writing end is opened plainly.

use vstd::prelude::*;
use crate::error::{BackendError, IoFailure};
use crate::fifo::{fifo_rank, fifo_step, mkfifo, FifoState, FIFO_MODE};
use crate::path::{PipePath, PipePathView};
use crate::protocol::{OpenMode, PipeAction, PipeActionView, PipeEvent};

verus! {

/// The end of a pipe that a process holds.
#[derive(Debug, Clone, Copy, PartialEq, Eq)]
pub enum Endpoint {
    Reader,
    Writer,
}

impl Endpoint {
    /// How this end is opened. A reader also holds the pipe open for
    /// writing, though it never writes; a writer only writes.
    pub open spec fn spec_mode(self) -> OpenMode {
        match self {
            Endpoint::Reader => OpenMode { read: true, write: true },
            Endpoint::Writer => OpenMode { read: false, write: true },
        }
    }

    /// How this end is opened. A reader also holds the pipe open for
    /// writing, though it never writes; a writer only writes.
    #[verifier::when_used_as_spec(spec_mode)]
    pub fn mode(self) -> (mode: OpenMode)
        ensures
            mode == self.spec_mode(),
    {
        match self {
            Endpoint::Reader => OpenMode { read: true, write: true },
            Endpoint::Writer => OpenMode { read: false, write: true },
        }
    }
}

/// How far the opening of a pipe has come: which answer is awaited.
#[derive(Debug, Clone, Copy, PartialEq, Eq)]
pub enum OpenState {
    /// Nothing has been asked yet.
    Idle,
    /// Asked whether the path exists.
    ProbingEntry,
    /// The path did not exist: the pipe is being created.
    Creating(FifoState),
    /// Asked to open the special file.
    Opening,
    /// Over, with this outcome.
    Finished(Result<(), BackendError>),
}

/// How the opening goes on after a step of the creation: with the open
/// request once the pipe is there, with the creation's error where it
/// failed, and with the creation's own request otherwise.
pub open spec fn open_after_create(mode: OpenMode, made: (FifoState, PipeActionView)) -> (
    OpenState,
    PipeActionView,
) {
    match made.0 {
        FifoState::Finished(Ok(())) => (OpenState::Opening, PipeActionView::Open(mode)),
        FifoState::Finished(Err(e)) => (OpenState::Finished(Err(e)), PipeActionView::Done(Err(e))),
        _ => (OpenState::Creating(made.0), made.1),
    }
}

/// The state that follows `state` on `event` while a pipe is opened with
/// `mode`, and what is asked of the caller then.
pub open spec fn open_step(
    pipe: PipePathView,
    mode: OpenMode,
    state: OpenState,
    event: PipeEvent,
) -> (OpenState, PipeActionView) {
    match (state, event) {
        (OpenState::Idle, PipeEvent::Begin) => (OpenState::ProbingEntry, PipeActionView::ProbeEntry),
        (OpenState::ProbingEntry, PipeEvent::Exists(true)) => (
            OpenState::Opening,
            PipeActionView::Open(mode),
        ),
        (OpenState::ProbingEntry, PipeEvent::Exists(false)) => open_after_create(
            mode,
            fifo_step(pipe, FifoState::Idle, PipeEvent::Begin),
        ),
        (OpenState::Creating(inner), _) => open_after_create(mode, fifo_step(pipe, inner, event)),
        (OpenState::Opening, PipeEvent::Opened) => (
            OpenState::Finished(Ok(())),
            PipeActionView::Done(Ok(())),
        ),
        (OpenState::Opening, PipeEvent::OpenFailed { code }) => (
            OpenState::Finished(Err(BackendError::IoError(IoFailure::Open { code }))),
            PipeActionView::Done(Err(BackendError::IoError(IoFailure::Open { code }))),
        ),
        (OpenState::Finished(result), _) => (state, PipeActionView::Done(result)),
        _ => (state, PipeActionView::Wait),
    }
}

fn after_create(mode: OpenMode, made: (FifoState, PipeAction)) -> (next: (OpenState, PipeAction))
    ensures
        (next.0, next.1@) == open_after_create(mode, (made.0, made.1@)),
{
    match made.0 {
        FifoState::Finished(Ok(())) => (OpenState::Opening, PipeAction::Open(mode)),
        FifoState::Finished(Err(e)) => (OpenState::Finished(Err(e)), PipeAction::Done(Err(e))),
        _ => (OpenState::Creating(made.0), made.1),
    }
}

/// One step of opening the `endpoint` end of the pipe at `pipe`: takes the
/// answer to the last request and gives the next request. The pipe is
/// created first where its path does not exist.
pub fn open_pipe(pipe: &PipePath, endpoint: Endpoint, state: OpenState, event: PipeEvent) -> (next:
    (OpenState, PipeAction))
    ensures
        (next.0, next.1@) == open_step(pipe@, endpoint.spec_mode(), state, event),
{
    let mode = endpoint.mode();
    match (state, event) {
        (OpenState::Idle, PipeEvent::Begin) => (OpenState::ProbingEntry, PipeAction::ProbeEntry),
        (OpenState::ProbingEntry, PipeEvent::Exists(true)) => (
            OpenState::Opening,
            PipeAction::Open(mode),
        ),
        (OpenState::ProbingEntry, PipeEvent::Exists(false)) => after_create(
            mode,
            mkfifo(pipe, FifoState::Idle, PipeEvent::Begin),
        ),
        (OpenState::Creating(inner), _) => after_create(mode, mkfifo(pipe, inner, event)),
        (OpenState::Opening, PipeEvent::Opened) => (
            OpenState::Finished(Ok(())),
            PipeAction::Done(Ok(())),
        ),
        (OpenState::Opening, PipeEvent::OpenFailed { code }) => (
            OpenState::Finished(Err(BackendError::IoError(IoFailure::Open { code }))),
            PipeAction::Done(Err(BackendError::IoError(IoFailure::Open { code }))),
        ),
        (OpenState::Finished(result), _) => (state, PipeAction::Done(result)),
        _ => (state, PipeAction::Wait),
    }
}

/// One step of opening the pipe at `pipe` for reading. The pipe is created
/// first where its path does not exist. The special file is opened for
/// reading and writing, so that the reader never stands alone on the pipe
/// and sees no end of stream when a writer leaves.
pub fn open_read_pipe(pipe: &PipePath, state: OpenState, event: PipeEvent) -> (next: (
    OpenState,
    PipeAction,
))
    ensures
        (next.0, next.1@) == open_step(pipe@, OpenMode { read: true, write: true }, state, event),
{
    open_pipe(pipe, Endpoint::Reader, state, event)
}

/// One step of opening the pipe at `pipe` for writing. The pipe is created
/// first where its path does not exist. The special file is opened for
/// writing only.
pub fn open_write_pipe(pipe: &PipePath, state: OpenState, event: PipeEvent) -> (next: (
    OpenState,
    PipeAction,
))
    ensures
        (next.0, next.1@) == open_step(pipe@, OpenMode { read: false, write: true }, state, event),
{
    open_pipe(pipe, Endpoint::Writer, state, event)
}

/// How far `state` is from the start: no step leads to a state of lower
/// rank.
pub open spec fn open_rank(state: OpenState) -> nat {
    match state {
        OpenState::Idle => 0,
        OpenState::ProbingEntry => 1,
        OpenState::Creating(inner) => 2 + fifo_rank(inner),
        OpenState::Opening => 9,
        OpenState::Finished(_) => 10,
    }
}

/// The state reached from `state` when the caller answers with `events`,
/// one after the other.
pub open spec fn open_run(
    pipe: PipePathView,
    mode: OpenMode,
    state: OpenState,
    events: Seq<PipeEvent>,
) -> OpenState
    decreases events.len(),
{
    if events.len() == 0 {
        state
    } else {
        open_run(pipe, mode, open_step(pipe, mode, state, events.first()).0, events.drop_first())
    }
}

/// The requests made from `state` while the caller answers with `events`,
/// one for each event.
pub open spec fn open_requests(
    pipe: PipePathView,
    mode: OpenMode,
    state: OpenState,
    events: Seq<PipeEvent>,
) -> Seq<PipeActionView>
    decreases events.len(),
{
    if events.len() == 0 {
        Seq::empty()
    } else {
        seq![open_step(pipe, mode, state, events.first()).1] + open_requests(
            pipe,
            mode,
            open_step(pipe, mode, state, events.first()).0,
            events.drop_first(),
        )
    }
}

/// A step either answers the pending request and moves the machine
/// forward, or changes nothing and asks the caller to wait; a finished
/// machine stays as it is and repeats its outcome. The special file is
/// never asked to be opened in another mode than the one the machine was
/// given, and the machine waits for the answer to that request and for no
/// other.
pub proof fn lemma_open_progress(
    pipe: PipePathView,
    mode: OpenMode,
    state: OpenState,
    event: PipeEvent,
)
    ensures
        open_step(pipe, mode, state, event).1 is Wait ==> open_step(pipe, mode, state, event).0
            == state,
        state is Finished ==> open_step(pipe, mode, state, event) == (
            state,
            PipeActionView::Done(state->Finished_0),
        ),
        !(state is Finished) && !(open_step(pipe, mode, state, event).1 is Wait) ==> open_rank(
            open_step(pipe, mode, state, event).0,
        ) > open_rank(state),
        open_step(pipe, mode, state, event).1 is Done <==> open_step(pipe, mode, state, event).0
            is Finished,
        open_step(pipe, mode, state, event).1 is Open ==> open_step(pipe, mode, state, event)
            == (OpenState::Opening, PipeActionView::Open(mode)),
{
}

/// A pipe that exists is opened at once: nothing is created on the way.
pub proof fn lemma_open_existing(pipe: PipePathView, mode: OpenMode)
    ensures
        open_requests(
            pipe,
            mode,
            OpenState::Idle,
            seq![PipeEvent::Begin, PipeEvent::Exists(true), PipeEvent::Opened],
        ) == seq![
            PipeActionView::ProbeEntry,
            PipeActionView::Open(mode),
            PipeActionView::Done(Ok(())),
        ],
{
    let e3 = seq![PipeEvent::Begin, PipeEvent::Exists(true), PipeEvent::Opened];
    let e2 = seq![PipeEvent::Exists(true), PipeEvent::Opened];
    let e1 = seq![PipeEvent::Opened];
    assert(e3.drop_first() == e2);
    assert(e2.drop_first() == e1);
    assert(e1.drop_first() == Seq::<PipeEvent>::empty());
    reveal_with_fuel(open_requests, 4);
    assert(open_requests(pipe, mode, OpenState::Idle, e3) == seq![
        PipeActionView::ProbeEntry,
        PipeActionView::Open(mode),
        PipeActionView::Done(Ok(())),
    ]);
}

/// A pipe that does not exist is created before it is opened: the creation
/// probes the path itself once more, then asks for the directory tree and
/// for the special file, and only then the special file is opened.
pub proof fn lemma_open_missing(
    pipe: PipePathView,
    mode: OpenMode,
    dir: Seq<char>,
    c_path: Seq<u8>,
)
    requires
        pipe.parent == Some(dir),
        pipe.c_path == Some(c_path),
    ensures
        open_requests(
            pipe,
            mode,
            OpenState::Idle,
            seq![
                PipeEvent::Begin,
                PipeEvent::Exists(false),
                PipeEvent::Exists(false),
                PipeEvent::Exists(false),
                PipeEvent::DirCreated,
                PipeEvent::Status(0),
                PipeEvent::Opened,
            ],
        ) == seq![
            PipeActionView::ProbeEntry,
            PipeActionView::ProbeEntry,
            PipeActionView::ProbeParent(dir),
            PipeActionView::CreateParent(dir),
            PipeActionView::MakeFifo { c_path, mode: FIFO_MODE },
            PipeActionView::Open(mode),
            PipeActionView::Done(Ok(())),
        ],
{
    let e7 = seq![
        PipeEvent::Begin,
        PipeEvent::Exists(false),
        PipeEvent::Exists(false),
        PipeEvent::Exists(false),
        PipeEvent::DirCreated,
        PipeEvent::Status(0),
        PipeEvent::Opened,
    ];
    let e6 = e7.drop_first();
    let e5 = e6.drop_first();
    let e4 = e5.drop_first();
    let e3 = e4.drop_first();
    let e2 = e3.drop_first();
    let e1 = e2.drop_first();
    assert(e1.drop_first() == Seq::<PipeEvent>::empty());
    reveal_with_fuel(open_requests, 8);
    assert(open_requests(pipe, mode, OpenState::Idle, e7) == seq![
        PipeActionView::ProbeEntry,
        PipeActionView::ProbeEntry,
        PipeActionView::ProbeParent(dir),
        PipeActionView::CreateParent(dir),
        PipeActionView::MakeFifo { c_path, mode: FIFO_MODE },
        PipeActionView::Open(mode),
        PipeActionView::Done(Ok(())),
    ]);
}

/// Where the creation of the pipe fails, the opening fails with the same
/// error and the special file is never asked to be opened.
pub proof fn lemma_open_fails_with_creation(
    pipe: PipePathView,
    mode: OpenMode,
    inner: FifoState,
    event: PipeEvent,
    error: BackendError,
)
    requires
        fifo_step(pipe, inner, event).0 == FifoState::Finished(Err(error)),
    ensures
        open_step(pipe, mode, OpenState::Creating(inner), event) == (
            OpenState::Finished(Err(error)),
            PipeActionView::Done(Err(error)),
        ),
{
}

} // verus!
