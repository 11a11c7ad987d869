//! Creating a pipe's special file: the parent directory first, then the
//! file, and nothing at all where the path already exists.

use vstd::prelude::*;
use crate::error::{BackendError, IoFailure};
use crate::path::{PipePath, PipePathView};
use crate::protocol::{PipeAction, PipeActionView, PipeEvent};

verus! {

/// Permission bits of a new pipe: read and write for the owner, read for
/// group and others.
pub const FIFO_MODE: u32 = 0o644;

/// How far the creation of a pipe has come: which answer is awaited.
#[derive(Debug, Clone, Copy, PartialEq, Eq)]
pub enum FifoState {
    /// Nothing has been asked yet.
    Idle,
    /// Asked whether the path exists.
    ProbingEntry,
    /// Asked whether the parent directory exists.
    ProbingParent,
    /// Asked for the parent directory tree.
    CreatingParent,
    /// Asked for the special file.
    Making,
    /// The creation call returned `status`, not zero; asked again whether
    /// the path exists, since another process may have created it meanwhile.
    Rechecking { status: i32 },
    /// Over, with this outcome.
    Finished(Result<(), BackendError>),
}

/// The machine ends with `result`.
pub open spec fn fifo_finish(result: Result<(), BackendError>) -> (FifoState, PipeActionView) {
    (FifoState::Finished(result), PipeActionView::Done(result))
}

/// The step that creates the special file: asked for where the path can be
/// encoded, an encoding error where it cannot.
pub open spec fn fifo_create(pipe: PipePathView) -> (FifoState, PipeActionView) {
    match pipe.c_path {
        Some(c_path) => (FifoState::Making, PipeActionView::MakeFifo { c_path, mode: FIFO_MODE }),
        None => fifo_finish(Err(BackendError::EncodingError)),
    }
}

/// The state that follows `state` on `event`, and what is asked of the
/// caller then.
pub open spec fn fifo_step(pipe: PipePathView, state: FifoState, event: PipeEvent) -> (
    FifoState,
    PipeActionView,
) {
    match (state, event) {
        (FifoState::Idle, PipeEvent::Begin) => (FifoState::ProbingEntry, PipeActionView::ProbeEntry),
        (FifoState::ProbingEntry, PipeEvent::Exists(true)) => fifo_finish(Ok(())),
        (FifoState::ProbingEntry, PipeEvent::Exists(false)) => match pipe.parent {
            Some(dir) => (FifoState::ProbingParent, PipeActionView::ProbeParent(dir)),
            None => fifo_create(pipe),
        },
        (FifoState::ProbingParent, PipeEvent::Exists(true)) => fifo_create(pipe),
        (FifoState::ProbingParent, PipeEvent::Exists(false)) => match pipe.parent {
            Some(dir) => (FifoState::CreatingParent, PipeActionView::CreateParent(dir)),
            None => fifo_create(pipe),
        },
        (FifoState::CreatingParent, PipeEvent::DirCreated) => fifo_create(pipe),
        (FifoState::CreatingParent, PipeEvent::DirFailed { code }) => fifo_finish(
            Err(BackendError::IoError(IoFailure::CreateDir { code })),
        ),
        (FifoState::Making, PipeEvent::Status(status)) => if status == 0 {
            fifo_finish(Ok(()))
        } else {
            (FifoState::Rechecking { status }, PipeActionView::ProbeEntry)
        },
        (FifoState::Rechecking { status }, PipeEvent::Exists(true)) => fifo_finish(Ok(())),
        (FifoState::Rechecking { status }, PipeEvent::Exists(false)) => fifo_finish(
            Err(BackendError::IoError(IoFailure::MakeFifo { status })),
        ),
        (FifoState::Finished(result), _) => (state, PipeActionView::Done(result)),
        _ => (state, PipeActionView::Wait),
    }
}

fn finish(result: Result<(), BackendError>) -> (next: (FifoState, PipeAction))
    ensures
        (next.0, next.1@) == fifo_finish(result),
{
    (FifoState::Finished(result), PipeAction::Done(result))
}

fn create(pipe: &PipePath) -> (next: (FifoState, PipeAction))
    ensures
        (next.0, next.1@) == fifo_create(pipe@),
{
    match &pipe.c_path {
        Some(c_path) => (FifoState::Making, PipeAction::MakeFifo { c_path: c_path.clone(), mode: FIFO_MODE }),
        None => finish(Err(BackendError::EncodingError)),
    }
}

/// One step of making sure that a pipe exists at `pipe`: takes the answer
/// to the last request and gives the next request. A path that exists is
/// left as it is; otherwise the parent directory is created where it is
/// missing, then the special file with [`FIFO_MODE`]. A path without a
/// parent directory has none to create: the special file is asked for at
/// once. Where the creation call fails, the path is probed once more
/// before the failure counts. An event that answers no pending request
/// changes nothing, and a finished machine repeats its outcome.
pub fn mkfifo(pipe: &PipePath, state: FifoState, event: PipeEvent) -> (next: (
    FifoState,
    PipeAction,
))
    ensures
        (next.0, next.1@) == fifo_step(pipe@, state, event),
{
    match (state, event) {
        (FifoState::Idle, PipeEvent::Begin) => (FifoState::ProbingEntry, PipeAction::ProbeEntry),
        (FifoState::ProbingEntry, PipeEvent::Exists(true)) => finish(Ok(())),
        (FifoState::ProbingEntry, PipeEvent::Exists(false)) => match &pipe.parent {
            Some(dir) => (FifoState::ProbingParent, PipeAction::ProbeParent(dir.clone())),
            None => create(pipe),
        },
        (FifoState::ProbingParent, PipeEvent::Exists(true)) => create(pipe),
        (FifoState::ProbingParent, PipeEvent::Exists(false)) => match &pipe.parent {
            Some(dir) => (FifoState::CreatingParent, PipeAction::CreateParent(dir.clone())),
            None => create(pipe),
        },
        (FifoState::CreatingParent, PipeEvent::DirCreated) => create(pipe),
        (FifoState::CreatingParent, PipeEvent::DirFailed { code }) => finish(
            Err(BackendError::IoError(IoFailure::CreateDir { code })),
        ),
        (FifoState::Making, PipeEvent::Status(status)) => if status == 0 {
            finish(Ok(()))
        } else {
            (FifoState::Rechecking { status }, PipeAction::ProbeEntry)
        },
        (FifoState::Rechecking { status }, PipeEvent::Exists(true)) => finish(Ok(())),
        (FifoState::Rechecking { status }, PipeEvent::Exists(false)) => finish(
            Err(BackendError::IoError(IoFailure::MakeFifo { status })),
        ),
        (FifoState::Finished(result), _) => (state, PipeAction::Done(result)),
        _ => (state, PipeAction::Wait),
    }
}

/// How far `state` is from the start: no step leads to a state of lower
/// rank.
pub open spec fn fifo_rank(state: FifoState) -> nat {
    match state {
        FifoState::Idle => 0,
        FifoState::ProbingEntry => 1,
        FifoState::ProbingParent => 2,
        FifoState::CreatingParent => 3,
        FifoState::Making => 4,
        FifoState::Rechecking { .. } => 5,
        FifoState::Finished(_) => 6,
    }
}

/// The state reached from `state` when the caller answers with `events`,
/// one after the other.
pub open spec fn fifo_run(pipe: PipePathView, state: FifoState, events: Seq<PipeEvent>) -> FifoState
    decreases events.len(),
{
    if events.len() == 0 {
        state
    } else {
        fifo_run(pipe, fifo_step(pipe, state, events.first()).0, events.drop_first())
    }
}

/// The requests made from `state` while the caller answers with `events`,
/// one for each event.
pub open spec fn fifo_requests(pipe: PipePathView, state: FifoState, events: Seq<PipeEvent>) -> Seq<
    PipeActionView,
>
    decreases events.len(),
{
    if events.len() == 0 {
        Seq::empty()
    } else {
        seq![fifo_step(pipe, state, events.first()).1] + fifo_requests(
            pipe,
            fifo_step(pipe, state, events.first()).0,
            events.drop_first(),
        )
    }
}

/// How many of `requests` ask for a special file.
pub open spec fn creations(requests: Seq<PipeActionView>) -> nat
    decreases requests.len(),
{
    if requests.len() == 0 {
        0
    } else if requests.first() is MakeFifo {
        1 + creations(requests.drop_first())
    } else {
        creations(requests.drop_first())
    }
}

/// Whether one of `events` says that the path exists: a probe that found
/// it, or a creation call that returned zero.
pub open spec fn confirms_entry(events: Seq<PipeEvent>) -> bool {
    exists|i: int|
        0 <= i < events.len() && (#[trigger] events[i] == PipeEvent::Exists(true) || events[i]
            == PipeEvent::Status(0))
}

/// A step either answers the pending request and moves the machine
/// forward, or changes nothing and asks the caller to wait; a finished
/// machine stays as it is and repeats its outcome. So a run takes at most
/// six answers.
pub proof fn lemma_fifo_progress(pipe: PipePathView, state: FifoState, event: PipeEvent)
    ensures
        fifo_step(pipe, state, event).1 is Wait ==> fifo_step(pipe, state, event).0 == state,
        state is Finished ==> fifo_step(pipe, state, event) == (
            state,
            PipeActionView::Done(state->Finished_0),
        ),
        !(state is Finished) && !(fifo_step(pipe, state, event).1 is Wait) ==> fifo_rank(
            fifo_step(pipe, state, event).0,
        ) > fifo_rank(state),
        fifo_step(pipe, state, event).1 is Done <==> fifo_step(pipe, state, event).0 is Finished,
        !(fifo_step(pipe, state, event).1 is Open),
{
}

/// A path that exists is left as it is: the first probe ends the run with
/// success, and neither a directory nor a special file is asked for. This
/// is what a second call on the same path meets.
pub proof fn lemma_existing_entry_is_kept(pipe: PipePathView)
    ensures
        fifo_requests(
            pipe,
            FifoState::Idle,
            seq![PipeEvent::Begin, PipeEvent::Exists(true)],
        ) == seq![PipeActionView::ProbeEntry, PipeActionView::Done(Ok(()))],
        fifo_run(pipe, FifoState::Idle, seq![PipeEvent::Begin, PipeEvent::Exists(true)])
            == FifoState::Finished(Ok(())),
{
    let events = seq![PipeEvent::Begin, PipeEvent::Exists(true)];
    let rest = seq![PipeEvent::Exists(true)];
    assert(events.drop_first() == rest);
    assert(rest.drop_first() == Seq::<PipeEvent>::empty());
    reveal_with_fuel(fifo_requests, 3);
    reveal_with_fuel(fifo_run, 3);
    assert(fifo_requests(pipe, FifoState::Idle, events) == seq![
        PipeActionView::ProbeEntry,
        PipeActionView::Done(Ok(())),
    ]);
}

/// Where neither the path nor its parent directory exists, one run asks
/// for the whole directory tree and then for the special file with
/// [`FIFO_MODE`], in this order and each once, and ends with success when
/// both are granted.
pub proof fn lemma_missing_tree_is_created(pipe: PipePathView, dir: Seq<char>, c_path: Seq<u8>)
    requires
        pipe.parent == Some(dir),
        pipe.c_path == Some(c_path),
    ensures
        fifo_requests(
            pipe,
            FifoState::Idle,
            seq![
                PipeEvent::Begin,
                PipeEvent::Exists(false),
                PipeEvent::Exists(false),
                PipeEvent::DirCreated,
                PipeEvent::Status(0),
            ],
        ) == seq![
            PipeActionView::ProbeEntry,
            PipeActionView::ProbeParent(dir),
            PipeActionView::CreateParent(dir),
            PipeActionView::MakeFifo { c_path, mode: FIFO_MODE },
            PipeActionView::Done(Ok(())),
        ],
        fifo_run(
            pipe,
            FifoState::Idle,
            seq![
                PipeEvent::Begin,
                PipeEvent::Exists(false),
                PipeEvent::Exists(false),
                PipeEvent::DirCreated,
                PipeEvent::Status(0),
            ],
        ) == FifoState::Finished(Ok(())),
{
    let e5 = seq![
        PipeEvent::Begin,
        PipeEvent::Exists(false),
        PipeEvent::Exists(false),
        PipeEvent::DirCreated,
        PipeEvent::Status(0),
    ];
    let e4 = seq![
        PipeEvent::Exists(false),
        PipeEvent::Exists(false),
        PipeEvent::DirCreated,
        PipeEvent::Status(0),
    ];
    let e3 = seq![PipeEvent::Exists(false), PipeEvent::DirCreated, PipeEvent::Status(0)];
    let e2 = seq![PipeEvent::DirCreated, PipeEvent::Status(0)];
    let e1 = seq![PipeEvent::Status(0)];
    assert(e5.drop_first() == e4);
    assert(e4.drop_first() == e3);
    assert(e3.drop_first() == e2);
    assert(e2.drop_first() == e1);
    assert(e1.drop_first() == Seq::<PipeEvent>::empty());
    reveal_with_fuel(fifo_requests, 6);
    reveal_with_fuel(fifo_run, 6);
    assert(fifo_requests(pipe, FifoState::Idle, e5) == seq![
        PipeActionView::ProbeEntry,
        PipeActionView::ProbeParent(dir),
        PipeActionView::CreateParent(dir),
        PipeActionView::MakeFifo { c_path, mode: FIFO_MODE },
        PipeActionView::Done(Ok(())),
    ]);
}

/// The creation call may fail because another process has created the
/// path in the meantime. So after a status other than zero the path is
/// probed again: where it exists now the run succeeds, and only where it
/// still does not, the run fails with that status.
pub proof fn lemma_lost_race_is_success(pipe: PipePathView, status: i32, exists: bool)
    requires
        status != 0,
    ensures
        fifo_step(pipe, FifoState::Making, PipeEvent::Status(status)) == (
            FifoState::Rechecking { status },
            PipeActionView::ProbeEntry,
        ),
        fifo_step(pipe, FifoState::Rechecking { status }, PipeEvent::Exists(exists)).0
            == FifoState::Finished(
            if exists {
                Ok(())
            } else {
                Err(BackendError::IoError(IoFailure::MakeFifo { status }))
            },
        ),
{
}

proof fn lemma_creations_from(pipe: PipePathView, state: FifoState, events: Seq<PipeEvent>)
    ensures
        creations(fifo_requests(pipe, state, events)) <= (if fifo_rank(state) < 4 {
            1nat
        } else {
            0nat
        }),
    decreases events.len(),
{
    if events.len() > 0 {
        let step = fifo_step(pipe, state, events.first());
        let rest = fifo_requests(pipe, step.0, events.drop_first());
        let all = fifo_requests(pipe, state, events);
        lemma_creations_from(pipe, step.0, events.drop_first());
        assert(all == seq![step.1] + rest);
        assert(all.first() == step.1);
        assert(all.drop_first() == rest);
    }
}

/// Whatever the caller answers, a run asks for the special file at most
/// once: no path gets a second one.
pub proof fn lemma_at_most_one_creation(pipe: PipePathView, events: Seq<PipeEvent>)
    ensures
        creations(fifo_requests(pipe, FifoState::Idle, events)) <= 1,
{
    lemma_creations_from(pipe, FifoState::Idle, events);
}

proof fn lemma_success_from(pipe: PipePathView, state: FifoState, events: Seq<PipeEvent>)
    requires
        !(state is Finished),
        fifo_run(pipe, state, events) == FifoState::Finished(Ok(())),
    ensures
        confirms_entry(events),
    decreases events.len(),
{
    if events.len() > 0 {
        let first = events.first();
        let next = fifo_step(pipe, state, first).0;
        let rest = events.drop_first();
        if first == PipeEvent::Exists(true) || first == PipeEvent::Status(0) {
            assert(events[0] == first);
        } else {
            if next is Finished {
                lemma_finished_is_final(pipe, next, rest);
            } else {
                lemma_success_from(pipe, next, rest);
                let i = choose|i: int|
                    0 <= i < rest.len() && (#[trigger] rest[i] == PipeEvent::Exists(true) || rest[i]
                        == PipeEvent::Status(0));
                assert(events[i + 1] == rest[i]);
            }
        }
    }
}

/// A finished machine keeps its outcome, whatever the caller goes on to
/// answer.
pub proof fn lemma_finished_is_final(pipe: PipePathView, state: FifoState, events: Seq<PipeEvent>)
    requires
        state is Finished,
    ensures
        fifo_run(pipe, state, events) == state,
    decreases events.len(),
{
    if events.len() > 0 {
        lemma_finished_is_final(pipe, state, events.drop_first());
    }
}

/// A run ends with success only where the caller has seen the path: a
/// probe found it, or the creation call returned zero.
pub proof fn lemma_success_needs_the_entry(pipe: PipePathView, events: Seq<PipeEvent>)
    requires
        fifo_run(pipe, FifoState::Idle, events) == FifoState::Finished(Ok(())),
    ensures
        confirms_entry(events),
{
    lemma_success_from(pipe, FifoState::Idle, events);
}

} // verus!
