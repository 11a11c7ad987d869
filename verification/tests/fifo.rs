use devcade_backend::{
    mkfifo, BackendError, FifoState, IoFailure, OpenMode, PipeAction, PipeEvent, PipePath,
    FIFO_MODE,
};

fn pipe() -> PipePath {
    PipePath::new("/tmp/devcade/pipes/read")
}

fn encoded() -> Vec<u8> {
    let mut bytes = "/tmp/devcade/pipes/read".as_bytes().to_vec();
    bytes.push(0);
    bytes
}

fn dir() -> String {
    String::from("/tmp/devcade/pipes")
}

#[test]
fn fifo_mode_is_rw_r_r() {
    assert_eq!(FIFO_MODE, 0o644);
    assert_eq!(FIFO_MODE, 420);
}

#[test]
fn mkfifo_begins_with_a_probe_of_the_path() {
    assert_eq!(
        mkfifo(&pipe(), FifoState::Idle, PipeEvent::Begin),
        (FifoState::ProbingEntry, PipeAction::ProbeEntry)
    );
}

#[test]
fn mkfifo_leaves_an_existing_path_alone() {
    assert_eq!(
        mkfifo(&pipe(), FifoState::ProbingEntry, PipeEvent::Exists(true)),
        (FifoState::Finished(Ok(())), PipeAction::Done(Ok(())))
    );
}

#[test]
fn mkfifo_probes_the_parent_of_a_missing_path() {
    assert_eq!(
        mkfifo(&pipe(), FifoState::ProbingEntry, PipeEvent::Exists(false)),
        (FifoState::ProbingParent, PipeAction::ProbeParent(dir()))
    );
}

#[test]
fn mkfifo_creates_a_missing_parent() {
    assert_eq!(
        mkfifo(&pipe(), FifoState::ProbingParent, PipeEvent::Exists(false)),
        (FifoState::CreatingParent, PipeAction::CreateParent(dir()))
    );
}

#[test]
fn mkfifo_skips_an_existing_parent() {
    assert_eq!(
        mkfifo(&pipe(), FifoState::ProbingParent, PipeEvent::Exists(true)),
        (FifoState::Making, PipeAction::MakeFifo { c_path: encoded(), mode: 0o644 })
    );
}

#[test]
fn mkfifo_makes_the_file_once_the_parent_is_there() {
    assert_eq!(
        mkfifo(&pipe(), FifoState::CreatingParent, PipeEvent::DirCreated),
        (FifoState::Making, PipeAction::MakeFifo { c_path: encoded(), mode: 0o644 })
    );
}

#[test]
fn mkfifo_fails_when_the_parent_cannot_be_created() {
    let error = BackendError::IoError(IoFailure::CreateDir { code: Some(13) });
    assert_eq!(
        mkfifo(&pipe(), FifoState::CreatingParent, PipeEvent::DirFailed { code: Some(13) }),
        (FifoState::Finished(Err(error)), PipeAction::Done(Err(error)))
    );
    let error = BackendError::IoError(IoFailure::CreateDir { code: None });
    assert_eq!(
        mkfifo(&pipe(), FifoState::CreatingParent, PipeEvent::DirFailed { code: None }),
        (FifoState::Finished(Err(error)), PipeAction::Done(Err(error)))
    );
}

#[test]
fn mkfifo_succeeds_on_status_zero() {
    assert_eq!(
        mkfifo(&pipe(), FifoState::Making, PipeEvent::Status(0)),
        (FifoState::Finished(Ok(())), PipeAction::Done(Ok(())))
    );
}

#[test]
fn mkfifo_probes_again_after_a_failed_creation() {
    assert_eq!(
        mkfifo(&pipe(), FifoState::Making, PipeEvent::Status(-1)),
        (FifoState::Rechecking { status: -1 }, PipeAction::ProbeEntry)
    );
}

#[test]
fn mkfifo_takes_a_lost_race_for_success() {
    assert_eq!(
        mkfifo(&pipe(), FifoState::Rechecking { status: -1 }, PipeEvent::Exists(true)),
        (FifoState::Finished(Ok(())), PipeAction::Done(Ok(())))
    );
}

#[test]
fn mkfifo_reports_the_status_of_a_failed_creation() {
    let error = BackendError::IoError(IoFailure::MakeFifo { status: 17 });
    assert_eq!(
        mkfifo(&pipe(), FifoState::Rechecking { status: 17 }, PipeEvent::Exists(false)),
        (FifoState::Finished(Err(error)), PipeAction::Done(Err(error)))
    );
}

#[test]
fn mkfifo_refuses_a_path_with_nul_only_after_the_parent_is_there() {
    let pipe = PipePath::new("/tmp/devcade/pi\0pe");
    assert_eq!(
        mkfifo(&pipe, FifoState::ProbingEntry, PipeEvent::Exists(false)),
        (FifoState::ProbingParent, PipeAction::ProbeParent(String::from("/tmp/devcade")))
    );
    assert_eq!(
        mkfifo(&pipe, FifoState::ProbingParent, PipeEvent::Exists(false)),
        (FifoState::CreatingParent, PipeAction::CreateParent(String::from("/tmp/devcade")))
    );
    let error = BackendError::EncodingError;
    assert_eq!(
        mkfifo(&pipe, FifoState::CreatingParent, PipeEvent::DirCreated),
        (FifoState::Finished(Err(error)), PipeAction::Done(Err(error)))
    );
    assert_eq!(
        mkfifo(&pipe, FifoState::ProbingParent, PipeEvent::Exists(true)),
        (FifoState::Finished(Err(error)), PipeAction::Done(Err(error)))
    );
}

#[test]
fn mkfifo_without_a_parent_goes_straight_to_the_file() {
    let pipe = PipePath::new("");
    assert_eq!(
        mkfifo(&pipe, FifoState::ProbingEntry, PipeEvent::Exists(false)),
        (FifoState::Making, PipeAction::MakeFifo { c_path: vec![0], mode: 0o644 })
    );
    assert_eq!(
        mkfifo(&pipe, FifoState::ProbingParent, PipeEvent::Exists(false)),
        (FifoState::Making, PipeAction::MakeFifo { c_path: vec![0], mode: 0o644 })
    );
}

#[test]
fn mkfifo_waits_on_an_answer_to_no_request() {
    let pipe = pipe();
    let states = [
        FifoState::Idle,
        FifoState::ProbingEntry,
        FifoState::ProbingParent,
        FifoState::CreatingParent,
        FifoState::Making,
        FifoState::Rechecking { status: 2 },
    ];
    for state in states {
        assert_eq!(mkfifo(&pipe, state, PipeEvent::Opened), (state, PipeAction::Wait));
        assert_eq!(
            mkfifo(&pipe, state, PipeEvent::OpenFailed { code: Some(6) }),
            (state, PipeAction::Wait)
        );
    }
    assert_eq!(
        mkfifo(&pipe, FifoState::Idle, PipeEvent::Exists(true)),
        (FifoState::Idle, PipeAction::Wait)
    );
    assert_eq!(
        mkfifo(&pipe, FifoState::ProbingEntry, PipeEvent::Begin),
        (FifoState::ProbingEntry, PipeAction::Wait)
    );
    assert_eq!(
        mkfifo(&pipe, FifoState::ProbingEntry, PipeEvent::Status(0)),
        (FifoState::ProbingEntry, PipeAction::Wait)
    );
    assert_eq!(
        mkfifo(&pipe, FifoState::CreatingParent, PipeEvent::Exists(true)),
        (FifoState::CreatingParent, PipeAction::Wait)
    );
    assert_eq!(
        mkfifo(&pipe, FifoState::Making, PipeEvent::DirCreated),
        (FifoState::Making, PipeAction::Wait)
    );
    assert_eq!(
        mkfifo(&pipe, FifoState::Rechecking { status: 2 }, PipeEvent::Status(0)),
        (FifoState::Rechecking { status: 2 }, PipeAction::Wait)
    );
}

#[test]
fn mkfifo_finished_repeats_its_outcome() {
    let pipe = pipe();
    let error = BackendError::IoError(IoFailure::MakeFifo { status: 1 });
    let events = [
        PipeEvent::Begin,
        PipeEvent::Exists(true),
        PipeEvent::Exists(false),
        PipeEvent::DirCreated,
        PipeEvent::DirFailed { code: None },
        PipeEvent::Status(0),
        PipeEvent::Status(5),
        PipeEvent::Opened,
        PipeEvent::OpenFailed { code: None },
    ];
    for event in events {
        assert_eq!(
            mkfifo(&pipe, FifoState::Finished(Ok(())), event),
            (FifoState::Finished(Ok(())), PipeAction::Done(Ok(())))
        );
        assert_eq!(
            mkfifo(&pipe, FifoState::Finished(Err(error)), event),
            (FifoState::Finished(Err(error)), PipeAction::Done(Err(error)))
        );
    }
}

#[test]
fn mkfifo_never_asks_to_open() {
    let pipe = pipe();
    let mut state = FifoState::Idle;
    let events = [
        PipeEvent::Begin,
        PipeEvent::Exists(false),
        PipeEvent::Exists(false),
        PipeEvent::DirCreated,
        PipeEvent::Status(0),
        PipeEvent::Opened,
    ];
    for event in events {
        let (next, action) = mkfifo(&pipe, state, event);
        assert_ne!(action, PipeAction::Open(OpenMode { read: true, write: true }));
        assert_ne!(action, PipeAction::Open(OpenMode { read: false, write: true }));
        state = next;
    }
    assert_eq!(state, FifoState::Finished(Ok(())));
}
