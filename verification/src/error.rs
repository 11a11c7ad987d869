//! What can go wrong while a pipe is created or opened, or while the
//! configuration is read.

use vstd::prelude::*;

verus! {

/// The operating-system step that failed.
#[derive(Debug, Clone, Copy, PartialEq, Eq)]
pub enum IoFailure {
    /// The parent directory tree could not be created; `code` is the
    /// operating system's error number, where it gave one.
    CreateDir { code: Option<i32> },
    /// The call that creates the special file returned `status`, which is
    /// not zero, and the path still did not exist afterwards.
    MakeFifo { status: i32 },
    /// The special file could not be opened; `code` is the operating
    /// system's error number, where it gave one.
    Open { code: Option<i32> },
}

/// An error of this library.
#[derive(Debug, Clone, Copy, PartialEq, Eq)]
pub enum BackendError {
    /// A directory or file could not be created, or a pipe not opened.
    IoError(IoFailure),
    /// A required configuration value is absent.
    ConfigError,
    /// The path cannot be handed to the operating system: it holds a NUL.
    EncodingError,
}

impl BackendError {
    /// Whether the caller can go on after this error. Only a missing
    /// required configuration value is fatal.
    pub open spec fn spec_is_fatal(self) -> bool {
        self is ConfigError
    }

    /// Whether the caller can go on after this error. Only a missing
    /// required configuration value is fatal.
    #[verifier::when_used_as_spec(spec_is_fatal)]
    pub fn is_fatal(self) -> (fatal: bool)
        ensures
            fatal == self.spec_is_fatal(),
    {
        match self {
            BackendError::ConfigError => true,
            _ => false,
        }
    }
}

} // verus!
