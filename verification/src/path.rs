//! Pipe paths: the directory a pipe lives in, and the bytes under which the
//! operating system knows the path.

use vstd::prelude::*;
use vstd::string::*;
use vstd::utf8::encode_utf8;
use crate::error::BackendError;

verus! {

/// The directory that holds `path`, as `std::path::Path::parent` gives it on
/// Unix: the path without its last component, or `None` where there is no
/// such component.
pub uninterp spec fn path_parent(path: Seq<char>) -> Option<Seq<char>>;

/// Calls `std::path::Path::parent` on `path`. Trusted: the result is the
/// parent that the standard library computes, which depends on the text of
/// the path alone and never on the filesystem; nothing more is claimed of it.
#[verifier::external_body]
fn parent_of(path: &str) -> (parent: Option<String>)
    ensures
        parent is Some <==> path_parent(path@) is Some,
        parent matches Some(dir) ==> path_parent(path@) == Some(dir@),
{
    match std::path::Path::new(path).parent() {
        Some(dir) => Some(dir.to_string_lossy().into_owned()),
        None => None,
    }
}

/// Whether `bytes` can be a C string: no byte of it is zero.
pub open spec fn encodable(bytes: Seq<u8>) -> bool {
    forall|i: int| 0 <= i < bytes.len() ==> bytes[i] != 0u8
}

/// `bytes` as a C string: followed by the terminating zero.
pub open spec fn terminated(bytes: Seq<u8>) -> Seq<u8> {
    bytes.push(0u8)
}

/// The path as the operating system takes it, or nothing where the path
/// cannot be encoded.
pub open spec fn c_path_of(path: Seq<u8>) -> Option<Seq<u8>> {
    if encodable(path) {
        Some(terminated(path))
    } else {
        None
    }
}

/// Encodes `path` for a system call: its UTF-8 bytes and a terminating zero.
/// A path that holds a NUL cannot be encoded.
pub fn c_path(path: &str) -> (encoded: Result<Vec<u8>, BackendError>)
    ensures
        encoded is Ok <==> encodable(path.spec_bytes()),
        encoded matches Ok(bytes) ==> bytes@ == terminated(path.spec_bytes()),
        encoded matches Err(e) ==> e == BackendError::EncodingError,
{
    let bytes = path.as_bytes();
    let mut out: Vec<u8> = Vec::new();
    let mut i: usize = 0;
    while i < bytes.len()
        invariant
            bytes@ == path.spec_bytes(),
            i <= bytes@.len(),
            out@ == bytes@.subrange(0, i as int),
            forall|j: int| 0 <= j < i ==> bytes@[j] != 0u8,
        decreases bytes@.len() - i,
    {
        let b: u8 = bytes[i];
        if b == 0 {
            return Err(BackendError::EncodingError);
        }
        out.push(b);
        i += 1;
        assert(out@ == bytes@.subrange(0, i as int));
    }
    assert(bytes@.subrange(0, i as int) == bytes@);
    out.push(0);
    Ok(out)
}

/// A pipe's path together with what the library derives from its text: the
/// directory that holds it and its encoding for system calls.
#[derive(Debug, Clone, PartialEq, Eq)]
pub struct PipePath {
    /// The path as the caller gave it.
    pub path: String,
    /// The directory that holds the path, if the path has one.
    pub parent: Option<String>,
    /// The path as a C string, if it can be encoded.
    pub c_path: Option<Vec<u8>>,
}

/// A [`PipePath`] as plain values.
pub struct PipePathView {
    pub path: Seq<char>,
    pub parent: Option<Seq<char>>,
    pub c_path: Option<Seq<u8>>,
}

impl View for PipePath {
    type V = PipePathView;

    open spec fn view(&self) -> PipePathView {
        PipePathView {
            path: self.path@,
            parent: match self.parent {
                Some(dir) => Some(dir@),
                None => None,
            },
            c_path: match self.c_path {
                Some(bytes) => Some(bytes@),
                None => None,
            },
        }
    }
}

impl PipePathView {
    /// What belongs to the path `text`: its parent directory and its C
    /// string.
    pub open spec fn of(text: Seq<char>) -> PipePathView {
        PipePathView {
            path: text,
            parent: path_parent(text),
            c_path: c_path_of(encode_utf8(text)),
        }
    }
}

impl PipePath {
    /// Derives the parent directory and the C string of `path`.
    pub fn new(path: &str) -> (pipe: PipePath)
        ensures
            pipe@ == PipePathView::of(path@),
    {
        let c_path = match c_path(path) {
            Ok(bytes) => Some(bytes),
            Err(_) => None,
        };
        PipePath { path: path.to_owned(), parent: parent_of(path), c_path }
    }
}

} // verus!
