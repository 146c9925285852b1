//! The failures that the store reports.

use vstd::prelude::*;

verus! {

/// The kinds of failure. A failed sync is kept apart from every failure of
/// the local store: it never undoes the local write that came before it.
#[derive(Debug, Clone, Copy, PartialEq, Eq, Structural)]
pub enum ErrorKind {
    /// A connection parameter is missing or invalid, the clock included.
    Configuration,
    /// The local file or the remote endpoint could not be reached at open time.
    Connection,
    /// A reading statement failed, or gave rows of another shape.
    Query,
    /// A writing statement failed, or its row could not be read back.
    Write,
    /// No note has the id that an update named.
    NotFound,
    /// The remote propagation failed; the local state stands.
    Sync,
}

/// A failure, with the words that describe it.
#[derive(Debug)]
pub struct StoreError {
    pub kind: ErrorKind,
    pub msg: String,
}

/// What a `StoreError` stands for.
pub struct ErrorView {
    pub kind: ErrorKind,
    pub msg: Seq<char>,
}

impl View for StoreError {
    type V = ErrorView;

    open spec fn view(&self) -> ErrorView {
        ErrorView { kind: self.kind, msg: self.msg@ }
    }
}

/// The view of a warning that may be absent.
pub open spec fn warning_view(warning: Option<StoreError>) -> Option<ErrorView> {
    match warning {
        Some(e) => Some(e@),
        None => None,
    }
}

impl StoreError {
    /// A failure of the given kind.
    pub fn new(kind: ErrorKind, msg: String) -> (e: StoreError)
        ensures
            e@ == (ErrorView { kind, msg: msg@ }),
    {
        StoreError { kind, msg }
    }

    /// A failure of the given kind, described by a fixed text.
    pub fn fixed(kind: ErrorKind, msg: &str) -> (e: StoreError)
        ensures
            e@ == (ErrorView { kind, msg: msg@ }),
    {
        StoreError { kind, msg: msg.to_owned() }
    }

    /// The words that describe the failure.
    pub fn message(&self) -> (msg: String)
        ensures
            msg@ == self@.msg,
    {
        self.msg.clone()
    }
}

} // verus!
