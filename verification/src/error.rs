//! The failures of bus operations and pipeline runs.

use vstd::prelude::*;
use vstd::string::StringExecFns;

verus! {

/// The ways a run or a bus operation can fail.
#[derive(Clone, Copy, Debug, PartialEq, Eq, Structural)]
pub enum ErrorKind {
    /// A session or its channel is absent where one is required.
    NotFound,
    /// A collaborator call failed or answered with something unusable.
    UpstreamService,
    /// The completion ended for a reason the pipeline has no branch for.
    UnsupportedFinishReason,
    /// The completion asked for a tool that is not one of the known tools.
    UnknownTool,
    /// The argument string of a tool call could not be read.
    InvalidArguments,
    /// An artifact could not be persisted.
    Io,
}

/// A failure together with the human-readable message that subscribers see.
#[derive(Debug)]
pub struct AppError {
    pub kind: ErrorKind,
    pub message: String,
}

pub struct AppErrorView {
    pub kind: ErrorKind,
    pub message: Seq<char>,
}

impl View for AppError {
    type V = AppErrorView;

    open spec fn view(&self) -> AppErrorView {
        AppErrorView { kind: self.kind, message: self.message@ }
    }
}

/// The text that precedes the message when a failure is reported to the caller of a request.
pub open spec fn report_prefix() -> Seq<char> {
    "Something went wrong:"@
}

impl AppError {
    pub fn new(kind: ErrorKind, message: &str) -> (error: AppError)
        ensures
            error@ == (AppErrorView { kind, message: message@ }),
    {
        AppError { kind, message: String::from_str(message) }
    }

    pub fn kind(&self) -> (kind: ErrorKind)
        ensures
            kind == self@.kind,
    {
        self.kind
    }

    /// The message alone, as it is published in an error signal.
    pub fn message(&self) -> (message: String)
        ensures
            message@ == self@.message,
    {
        self.message.clone()
    }

    /// The message as the top-level response body reports it.
    pub fn report(&self) -> (text: String)
        ensures
            text@ == report_prefix() + self@.message,
    {
        String::from_str("Something went wrong:").concat(self.message.as_str())
    }
}

impl Clone for AppError {
    fn clone(&self) -> (copy: AppError)
        ensures
            copy@ == self@,
    {
        AppError { kind: self.kind, message: self.message.clone() }
    }
}

} // verus!
