//! Error taxonomy shared by every stage of guest start-up.
//!
//! A failure is never reported as free text alone: it carries the kind of
//! operation that failed, the path or interface it was applied to, and the
//! underlying cause, so that a boot failure can be diagnosed from the record
//! without a console.

use vstd::prelude::*;
use vstd::string::StringExecFns;

use crate::text::opt_text;

verus! {

/// The kind of operation that a failure belongs to.
#[derive(Clone, Copy, Debug, PartialEq, Eq, Structural)]
pub enum OpKind {
    CreateDirectory,
    Mount,
    ChangeDirectory,
    ChangeRoot,
    Symlink,
    ResourceLimit,
    WriteFile,
    Hostname,
    DecodePayload,
    NetworkConfigure,
    RpcExecution,
}

/// Why a base64 payload was rejected.
#[derive(Clone, Copy, Debug, PartialEq, Eq, Structural)]
pub enum DecodeFault {
    /// A byte outside the alphabet, or padding in the wrong place.
    InvalidByte { offset: usize, byte: u8 },
    /// The number of symbols cannot be the length of any encoding.
    InvalidLength { length: usize },
    /// The last symbol carries bits that no encoder would have set.
    InvalidLastSymbol { offset: usize, byte: u8 },
    /// Padding is missing or not canonical.
    InvalidPadding,
}

/// The underlying cause of a failure.
#[derive(Clone, Debug, PartialEq, Eq)]
pub enum Cause {
    /// The error number that a system call or the kernel reported.
    Errno(i32),
    /// The object that the operation names does not exist.
    NotFound,
    /// A reply arrived that the operation in progress does not expect.
    Unexpected,
    /// A payload could not be decoded.
    Decode(DecodeFault),
    /// A cause known only by its description.
    Other(String),
}

/// The mathematical model of [`Cause`].
pub enum CauseView {
    Errno(i32),
    NotFound,
    Unexpected,
    Decode(DecodeFault),
    Other(Seq<char>),
}

impl View for Cause {
    type V = CauseView;

    open spec fn view(&self) -> CauseView {
        match *self {
            Cause::Errno(e) => CauseView::Errno(e),
            Cause::NotFound => CauseView::NotFound,
            Cause::Unexpected => CauseView::Unexpected,
            Cause::Decode(f) => CauseView::Decode(f),
            Cause::Other(s) => CauseView::Other(s@),
        }
    }
}

/// A failure of one operation of guest start-up.
///
/// `subject` is the path or interface the operation was applied to; `origin`
/// is the second path of an operation that has two (the source of a mount,
/// the text a symlink points at).
#[derive(Clone, Debug, PartialEq, Eq)]
pub struct InitError {
    pub kind: OpKind,
    pub subject: String,
    pub origin: Option<String>,
    pub cause: Cause,
}

/// The mathematical model of [`InitError`].
pub struct InitErrorView {
    pub kind: OpKind,
    pub subject: Seq<char>,
    pub origin: Option<Seq<char>>,
    pub cause: CauseView,
}

impl View for InitError {
    type V = InitErrorView;

    open spec fn view(&self) -> InitErrorView {
        InitErrorView {
            kind: self.kind,
            subject: self.subject@,
            origin: opt_text(self.origin),
            cause: self.cause@,
        }
    }
}

/// The view of an optional error.
pub open spec fn opt_error(e: Option<InitError>) -> Option<InitErrorView> {
    match e {
        Some(e) => Some(e@),
        None => None,
    }
}

impl InitError {
    /// An error about one path or interface.
    pub fn about(kind: OpKind, subject: &str, cause: Cause) -> (e: InitError)
        ensures
            e@ == (InitErrorView { kind, subject: subject@, origin: None, cause: cause@ }),
    {
        InitError { kind, subject: String::from_str(subject), origin: None, cause }
    }

    /// An error about an operation that names two paths.
    pub fn between(kind: OpKind, origin: &str, subject: &str, cause: Cause) -> (e: InitError)
        ensures
            e@ == (InitErrorView {
                kind,
                subject: subject@,
                origin: Some(origin@),
                cause: cause@,
            }),
    {
        InitError {
            kind,
            subject: String::from_str(subject),
            origin: Some(String::from_str(origin)),
            cause,
        }
    }
}

} // verus!
