//! Error taxonomy for the asynchronous load/save commands.
//!
//! A command either succeeds, is silently aborted because the user closed a
//! file-picker dialogue without choosing, or fails with a filesystem error
//! whose kind is preserved for display.

use vstd::prelude::*;

verus! {

/// The kind of a failed filesystem operation, carried as a plain value so the
/// controller can hold and report it.
#[derive(Clone, Copy, Debug, PartialEq, Eq, Structural)]
pub enum IoErrorKind {
    NotFound,
    PermissionDenied,
    AlreadyExists,
    InvalidInput,
    Other,
}

/// Why a load or save command did not complete.
#[derive(Clone, Debug, PartialEq)]
pub enum Error {
    /// The user dismissed a file-picker without choosing; a silent abort.
    DialogueClosed,
    /// Any other failure, described in words.
    Generic(String),
    /// The underlying filesystem operation failed.
    IO(IoErrorKind),
}

/// Mathematical model of an [`Error`]: the `Generic` text as a character
/// sequence.
pub enum ErrorModel {
    DialogueClosed,
    Generic(Seq<char>),
    IO(IoErrorKind),
}

impl View for Error {
    type V = ErrorModel;

    open spec fn view(&self) -> ErrorModel {
        match self {
            Error::DialogueClosed => ErrorModel::DialogueClosed,
            Error::Generic(s) => ErrorModel::Generic(s@),
            Error::IO(k) => ErrorModel::IO(*k),
        }
    }
}

impl IoErrorKind {
    /// A short fixed description of the kind.
    pub open spec fn spec_message(self) -> Seq<char> {
        match self {
            IoErrorKind::NotFound => "file not found"@,
            IoErrorKind::PermissionDenied => "permission denied"@,
            IoErrorKind::AlreadyExists => "already exists"@,
            IoErrorKind::InvalidInput => "invalid input"@,
            IoErrorKind::Other => "input/output error"@,
        }
    }

    /// Renders the kind in words.
    pub fn message(&self) -> (r: String)
        ensures
            r@ == self.spec_message(),
    {
        match self {
            IoErrorKind::NotFound => "file not found".to_owned(),
            IoErrorKind::PermissionDenied => "permission denied".to_owned(),
            IoErrorKind::AlreadyExists => "already exists".to_owned(),
            IoErrorKind::InvalidInput => "invalid input".to_owned(),
            IoErrorKind::Other => "input/output error".to_owned(),
        }
    }
}

impl Error {
    /// What [`Error::message`] returns, for each variant.
    pub open spec fn spec_message(self) -> Seq<char> {
        match self@ {
            ErrorModel::DialogueClosed => "dialogue closed"@,
            ErrorModel::Generic(s) => s,
            ErrorModel::IO(k) => k.spec_message(),
        }
    }

    /// Renders the error in words, for a status display.
    pub fn message(&self) -> (r: String)
        ensures
            r@ == self.spec_message(),
    {
        match self {
            Error::DialogueClosed => "dialogue closed".to_owned(),
            Error::Generic(s) => s.clone(),
            Error::IO(k) => k.message(),
        }
    }
}

impl From<IoErrorKind> for Error {
    /// Wraps a filesystem error kind.
    fn from(k: IoErrorKind) -> (r: Error) {
        Error::IO(k)
    }
}

impl vstd::std_specs::convert::FromSpecImpl<IoErrorKind> for Error {
    open spec fn obeys_from_spec() -> bool {
        true
    }

    open spec fn from_spec(k: IoErrorKind) -> Error {
        Error::IO(k)
    }
}

} // verus!
