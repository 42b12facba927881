//! Errors of the device protocol.

use vstd::prelude::*;

verus! {

/// The class of an error, as far as the protocol tells errors apart.
#[derive(Clone, Copy, Debug, PartialEq, Eq, Structural)]
pub enum ErrorKind {
    /// An argument was not acceptable.
    InvalidInput,
    /// Every other failure.
    Other,
}

/// A failure that the operating system reported for one call.
#[derive(Clone, Copy, Debug, PartialEq, Eq, Structural)]
pub struct OsError {
    /// The error number of the operating system.
    pub code: i32,
    /// The class that the error number falls into.
    pub kind: ErrorKind,
}

/// What an operation of this crate can fail with.
#[derive(Clone, Copy, Debug, PartialEq, Eq, Structural)]
pub enum Error {
    /// The operating system refused a call; the error is handed on unchanged.
    Os(OsError),
    /// A batch of controls held no control.
    EmptyBatch,
    /// A batch of controls held controls of more than one class.
    MixedClasses,
    /// No class could be derived for a batch of controls.
    UnknownClass,
    /// The control has a type whose value cannot be read as a single scalar.
    UnsupportedType,
}

impl Error {
    /// The class of this error.
    pub open spec fn kind_spec(&self) -> ErrorKind {
        match *self {
            Error::Os(e) => e.kind,
            Error::EmptyBatch | Error::MixedClasses | Error::UnknownClass => ErrorKind::InvalidInput,
            Error::UnsupportedType => ErrorKind::Other,
        }
    }

    /// True for the errors that are found before any request reaches the kernel.
    pub open spec fn is_local(&self) -> bool {
        !(*self is Os)
    }

    /// The class of this error.
    #[verifier::when_used_as_spec(kind_spec)]
    pub fn kind(&self) -> (kind: ErrorKind)
        ensures
            kind == self.kind_spec(),
    {
        match self {
            Error::Os(e) => e.kind,
            Error::EmptyBatch => ErrorKind::InvalidInput,
            Error::MixedClasses => ErrorKind::InvalidInput,
            Error::UnknownClass => ErrorKind::InvalidInput,
            Error::UnsupportedType => ErrorKind::Other,
        }
    }

    /// The error number of the operating system, for an error that came from it.
    pub fn raw_os_error(&self) -> (code: Option<i32>)
        ensures
            code == (match *self {
                Error::Os(e) => Some(e.code),
                _ => None::<i32>,
            }),
    {
        match self {
            Error::Os(e) => Some(e.code),
            _ => None,
        }
    }

    /// The text of an error that this crate raised itself; `None` for an error
    /// of the operating system, whose text only the system knows.
    pub fn message(&self) -> (text: Option<&'static str>)
        ensures
            match *self {
                Error::Os(_) => text is None,
                Error::EmptyBatch => text is Some && text->0@ == "ctrls cannot be empty"@,
                Error::MixedClasses => text is Some && text->0@
                    == "All controls must be in the same class"@,
                Error::UnknownClass => text is Some && text->0@
                    == "failed to determine control class"@,
                Error::UnsupportedType => text is Some && text->0@ == "cannot handle control type"@,
            },
    {
        match self {
            Error::Os(_) => None,
            Error::EmptyBatch => Some("ctrls cannot be empty"),
            Error::MixedClasses => Some("All controls must be in the same class"),
            Error::UnknownClass => Some("failed to determine control class"),
            Error::UnsupportedType => Some("cannot handle control type"),
        }
    }
}

} // verus!
