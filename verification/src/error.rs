use vstd::prelude::*;
use vstd::string::StringExecFns;

verus! {

/// What can go wrong on either side of a call.
#[derive(Debug, PartialEq, Eq)]
pub enum Error {
    /// The connection, or one of the channels that stand for it inside the
    /// runtime, is gone.
    TransportError(String),
    /// The peer's handler failed; the text is the one the peer sent.
    RemoteError(String),
    /// The reply carried results that the caller's projection rejected.
    WrongResults,
    /// The reply carried neither results nor an error.
    MissingResults,
    /// Something other than a reply arrived where a reply was expected.
    WrongMessageType,
    /// The lock around the in-flight table was poisoned by a panicking thread.
    LockPoisoned,
    /// A failure that a handler reports in its own words.
    Custom(String),
}

/// The mathematical value of an [`Error`]: the same variants, with texts as
/// sequences of characters.
pub enum ErrorKind {
    TransportError(Seq<char>),
    RemoteError(Seq<char>),
    WrongResults,
    MissingResults,
    WrongMessageType,
    LockPoisoned,
    Custom(Seq<char>),
}

impl ErrorKind {
    /// The text by which an error is reported to a peer or wrapped into
    /// another error.
    pub open spec fn text(self) -> Seq<char> {
        match self {
            ErrorKind::TransportError(detail) => "transport error: "@ + detail,
            ErrorKind::RemoteError(detail) => "remote error: "@ + detail,
            ErrorKind::WrongResults => "wrong results"@,
            ErrorKind::MissingResults => "missing results"@,
            ErrorKind::WrongMessageType => "wrong message type"@,
            ErrorKind::LockPoisoned => "lock poisoned"@,
            ErrorKind::Custom(detail) => detail,
        }
    }
}

impl View for Error {
    type V = ErrorKind;

    open spec fn view(&self) -> ErrorKind {
        match *self {
            Error::TransportError(detail) => ErrorKind::TransportError(detail@),
            Error::RemoteError(detail) => ErrorKind::RemoteError(detail@),
            Error::WrongResults => ErrorKind::WrongResults,
            Error::MissingResults => ErrorKind::MissingResults,
            Error::WrongMessageType => ErrorKind::WrongMessageType,
            Error::LockPoisoned => ErrorKind::LockPoisoned,
            Error::Custom(detail) => ErrorKind::Custom(detail@),
        }
    }
}

/// Whether `res` is a failure whose error has the value `kind`.
pub open spec fn fails_with<T>(res: Result<T, Error>, kind: ErrorKind) -> bool {
    res matches Err(e) && e@ == kind
}

impl Error {
    /// Renders the error as text.
    pub fn message(&self) -> (text: String)
        ensures
            text@ == self@.text(),
    {
        match self {
            Error::TransportError(detail) => String::from_str("transport error: ").concat(
                detail.as_str(),
            ),
            Error::RemoteError(detail) => String::from_str("remote error: ").concat(
                detail.as_str(),
            ),
            Error::WrongResults => String::from_str("wrong results"),
            Error::MissingResults => String::from_str("missing results"),
            Error::WrongMessageType => String::from_str("wrong message type"),
            Error::LockPoisoned => String::from_str("lock poisoned"),
            Error::Custom(detail) => detail.clone(),
        }
    }
}

} // verus!
