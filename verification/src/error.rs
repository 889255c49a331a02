//! What can go wrong between a client and runc.

use serde_json::Error as JsonFault;
use std::convert::Infallible;
use std::string::FromUtf8Error;
use vstd::prelude::*;

verus! {

/// The error of `serde_json`, carried through as it came.
#[verifier::external_type_specification]
#[verifier::external_body]
pub struct ExJsonError(JsonFault);

/// The error of `String::from_utf8`, of which only the occurrence matters.
#[verifier::external_type_specification]
#[verifier::external_body]
pub struct ExFromUtf8Error(FromUtf8Error);

/// The kinds of failed input and output.
#[derive(Debug, Clone, Copy, PartialEq, Eq, Structural)]
pub enum IoErrorKind {
    NotFound,
    PermissionDenied,
    ConnectionRefused,
    ConnectionReset,
    ConnectionAborted,
    NotConnected,
    AddrInUse,
    AddrNotAvailable,
    BrokenPipe,
    AlreadyExists,
    WouldBlock,
    InvalidInput,
    InvalidData,
    TimedOut,
    WriteZero,
    Interrupted,
    UnexpectedEof,
    Other,
}

/// A failure of input or output.
#[derive(Debug, Clone, PartialEq, Eq)]
pub struct IoError {
    pub kind: IoErrorKind,
    /// The number that the operating system gave, where it was the one to fail
    pub os_code: Option<i32>,
    pub message: String,
}

#[verifier::ext_equal]
pub struct IoErrorView {
    pub kind: IoErrorKind,
    pub os_code: Option<i32>,
    pub message: Seq<char>,
}

impl View for IoError {
    type V = IoErrorView;

    open spec fn view(&self) -> IoErrorView {
        IoErrorView { kind: self.kind, os_code: self.os_code, message: self.message@ }
    }
}

/// A failure that the client itself found.
pub open spec fn found(kind: IoErrorKind, message: Seq<char>) -> IoErrorView {
    IoErrorView { kind, os_code: None, message }
}

impl IoError {
    pub fn new(kind: IoErrorKind, message: &str) -> (r: Self)
        ensures
            r@ == found(kind, message@),
    {
        IoError { kind, os_code: None, message: message.to_owned() }
    }
}

/// Runc client error
#[derive(Debug)]
pub enum Error {
    Unknown,
    CommandTimeout,
    UnicodeError,
    IoError(IoError),
    JsonError(JsonFault),
    /// The console socket could not be bound
    UnixSocketOpenError(IoError),
    /// No connection could be accepted on the console socket
    UnixSocketConnectError(IoError),
    /// No message could be received over the console socket
    UnixSocketReceiveMessageError,
}

#[verifier::ext_equal]
pub enum ErrorView {
    Unknown,
    CommandTimeout,
    UnicodeError,
    IoError(IoErrorView),
    JsonError(JsonFault),
    UnixSocketOpenError(IoErrorView),
    UnixSocketConnectError(IoErrorView),
    UnixSocketReceiveMessageError,
}

impl View for Error {
    type V = ErrorView;

    open spec fn view(&self) -> ErrorView {
        match *self {
            Error::Unknown => ErrorView::Unknown,
            Error::CommandTimeout => ErrorView::CommandTimeout,
            Error::UnicodeError => ErrorView::UnicodeError,
            Error::IoError(e) => ErrorView::IoError(e@),
            Error::JsonError(e) => ErrorView::JsonError(e),
            Error::UnixSocketOpenError(e) => ErrorView::UnixSocketOpenError(e@),
            Error::UnixSocketConnectError(e) => ErrorView::UnixSocketConnectError(e@),
            Error::UnixSocketReceiveMessageError => ErrorView::UnixSocketReceiveMessageError,
        }
    }
}

/// The error for a failure that the client itself found.
pub open spec fn failure(kind: IoErrorKind, message: Seq<char>) -> ErrorView {
    ErrorView::IoError(found(kind, message))
}

impl Error {
    pub fn found(kind: IoErrorKind, message: &str) -> (r: Self)
        ensures
            r@ == failure(kind, message@),
    {
        Error::IoError(IoError::new(kind, message))
    }
}

impl From<IoError> for Error {
    fn from(e: IoError) -> (r: Self) {
        Error::IoError(e)
    }
}

impl vstd::std_specs::convert::FromSpecImpl<IoError> for Error {
    open spec fn obeys_from_spec() -> bool {
        true
    }

    open spec fn from_spec(e: IoError) -> Self {
        Error::IoError(e)
    }
}

impl From<JsonFault> for Error {
    fn from(e: JsonFault) -> (r: Self) {
        Error::JsonError(e)
    }
}

impl vstd::std_specs::convert::FromSpecImpl<JsonFault> for Error {
    open spec fn obeys_from_spec() -> bool {
        true
    }

    open spec fn from_spec(e: JsonFault) -> Self {
        Error::JsonError(e)
    }
}

impl From<FromUtf8Error> for Error {
    fn from(_e: FromUtf8Error) -> (r: Self) {
        Error::UnicodeError
    }
}

impl vstd::std_specs::convert::FromSpecImpl<FromUtf8Error> for Error {
    open spec fn obeys_from_spec() -> bool {
        true
    }

    open spec fn from_spec(_e: FromUtf8Error) -> Self {
        Error::UnicodeError
    }
}

impl From<Infallible> for Error {
    fn from(_e: Infallible) -> (r: Self) {
        Error::UnicodeError
    }
}

impl vstd::std_specs::convert::FromSpecImpl<Infallible> for Error {
    open spec fn obeys_from_spec() -> bool {
        true
    }

    open spec fn from_spec(_e: Infallible) -> Self {
        Error::UnicodeError
    }
}

/// How work under a time limit failed.
#[derive(Debug)]
pub enum TimeoutError {
    /// The work itself failed
    Inner(Error),
    /// The time was up
    Elapsed,
    /// The timer failed
    Timer,
}

impl From<TimeoutError> for Error {
    fn from(e: TimeoutError) -> (r: Self) {
        match e {
            TimeoutError::Inner(inner) => inner,
            TimeoutError::Elapsed => Error::CommandTimeout,
            TimeoutError::Timer => Error::CommandTimeout,
        }
    }
}

impl vstd::std_specs::convert::FromSpecImpl<TimeoutError> for Error {
    open spec fn obeys_from_spec() -> bool {
        true
    }

    open spec fn from_spec(e: TimeoutError) -> Self {
        match e {
            TimeoutError::Inner(inner) => inner,
            TimeoutError::Elapsed => Error::CommandTimeout,
            TimeoutError::Timer => Error::CommandTimeout,
        }
    }
}

} // verus!
