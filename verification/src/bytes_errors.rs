//! The read-side and the write-side error of the byte layer.

use crate::causes::Cause;
use crate::netio_errors::NetIOError;
use crate::rendering::{summarize, summarizes};
use tokio::time::Elapsed;
use vstd::prelude::*;

verus! {

/// The kind of a read failure, without what it wraps.
#[derive(Clone, Copy, Debug, PartialEq, Eq, Structural)]
pub enum ReadFailureKind {
    /// The stream gave fewer bytes than a complete unit needs.
    NotEnoughBytes,
    /// The stream ended with no byte available.
    EmptyStream,
    /// The transport reported a fault.
    IOFault,
    /// The deadline of a timed read passed.
    TimedOut,
}

impl ReadFailureKind {
    /// The text by which a summary tells this kind from the others.
    pub open spec fn marker_spec(self) -> Seq<char> {
        match self {
            ReadFailureKind::NotEnoughBytes => "not enough bytes"@,
            ReadFailureKind::EmptyStream => "empty stream"@,
            ReadFailureKind::IOFault => "io error"@,
            ReadFailureKind::TimedOut => "elapsed"@,
        }
    }

    /// The text by which a summary tells this kind from the others.
    pub fn marker(self) -> (m: &'static str)
        ensures
            m@ == self.marker_spec(),
    {
        match self {
            ReadFailureKind::NotEnoughBytes => "not enough bytes",
            ReadFailureKind::EmptyStream => "empty stream",
            ReadFailureKind::IOFault => "io error",
            ReadFailureKind::TimedOut => "elapsed",
        }
    }

    /// Whether a failure of this kind wraps a lower-level cause.
    pub open spec fn is_wrapper(self) -> bool {
        self == ReadFailureKind::IOFault || self == ReadFailureKind::TimedOut
    }
}

/// A read failure: its kind, together with the lower-level failure that it
/// wraps where the kind is a wrapper.
#[derive(Debug)]
pub enum BytesReadErrorValue {
    /// The stream gave fewer bytes than a complete unit needs.
    NotEnoughBytes,
    /// The stream ended with no byte available.
    EmptyStream,
    /// The transport reported the fault held here.
    IO(std::io::Error),
    /// The deadline of a timed read passed; the expiry is held here.
    TimeoutError(Elapsed),
}

impl BytesReadErrorValue {
    /// The kind of this failure.
    pub open spec fn kind_spec(&self) -> ReadFailureKind {
        match self {
            BytesReadErrorValue::NotEnoughBytes => ReadFailureKind::NotEnoughBytes,
            BytesReadErrorValue::EmptyStream => ReadFailureKind::EmptyStream,
            BytesReadErrorValue::IO(_) => ReadFailureKind::IOFault,
            BytesReadErrorValue::TimeoutError(_) => ReadFailureKind::TimedOut,
        }
    }

    /// The kind of this failure.
    #[verifier::when_used_as_spec(kind_spec)]
    pub fn kind(&self) -> (k: ReadFailureKind)
        ensures
            k == self.kind_spec(),
    {
        match self {
            BytesReadErrorValue::NotEnoughBytes => ReadFailureKind::NotEnoughBytes,
            BytesReadErrorValue::EmptyStream => ReadFailureKind::EmptyStream,
            BytesReadErrorValue::IO(_) => ReadFailureKind::IOFault,
            BytesReadErrorValue::TimeoutError(_) => ReadFailureKind::TimedOut,
        }
    }

    /// The failure that this one wraps, if it wraps one.
    pub open spec fn cause_spec(&self) -> Option<Cause<'_>> {
        match self {
            BytesReadErrorValue::NotEnoughBytes => None,
            BytesReadErrorValue::EmptyStream => None,
            BytesReadErrorValue::IO(e) => Some(Cause::Transport(e)),
            BytesReadErrorValue::TimeoutError(e) => Some(Cause::Deadline(e)),
        }
    }

    /// The failure that this one wraps: the transport fault or the deadline
    /// expiry that it was made from, and none for the two kinds that wrap
    /// nothing.
    #[verifier::when_used_as_spec(cause_spec)]
    pub fn cause(&self) -> (c: Option<Cause<'_>>)
        ensures
            c == self.cause_spec(),
    {
        match self {
            BytesReadErrorValue::NotEnoughBytes => None,
            BytesReadErrorValue::EmptyStream => None,
            BytesReadErrorValue::IO(e) => Some(Cause::Transport(e)),
            BytesReadErrorValue::TimeoutError(e) => Some(Cause::Deadline(e)),
        }
    }

    /// Whether `text` is a one-line summary of this failure: the marker of
    /// its kind, and after it a description of the cause where there is one.
    pub open spec fn rendered_as(&self, text: Seq<char>) -> bool {
        summarizes(self.kind().marker_spec(), self.cause(), text)
    }

    /// The one-line summary of this failure.
    pub fn to_string(&self) -> (s: String)
        ensures
            self.rendered_as(s@),
    {
        summarize(self.kind().marker(), self.cause())
    }
}

/// The error of an operation that reads bytes from the network. It holds
/// exactly one read failure.
#[derive(Debug)]
pub struct BytesReadError {
    pub value: BytesReadErrorValue,
}

impl vstd::std_specs::convert::FromSpecImpl<BytesReadErrorValue> for BytesReadError {
    open spec fn obeys_from_spec() -> bool {
        true
    }

    open spec fn from_spec(val: BytesReadErrorValue) -> Self {
        BytesReadError { value: val }
    }
}

impl From<BytesReadErrorValue> for BytesReadError {
    /// The error that holds the given failure.
    fn from(val: BytesReadErrorValue) -> (err: Self) {
        BytesReadError { value: val }
    }
}

impl vstd::std_specs::convert::FromSpecImpl<std::io::Error> for BytesReadError {
    open spec fn obeys_from_spec() -> bool {
        true
    }

    open spec fn from_spec(error: std::io::Error) -> Self {
        BytesReadError { value: BytesReadErrorValue::IO(error) }
    }
}

impl From<std::io::Error> for BytesReadError {
    /// A transport fault seen while reading becomes an I/O fault that wraps it.
    fn from(error: std::io::Error) -> (err: Self) {
        BytesReadError { value: BytesReadErrorValue::IO(error) }
    }
}

impl vstd::std_specs::convert::FromSpecImpl<Elapsed> for BytesReadError {
    open spec fn obeys_from_spec() -> bool {
        true
    }

    open spec fn from_spec(error: Elapsed) -> Self {
        BytesReadError { value: BytesReadErrorValue::TimeoutError(error) }
    }
}

impl From<Elapsed> for BytesReadError {
    /// The expiry of a timed read's deadline becomes a timeout that wraps it.
    fn from(error: Elapsed) -> (err: Self) {
        BytesReadError { value: BytesReadErrorValue::TimeoutError(error) }
    }
}

impl BytesReadError {
    /// The kind of the failure that this error holds.
    pub open spec fn kind_spec(&self) -> ReadFailureKind {
        self.value.kind()
    }

    /// The kind of the failure that this error holds.
    #[verifier::when_used_as_spec(kind_spec)]
    pub fn kind(&self) -> (k: ReadFailureKind)
        ensures
            k == self.kind_spec(),
    {
        self.value.kind()
    }

    /// The failure that this error wraps, if it wraps one.
    pub open spec fn cause_spec(&self) -> Option<Cause<'_>> {
        self.value.cause()
    }

    /// The failure that this error wraps, as its value gives it.
    #[verifier::when_used_as_spec(cause_spec)]
    pub fn cause(&self) -> (c: Option<Cause<'_>>)
        ensures
            c == self.cause_spec(),
    {
        self.value.cause()
    }

    /// Whether `text` is a one-line summary of this error: a summary of the
    /// failure that it holds.
    pub open spec fn rendered_as(&self, text: Seq<char>) -> bool {
        self.value.rendered_as(text)
    }

    /// The one-line summary of this error.
    pub fn to_string(&self) -> (s: String)
        ensures
            self.rendered_as(s@),
    {
        self.value.to_string()
    }
}

/// The kind of a write failure, without what it wraps.
#[derive(Clone, Copy, Debug, PartialEq, Eq, Structural)]
pub enum WriteFailureKind {
    /// The transport reported a fault.
    IOFault,
    /// The network I/O layer beneath the writer reported a failure.
    NetworkIOFailure,
}

impl WriteFailureKind {
    /// The text by which a summary tells this kind from the other.
    pub open spec fn marker_spec(self) -> Seq<char> {
        match self {
            WriteFailureKind::IOFault => "io error"@,
            WriteFailureKind::NetworkIOFailure => "not enough bytes"@,
        }
    }

    /// The text by which a summary tells this kind from the other.
    pub fn marker(self) -> (m: &'static str)
        ensures
            m@ == self.marker_spec(),
    {
        match self {
            WriteFailureKind::IOFault => "io error",
            WriteFailureKind::NetworkIOFailure => "not enough bytes",
        }
    }
}

/// The error of an operation that writes bytes to the network. It holds
/// exactly one write failure.
#[derive(Debug)]
pub struct BytesWriteError {
    pub value: BytesWriteErrorValue,
}

/// A write failure: its kind, together with the lower-level failure that it
/// wraps. Every write failure wraps one.
#[derive(Debug)]
pub enum BytesWriteErrorValue {
    /// The transport reported the fault held here.
    IO(std::io::Error),
    /// The network I/O layer beneath the writer handed up the failure held
    /// here.
    NetIOError(NetIOError),
}

impl BytesWriteErrorValue {
    /// The kind of this failure.
    pub open spec fn kind_spec(&self) -> WriteFailureKind {
        match self {
            BytesWriteErrorValue::IO(_) => WriteFailureKind::IOFault,
            BytesWriteErrorValue::NetIOError(_) => WriteFailureKind::NetworkIOFailure,
        }
    }

    /// The kind of this failure.
    #[verifier::when_used_as_spec(kind_spec)]
    pub fn kind(&self) -> (k: WriteFailureKind)
        ensures
            k == self.kind_spec(),
    {
        match self {
            BytesWriteErrorValue::IO(_) => WriteFailureKind::IOFault,
            BytesWriteErrorValue::NetIOError(_) => WriteFailureKind::NetworkIOFailure,
        }
    }

    /// The failure that this one wraps.
    pub open spec fn cause_spec(&self) -> Option<Cause<'_>> {
        match self {
            BytesWriteErrorValue::IO(e) => Some(Cause::Transport(e)),
            BytesWriteErrorValue::NetIOError(e) => Some(Cause::Network(e)),
        }
    }

    /// The failure that this one wraps: the transport fault or the network
    /// I/O failure that it was made from.
    #[verifier::when_used_as_spec(cause_spec)]
    pub fn cause(&self) -> (c: Option<Cause<'_>>)
        ensures
            c == self.cause_spec(),
    {
        match self {
            BytesWriteErrorValue::IO(e) => Some(Cause::Transport(e)),
            BytesWriteErrorValue::NetIOError(e) => Some(Cause::Network(e)),
        }
    }

    /// Whether `text` is a one-line summary of this failure: the marker of
    /// its kind, and after it a description of the cause.
    pub open spec fn rendered_as(&self, text: Seq<char>) -> bool {
        summarizes(self.kind().marker_spec(), self.cause(), text)
    }

    /// The one-line summary of this failure.
    pub fn to_string(&self) -> (s: String)
        ensures
            self.rendered_as(s@),
    {
        summarize(self.kind().marker(), self.cause())
    }
}

impl vstd::std_specs::convert::FromSpecImpl<std::io::Error> for BytesWriteError {
    open spec fn obeys_from_spec() -> bool {
        true
    }

    open spec fn from_spec(error: std::io::Error) -> Self {
        BytesWriteError { value: BytesWriteErrorValue::IO(error) }
    }
}

impl From<std::io::Error> for BytesWriteError {
    /// A transport fault seen while writing becomes an I/O fault that wraps it.
    fn from(error: std::io::Error) -> (err: Self) {
        BytesWriteError { value: BytesWriteErrorValue::IO(error) }
    }
}

impl vstd::std_specs::convert::FromSpecImpl<NetIOError> for BytesWriteError {
    open spec fn obeys_from_spec() -> bool {
        true
    }

    open spec fn from_spec(error: NetIOError) -> Self {
        BytesWriteError { value: BytesWriteErrorValue::NetIOError(error) }
    }
}

impl From<NetIOError> for BytesWriteError {
    /// A failure handed up by the network I/O layer becomes a network I/O
    /// failure that wraps it.
    fn from(error: NetIOError) -> (err: Self) {
        BytesWriteError { value: BytesWriteErrorValue::NetIOError(error) }
    }
}

impl BytesWriteError {
    /// The kind of the failure that this error holds.
    pub open spec fn kind_spec(&self) -> WriteFailureKind {
        self.value.kind()
    }

    /// The kind of the failure that this error holds.
    #[verifier::when_used_as_spec(kind_spec)]
    pub fn kind(&self) -> (k: WriteFailureKind)
        ensures
            k == self.kind_spec(),
    {
        self.value.kind()
    }

    /// The failure that this error wraps.
    pub open spec fn cause_spec(&self) -> Option<Cause<'_>> {
        self.value.cause()
    }

    /// The failure that this error wraps, as its value gives it.
    #[verifier::when_used_as_spec(cause_spec)]
    pub fn cause(&self) -> (c: Option<Cause<'_>>)
        ensures
            c == self.cause_spec(),
    {
        self.value.cause()
    }

    /// Whether `text` is a one-line summary of this error: a summary of the
    /// failure that it holds.
    pub open spec fn rendered_as(&self, text: Seq<char>) -> bool {
        self.value.rendered_as(text)
    }

    /// The one-line summary of this error.
    pub fn to_string(&self) -> (s: String)
        ensures
            self.rendered_as(s@),
    {
        self.value.to_string()
    }
}

} // verus!
