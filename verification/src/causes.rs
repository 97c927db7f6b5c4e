//! The lower-level failures that an error of this layer can wrap.

use crate::netio_errors::NetIOError;
use tokio::time::Elapsed;
use vstd::prelude::*;

verus! {

/// `std::io::Error`, the fault that the transport reports. Nothing is known
/// of what a value holds.
#[verifier::external_type_specification]
#[verifier::external_body]
pub struct ExTransportFault(std::io::Error);

/// `tokio::time::Elapsed`, the signal that a deadline passed before the
/// operation under it completed. Nothing is known of what a value holds.
#[verifier::external_type_specification]
#[verifier::external_body]
pub struct ExDeadlineExpiry(tokio::time::Elapsed);

/// The text that tokio gives every deadline expiry.
pub open spec fn deadline_text() -> Seq<char> {
    "deadline has elapsed"@
}

/// `tokio::time::Elapsed`'s `Display`, reached through `to_string`. Tokio
/// writes the same fixed text for every value, and the contract says which.
#[verifier::external_body]
fn describe_deadline(e: &Elapsed) -> (s: String)
    ensures
        s@ == deadline_text(),
{
    e.to_string()
}

/// What lies one step down the cause chain of an error: the lower-level
/// failure that the error wraps, borrowed from it.
#[derive(Clone, Copy, Debug)]
pub enum Cause<'a> {
    /// A fault of the transport.
    Transport(&'a std::io::Error),
    /// The expiry of a deadline.
    Deadline(&'a Elapsed),
    /// A failure of the network I/O layer.
    Network(&'a NetIOError),
}

impl<'a> Cause<'a> {
    /// Whether `text` is a description of this cause. A deadline expiry and a
    /// network I/O failure have one description each. A transport fault is
    /// described by whatever std's `Display` writes for it.
    pub open spec fn described_by(self, text: Seq<char>) -> bool {
        match self {
            Cause::Transport(e) => exists|t: String|
                t@ == text && #[trigger] vstd::string::to_string_from_display_ensures::<
                    std::io::Error,
                >(e, t),
            Cause::Deadline(_) => text == deadline_text(),
            Cause::Network(n) => text == n.reason@,
        }
    }

    /// The cause's own description.
    pub fn to_string(&self) -> (s: String)
        ensures
            self.described_by(s@),
    {
        match *self {
            Cause::Transport(e) => e.to_string(),
            Cause::Deadline(e) => describe_deadline(e),
            Cause::Network(n) => n.to_string(),
        }
    }

    /// The cause of this cause. The failures that this layer wraps come from
    /// the layers below it and are the end of the chain: there is none.
    pub fn cause(&self) -> (c: Option<Cause<'a>>)
        ensures
            c is None,
    {
        None
    }
}

} // verus!
