//! The failure that the network I/O layer beneath the byte writer hands up.

use vstd::prelude::*;

verus! {

/// A failure of the network I/O layer, as opposed to a fault of the transport
/// itself. It carries the layer's own account of what went wrong.
#[derive(Debug)]
pub struct NetIOError {
    pub reason: String,
}

impl NetIOError {
    /// A failure with the given account of what went wrong.
    pub fn new(reason: String) -> (e: Self)
        ensures
            e.reason@ == reason@,
    {
        NetIOError { reason }
    }

    /// The layer's account of what went wrong.
    pub fn to_string(&self) -> (s: String)
        ensures
            s@ == self.reason@,
    {
        self.reason.clone()
    }
}

} // verus!
