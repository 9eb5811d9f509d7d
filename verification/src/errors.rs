//! Failures that a command handler cannot turn into an ordinary notice
//! itself; the dispatch loop reports them as a single best-effort
//! "Error happened" message sent directly to the room.

use vstd::prelude::*;

verus! {

/// A hard failure of one handler run.
#[derive(Debug, Clone, Copy, PartialEq, Eq, Structural)]
pub enum Error {
    /// The notifier channel's consumer was torn down before the handler
    /// finished sending.
    ChannelClosed,
    /// The registration store rejected the write.
    StoreFailure,
}

impl Error {
    /// The detail text used in the dispatch loop's best-effort
    /// "Error happened" notice.
    pub fn message(&self) -> (r: &'static str)
        ensures
            *self is ChannelClosed ==> r@ == "the notifier channel was closed"@,
            *self is StoreFailure ==> r@ == "the registration store rejected the write"@,
    {
        match self {
            Error::ChannelClosed => "the notifier channel was closed",
            Error::StoreFailure => "the registration store rejected the write",
        }
    }
}

} // verus!
