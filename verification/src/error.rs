//! What a caller is told when the pool cannot answer.

use vstd::prelude::*;

verus! {

/// The two failures of the pool itself. A failure of the storage engine is
/// not among them: it is the outcome of a key and travels with the reply.
#[derive(Clone, Copy, Debug, PartialEq, Eq, Structural)]
pub enum Error {
    /// The queue was closed: the pool is shutting down or has shut down.
    Closed,
    /// The reply channel was dropped before a reply was sent.
    Lost,
}

impl Error {
    /// A short text for logs and messages.
    pub fn describe(&self) -> (text: String)
        ensures
            text@ == (match *self {
                Error::Closed => "dispatch closed"@,
                Error::Lost => "dispatch lost"@,
            }),
    {
        match self {
            Error::Closed => "dispatch closed".to_owned(),
            Error::Lost => "dispatch lost".to_owned(),
        }
    }
}

} // verus!
