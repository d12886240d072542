//! The conditions that the library reports to its callers.

use vstd::prelude::*;

verus! {

/// What can go wrong in the library.
#[derive(Clone, Copy, Debug, PartialEq, Eq, Structural)]
pub enum Error {
    /// Invalid handle (handle value is 0).
    InvalidHandle,
    /// A frame whose first byte names no kind of packet; carries that byte.
    UnknownTag(u8),
    /// The other end of a relay has gone away.
    PeerGone,
}

impl Error {
    /// The text that describes the condition.
    pub open spec fn message(self) -> Seq<char> {
        match self {
            Error::InvalidHandle => "Invalid handle: handle value is 0"@,
            Error::UnknownTag(_) => "Unknown tag: the first byte of the frame names no packet"@,
            Error::PeerGone => "Peer gone: the other end of the relay is closed"@,
        }
    }

    /// Describes the condition in words.
    pub fn to_string(&self) -> (text: String)
        ensures
            text@ == self.message(),
    {
        match self {
            Error::InvalidHandle => "Invalid handle: handle value is 0".to_owned(),
            Error::UnknownTag(_) => "Unknown tag: the first byte of the frame names no packet".to_owned(),
            Error::PeerGone => "Peer gone: the other end of the relay is closed".to_owned(),
        }
    }
}

/// Return [`Err`] if the handle's value is 0.
pub fn check_handle(handle: u64) -> (r: Result<u64, Error>)
    ensures
        handle == 0 ==> r == Err::<u64, Error>(Error::InvalidHandle),
        handle != 0 ==> r == Ok::<u64, Error>(handle),
{
    if handle == 0 {
        Err(Error::InvalidHandle)
    } else {
        Ok(handle)
    }
}

} // verus!
