//! The ways in which an operation of this crate can fail.

use vstd::prelude::*;

verus! {

/// Every failure is handed to the caller as one of these values.
#[derive(Clone, Copy, Debug, PartialEq, Eq, Structural)]
pub enum Error {
    /// The link itself failed: a byte could not be exchanged, or chip select
    /// could not be driven. Never retried here.
    Transport,
    /// The card answered with a token that the protocol does not allow at
    /// that point.
    Protocol,
    /// No response token appeared within the byte budget.
    NoResponse,
    /// The card never left its idle or busy state within the retry budget.
    InitTimeout,
    /// The sector is not a boot sector of a FAT volume.
    InvalidBootSector,
    /// The sector describes a volume that this crate does not read.
    UnsupportedVolume,
    /// A cluster chain leaves the volume or runs into a reserved value.
    BrokenChain,
}

impl Error {
    /// Whether a block read that failed this way may be tried again: a
    /// missed or malformed token is common on real cards, a dead link is not.
    pub open spec fn spec_is_transient(self) -> bool {
        self == Error::Protocol || self == Error::NoResponse
    }

    #[verifier::when_used_as_spec(spec_is_transient)]
    pub fn is_transient(self) -> (b: bool)
        ensures
            b == self.spec_is_transient(),
    {
        match self {
            Error::Protocol => true,
            Error::NoResponse => true,
            _ => false,
        }
    }
}

} // verus!
