//! The failures that end a DFU operation.

use crate::state::{State, Status};
use vstd::prelude::*;

verus! {

/// Why an operation on the device was given up.  Every failure is final for
/// the download it occurred in.
#[derive(Debug)]
#[allow(inconsistent_fields)]
pub enum Error {
    /// The size of the data being transferred exceeds the DFU capabilities.
    OutOfCapabilities,
    /// The device reported a state that the protocol does not allow at this point.
    InvalidState { got: State, expected: State },
    /// The buffer handed over is larger than the protocol can address.
    BufferTooBig { got: usize, expected: usize },
    /// The total size transferred would not fit in 32 bits.
    MaximumTransferSizeExceeded,
    /// The erased region would reach beyond the 32-bit address space.
    EraseLimitReached,
    /// The block counter would not fit in 16 bits.
    MaximumChunksExceeded,
    /// The firmware does not fit in the device's memory.
    NoSpaceLeft,
    /// Unrecognized status code.
    UnrecognizedStatusCode(u8),
    /// Unrecognized state code.
    UnrecognizedStateCode(u8),
    /// The device answered with fewer bytes than a status reply has.
    ResponseTooShort { got: usize, expected: usize },
    /// The device reported an error status.
    StatusError(Status),
    /// The device reported its error state.
    StateError(State),
    /// The descriptor names a version of the protocol that is not known.
    UnknownProtocol,
    /// The interface string lacks one of its three parts.
    InvalidInterfaceString,
    /// The memory layout in the interface string could not be read.
    MemoryLayout(crate::memory_layout::Error),
    /// The address in the interface string could not be read.
    InvalidAddress,
}

impl Status {
    /// Classifies a reported status: each of the fifteen named errors is
    /// raised as [`Error::StatusError`], `Okay` and unknown codes pass.
    pub fn check(self) -> (outcome: Result<(), Error>)
        ensures
            self.is_error() ==> outcome == Err::<(), Error>(Error::StatusError(self)),
            !self.is_error() ==> outcome is Ok,
    {
        match self {
            Status::Okay => Ok(()),
            Status::Other(_) => Ok(()),
            _ => Err(Error::StatusError(self)),
        }
    }
}

impl State {
    /// Classifies a reported state: `DfuError` is raised as
    /// [`Error::StateError`], every other state passes.
    pub fn check(self) -> (outcome: Result<(), Error>)
        ensures
            self is DfuError ==> outcome == Err::<(), Error>(Error::StateError(self)),
            !(self is DfuError) ==> outcome is Ok,
    {
        match self {
            State::DfuError => Err(Error::StateError(self)),
            _ => Ok(()),
        }
    }
}

} // verus!
