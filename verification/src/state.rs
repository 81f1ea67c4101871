//! Device states and status codes, with their one-byte wire coding.

use vstd::prelude::*;
use vstd::std_specs::convert::FromSpecImpl;

verus! {

/// DFU status, as reported in the first byte of a status reply.
///
/// Not to be confused with [`State`].
#[derive(Debug, Clone, Copy, PartialEq, Eq, Structural)]
pub enum Status {
    /// No error condition is present (`OK` in the DFU specification).
    Okay,
    /// File is not targeted for use by this device.
    ErrTarget,
    /// File is for this device but fails some vendor-specific verification test.
    ErrFile,
    /// Device is unable to write memory.
    ErrWrite,
    /// Memory erase function failed.
    ErrErase,
    /// Memory erase check failed.
    ErrCheckErased,
    /// Program memory function failed.
    ErrProg,
    /// Programmed memory failed verification.
    ErrVerify,
    /// Cannot program memory due to received address that is out of range.
    ErrAddress,
    /// Received a zero-length download, but the device does not think it has all of the data yet.
    ErrNotdone,
    /// Device's firmware is corrupt. It cannot return to run-time operations.
    ErrFirmware,
    /// The string index of the reply points at a vendor-specific error.
    ErrVendor,
    /// Device detected unexpected USB reset signaling.
    ErrUsbr,
    /// Device detected unexpected power on reset.
    ErrPor,
    /// Something went wrong, but the device does not know what it was.
    ErrUnknown,
    /// Device stalled an unexpected request.
    ErrStalledpkt,
    /// Any code outside the sixteen above.
    Other(u8),
}

impl Status {
    /// The status that a wire byte stands for.
    pub open spec fn from_code(code: u8) -> Status {
        match code {
            0x00 => Status::Okay,
            0x01 => Status::ErrTarget,
            0x02 => Status::ErrFile,
            0x03 => Status::ErrWrite,
            0x04 => Status::ErrErase,
            0x05 => Status::ErrCheckErased,
            0x06 => Status::ErrProg,
            0x07 => Status::ErrVerify,
            0x08 => Status::ErrAddress,
            0x09 => Status::ErrNotdone,
            0x0a => Status::ErrFirmware,
            0x0b => Status::ErrVendor,
            0x0c => Status::ErrUsbr,
            0x0d => Status::ErrPor,
            0x0e => Status::ErrUnknown,
            0x0f => Status::ErrStalledpkt,
            other => Status::Other(other),
        }
    }

    /// The wire byte of a status.
    pub open spec fn code(self) -> u8 {
        match self {
            Status::Okay => 0x00,
            Status::ErrTarget => 0x01,
            Status::ErrFile => 0x02,
            Status::ErrWrite => 0x03,
            Status::ErrErase => 0x04,
            Status::ErrCheckErased => 0x05,
            Status::ErrProg => 0x06,
            Status::ErrVerify => 0x07,
            Status::ErrAddress => 0x08,
            Status::ErrNotdone => 0x09,
            Status::ErrFirmware => 0x0a,
            Status::ErrVendor => 0x0b,
            Status::ErrUsbr => 0x0c,
            Status::ErrPor => 0x0d,
            Status::ErrUnknown => 0x0e,
            Status::ErrStalledpkt => 0x0f,
            Status::Other(other) => other,
        }
    }

    /// A status is canonical when it is the one that decoding its own code
    /// yields: a named status always is, `Other(n)` only for `n` above `0x0f`.
    pub open spec fn is_canonical(self) -> bool {
        match self {
            Status::Other(other) => other > 0x0f,
            _ => true,
        }
    }

    /// A status counts as a device error when it is neither `Okay` nor an
    /// unknown code.
    pub open spec fn is_error(self) -> bool {
        !(self is Okay) && !(self is Other)
    }

    /// Decoding a byte and encoding the result gives the byte back.
    pub proof fn lemma_code_of_decoded(code: u8)
        ensures
            Status::from_code(code).code() == code,
            Status::from_code(code).is_canonical(),
    {
    }

    /// Encoding a canonical status and decoding the byte gives the status back.
    pub proof fn lemma_decoded_of_code(status: Status)
        requires
            status.is_canonical(),
        ensures
            Status::from_code(status.code()) == status,
    {
    }
}

impl From<u8> for Status {
    fn from(code: u8) -> (status: Status) {
        match code {
            0x00 => Status::Okay,
            0x01 => Status::ErrTarget,
            0x02 => Status::ErrFile,
            0x03 => Status::ErrWrite,
            0x04 => Status::ErrErase,
            0x05 => Status::ErrCheckErased,
            0x06 => Status::ErrProg,
            0x07 => Status::ErrVerify,
            0x08 => Status::ErrAddress,
            0x09 => Status::ErrNotdone,
            0x0a => Status::ErrFirmware,
            0x0b => Status::ErrVendor,
            0x0c => Status::ErrUsbr,
            0x0d => Status::ErrPor,
            0x0e => Status::ErrUnknown,
            0x0f => Status::ErrStalledpkt,
            other => Status::Other(other),
        }
    }
}

impl FromSpecImpl<u8> for Status {
    open spec fn obeys_from_spec() -> bool {
        true
    }

    open spec fn from_spec(code: u8) -> Status {
        Status::from_code(code)
    }
}

impl From<Status> for u8 {
    fn from(status: Status) -> (code: u8) {
        match status {
            Status::Okay => 0x00,
            Status::ErrTarget => 0x01,
            Status::ErrFile => 0x02,
            Status::ErrWrite => 0x03,
            Status::ErrErase => 0x04,
            Status::ErrCheckErased => 0x05,
            Status::ErrProg => 0x06,
            Status::ErrVerify => 0x07,
            Status::ErrAddress => 0x08,
            Status::ErrNotdone => 0x09,
            Status::ErrFirmware => 0x0a,
            Status::ErrVendor => 0x0b,
            Status::ErrUsbr => 0x0c,
            Status::ErrPor => 0x0d,
            Status::ErrUnknown => 0x0e,
            Status::ErrStalledpkt => 0x0f,
            Status::Other(other) => other,
        }
    }
}

impl FromSpecImpl<Status> for u8 {
    open spec fn obeys_from_spec() -> bool {
        true
    }

    open spec fn from_spec(status: Status) -> u8 {
        status.code()
    }
}

/// DFU state, as reported in the fifth byte of a status reply.
///
/// Not to be confused with [`Status`].
#[derive(Debug, Clone, Copy, PartialEq, Eq, Structural)]
pub enum State {
    /// Device is running its normal application.
    AppIdle,
    /// Device is running its normal application, has received the detach request, and is waiting for a USB reset.
    AppDetach,
    /// Device is operating in the DFU mode and is waiting for requests.
    DfuIdle,
    /// Device has received a block and is waiting for the host to solicit the status.
    DfuDnloadSync,
    /// Device is programming a control-write block into its nonvolatile memories.
    DfuDnbusy,
    /// Device is processing a download operation and expects further blocks.
    DfuDnloadIdle,
    /// Device has received the final block of firmware and waits for a status query to begin
    /// the manifestation phase, or has completed that phase and waits for a status query.
    DfuManifestSync,
    /// Device is in the manifestation phase.
    DfuManifest,
    /// Device has programmed its memories and is waiting for a USB reset or a power on reset.
    DfuManifestWaitReset,
    /// The device is processing an upload operation.
    DfuUploadIdle,
    /// An error has occurred; the device awaits a request to clear its status.
    DfuError,
    /// Any code outside the eleven above.
    Other(u8),
}

impl State {
    /// The state that a wire byte stands for.
    pub open spec fn from_code(code: u8) -> State {
        match code {
            0 => State::AppIdle,
            1 => State::AppDetach,
            2 => State::DfuIdle,
            3 => State::DfuDnloadSync,
            4 => State::DfuDnbusy,
            5 => State::DfuDnloadIdle,
            6 => State::DfuManifestSync,
            7 => State::DfuManifest,
            8 => State::DfuManifestWaitReset,
            9 => State::DfuUploadIdle,
            10 => State::DfuError,
            other => State::Other(other),
        }
    }

    /// The wire byte of a state.
    pub open spec fn code(self) -> u8 {
        match self {
            State::AppIdle => 0,
            State::AppDetach => 1,
            State::DfuIdle => 2,
            State::DfuDnloadSync => 3,
            State::DfuDnbusy => 4,
            State::DfuDnloadIdle => 5,
            State::DfuManifestSync => 6,
            State::DfuManifest => 7,
            State::DfuManifestWaitReset => 8,
            State::DfuUploadIdle => 9,
            State::DfuError => 10,
            State::Other(other) => other,
        }
    }

    /// A state is canonical when it is the one that decoding its own code
    /// yields: a named state always is, `Other(n)` only for `n` above 10.
    pub open spec fn is_canonical(self) -> bool {
        match self {
            State::Other(other) => other > 10,
            _ => true,
        }
    }

    /// The state a device is in once it has answered a status query with
    /// `self`: the two synchronisation states only exist until that query, so
    /// a reply that names one of them stands for the state that follows it.
    pub open spec fn settled(self) -> State {
        match self {
            State::DfuManifestSync => State::DfuManifest,
            State::DfuDnloadSync => State::DfuDnbusy,
            _ => self,
        }
    }

    /// Reads a state out of a status reply: `DfuManifestSync` becomes
    /// `DfuManifest`, `DfuDnloadSync` becomes `DfuDnbusy`, every other state
    /// stays as it is.
    pub fn for_status(self) -> (state: State)
        ensures
            state == self.settled(),
    {
        match self {
            State::DfuManifestSync => State::DfuManifest,
            State::DfuDnloadSync => State::DfuDnbusy,
            _ => self,
        }
    }

    /// Decoding a byte and encoding the result gives the byte back.
    pub proof fn lemma_code_of_decoded(code: u8)
        ensures
            State::from_code(code).code() == code,
            State::from_code(code).is_canonical(),
    {
    }

    /// Encoding a canonical state and decoding the byte gives the state back.
    pub proof fn lemma_decoded_of_code(state: State)
        requires
            state.is_canonical(),
        ensures
            State::from_code(state.code()) == state,
    {
    }

    /// A settled state is never a synchronisation state, and settling twice
    /// changes nothing more.
    pub proof fn lemma_settled(state: State)
        ensures
            !(state.settled() is DfuManifestSync),
            !(state.settled() is DfuDnloadSync),
            state.settled().settled() == state.settled(),
    {
    }
}

impl From<u8> for State {
    fn from(code: u8) -> (state: State) {
        match code {
            0 => State::AppIdle,
            1 => State::AppDetach,
            2 => State::DfuIdle,
            3 => State::DfuDnloadSync,
            4 => State::DfuDnbusy,
            5 => State::DfuDnloadIdle,
            6 => State::DfuManifestSync,
            7 => State::DfuManifest,
            8 => State::DfuManifestWaitReset,
            9 => State::DfuUploadIdle,
            10 => State::DfuError,
            other => State::Other(other),
        }
    }
}

impl FromSpecImpl<u8> for State {
    open spec fn obeys_from_spec() -> bool {
        true
    }

    open spec fn from_spec(code: u8) -> State {
        State::from_code(code)
    }
}

impl From<State> for u8 {
    fn from(state: State) -> (code: u8) {
        match state {
            State::AppIdle => 0,
            State::AppDetach => 1,
            State::DfuIdle => 2,
            State::DfuDnloadSync => 3,
            State::DfuDnbusy => 4,
            State::DfuDnloadIdle => 5,
            State::DfuManifestSync => 6,
            State::DfuManifest => 7,
            State::DfuManifestWaitReset => 8,
            State::DfuUploadIdle => 9,
            State::DfuError => 10,
            State::Other(other) => other,
        }
    }
}

impl FromSpecImpl<State> for u8 {
    open spec fn obeys_from_spec() -> bool {
        true
    }

    open spec fn from_spec(state: State) -> u8 {
        state.code()
    }
}

} // verus!
