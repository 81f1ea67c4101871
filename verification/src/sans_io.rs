//! The entry point of the engine: from a functional descriptor to the
//! commands that work on the device.

use crate::detach::is_detach;
use crate::download::{DfuseProgress, Plan, ProtocolProgress, Start};
use crate::error::Error;
use crate::functional_descriptor::FunctionalDescriptor;
use crate::get_status::{ClearStatus, GetStatus};
use crate::memory_layout::{MemoryLayout, MemoryPage};
use crate::protocol::DfuProtocol;
use crate::transfer::{UsbWriteControl, DFU_DETACH, REQUEST_TYPE_OUT};
use vstd::prelude::*;

verus! {

/// The detach timeout, in milliseconds, that [`DfuSansIo::detach`] asks for.
pub const DETACH_TIMEOUT: u16 = 1000;

/// The length of a firmware that lies in memory, as a download counts it.
/// A firmware of more bytes than 32 bits count is beyond what the protocol
/// can do.
pub fn slice_length(length: usize) -> (outcome: Result<u32, Error>)
    ensures
        length <= u32::MAX ==> outcome == Ok::<u32, Error>(length as u32),
        length > u32::MAX ==> outcome == Err::<u32, Error>(Error::OutOfCapabilities),
{
    if length > u32::MAX as usize {
        Err(Error::OutOfCapabilities)
    } else {
        Ok(length as u32)
    }
}

/// The length of a firmware that is read from a stream which ends at
/// offset `end`, as a download counts it.  A stream of more bytes than 32
/// bits count exceeds the largest transfer.
pub fn stream_length(end: u64) -> (outcome: Result<u32, Error>)
    ensures
        end <= u32::MAX ==> outcome == Ok::<u32, Error>(end as u32),
        end > u32::MAX ==> outcome == Err::<u32, Error>(Error::MaximumTransferSizeExceeded),
{
    if end > u32::MAX as u64 {
        Err(Error::MaximumTransferSizeExceeded)
    } else {
        Ok(end as u32)
    }
}

/// Use this struct to create state machines to make operations on the device.
pub struct DfuSansIo {
    descriptor: FunctionalDescriptor,
    override_address: Option<u32>,
}

impl DfuSansIo {
    /// The functional descriptor of the device.
    pub closed spec fn descriptor(self) -> FunctionalDescriptor {
        self.descriptor
    }

    /// The address that replaces the one of the protocol, if any was set.
    pub closed spec fn override_address(self) -> Option<u32> {
        self.override_address
    }

    /// The download of `length` bytes that is planned for a protocol.
    /// Plain DFU ends at `length`.  DfuSe starts at the override address,
    /// or without one at the address of the protocol, and ends `length`
    /// bytes behind it; an end beyond 32 bits is `NoSpaceLeft`.
    pub open spec fn planned(self, protocol: DfuProtocol<Seq<MemoryPage>>, length: u32) -> Result<
        Plan,
        Error,
    > {
        match protocol {
            DfuProtocol::Dfu => Ok(
                Plan {
                    descriptor: self.descriptor(),
                    protocol: ProtocolProgress::Dfu,
                    end_pos: length,
                },
            ),
            DfuProtocol::Dfuse { address, memory_layout } => {
                let start = match self.override_address() {
                    Some(start) => start,
                    None => address,
                };
                if start + length > u32::MAX {
                    Err(Error::NoSpaceLeft)
                } else {
                    Ok(
                        Plan {
                            descriptor: self.descriptor(),
                            protocol: ProtocolProgress::Dfuse(
                                DfuseProgress {
                                    address: start,
                                    erased_pos: start,
                                    address_set: false,
                                    memory_layout,
                                },
                            ),
                            end_pos: (start + length) as u32,
                        },
                    )
                }
            },
        }
    }

    /// Create an instance of [`DfuSansIo`].
    pub fn new(descriptor: FunctionalDescriptor) -> (dfu: Self)
        ensures
            dfu.descriptor() == descriptor,
            dfu.override_address() is None,
    {
        Self { descriptor, override_address: None }
    }

    /// Create a state machine to download the firmware into the device.
    ///
    /// It opens with a status query, the clearing of an error state if the
    /// device reports one, and a second status query, whose reply starts
    /// the download proper.
    pub fn download<'a>(&'a self, protocol: &'a DfuProtocol<MemoryLayout>, length: u32) -> (outcome:
        Result<GetStatus<ClearStatus<GetStatus<Start<'a>>>>, Error>)
        ensures
            match outcome {
                Ok(command) => {
                    &&& self.planned(protocol@, length) == Ok::<Plan, Error>(
                        command.command().command().command()@,
                    )
                    &&& command.command().command().command()@.well_formed()
                },
                Err(error) => self.planned(protocol@, length) == Err::<Plan, Error>(error),
            },
    {
        let start = match protocol {
            DfuProtocol::Dfu => Start::new(&self.descriptor, None, length),
            DfuProtocol::Dfuse { address, memory_layout } => {
                let address = match self.override_address {
                    Some(address) => address,
                    None => *address,
                };
                let end_pos = match address.checked_add(length) {
                    Some(end_pos) => end_pos,
                    None => {
                        return Err(Error::NoSpaceLeft);
                    },
                };
                Start::new(&self.descriptor, Some((address, memory_layout.as_slice())), end_pos)
            },
        };
        Ok(GetStatus::new(ClearStatus::new(GetStatus::new(start))))
    }

    /// Send a Detach request to the device, with a timeout of one second.
    pub fn detach(&self) -> (control: UsbWriteControl<[u8; 0]>)
        ensures
            is_detach(control, DETACH_TIMEOUT),
    {
        UsbWriteControl::new(REQUEST_TYPE_OUT, DFU_DETACH, DETACH_TIMEOUT, [])
    }

    /// Set the address onto which to download the firmware.
    ///
    /// This address is only used if the device uses the DfuSe protocol.
    pub fn set_address(&mut self, address: u32)
        ensures
            final(self).override_address() == Some(address),
            final(self).descriptor() == old(self).descriptor(),
    {
        self.override_address = Some(address);
    }
}

} // verus!
