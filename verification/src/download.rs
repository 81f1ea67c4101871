//! The download pipeline: what to do next at each point of a download, and
//! the transfers that erase a page, set the address and send a chunk.

use crate::error::Error;
use crate::functional_descriptor::FunctionalDescriptor;
use crate::get_status::{GetStatusMessage, WaitState};
use crate::memory_layout::{mem, MemoryPage};
use crate::state::State;
use crate::transfer::{ChainedCommand, UsbWriteControl, DFU_DNLOAD, REQUEST_TYPE_OUT};
use vstd::prelude::*;
use vstd::std_specs::convert::FromSpecImpl;

verus! {

/// First byte of the DfuSe command that sets the address pointer.
pub const COMMAND_SET_ADDRESS: u8 = 0x21;

/// First byte of the DfuSe command that erases a page.
pub const COMMAND_ERASE: u8 = 0x41;

/// Block number of the first chunk of firmware under DfuSe: blocks 0 and 1
/// are reserved there, for commands and for historical reasons.
pub const DFUSE_FIRST_BLOCK: u16 = 2;

/// The bookkeeping of a DfuSe download.
pub struct DfuseProgress {
    /// Address of the first byte of firmware.
    pub address: u32,
    /// Address behind the last page that an erase was sent for.
    pub erased_pos: u32,
    /// Whether the address was sent since the last erase.
    pub address_set: bool,
    /// The sizes of the pages that lie from `erased_pos` on.
    pub memory_layout: Seq<MemoryPage>,
}

/// The protocol of a download, with its bookkeeping.
pub enum ProtocolProgress {
    /// DFU 1.1
    Dfu,
    /// STM DFU extensions aka DfuSe
    Dfuse(DfuseProgress),
}

/// A download that was planned and has not begun.
pub struct Plan {
    /// The functional descriptor of the device.
    pub descriptor: FunctionalDescriptor,
    /// The protocol, with its bookkeeping at the start.
    pub protocol: ProtocolProgress,
    /// Where the firmware ends: its length, plus its address under DfuSe.
    pub end_pos: u32,
}

/// How far a download has come.
pub struct Progress {
    /// The functional descriptor of the device.
    pub descriptor: FunctionalDescriptor,
    /// The protocol, with its bookkeeping.
    pub protocol: ProtocolProgress,
    /// Where the firmware ends: its length, plus its address under DfuSe.
    pub end_pos: u32,
    /// Where the next chunk goes: the bytes sent so far, plus the address
    /// under DfuSe.
    pub copied_pos: u32,
    /// Block number of the next chunk.
    pub block_num: u16,
    /// Whether the empty chunk that ends the firmware was sent.
    pub eof: bool,
}

/// What a download does next.
pub enum Decision {
    /// Nothing: the download is over.
    Break,
    /// Reset the device over USB, which ends the download.
    UsbReset,
    /// Erase the next page.
    Erase,
    /// Send the address of the next chunk.
    SetAddress,
    /// Send the next chunk.
    DownloadChunk,
}

impl Plan {
    /// The download at its start: nothing sent, and the first block number
    /// of the protocol.
    pub open spec fn begin(self) -> Progress {
        Progress {
            descriptor: self.descriptor,
            protocol: self.protocol,
            end_pos: self.end_pos,
            copied_pos: match self.protocol {
                ProtocolProgress::Dfu => 0,
                ProtocolProgress::Dfuse(dfuse) => dfuse.address,
            },
            block_num: match self.protocol {
                ProtocolProgress::Dfu => 0,
                ProtocolProgress::Dfuse(_) => DFUSE_FIRST_BLOCK,
            },
            eof: false,
        }
    }

    /// What holds of every plan that [`crate::DfuSansIo::download`] makes:
    /// under DfuSe nothing is erased yet and no address is set.
    pub open spec fn well_formed(self) -> bool {
        match self.protocol {
            ProtocolProgress::Dfu => true,
            ProtocolProgress::Dfuse(dfuse) => dfuse.erased_pos == dfuse.address
                && !dfuse.address_set,
        }
    }
}

impl Progress {
    /// What holds at every point of a download: under DfuSe the block
    /// number is past the two reserved ones, and neither the erased region
    /// nor the firmware sent so far begins before the start address.
    pub open spec fn well_formed(self) -> bool {
        match self.protocol {
            ProtocolProgress::Dfu => true,
            ProtocolProgress::Dfuse(dfuse) => {
                &&& self.block_num >= DFUSE_FIRST_BLOCK
                &&& dfuse.address <= dfuse.erased_pos
                &&& dfuse.address <= self.copied_pos
            },
        }
    }

    /// The decision table of the download loop.
    pub open spec fn decision(self) -> Decision {
        if self.eof {
            if !self.descriptor.manifestation_tolerant && !self.descriptor.will_detach {
                Decision::UsbReset
            } else {
                Decision::Break
            }
        } else {
            match self.protocol {
                ProtocolProgress::Dfuse(dfuse) => if dfuse.erased_pos < self.end_pos {
                    Decision::Erase
                } else if !dfuse.address_set {
                    Decision::SetAddress
                } else {
                    Decision::DownloadChunk
                },
                ProtocolProgress::Dfu => Decision::DownloadChunk,
            }
        }
    }

    /// The download after an erase of the next page: the erased region has
    /// grown by that page, the page has left the layout, and the address
    /// counts as not set.  No pages left is `NoSpaceLeft`; a region that
    /// would end beyond 32 bits is `EraseLimitReached`.
    pub open spec fn after_erase(self) -> Result<Progress, Error>
        recommends
            self.protocol is Dfuse,
    {
        let dfuse = self.protocol->Dfuse_0;
        if dfuse.memory_layout.len() == 0 {
            Err(Error::NoSpaceLeft)
        } else if dfuse.erased_pos + dfuse.memory_layout[0] > u32::MAX {
            Err(Error::EraseLimitReached)
        } else {
            Ok(
                Progress {
                    protocol: ProtocolProgress::Dfuse(
                        DfuseProgress {
                            erased_pos: (dfuse.erased_pos + dfuse.memory_layout[0]) as u32,
                            memory_layout: dfuse.memory_layout.skip(1),
                            ..dfuse
                        },
                    ),
                    eof: false,
                    ..self
                },
            )
        }
    }

    /// The download after the address was sent.
    pub open spec fn after_set_address(self) -> Progress
        recommends
            self.protocol is Dfuse,
    {
        Progress {
            protocol: ProtocolProgress::Dfuse(
                DfuseProgress { address_set: true, ..self.protocol->Dfuse_0 },
            ),
            eof: false,
            ..self
        }
    }

    /// The number of bytes that go out of `available` ones in one chunk: as
    /// many as there are, up to the transfer size.
    pub open spec fn chunk_len(self, available: nat) -> nat {
        if available <= self.descriptor.transfer_size {
            available
        } else {
            self.descriptor.transfer_size as nat
        }
    }

    /// The download after a chunk was cut from `available` bytes: the
    /// position has moved by the length of the chunk and the block number
    /// by one, and the firmware has ended if and only if no byte was
    /// available.  The failures, in the order in which they are looked for:
    /// more bytes available than 32 bits count, a position beyond 32 bits,
    /// a block number beyond 16 bits.
    pub open spec fn after_chunk(self, available: nat) -> Result<Progress, Error> {
        if available > u32::MAX {
            Err(Error::BufferTooBig { got: available as usize, expected: u32::MAX as usize })
        } else if self.copied_pos + self.chunk_len(available) > u32::MAX {
            Err(Error::MaximumTransferSizeExceeded)
        } else if self.block_num + 1 > u16::MAX {
            Err(Error::MaximumChunksExceeded)
        } else {
            Ok(
                Progress {
                    copied_pos: (self.copied_pos + self.chunk_len(available)) as u32,
                    block_num: (self.block_num + 1) as u16,
                    eof: available == 0,
                    ..self
                },
            )
        }
    }

    /// The state that the device may report while it works on a chunk cut
    /// from `available` bytes.
    pub open spec fn busy_state(self, available: nat) -> State {
        if available == 0 {
            State::DfuManifest
        } else {
            State::DfuDnbusy
        }
    }

    /// The state that the device reports once it is done with a chunk cut
    /// from `available` bytes.  After the empty chunk a device that
    /// tolerates manifestation comes back to idle; one that does not never
    /// leaves the manifestation phase.
    pub open spec fn done_state(self, available: nat) -> State {
        if available != 0 {
            State::DfuDnloadIdle
        } else if self.descriptor.manifestation_tolerant {
            State::DfuIdle
        } else {
            State::DfuManifest
        }
    }

    /// Once the firmware has ended the download only ends: by a reset if
    /// and only if the device neither tolerates manifestation nor detaches
    /// by itself, else without one.
    pub proof fn lemma_ending(self)
        requires
            self.eof,
        ensures
            self.decision() is UsbReset <==> !self.descriptor.manifestation_tolerant
                && !self.descriptor.will_detach,
            self.decision() is Break <==> self.descriptor.manifestation_tolerant
                || self.descriptor.will_detach,
    {
    }

    /// Under DfuSe a chunk is sent only when pages were erased up to the
    /// end of the firmware and the address was set since the last erase.
    pub proof fn lemma_chunk_after_erase(self, dfuse: DfuseProgress)
        requires
            self.protocol == ProtocolProgress::Dfuse(dfuse),
            self.decision() is DownloadChunk,
        ensures
            dfuse.erased_pos >= self.end_pos,
            dfuse.address_set,
            !self.eof,
    {
    }

    /// The empty chunk is the last one: the download that follows it has
    /// ended, and decides for no further chunk, erase or address.
    pub proof fn lemma_empty_chunk_is_last(self, next: Progress)
        requires
            self.after_chunk(0) == Ok::<Progress, Error>(next),
        ensures
            next.eof,
            next.decision() is Break || next.decision() is UsbReset,
            next.copied_pos == self.copied_pos,
    {
    }

    /// A chunk cut from bytes that are there is never the last: the
    /// download that follows it has not ended.  With a transfer size of at
    /// least one the chunk is not empty.
    pub proof fn lemma_chunk_goes_on(self, available: nat, next: Progress)
        requires
            available > 0,
            self.after_chunk(available) == Ok::<Progress, Error>(next),
        ensures
            !next.eof,
            next.block_num == self.block_num + 1,
            self.chunk_len(available) <= self.descriptor.transfer_size,
            self.descriptor.well_formed() ==> self.chunk_len(available) >= 1,
    {
    }

    /// Every step keeps a download well formed.
    pub proof fn lemma_steps_keep_well_formed(self, available: nat)
        requires
            self.well_formed(),
        ensures
            self.protocol is Dfuse ==> self.after_set_address().well_formed(),
            self.protocol is Dfuse ==> (self.after_erase() matches Ok(next) ==> next.well_formed()),
            self.after_chunk(available) matches Ok(next) ==> next.well_formed(),
    {
    }
}

/// The payload of a DfuSe command: its code, then the address in
/// little-endian order.
pub open spec fn command_bytes(code: u8, address: u32) -> [u8; 5] {
    [
        code,
        (address % 256) as u8,
        ((address / 256) % 256) as u8,
        ((address / 65536) % 256) as u8,
        (address / 16777216) as u8,
    ]
}

/// The four bytes behind the code of a command spell its address.
pub proof fn lemma_command_bytes(code: u8, address: u32)
    ensures
        command_bytes(code, address)@.len() == 5,
        command_bytes(code, address)[0] == code,
        command_bytes(code, address)[1] + 256 * command_bytes(code, address)[2] + 65536
            * command_bytes(code, address)[3] + 16777216 * command_bytes(code, address)[4]
            == address,
{
}

/// Builds the payload of a DfuSe command.
fn command_payload(code: u8, address: u32) -> (payload: [u8; 5])
    ensures
        payload == command_bytes(code, address),
{
    [
        code,
        (address % 256) as u8,
        ((address / 256) % 256) as u8,
        ((address / 65536) % 256) as u8,
        (address / 16777216) as u8,
    ]
}

/// Command to erase.
#[derive(Debug, Clone, Copy)]
pub struct DownloadCommandErase(u32);

impl DownloadCommandErase {
    /// Address of the page to erase.
    pub closed spec fn address(self) -> u32 {
        self.0
    }
}

impl From<DownloadCommandErase> for [u8; 5] {
    fn from(command: DownloadCommandErase) -> (payload: [u8; 5]) {
        command_payload(COMMAND_ERASE, command.0)
    }
}

impl FromSpecImpl<DownloadCommandErase> for [u8; 5] {
    open spec fn obeys_from_spec() -> bool {
        true
    }

    open spec fn from_spec(command: DownloadCommandErase) -> [u8; 5] {
        command_bytes(COMMAND_ERASE, command.address())
    }
}

/// Command to set address to download.
#[derive(Debug, Clone, Copy)]
pub struct DownloadCommandSetAddress(u32);

impl DownloadCommandSetAddress {
    /// Address that the next chunk goes to.
    pub closed spec fn address(self) -> u32 {
        self.0
    }
}

impl From<DownloadCommandSetAddress> for [u8; 5] {
    fn from(command: DownloadCommandSetAddress) -> (payload: [u8; 5]) {
        command_payload(COMMAND_SET_ADDRESS, command.0)
    }
}

impl FromSpecImpl<DownloadCommandSetAddress> for [u8; 5] {
    open spec fn obeys_from_spec() -> bool {
        true
    }

    open spec fn from_spec(command: DownloadCommandSetAddress) -> [u8; 5] {
        command_bytes(COMMAND_SET_ADDRESS, command.address())
    }
}

#[derive(Debug, Copy, Clone)]
pub(crate) struct DfuseProtocolData<'dfu> {
    pub address: u32,
    pub erased_pos: u32,
    pub address_set: bool,
    pub memory_layout: &'dfu mem,
}

impl<'dfu> View for DfuseProtocolData<'dfu> {
    type V = DfuseProgress;

    closed spec fn view(&self) -> DfuseProgress {
        DfuseProgress {
            address: self.address,
            erased_pos: self.erased_pos,
            address_set: self.address_set,
            memory_layout: self.memory_layout@,
        }
    }
}

#[derive(Debug, Copy, Clone)]
pub(crate) enum ProtocolData<'dfu> {
    Dfu,
    Dfuse(DfuseProtocolData<'dfu>),
}

impl<'dfu> View for ProtocolData<'dfu> {
    type V = ProtocolProgress;

    closed spec fn view(&self) -> ProtocolProgress {
        match self {
            ProtocolData::Dfu => ProtocolProgress::Dfu,
            ProtocolData::Dfuse(dfuse) => ProtocolProgress::Dfuse(dfuse@),
        }
    }
}

/// Starting point to download a firmware into a device.
#[must_use]
pub struct Start<'dfu> {
    pub(crate) descriptor: &'dfu FunctionalDescriptor,
    pub(crate) end_pos: u32,
    pub(crate) protocol: ProtocolData<'dfu>,
}

impl<'dfu> View for Start<'dfu> {
    type V = Plan;

    closed spec fn view(&self) -> Plan {
        Plan { descriptor: *self.descriptor, protocol: self.protocol@, end_pos: self.end_pos }
    }
}

impl<'dfu> Start<'dfu> {
    /// Plans a download that ends at `end_pos`: by plain DFU where `dfuse`
    /// is `None`, else by DfuSe from the given address on, over the given
    /// pages, with nothing erased and no address set.
    pub(crate) fn new(
        descriptor: &'dfu FunctionalDescriptor,
        dfuse: Option<(u32, &'dfu mem)>,
        end_pos: u32,
    ) -> (start: Self)
        ensures
            start@ == (Plan {
                descriptor: *descriptor,
                protocol: match dfuse {
                    None => ProtocolProgress::Dfu,
                    Some((address, memory_layout)) => ProtocolProgress::Dfuse(
                        DfuseProgress {
                            address,
                            erased_pos: address,
                            address_set: false,
                            memory_layout: memory_layout@,
                        },
                    ),
                },
                end_pos,
            }),
    {
        let protocol = match dfuse {
            None => ProtocolData::Dfu,
            Some((address, memory_layout)) => ProtocolData::Dfuse(
                DfuseProtocolData { address, erased_pos: address, address_set: false, memory_layout },
            ),
        };
        Start { descriptor, end_pos, protocol }
    }
}

impl<'dfu> ChainedCommand for Start<'dfu> {
    type Arg = GetStatusMessage;

    type Into = Result<DownloadLoop<'dfu>, Error>;

    /// The download begins if and only if the device is idle in DFU mode;
    /// any other state fails it.
    open spec fn chains_into(self, arg: GetStatusMessage, next: Self::Into) -> bool {
        match next {
            Ok(download) => arg.state == State::DfuIdle && download@ == self@.begin(),
            Err(error) => arg.state != State::DfuIdle && error == (Error::InvalidState {
                got: arg.state,
                expected: State::DfuIdle,
            }),
        }
    }

    fn chain(self, arg: GetStatusMessage) -> (next: Self::Into) {
        let state = arg.state;
        if state == State::DfuIdle {
            let (block_num, copied_pos) = match self.protocol {
                ProtocolData::Dfu => (0, 0),
                ProtocolData::Dfuse(d) => (DFUSE_FIRST_BLOCK, d.address),
            };
            Ok(
                DownloadLoop {
                    descriptor: self.descriptor,
                    end_pos: self.end_pos,
                    copied_pos,
                    protocol: self.protocol,
                    block_num,
                    eof: false,
                },
            )
        } else {
            Err(Error::InvalidState { got: state, expected: State::DfuIdle })
        }
    }
}

/// Download loop.
#[must_use]
pub struct DownloadLoop<'dfu> {
    descriptor: &'dfu FunctionalDescriptor,
    protocol: ProtocolData<'dfu>,
    end_pos: u32,
    copied_pos: u32,
    block_num: u16,
    eof: bool,
}

impl<'dfu> View for DownloadLoop<'dfu> {
    type V = Progress;

    closed spec fn view(&self) -> Progress {
        Progress {
            descriptor: *self.descriptor,
            protocol: self.protocol@,
            end_pos: self.end_pos,
            copied_pos: self.copied_pos,
            block_num: self.block_num,
            eof: self.eof,
        }
    }
}

/// Download step in the loop.
pub enum Step<'dfu> {
    /// The download is over.
    Break,
    /// The device must be reset over USB, which ends the download.
    UsbReset,
    /// The next page must be erased.
    Erase(ErasePage<'dfu>),
    /// The address of the next chunk must be sent.
    SetAddress(SetAddress<'dfu>),
    /// The next chunk must be sent.
    DownloadChunk(DownloadChunk<'dfu>),
}

impl<'dfu> DownloadLoop<'dfu> {
    /// Get the next step in the download loop, by the decision table of
    /// [`Progress::decision`].  A step that sends something carries the
    /// download as it stands.
    pub fn next(self) -> (step: Step<'dfu>)
        ensures
            match step {
                Step::Break => self@.decision() is Break,
                Step::UsbReset => self@.decision() is UsbReset,
                Step::Erase(command) => self@.decision() is Erase && command@ == self@,
                Step::SetAddress(command) => self@.decision() is SetAddress && command@ == self@,
                Step::DownloadChunk(command) => self@.decision() is DownloadChunk && command@
                    == self@,
            },
    {
        if self.eof {
            return if !self.descriptor.manifestation_tolerant && !self.descriptor.will_detach {
                Step::UsbReset
            } else {
                Step::Break
            };
        }
        match self.protocol {
            ProtocolData::Dfuse(d) if d.erased_pos < self.end_pos => {
                Step::Erase(
                    ErasePage {
                        descriptor: self.descriptor,
                        end_pos: self.end_pos,
                        copied_pos: self.copied_pos,
                        protocol: d,
                        block_num: self.block_num,
                    },
                )
            },
            ProtocolData::Dfuse(d) if !d.address_set => {
                Step::SetAddress(
                    SetAddress {
                        descriptor: self.descriptor,
                        end_pos: self.end_pos,
                        copied_pos: self.copied_pos,
                        protocol: d,
                        block_num: self.block_num,
                    },
                )
            },
            _ => {
                Step::DownloadChunk(
                    DownloadChunk {
                        descriptor: self.descriptor,
                        end_pos: self.end_pos,
                        copied_pos: self.copied_pos,
                        block_num: self.block_num,
                        protocol: self.protocol,
                    },
                )
            },
        }
    }
}

/// A wait that has just begun: for `target`, with `intermediate` allowed
/// meanwhile, and with the download `progress` to go on with.
pub open spec fn awaits<'dfu>(
    wait: WaitState<DownloadLoop<'dfu>>,
    intermediate: State,
    target: State,
    progress: Progress,
) -> bool {
    &&& wait@.intermediate == intermediate
    &&& wait@.target == target
    &&& !wait@.reached
    &&& wait@.poll_timeout == 0
    &&& wait@.command@ == progress
}

/// A download transfer: a control write of request `DFU_DNLOAD` with the
/// given block number.
pub open spec fn is_download<D>(control: UsbWriteControl<D>, block_num: u16) -> bool {
    &&& control.request_type == REQUEST_TYPE_OUT
    &&& control.request == DFU_DNLOAD
    &&& control.value == block_num
}

/// Erase a memory page.
#[must_use]
pub struct ErasePage<'dfu> {
    descriptor: &'dfu FunctionalDescriptor,
    end_pos: u32,
    copied_pos: u32,
    protocol: DfuseProtocolData<'dfu>,
    block_num: u16,
}

impl<'dfu> View for ErasePage<'dfu> {
    type V = Progress;

    closed spec fn view(&self) -> Progress {
        Progress {
            descriptor: *self.descriptor,
            protocol: ProtocolProgress::Dfuse(self.protocol@),
            end_pos: self.end_pos,
            copied_pos: self.copied_pos,
            block_num: self.block_num,
            eof: false,
        }
    }
}

impl<'dfu> ErasePage<'dfu> {
    /// Erase a memory page: the next one of the layout.  The command goes
    /// out as block 0 and names the address at which that page begins, the
    /// end of the region erased so far.  Then the device is waited for.
    pub fn erase(self) -> (outcome: Result<
        (WaitState<DownloadLoop<'dfu>>, UsbWriteControl<[u8; 5]>),
        Error,
    >)
        ensures
            self@.protocol is Dfuse,
            match outcome {
                Ok((wait, control)) => {
                    &&& self@.after_erase() matches Ok(next) && awaits(
                        wait,
                        State::DfuDnbusy,
                        State::DfuDnloadIdle,
                        next,
                    )
                    &&& is_download(control, 0)
                    &&& control.buffer == command_bytes(
                        COMMAND_ERASE,
                        self@.protocol->Dfuse_0.erased_pos,
                    )
                },
                Err(error) => self@.after_erase() == Err::<Progress, Error>(error),
            },
    {
        let layout = self.protocol.memory_layout;
        if layout.len() == 0 {
            return Err(Error::NoSpaceLeft);
        }
        let page_size = layout[0];
        let (_, rest_memory_layout) = layout.split_at(1);
        let erased_pos = match self.protocol.erased_pos.checked_add(page_size) {
            Some(erased_pos) => erased_pos,
            None => {
                return Err(Error::EraseLimitReached);
            },
        };
        let next_protocol = ProtocolData::Dfuse(
            DfuseProtocolData {
                erased_pos,
                memory_layout: rest_memory_layout,
                address: self.protocol.address,
                address_set: self.protocol.address_set,
            },
        );
        let next = WaitState::new(
            State::DfuDnbusy,
            State::DfuDnloadIdle,
            DownloadLoop {
                descriptor: self.descriptor,
                protocol: next_protocol,
                end_pos: self.end_pos,
                copied_pos: self.copied_pos,
                block_num: self.block_num,
                eof: false,
            },
        );
        let control = UsbWriteControl::new(
            REQUEST_TYPE_OUT,
            DFU_DNLOAD,
            0,
            <[u8; 5]>::from(DownloadCommandErase(self.protocol.erased_pos)),
        );
        Ok((next, control))
    }
}

/// Set the address for download.
#[must_use]
pub struct SetAddress<'dfu> {
    descriptor: &'dfu FunctionalDescriptor,
    end_pos: u32,
    copied_pos: u32,
    protocol: DfuseProtocolData<'dfu>,
    block_num: u16,
}

impl<'dfu> View for SetAddress<'dfu> {
    type V = Progress;

    closed spec fn view(&self) -> Progress {
        Progress {
            descriptor: *self.descriptor,
            protocol: ProtocolProgress::Dfuse(self.protocol@),
            end_pos: self.end_pos,
            copied_pos: self.copied_pos,
            block_num: self.block_num,
            eof: false,
        }
    }
}

impl<'dfu> SetAddress<'dfu> {
    /// Set the address for download.  The command goes out as block 0 and
    /// names the position of the next chunk.  Then the device is waited for.
    pub fn set_address(self) -> (command: (
        WaitState<DownloadLoop<'dfu>>,
        UsbWriteControl<[u8; 5]>,
    ))
        ensures
            self@.protocol is Dfuse,
            awaits(command.0, State::DfuDnbusy, State::DfuDnloadIdle, self@.after_set_address()),
            is_download(command.1, 0),
            command.1.buffer == command_bytes(COMMAND_SET_ADDRESS, self@.copied_pos),
    {
        let next_protocol = ProtocolData::Dfuse(
            DfuseProtocolData {
                address_set: true,
                address: self.protocol.address,
                erased_pos: self.protocol.erased_pos,
                memory_layout: self.protocol.memory_layout,
            },
        );
        let next = WaitState::new(
            State::DfuDnbusy,
            State::DfuDnloadIdle,
            DownloadLoop {
                descriptor: self.descriptor,
                end_pos: self.end_pos,
                copied_pos: self.copied_pos,
                protocol: next_protocol,
                block_num: self.block_num,
                eof: false,
            },
        );
        let control = UsbWriteControl::new(
            REQUEST_TYPE_OUT,
            DFU_DNLOAD,
            0,
            <[u8; 5]>::from(DownloadCommandSetAddress(self.copied_pos)),
        );
        (next, control)
    }
}

/// Download a chunk of data into the device.
#[must_use]
pub struct DownloadChunk<'dfu> {
    descriptor: &'dfu FunctionalDescriptor,
    end_pos: u32,
    copied_pos: u32,
    block_num: u16,
    protocol: ProtocolData<'dfu>,
}

impl<'dfu> View for DownloadChunk<'dfu> {
    type V = Progress;

    closed spec fn view(&self) -> Progress {
        Progress {
            descriptor: *self.descriptor,
            protocol: self.protocol@,
            end_pos: self.end_pos,
            copied_pos: self.copied_pos,
            block_num: self.block_num,
            eof: false,
        }
    }
}

impl<'dfu> DownloadChunk<'dfu> {
    /// Download a chunk of data into the device: the first bytes of
    /// `bytes`, as many as one transfer takes.  The chunk goes out under
    /// the block number of the download.  No bytes at all make the empty
    /// chunk that ends the firmware.  Then the device is waited for.
    pub fn download<'data>(self, bytes: &'data [u8]) -> (outcome: Result<
        (WaitState<DownloadLoop<'dfu>>, UsbWriteControl<&'data [u8]>),
        Error,
    >)
        ensures
            match outcome {
                Ok((wait, control)) => {
                    &&& self@.after_chunk(bytes@.len()) matches Ok(next) && awaits(
                        wait,
                        self@.busy_state(bytes@.len()),
                        self@.done_state(bytes@.len()),
                        next,
                    )
                    &&& is_download(control, self@.block_num)
                    &&& control.buffer@ == bytes@.take(self@.chunk_len(bytes@.len()) as int)
                    &&& control.buffer@.len() <= self@.descriptor.transfer_size
                },
                Err(error) => self@.after_chunk(bytes@.len()) == Err::<Progress, Error>(error),
            },
    {
        let transfer_size = self.descriptor.transfer_size as u32;
        if bytes.len() > u32::MAX as usize {
            return Err(Error::BufferTooBig { got: bytes.len(), expected: u32::MAX as usize });
        }
        let available = bytes.len() as u32;
        let len = if available < transfer_size {
            available
        } else {
            transfer_size
        };
        let (intermediate, next_state) = if bytes.len() == 0 {
            if self.descriptor.manifestation_tolerant {
                (State::DfuManifest, State::DfuIdle)
            } else {
                (State::DfuManifest, State::DfuManifest)
            }
        } else {
            (State::DfuDnbusy, State::DfuDnloadIdle)
        };
        let copied_pos = match self.copied_pos.checked_add(len) {
            Some(copied_pos) => copied_pos,
            None => {
                return Err(Error::MaximumTransferSizeExceeded);
            },
        };
        let block_num = match self.block_num.checked_add(1) {
            Some(block_num) => block_num,
            None => {
                return Err(Error::MaximumChunksExceeded);
            },
        };
        let next = WaitState::new(
            intermediate,
            next_state,
            DownloadLoop {
                descriptor: self.descriptor,
                end_pos: self.end_pos,
                copied_pos,
                protocol: self.protocol,
                block_num,
                eof: bytes.len() == 0,
            },
        );
        let control = UsbWriteControl::new(
            REQUEST_TYPE_OUT,
            DFU_DNLOAD,
            self.block_num,
            &bytes[0..len as usize],
        );
        Ok((next, control))
    }
}

} // verus!
