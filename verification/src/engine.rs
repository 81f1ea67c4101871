//! A whole download as one machine: it names the next thing to do for the
//! device, takes what came of it, and names the next.

use crate::download::{
    command_bytes, is_download, Decision, DownloadChunk, DownloadLoop, Plan, Progress,
    Start, Step, COMMAND_ERASE, COMMAND_SET_ADDRESS,
};
use crate::error::Error;
use crate::get_status::{
    clear_status, is_clear_status, is_status_query, status_query, ClearStatus, GetStatus,
    GetStatusMessage, WaitState, Waiting, STATUS_LENGTH,
};
use crate::memory_layout::MemoryLayout;
use crate::protocol::DfuProtocol;
use crate::sans_io::DfuSansIo;
use crate::state::State;
use crate::transfer::{ChainedCommand, UsbReadControl, UsbWriteControl};
use vstd::prelude::*;

verus! {

/// Where a download stands.
pub enum Phase {
    /// The first status query is due, or its reply.
    Opening(Plan),
    /// The device reported its error state, which must be cleared.
    Clearing(Plan),
    /// The second status query is due, or its reply.
    Starting(Plan),
    /// The device is ready for the next step of the download.
    Running(Progress),
    /// The device works on what was sent.
    Waiting(Waiting<Progress>),
    /// Nothing is left to do.
    Finished,
}

/// What a download asks for.
pub enum Wanted {
    /// A status query after a delay in milliseconds, whose reply is awaited
    /// in the given phase.
    GetStatus { delay: u32, pending: Phase },
    /// The clearing of the error state, after which the download is in the
    /// given phase.
    ClearStatus { then: Phase },
    /// A DfuSe command with the given payload, after which the download is
    /// in the given phase.
    Dfuse { payload: [u8; 5], then: Phase },
    /// The next bytes of the firmware, for the download as it stands.
    DownloadChunk(Progress),
    /// A reset of the device over USB, which ends the download.
    UsbReset,
    /// Nothing: the download is over.
    Break,
}

/// A wait that has just begun.
pub open spec fn fresh_wait(intermediate: State, target: State, progress: Progress) -> Waiting<
    Progress,
> {
    Waiting { intermediate, target, command: progress, reached: false, poll_timeout: 0 }
}

/// A wait for a download, told by how far the download has come.
pub open spec fn wait_of<'dfu>(wait: Waiting<DownloadLoop<'dfu>>) -> Waiting<Progress> {
    Waiting {
        intermediate: wait.intermediate,
        target: wait.target,
        command: wait.command@,
        reached: wait.reached,
        poll_timeout: wait.poll_timeout,
    }
}

impl Phase {
    /// What a device that is ready is asked for, by the decision table of
    /// [`Progress::decision`].  An erase and the sending of the address are
    /// followed by a wait while the device is busy, until it is idle in a
    /// download.  An erase can fail, see [`Progress::after_erase`].
    pub open spec fn wanted_of(progress: Progress) -> Result<Wanted, Error> {
        match progress.decision() {
            Decision::Break => Ok(Wanted::Break),
            Decision::UsbReset => Ok(Wanted::UsbReset),
            Decision::Erase => match progress.after_erase() {
                Ok(next) => Ok(
                    Wanted::Dfuse {
                        payload: command_bytes(
                            COMMAND_ERASE,
                            progress.protocol->Dfuse_0.erased_pos,
                        ),
                        then: Phase::Waiting(
                            fresh_wait(State::DfuDnbusy, State::DfuDnloadIdle, next),
                        ),
                    },
                ),
                Err(error) => Err(error),
            },
            Decision::SetAddress => Ok(
                Wanted::Dfuse {
                    payload: command_bytes(COMMAND_SET_ADDRESS, progress.copied_pos),
                    then: Phase::Waiting(
                        fresh_wait(
                            State::DfuDnbusy,
                            State::DfuDnloadIdle,
                            progress.after_set_address(),
                        ),
                    ),
                },
            ),
            Decision::DownloadChunk => Ok(Wanted::DownloadChunk(progress)),
        }
    }

    /// What a download asks for next.  It opens with a status query, the
    /// clearing of an error state if one was reported, and a second status
    /// query, all without delay.  While the device works, its status is
    /// asked for after the timeout of its last reply; once it is done, the
    /// download goes on as for a device that is ready.
    pub open spec fn wanted(self) -> Result<Wanted, Error> {
        match self {
            Phase::Opening(_) => Ok(Wanted::GetStatus { delay: 0, pending: self }),
            Phase::Clearing(plan) => Ok(Wanted::ClearStatus { then: Phase::Starting(plan) }),
            Phase::Starting(_) => Ok(Wanted::GetStatus { delay: 0, pending: self }),
            Phase::Running(progress) => Self::wanted_of(progress),
            Phase::Waiting(wait) => if wait.reached {
                Self::wanted_of(wait.command)
            } else {
                Ok(Wanted::GetStatus { delay: wait.poll_timeout, pending: self })
            },
            Phase::Finished => Ok(Wanted::Break),
        }
    }

    /// Whether a status reply is awaited in this phase.
    pub open spec fn is_pending(self) -> bool {
        match self {
            Phase::Opening(_) => true,
            Phase::Starting(_) => true,
            Phase::Waiting(wait) => !wait.reached,
            _ => false,
        }
    }

    /// The phase that follows a status reply.  The first reply of a
    /// download leads to the clearing of the error state if the device is in
    /// it, else to the second query.  The second reply must find the
    /// device idle in DFU mode, and starts the download.  A reply during a
    /// wait must name the state waited for or the one allowed meanwhile.
    pub open spec fn replied(self, message: GetStatusMessage) -> Result<Phase, Error>
        recommends
            self.is_pending(),
    {
        match self {
            Phase::Opening(plan) => if message.state is DfuError {
                Ok(Phase::Clearing(plan))
            } else {
                Ok(Phase::Starting(plan))
            },
            Phase::Starting(plan) => if message.state == State::DfuIdle {
                Ok(Phase::Running(plan.begin()))
            } else {
                Err(Error::InvalidState { got: message.state, expected: State::DfuIdle })
            },
            Phase::Waiting(wait) => if message.state == wait.target || message.state
                == wait.intermediate {
                Ok(
                    Phase::Waiting(
                        Waiting {
                            reached: message.state == wait.target,
                            poll_timeout: message.poll_timeout,
                            ..wait
                        },
                    ),
                )
            } else {
                Err(Error::InvalidState { got: message.state, expected: wait.intermediate })
            },
            _ => Ok(self),
        }
    }

    /// The phase that follows the bytes of a status reply: fewer than six
    /// fail the download, else see [`Phase::replied`].
    pub open spec fn answered(self, bytes: Seq<u8>) -> Result<Phase, Error> {
        if bytes.len() < STATUS_LENGTH {
            Err(Error::ResponseTooShort { got: bytes.len() as usize, expected: STATUS_LENGTH })
        } else {
            self.replied(GetStatusMessage::decoded(bytes))
        }
    }

    /// The phase that follows a chunk cut from `available` bytes: a wait
    /// for the device to work on it, see [`Progress::after_chunk`].
    pub open spec fn sent(progress: Progress, available: nat) -> Result<Phase, Error> {
        match progress.after_chunk(available) {
            Ok(next) => Ok(
                Phase::Waiting(
                    fresh_wait(
                        progress.busy_state(available),
                        progress.done_state(available),
                        next,
                    ),
                ),
            ),
            Err(error) => Err(error),
        }
    }
}

impl Phase {
    /// How far the download has come, once it has begun.
    pub open spec fn progress(self) -> Option<Progress> {
        match self {
            Phase::Running(progress) => Some(progress),
            Phase::Waiting(wait) => Some(wait.command),
            _ => None,
        }
    }

    /// What holds in every phase of a download that [`Engine::start`] has
    /// begun: its plan or its progress is well formed.
    pub open spec fn well_formed(self) -> bool {
        match self {
            Phase::Opening(plan) => plan.well_formed(),
            Phase::Clearing(plan) => plan.well_formed(),
            Phase::Starting(plan) => plan.well_formed(),
            Phase::Running(progress) => progress.well_formed(),
            Phase::Waiting(wait) => wait.command.well_formed(),
            Phase::Finished => true,
        }
    }

    /// Whatever a download asks for, it is well formed afterwards; a status
    /// query is asked for only in a phase that awaits its reply; and a
    /// chunk is asked for only while the firmware has not ended.
    pub proof fn lemma_wanted_keeps_well_formed(self)
        requires
            self.well_formed(),
        ensures
            match self.wanted() {
                Ok(Wanted::GetStatus { delay, pending }) => pending == self && pending.is_pending(),
                Ok(Wanted::ClearStatus { then }) => then.well_formed(),
                Ok(Wanted::Dfuse { payload, then }) => then.well_formed(),
                Ok(Wanted::DownloadChunk(progress)) => progress.well_formed() && !progress.eof
                    && self.progress() == Some(progress),
                Ok(Wanted::UsbReset) => self.progress() matches Some(progress) && progress.eof,
                Ok(Wanted::Break) => self is Finished || (self.progress() matches Some(progress)
                    && progress.eof),
                Err(_) => true,
            },
    {
        if let Some(progress) = self.progress() {
            progress.lemma_steps_keep_well_formed(0);
        }
    }

    /// A download is well formed after every status reply that it accepts.
    pub proof fn lemma_replied_keeps_well_formed(self, message: GetStatusMessage)
        requires
            self.well_formed(),
        ensures
            self.replied(message) matches Ok(next) ==> next.well_formed(),
    {
    }

    /// A download is well formed after every chunk that it accepts.
    pub proof fn lemma_sent_keeps_well_formed(progress: Progress, available: nat)
        requires
            progress.well_formed(),
        ensures
            Self::sent(progress, available) matches Ok(next) ==> next.well_formed(),
    {
        progress.lemma_steps_keep_well_formed(available);
    }

    /// Under DfuSe a chunk of firmware never goes out under block 0 or 1,
    /// which are reserved, and goes out only when pages were erased from
    /// the start address up to the end of the firmware and the address was
    /// set since.
    pub proof fn lemma_dfuse_chunk(self, progress: Progress)
        requires
            self.well_formed(),
            self.wanted() == Ok::<Wanted, Error>(Wanted::DownloadChunk(progress)),
            progress.protocol is Dfuse,
        ensures
            progress.block_num >= 2,
            progress.protocol->Dfuse_0.address <= progress.copied_pos,
            progress.protocol->Dfuse_0.erased_pos >= progress.end_pos,
            progress.protocol->Dfuse_0.address_set,
    {
        self.lemma_wanted_keeps_well_formed();
    }

    /// The wait that follows the empty chunk ends the download: once the
    /// device has reported the state waited for, nothing more is sent but,
    /// where the descriptor asks for it, a reset.
    pub proof fn lemma_nothing_after_the_empty_chunk(progress: Progress, message: GetStatusMessage)
        requires
            Self::sent(progress, 0) is Ok,
        ensures
            Self::sent(progress, 0)->Ok_0.is_pending(),
            Self::sent(progress, 0)->Ok_0.replied(message) matches Ok(next) ==> {
                ||| next.is_pending()
                ||| next.wanted() == Ok::<Wanted, Error>(Wanted::Break)
                ||| next.wanted() == Ok::<Wanted, Error>(Wanted::UsbReset)
            },
    {
    }

    /// The time to let pass before a status query during a wait is the
    /// timeout of the reply before it.
    pub proof fn lemma_delay_is_the_timeout(self, message: GetStatusMessage, next: Phase)
        requires
            self is Waiting,
            self.replied(message) == Ok::<Phase, Error>(next),
        ensures
            next.wanted() matches Ok(Wanted::GetStatus { delay, pending }) ==> delay
                == message.poll_timeout,
    {
    }
}

enum Stage<'dfu> {
    Opening(ClearStatus<GetStatus<Start<'dfu>>>),
    Clearing(Start<'dfu>),
    Starting(Start<'dfu>),
    Running(DownloadLoop<'dfu>),
    Waiting(WaitState<DownloadLoop<'dfu>>),
    Finished,
}

impl<'dfu> View for Stage<'dfu> {
    type V = Phase;

    closed spec fn view(&self) -> Phase {
        match self {
            Stage::Opening(clear) => Phase::Opening(clear.command().command()@),
            Stage::Clearing(start) => Phase::Clearing(start@),
            Stage::Starting(start) => Phase::Starting(start@),
            Stage::Running(download) => Phase::Running(download@),
            Stage::Waiting(wait) => Phase::Waiting(wait_of(wait@)),
            Stage::Finished => Phase::Finished,
        }
    }
}

/// A download, from its first status query to its end.
#[must_use]
pub struct Engine<'dfu> {
    stage: Stage<'dfu>,
}

impl<'dfu> View for Engine<'dfu> {
    type V = Phase;

    closed spec fn view(&self) -> Phase {
        self.stage@
    }
}

/// A status query that the engine has asked for.
#[must_use]
pub struct Query<'dfu> {
    stage: Stage<'dfu>,
}

impl<'dfu> View for Query<'dfu> {
    type V = Phase;

    closed spec fn view(&self) -> Phase {
        self.stage@
    }
}

/// A status query that was sent, and whose reply the engine awaits.
#[must_use]
pub struct Reply<'dfu> {
    stage: Stage<'dfu>,
}

impl<'dfu> View for Reply<'dfu> {
    type V = Phase;

    closed spec fn view(&self) -> Phase {
        self.stage@
    }
}

/// What the engine asks its driver to do.  Each command holds what the
/// download goes on with once it is carried out.
#[allow(inconsistent_fields)]
pub enum Command<'dfu> {
    /// Let `delay` milliseconds pass, then query the status of the device
    /// and chain the reply, which yields the engine to go on with.
    GetStatus { delay: u32, query: Query<'dfu> },
    /// Run this transfer, which clears the error state, then go on with
    /// `then`.
    ClearStatus { control: UsbWriteControl<[u8; 0]>, then: Engine<'dfu> },
    /// Run this transfer, which carries a DfuSe command, then go on with
    /// `then`.
    Dfuse { control: UsbWriteControl<[u8; 5]>, then: Engine<'dfu> },
    /// Hand the chunk and the next bytes of the firmware to
    /// [`Engine::send`], run the transfer that it yields, and go on with the
    /// engine that it yields.
    DownloadChunk(DownloadChunk<'dfu>),
    /// Reset the device over USB.  The download is over.
    UsbReset,
    /// The download is over.
    Break,
}

impl<'dfu> Command<'dfu> {
    /// What the command asks for.
    pub open spec fn wanted(self) -> Wanted {
        match self {
            Command::GetStatus { delay, query } => Wanted::GetStatus { delay, pending: query@ },
            Command::ClearStatus { control, then } => Wanted::ClearStatus { then: then@ },
            Command::Dfuse { control, then } => Wanted::Dfuse {
                payload: control.buffer,
                then: then@,
            },
            Command::DownloadChunk(chunk) => Wanted::DownloadChunk(chunk@),
            Command::UsbReset => Wanted::UsbReset,
            Command::Break => Wanted::Break,
        }
    }

    /// The transfer of a command is the one that the protocol has for it:
    /// the clearing of the status, or a download of block 0 for a DfuSe
    /// command; and a query is handed out only in a phase that awaits a
    /// reply.
    pub open spec fn well_formed(self) -> bool {
        match self {
            Command::GetStatus { delay, query } => query@.is_pending(),
            Command::ClearStatus { control, then } => is_clear_status(control),
            Command::Dfuse { control, then } => is_download(control, 0),
            _ => true,
        }
    }
}

impl<'dfu> Query<'dfu> {
    /// Query the status of the device: describes a control read of request
    /// `DFU_GETSTATUS` into `buffer`, which must have room for a reply.
    pub fn get_status<'a>(self, buffer: &'a mut [u8]) -> (query: (Reply<'dfu>, UsbReadControl<'a>))
        requires
            old(buffer)@.len() >= STATUS_LENGTH,
        ensures
            query.0@ == self@,
            is_status_query(query.1),
            query.1.buffer@ == old(buffer)@,
            final(buffer)@ == final(query.1.buffer)@,
    {
        (Reply { stage: self.stage }, status_query(buffer))
    }
}

impl<'dfu> Reply<'dfu> {
    /// Reads the reply of the device and goes on in the phase that follows
    /// it, see [`Phase::answered`].
    pub fn chain(self, bytes: &[u8]) -> (outcome: Result<Engine<'dfu>, Error>)
        ensures
            match outcome {
                Ok(engine) => self@.answered(bytes@) == Ok::<Phase, Error>(engine@),
                Err(error) => self@.answered(bytes@) == Err::<Phase, Error>(error),
            },
    {
        let message = match GetStatusMessage::from_bytes(bytes) {
            Ok(message) => message,
            Err(error) => {
                return Err(error);
            },
        };
        match self.stage {
            Stage::Opening(clear) => {
                let (query, control) = clear.chain(message);
                let start = query.into_command();
                match control {
                    Some(_) => Ok(Engine { stage: Stage::Clearing(start) }),
                    None => Ok(Engine { stage: Stage::Starting(start) }),
                }
            },
            Stage::Starting(start) => match start.chain(message) {
                Ok(download) => Ok(Engine { stage: Stage::Running(download) }),
                Err(error) => Err(error),
            },
            Stage::Waiting(wait) => match wait.chain(message) {
                Ok(wait) => Ok(Engine { stage: Stage::Waiting(wait) }),
                Err(error) => Err(error),
            },
            stage => Ok(Engine { stage }),
        }
    }
}

impl<'dfu> Engine<'dfu> {
    /// Begins a download of `length` bytes, of which the first read has
    /// yielded `available`.  A firmware without bytes is no download: the
    /// engine is finished at once, whatever the protocol and the length.
    /// Else the engine opens the download that [`DfuSansIo::download`]
    /// plans, and fails where that fails.
    pub fn start(
        dfu: &'dfu DfuSansIo,
        protocol: &'dfu DfuProtocol<MemoryLayout>,
        length: u32,
        available: usize,
    ) -> (outcome: Result<Self, Error>)
        ensures
            available == 0 ==> (outcome matches Ok(engine) && engine@ == Phase::Finished),
            available != 0 ==> match outcome {
                Ok(engine) => dfu.planned(protocol@, length) matches Ok(plan) && engine@
                    == Phase::Opening(plan) && plan.well_formed(),
                Err(error) => dfu.planned(protocol@, length) == Err::<Plan, Error>(error),
            },
    {
        if available == 0 {
            return Ok(Engine { stage: Stage::Finished });
        }
        match dfu.download(protocol, length) {
            Ok(command) => Ok(Engine { stage: Stage::Opening(command.into_command()) }),
            Err(error) => Err(error),
        }
    }

    /// Cuts the next chunk from `bytes` and describes the transfer that
    /// carries it, see [`DownloadChunk::download`]; the engine goes on with
    /// the wait for the device to work on it, see [`Phase::sent`].
    pub fn send<'data>(chunk: DownloadChunk<'dfu>, bytes: &'data [u8]) -> (outcome: Result<
        (UsbWriteControl<&'data [u8]>, Self),
        Error,
    >)
        ensures
            match outcome {
                Ok((control, engine)) => {
                    &&& Phase::sent(chunk@, bytes@.len()) == Ok::<Phase, Error>(engine@)
                    &&& is_download(control, chunk@.block_num)
                    &&& control.buffer@ == bytes@.take(chunk@.chunk_len(bytes@.len()) as int)
                    &&& control.buffer@.len() <= chunk@.descriptor.transfer_size
                },
                Err(error) => Phase::sent(chunk@, bytes@.len()) == Err::<Phase, Error>(error),
            },
    {
        match chunk.download(bytes) {
            Ok((wait, control)) => Ok((control, Engine { stage: Stage::Waiting(wait) })),
            Err(error) => Err(error),
        }
    }

    /// What a device that is ready is asked for.
    fn step(download: DownloadLoop<'dfu>) -> (outcome: Result<Command<'dfu>, Error>)
        ensures
            match outcome {
                Ok(command) => Phase::wanted_of(download@) == Ok::<Wanted, Error>(command.wanted())
                    && command.well_formed(),
                Err(error) => Phase::wanted_of(download@) == Err::<Wanted, Error>(error),
            },
    {
        match download.next() {
            Step::Break => Ok(Command::Break),
            Step::UsbReset => Ok(Command::UsbReset),
            Step::Erase(erase) => match erase.erase() {
                Ok((wait, control)) => Ok(
                    Command::Dfuse { control, then: Engine { stage: Stage::Waiting(wait) } },
                ),
                Err(error) => Err(error),
            },
            Step::SetAddress(set_address) => {
                let (wait, control) = set_address.set_address();
                Ok(Command::Dfuse { control, then: Engine { stage: Stage::Waiting(wait) } })
            },
            Step::DownloadChunk(chunk) => Ok(Command::DownloadChunk(chunk)),
        }
    }

    /// Names what to do next for the device, see [`Phase::wanted`].  Fails
    /// if and only if a page must be erased and cannot be.
    pub fn next(self) -> (outcome: Result<Command<'dfu>, Error>)
        ensures
            match outcome {
                Ok(command) => self@.wanted() == Ok::<Wanted, Error>(command.wanted())
                    && command.well_formed(),
                Err(error) => self@.wanted() == Err::<Wanted, Error>(error),
            },
    {
        match self.stage {
            Stage::Opening(clear) => Ok(
                Command::GetStatus {
                    delay: 0,
                    query: Query { stage: Stage::Opening(clear) },
                },
            ),
            Stage::Clearing(start) => Ok(
                Command::ClearStatus {
                    control: clear_status(),
                    then: Engine { stage: Stage::Starting(start) },
                },
            ),
            Stage::Starting(start) => Ok(
                Command::GetStatus {
                    delay: 0,
                    query: Query { stage: Stage::Starting(start) },
                },
            ),
            Stage::Running(download) => Self::step(download),
            Stage::Waiting(wait) => match wait.next() {
                crate::get_status::Step::Break(download) => Self::step(download),
                crate::get_status::Step::Wait(query, delay) => Ok(
                    Command::GetStatus {
                        delay,
                        query: Query { stage: Stage::Waiting(query.into_command()) },
                    },
                ),
            },
            Stage::Finished => Ok(Command::Break),
        }
    }
}

} // verus!
