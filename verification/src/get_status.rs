//! Status queries: the reply of a device, the command that asks for it, the
//! clearing of an error, and the wait for a state.

use crate::error::Error;
use crate::state::{State, Status};
use crate::transfer::{
    ChainedCommand, UsbReadControl, UsbWriteControl, DFU_CLRSTATUS, DFU_GETSTATUS,
    REQUEST_TYPE_IN, REQUEST_TYPE_OUT,
};
use crate::wire::{get_u8, get_uint_le, lemma_le_value_of_three};
use vstd::prelude::*;

verus! {

/// Number of bytes in a status reply.
pub const STATUS_LENGTH: usize = 6;

/// Get status message.
pub struct GetStatusMessage {
    /// Status.
    pub status: Status,
    /// Poll timeout: the milliseconds to let pass before the next query.
    pub poll_timeout: u32,
    /// State, read as the state that the device entered by answering.
    pub state: State,
    /// Index of the string descriptor that describes the status.
    pub index: u8,
}

impl GetStatusMessage {
    /// The message that the first six bytes of a reply spell: the status,
    /// three bytes of timeout in little-endian order, the state (see
    /// [`State::settled`]) and the string index.
    pub open spec fn decoded(bytes: Seq<u8>) -> GetStatusMessage
        recommends
            bytes.len() >= STATUS_LENGTH,
    {
        GetStatusMessage {
            status: Status::from_code(bytes[0]),
            poll_timeout: (bytes[1] + 256 * bytes[2] + 65536 * bytes[3]) as u32,
            state: State::from_code(bytes[4]).settled(),
            index: bytes[5],
        }
    }

    /// Reads a status reply.  Fails on a reply of fewer than six bytes and on
    /// no other; bytes behind the sixth are ignored.  No status is treated
    /// as a failure here: the caller inspects it.
    pub fn from_bytes(bytes: &[u8]) -> (outcome: Result<GetStatusMessage, Error>)
        ensures
            bytes@.len() >= STATUS_LENGTH ==> outcome == Ok::<GetStatusMessage, Error>(
                Self::decoded(bytes@),
            ),
            bytes@.len() < STATUS_LENGTH ==> outcome == Err::<GetStatusMessage, Error>(
                Error::ResponseTooShort { got: bytes@.len() as usize, expected: STATUS_LENGTH },
            ),
    {
        if bytes.len() < STATUS_LENGTH {
            return Err(Error::ResponseTooShort { got: bytes.len(), expected: STATUS_LENGTH });
        }
        let (status, rest) = get_u8(bytes);
        let status = Status::from(status);
        let ghost behind_status = rest@;
        let (poll_timeout, rest) = get_uint_le(rest, 3);
        proof {
            lemma_le_value_of_three(behind_status.take(3));
        }
        let (state, rest) = get_u8(rest);
        let state = State::from(state).for_status();
        let (index, _) = get_u8(rest);

        Ok(GetStatusMessage { status, poll_timeout: poll_timeout as u32, state, index })
    }

    /// The timeout of a reply is a 24-bit number.
    pub proof fn lemma_poll_timeout_bound(bytes: Seq<u8>)
        requires
            bytes.len() >= STATUS_LENGTH,
        ensures
            Self::decoded(bytes).poll_timeout == bytes[1] + 256 * bytes[2] + 65536 * bytes[3],
            Self::decoded(bytes).poll_timeout < 0x100_0000,
    {
    }
}

/// The control read that asks for the status: request `DFU_GETSTATUS`,
/// value 0, from the device to the host.
pub open spec fn is_status_query(control: UsbReadControl) -> bool {
    &&& control.request_type == REQUEST_TYPE_IN
    &&& control.request == DFU_GETSTATUS
    &&& control.value == 0
}

/// Describes the transfer that reads the status of a device into `buffer`.
pub fn status_query<'a>(buffer: &'a mut [u8]) -> (control: UsbReadControl<'a>)
    ensures
        is_status_query(control),
        control.buffer@ == old(buffer)@,
        final(buffer)@ == final(control.buffer)@,
{
    UsbReadControl::new(REQUEST_TYPE_IN, DFU_GETSTATUS, 0, buffer)
}

/// Command that queries the status of the device.
#[must_use]
pub struct GetStatus<T: ChainedCommand<Arg = GetStatusMessage>> {
    chained_command: T,
}

impl<T: ChainedCommand<Arg = GetStatusMessage>> GetStatus<T> {
    /// The command that the reply will be handed to.
    pub closed spec fn command(self) -> T {
        self.chained_command
    }

    /// A status query whose reply goes to `chained_command`.
    pub(crate) fn new(chained_command: T) -> (query: Self)
        ensures
            query.command() == chained_command,
    {
        Self { chained_command }
    }

    /// Gives up the query for the command that its reply was meant for.
    pub(crate) fn into_command(self) -> (command: T)
        ensures
            command == self.command(),
    {
        self.chained_command
    }

    /// Query the status of the device: describes a control read of request
    /// `DFU_GETSTATUS` into `buffer`, which must have room for a reply.
    pub fn get_status<'a>(self, buffer: &'a mut [u8]) -> (query: (
        GetStatusRecv<T>,
        UsbReadControl<'a>,
    ))
        requires
            old(buffer)@.len() >= STATUS_LENGTH,
        ensures
            query.0.command() == self.command(),
            is_status_query(query.1),
            query.1.buffer@ == old(buffer)@,
            final(buffer)@ == final(query.1.buffer)@,
    {
        let next = GetStatusRecv { chained_command: self.chained_command };
        (next, status_query(buffer))
    }
}

/// Read status after getting it from the device.
#[must_use]
pub struct GetStatusRecv<T: ChainedCommand<Arg = GetStatusMessage>> {
    chained_command: T,
}

impl<T: ChainedCommand<Arg = GetStatusMessage>> GetStatusRecv<T> {
    /// The command that the reply will be handed to.
    pub closed spec fn command(self) -> T {
        self.chained_command
    }

    /// Chain this command into another: reads the reply and hands the
    /// message to the command that waits for it.  Fails on a reply of fewer
    /// than six bytes, and on no other.
    pub fn chain(self, bytes: &[u8]) -> (outcome: Result<T::Into, Error>)
        ensures
            match outcome {
                Ok(next) => bytes@.len() >= STATUS_LENGTH && self.command().chains_into(
                    GetStatusMessage::decoded(bytes@),
                    next,
                ),
                Err(error) => bytes@.len() < STATUS_LENGTH && error == (Error::ResponseTooShort {
                    got: bytes@.len() as usize,
                    expected: STATUS_LENGTH,
                }),
            },
    {
        match GetStatusMessage::from_bytes(bytes) {
            Ok(message) => Ok(self.chained_command.chain(message)),
            Err(error) => Err(error),
        }
    }
}

/// Command that clears the status of the device.
#[must_use]
pub struct ClearStatus<T> {
    chained_command: T,
}

impl<T> ClearStatus<T> {
    /// The command that follows.
    pub closed spec fn command(self) -> T {
        self.chained_command
    }

    /// The clearing of an error state, followed by `chained_command`.
    pub(crate) fn new(chained_command: T) -> (clear: Self)
        ensures
            clear.command() == chained_command,
    {
        Self { chained_command }
    }
}

/// The control write that clears an error: request `DFU_CLRSTATUS`, value 0,
/// no payload.
pub open spec fn is_clear_status(control: UsbWriteControl<[u8; 0]>) -> bool {
    &&& control.request_type == REQUEST_TYPE_OUT
    &&& control.request == DFU_CLRSTATUS
    &&& control.value == 0
}

/// Describes the transfer that clears the error state of a device.
pub fn clear_status() -> (control: UsbWriteControl<[u8; 0]>)
    ensures
        is_clear_status(control),
{
    UsbWriteControl::new(REQUEST_TYPE_OUT, DFU_CLRSTATUS, 0, [])
}

impl<T> ChainedCommand for ClearStatus<T> {
    type Arg = GetStatusMessage;

    type Into = (T, Option<UsbWriteControl<[u8; 0]>>);

    /// The command that follows is handed on as it is.  A transfer is
    /// asked for if and only if the device is in its error state.
    open spec fn chains_into(self, arg: GetStatusMessage, next: Self::Into) -> bool {
        &&& next.0 == self.command()
        &&& match next.1 {
            Some(control) => arg.state is DfuError && is_clear_status(control),
            None => !(arg.state is DfuError),
        }
    }

    /// Clear the status of the device.
    fn chain(self, arg: GetStatusMessage) -> (next: Self::Into) {
        let next = self.chained_command;
        if arg.state == State::DfuError {
            (next, Some(clear_status()))
        } else {
            (next, None)
        }
    }
}

/// Wait for the device to enter a specific state.
#[must_use]
pub struct WaitState<T> {
    intermediate: State,
    state: State,
    chained_command: T,
    end: bool,
    poll_timeout: u32,
}

/// What a [`WaitState`] holds.
pub struct Waiting<T> {
    /// The state that the device may report while it is busy.
    pub intermediate: State,
    /// The state that ends the wait.
    pub target: State,
    /// The command that follows the wait.
    pub command: T,
    /// Whether the device has reported the target state.
    pub reached: bool,
    /// The timeout of the last reply, 0 before the first.
    pub poll_timeout: u32,
}

impl<T> View for WaitState<T> {
    type V = Waiting<T>;

    closed spec fn view(&self) -> Waiting<T> {
        Waiting {
            intermediate: self.intermediate,
            target: self.state,
            command: self.chained_command,
            reached: self.end,
            poll_timeout: self.poll_timeout,
        }
    }
}

/// A step when waiting for a state.
pub enum Step<T> {
    /// The state has been reached: go on with the command.
    Break(T),
    /// The state has not been reached: let the given number of milliseconds
    /// pass, then query the status of the device.
    Wait(GetStatus<WaitState<T>>, u32),
}

impl<T> WaitState<T> {
    /// Create a new instance of [`WaitState`]: nothing was reported yet, and
    /// the first query needs no delay.
    pub fn new(intermediate: State, state: State, chained_command: T) -> (wait: Self)
        ensures
            wait@ == (Waiting {
                intermediate,
                target: state,
                command: chained_command,
                reached: false,
                poll_timeout: 0,
            }),
    {
        Self { intermediate, state, chained_command, end: false, poll_timeout: 0 }
    }

    /// Returns the next command after waiting for a state: the command that
    /// follows once the target was reported, else one more query, to be
    /// sent after exactly the timeout of the last reply.
    pub fn next(self) -> (step: Step<T>)
        ensures
            match step {
                Step::Break(command) => self@.reached && command == self@.command,
                Step::Wait(query, poll_timeout) => {
                    &&& !self@.reached
                    &&& query.command() == self
                    &&& poll_timeout == self@.poll_timeout
                },
            },
    {
        if self.end {
            Step::Break(self.chained_command)
        } else {
            let poll_timeout = self.poll_timeout;
            Step::Wait(GetStatus { chained_command: self }, poll_timeout)
        }
    }
}

impl<T> ChainedCommand for WaitState<T> {
    type Arg = GetStatusMessage;

    type Into = Result<WaitState<T>, Error>;

    /// The wait goes on if and only if the device reports the target or the
    /// intermediate state; it then remembers the timeout of the reply, and
    /// has ended if and only if the state is the target.  Any other state
    /// fails the wait.
    open spec fn chains_into(self, arg: GetStatusMessage, next: Self::Into) -> bool {
        match next {
            Ok(wait) => {
                &&& arg.state == self@.target || arg.state == self@.intermediate
                &&& wait@ == (Waiting {
                    reached: arg.state == self@.target,
                    poll_timeout: arg.poll_timeout,
                    ..self@
                })
            },
            Err(error) => {
                &&& arg.state != self@.target
                &&& arg.state != self@.intermediate
                &&& error == (Error::InvalidState {
                    got: arg.state,
                    expected: self@.intermediate,
                })
            },
        }
    }

    fn chain(self, arg: GetStatusMessage) -> (next: Self::Into) {
        let state = arg.state;
        if state == self.state || state == self.intermediate {
            Ok(
                WaitState {
                    chained_command: self.chained_command,
                    intermediate: self.intermediate,
                    state: self.state,
                    end: state == self.state,
                    poll_timeout: arg.poll_timeout,
                },
            )
        } else {
            Err(Error::InvalidState { got: state, expected: self.intermediate })
        }
    }
}

} // verus!
