//! Plain records of the control transfers that the engine asks for, and the
//! way one command leads to the next.

use vstd::prelude::*;

verus! {

/// `bmRequestType` of a class request to an interface, host to device.
pub const REQUEST_TYPE_OUT: u8 = 0b0010_0001;

/// `bmRequestType` of a class request to an interface, device to host.
pub const REQUEST_TYPE_IN: u8 = 0b1010_0001;

/// `bRequest` of DFU_DETACH.
pub const DFU_DETACH: u8 = 0;

/// `bRequest` of DFU_DNLOAD.
pub const DFU_DNLOAD: u8 = 1;

/// `bRequest` of DFU_GETSTATUS.
pub const DFU_GETSTATUS: u8 = 3;

/// `bRequest` of DFU_CLRSTATUS.
pub const DFU_CLRSTATUS: u8 = 4;

/// A command that, given an argument, turns into what follows it.
pub trait ChainedCommand: Sized {
    /// Type of the argument to pass with the command for chaining.
    type Arg;

    /// Type of the command after being chained.
    type Into;

    /// What [`ChainedCommand::chain`] hands back: `next` is a possible
    /// result of chaining `self` with `arg`.
    spec fn chains_into(self, arg: Self::Arg, next: Self::Into) -> bool;

    /// Chain this command into another.
    fn chain(self, arg: Self::Arg) -> (next: Self::Into)
        ensures
            self.chains_into(arg, next),
    ;
}

/// A pending control transfer from the host to the device.
#[must_use]
pub struct UsbWriteControl<D> {
    /// `bmRequestType`.
    pub request_type: u8,
    /// `bRequest`.
    pub request: u8,
    /// `wValue`.
    pub value: u16,
    /// The payload.
    pub buffer: D,
}

impl<D> UsbWriteControl<D> {
    /// Describes a control transfer to the device.
    pub fn new(request_type: u8, request: u8, value: u16, buffer: D) -> (control: Self)
        ensures
            control == (UsbWriteControl { request_type, request, value, buffer }),
    {
        Self { request_type, request, value, buffer }
    }
}

/// A pending control transfer from the device to the host.
#[must_use]
pub struct UsbReadControl<'a> {
    /// `bmRequestType`.
    pub request_type: u8,
    /// `bRequest`.
    pub request: u8,
    /// `wValue`.
    pub value: u16,
    /// Where the answer goes.
    pub buffer: &'a mut [u8],
}

impl<'a> UsbReadControl<'a> {
    /// Describes a control transfer from the device into `buffer`.
    pub fn new(request_type: u8, request: u8, value: u16, buffer: &'a mut [u8]) -> (control: Self)
        ensures
            control.request_type == request_type,
            control.request == request,
            control.value == value,
            control.buffer@ == old(buffer)@,
            final(buffer)@ == final(control.buffer)@,
    {
        Self { request_type, request, value, buffer }
    }
}

} // verus!
