//! The request that asks a device to leave its application for DFU mode.

use crate::functional_descriptor::FunctionalDescriptor;
use crate::transfer::{UsbWriteControl, DFU_DETACH, REQUEST_TYPE_OUT};
use vstd::prelude::*;

verus! {

/// The detach request: a control write of request `DFU_DETACH` without
/// payload, whose value is the time in milliseconds that the device waits
/// for the reset that follows.
pub open spec fn is_detach(control: UsbWriteControl<[u8; 0]>, timeout: u16) -> bool {
    &&& control.request_type == REQUEST_TYPE_OUT
    &&& control.request == DFU_DETACH
    &&& control.value == timeout
}

/// Command that sends `dfuDETACH` to the device.
#[must_use]
pub struct Detach<T> {
    pub(crate) descriptor: FunctionalDescriptor,
    pub(crate) chained_command: T,
}

impl<T> Detach<T> {
    /// The functional descriptor of the device.
    pub closed spec fn descriptor(self) -> FunctionalDescriptor {
        self.descriptor
    }

    /// The command that follows.
    pub closed spec fn command(self) -> T {
        self.chained_command
    }

    /// Prepares a detach request for the device that `descriptor`
    /// describes, to be followed by `chained_command`.
    pub fn new(descriptor: FunctionalDescriptor, chained_command: T) -> (detach: Self)
        ensures
            detach.descriptor() == descriptor,
            detach.command() == chained_command,
    {
        Self { descriptor, chained_command }
    }

    /// Send the command `dfuDETACH` to the device, with the detach timeout
    /// of its descriptor.  The device answers by leaving the bus, so no
    /// status is asked for.
    pub fn detach(self) -> (request: (T, UsbWriteControl<[u8; 0]>))
        ensures
            request.0 == self.command(),
            is_detach(request.1, self.descriptor().detach_timeout),
    {
        let detach_timeout = self.descriptor.detach_timeout;
        let next = self.chained_command;
        let control = UsbWriteControl::new(REQUEST_TYPE_OUT, DFU_DETACH, detach_timeout, []);
        (next, control)
    }
}

} // verus!
