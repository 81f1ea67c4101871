//! The protocol variant of a device, and the interface string that tells it.

use crate::error::Error;
use crate::memory_layout::{layout_pages, Fault, MemoryLayout, MemoryPage};
use crate::text::{chars_of, find_last, last_index, parse_unsigned, unsigned};
use vstd::prelude::*;

verus! {

/// `bcdDFUVersion` of DFU 1.1, as (major, minor).
pub const VERSION_DFU: (u8, u8) = (0x01, 0x10);

/// `bcdDFUVersion` of DfuSe, as (major, minor).
pub const VERSION_DFUSE: (u8, u8) = (0x01, 0x1a);

/// The DFU protocol variant in use
pub enum DfuProtocol<M> {
    /// DFU 1.1
    Dfu,
    /// STM DFU extensions aka DfuSe
    Dfuse {
        /// Start memory address
        address: u32,
        /// Memory layout for flash
        memory_layout: M,
    },
}

impl<M: View> View for DfuProtocol<M> {
    type V = DfuProtocol<M::V>;

    open spec fn view(&self) -> DfuProtocol<M::V> {
        match self {
            DfuProtocol::Dfu => DfuProtocol::Dfu,
            DfuProtocol::Dfuse { address, memory_layout } => DfuProtocol::Dfuse {
                address: *address,
                memory_layout: memory_layout@,
            },
        }
    }
}

/// Why an interface string, or the version beside it, is refused.
pub enum Refusal {
    /// The version is neither that of DFU 1.1 nor that of DfuSe.
    UnknownProtocol,
    /// The string lacks one of the two `/` that part it.
    InvalidInterfaceString,
    /// The part behind the last `/` is no memory layout.
    MemoryLayout(Fault),
    /// The part between the last two `/` is no `0x` and a hexadecimal number.
    InvalidAddress,
}

/// The address that the text `0x` and a hexadecimal number of at most 32
/// bits stands for.
pub open spec fn address_value(text: Seq<char>) -> Option<u32> {
    if text.len() >= 2 && text[0] == '0' && text[1] == 'x' {
        unsigned(text.skip(2), 16)
    } else {
        None
    }
}

/// The protocol that a version and an interface string describe.  DFU 1.1
/// needs no string.  Under DfuSe the string is parted at its last two `/`:
/// behind the last stands the memory layout, before it the address.  The
/// layout is read first, so a bad layout is reported even where the second
/// `/` is missing.
pub open spec fn described(text: Seq<char>, version: (u8, u8)) -> Result<
    DfuProtocol<Seq<MemoryPage>>,
    Refusal,
> {
    if version == VERSION_DFU {
        Ok(DfuProtocol::Dfu)
    } else if version == VERSION_DFUSE {
        let slash = last_index(text, '/');
        if slash < 0 {
            Err(Refusal::InvalidInterfaceString)
        } else {
            let head = text.take(slash);
            match layout_pages(text.skip(slash + 1)) {
                Err(fault) => Err(Refusal::MemoryLayout(fault)),
                Ok(memory_layout) => {
                    let inner = last_index(head, '/');
                    if inner < 0 {
                        Err(Refusal::InvalidInterfaceString)
                    } else {
                        match address_value(head.skip(inner + 1)) {
                            None => Err(Refusal::InvalidAddress),
                            Some(address) => Ok(DfuProtocol::Dfuse { address, memory_layout }),
                        }
                    }
                },
            }
        }
    } else {
        Err(Refusal::UnknownProtocol)
    }
}

impl DfuProtocol<MemoryLayout> {
    /// Create a DFU Protocol object from the interface string and DFU version
    pub fn new(interface_string: &str, version: (u8, u8)) -> (outcome: Result<Self, Error>)
        ensures
            match outcome {
                Ok(protocol) => described(interface_string@, version) == Ok::<
                    DfuProtocol<Seq<MemoryPage>>,
                    Refusal,
                >(protocol@),
                Err(Error::UnknownProtocol) => described(interface_string@, version) == Err::<
                    DfuProtocol<Seq<MemoryPage>>,
                    Refusal,
                >(Refusal::UnknownProtocol),
                Err(Error::InvalidInterfaceString) => described(interface_string@, version)
                    == Err::<DfuProtocol<Seq<MemoryPage>>, Refusal>(
                    Refusal::InvalidInterfaceString,
                ),
                Err(Error::MemoryLayout(error)) => described(interface_string@, version) == Err::<
                    DfuProtocol<Seq<MemoryPage>>,
                    Refusal,
                >(Refusal::MemoryLayout(error@)),
                Err(Error::InvalidAddress) => described(interface_string@, version) == Err::<
                    DfuProtocol<Seq<MemoryPage>>,
                    Refusal,
                >(Refusal::InvalidAddress),
                Err(_) => false,
            },
    {
        if version.0 == 0x01 && version.1 == 0x10 {
            return Ok(DfuProtocol::Dfu);
        }
        if !(version.0 == 0x01 && version.1 == 0x1a) {
            return Err(Error::UnknownProtocol);
        }
        let text = chars_of(interface_string);
        let len = text.len();
        let slash = match find_last(text.as_slice(), 0, len, '/') {
            Some(slash) => slash,
            None => {
                assert(text@.subrange(0, len as int) =~= text@);
                return Err(Error::InvalidInterfaceString);
            },
        };
        assert(text@.subrange(0, len as int) =~= text@);
        let ghost head = text@.take(slash as int);
        assert(text@.subrange(slash + 1, len as int) =~= text@.skip(slash + 1));
        let memory_layout = match MemoryLayout::try_from(
            interface_string.substring_char(slash + 1, len),
        ) {
            Ok(memory_layout) => memory_layout,
            Err(error) => {
                return Err(Error::MemoryLayout(error));
            },
        };
        assert(text@.subrange(0, slash as int) =~= head);
        let inner = match find_last(text.as_slice(), 0, slash, '/') {
            Some(inner) => inner,
            None => {
                return Err(Error::InvalidInterfaceString);
            },
        };
        let ghost address_text = head.skip(inner + 1);
        assert(address_text =~= text@.subrange(inner + 1, slash as int));
        if slash - (inner + 1) < 2 || text[inner + 1] != '0' || text[inner + 2] != 'x' {
            return Err(Error::InvalidAddress);
        }
        assert(address_text.skip(2) =~= text@.subrange(inner + 3, slash as int));
        match parse_unsigned(text.as_slice(), inner + 3, slash, 16) {
            Some(address) => Ok(DfuProtocol::Dfuse { address, memory_layout }),
            None => Err(Error::InvalidAddress),
        }
    }
}

} // verus!
