//! The DFU functional descriptor.

use crate::wire::{advance, get_u16_le, get_u8, lemma_le_value_of_two};
use vstd::prelude::*;

verus! {

/// Error when reading the functional descriptor.
#[derive(Debug)]
pub enum Error {
    /// The data is shorter than the nine bytes of a descriptor; holds the length found.
    DataTooShort(usize),
}

/// Functional descriptor.
#[derive(Debug, Copy, Clone)]
pub struct FunctionalDescriptor {
    /// bitCanDnload.
    ///
    /// Bit 0: download capable.
    pub can_download: bool,
    /// bitCanUpload.
    ///
    /// Bit 1: upload capable.
    pub can_upload: bool,
    /// bitManifestationTolerant.
    ///
    /// Bit 2: device is able to communicate via USB after Manifestation phase.
    pub manifestation_tolerant: bool,
    /// bitWillDetach.
    ///
    /// Bit 3: device will perform a bus detach-attach sequence when it receives a DFU_DETACH
    /// request. The host must not issue a USB Reset.
    pub will_detach: bool,
    /// wDetachTimeOut.
    ///
    /// Time, in milliseconds, that the device will wait after receipt of the DFU_DETACH request.
    pub detach_timeout: u16,
    /// wTransferSize.
    ///
    /// Maximum number of bytes that the device can accept per control-write transaction.
    pub transfer_size: u16,
    /// bcdDFUVersion, as (major, minor).
    pub dfu_version: (u8, u8),
}

impl FunctionalDescriptor {
    /// The descriptor that a block of at least nine bytes spells: the
    /// attribute bits of byte 2, the two little-endian words behind it, and
    /// the version with its minor part first.
    pub open spec fn decoded(bytes: Seq<u8>) -> FunctionalDescriptor
        recommends
            bytes.len() >= 9,
    {
        FunctionalDescriptor {
            can_download: bytes[2] & 0x01 > 0,
            can_upload: bytes[2] & 0x02 > 0,
            manifestation_tolerant: bytes[2] & 0x04 > 0,
            will_detach: bytes[2] & 0x08 > 0,
            detach_timeout: (bytes[3] + 256 * bytes[4]) as u16,
            transfer_size: (bytes[5] + 256 * bytes[6]) as u16,
            dfu_version: (bytes[8], bytes[7]),
        }
    }

    /// What a block of extra descriptor bytes holds: nothing where it is no
    /// functional descriptor (under two bytes, or a type other than `0x21`),
    /// a failure where it is one cut short, else the descriptor.
    pub open spec fn parsed(bytes: Seq<u8>) -> Option<Result<FunctionalDescriptor, Error>> {
        if bytes.len() < 2 || bytes[1] != 0x21 {
            None
        } else if bytes.len() < 9 {
            Some(Err(Error::DataTooShort(bytes.len() as usize)))
        } else {
            Some(Ok(Self::decoded(bytes)))
        }
    }

    /// A descriptor is usable for a download when a transfer can carry at
    /// least one byte.
    pub open spec fn well_formed(self) -> bool {
        self.transfer_size >= 1
    }

    /// Read functional descriptor from a slice of bytes.
    pub fn from_bytes(bytes: &[u8]) -> (found: Option<Result<Self, Error>>)
        ensures
            found == Self::parsed(bytes@),
    {
        let len = bytes.len();
        if len < 2 {
            return None;
        }
        let rest = advance(bytes, 1);
        let (descriptor_type, rest) = get_u8(rest);
        if descriptor_type != 0x21 {
            return None;
        }
        if len < 9 {
            return Some(Err(Error::DataTooShort(len)));
        }
        let (attributes, rest) = get_u8(rest);
        let can_download = attributes & 0x01 > 0;
        let can_upload = attributes & 0x02 > 0;
        let manifestation_tolerant = attributes & 0x04 > 0;
        let will_detach = attributes & 0x08 > 0;

        let ghost behind_attributes = rest@;
        let (detach_timeout, rest) = get_u16_le(rest);
        let ghost behind_timeout = rest@;
        let (transfer_size, rest) = get_u16_le(rest);
        let (minor, rest) = get_u8(rest);
        let (major, _) = get_u8(rest);
        proof {
            lemma_le_value_of_two(behind_attributes.take(2));
            lemma_le_value_of_two(behind_timeout.take(2));
        }

        Some(
            Ok(
                Self {
                    can_download,
                    can_upload,
                    manifestation_tolerant,
                    will_detach,
                    detach_timeout,
                    transfer_size,
                    dfu_version: (major, minor),
                },
            ),
        )
    }

    /// Parsing is total on every block of nine bytes or more whose second
    /// byte is `0x21`: it yields a descriptor.
    pub proof fn lemma_parsed_total(bytes: Seq<u8>)
        requires
            bytes.len() >= 9,
            bytes[1] == 0x21,
        ensures
            Self::parsed(bytes) == Some(Ok::<FunctionalDescriptor, Error>(Self::decoded(bytes))),
    {
    }
}

} // verus!
