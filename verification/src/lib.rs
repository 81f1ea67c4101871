//! Sans-I/O engine for USB Device Firmware Upgrade (DFU 1.1) and the DfuSe
//! extension.
//!
//! The engine never performs a transfer itself.  It hands out plain records
//! that describe the control transfers to run and consumes the bytes that
//! the device answered, so every decision it takes is a function of its
//! state and of those bytes.

pub mod buffer;
pub mod detach;
pub mod download;
pub mod engine;
pub mod error;
pub mod functional_descriptor;
pub mod get_status;
pub mod memory_layout;
pub mod protocol;
pub mod run;
pub mod sans_io;
pub mod state;
pub mod text;
pub mod transfer;
pub mod wire;

pub use error::Error;
pub use protocol::DfuProtocol;
pub use sans_io::DfuSansIo;
pub use state::{State, Status};
pub use transfer::{ChainedCommand, UsbReadControl, UsbWriteControl};
