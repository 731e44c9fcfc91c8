//! Transaction encoding for the USB2642 USB-to-I2C bridge controller.
//!
//! The bridge exposes itself as a generic SCSI device; I2C transactions are
//! tunneled inside vendor-specific SCSI command blocks handed to the host's
//! generic-SCSI pass-through facility. This crate builds those command blocks
//! and the pass-through request envelope, and proves the byte-level layout
//! and size invariants of both. Issuing the blocking device-control request
//! itself is left to a thin unverified shell around this crate.

use vstd::prelude::*;

mod commands;
mod sgio;

pub use commands::I2CError;
pub use commands::USB2642I2CCommand;
pub use commands::USB2642I2CWriteCommand;
pub use commands::USB2642I2CWriteReadCommand;
pub use commands::spec_padded_payload;
pub use commands::spec_write_address;
pub use commands::lemma_write_command_round_trip;
pub use commands::lemma_write_read_command_round_trip;
pub use commands::INLINE_PAYLOAD_LIMIT;
pub use commands::USB2642_SCSI_OPCODE;
pub use commands::USB2642_I2C_WRITE_STREAM;
pub use commands::USB2642_I2C_WRITE_READ_STREAM;

pub use sgio::DataTransferDirection;
pub use sgio::SgIoHdr;
pub use sgio::SG_INTERFACE_ID_ORIG;
pub use sgio::SG_IO;
pub use sgio::SG_TIMEOUT_MS;
pub use sgio::SENSE_BUFFER_LEN;
pub use sgio::prepare_write;
pub use sgio::prepare_write_read;
pub use sgio::extract_read_data;

verus! {

/// A 7-bit I2C slave address; the bridge's wire convention shifts it left by
/// one bit and keeps the read/write direction in the low bit.
pub type I2CAddress = u8;

} // verus!
