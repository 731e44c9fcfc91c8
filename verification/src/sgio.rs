//! The generic-SCSI pass-through request envelope, and the verified halves
//! of the two transaction operations.
//!
//! The envelope modelled here carries everything the pass-through facility
//! needs except the raw buffer addresses: the unverified shell that issues
//! the blocking device-control request supplies pointers to the command
//! block, the data buffer and the sense scratch buffer at call time, from
//! stack storage that outlives the call.

use vstd::prelude::*;

use crate::commands::I2CError;
use crate::commands::INLINE_PAYLOAD_LIMIT;
use crate::commands::USB2642I2CCommand;
use crate::commands::USB2642I2CWriteCommand;
use crate::commands::USB2642I2CWriteReadCommand;
use crate::commands::COMMAND_BLOCK_LEN;
use crate::commands::spec_padded_payload;
use crate::commands::spec_write_address;

verus! {

/// Interface tag the pass-through facility requires: the ASCII value of
/// the letter `S`.
pub const SG_INTERFACE_ID_ORIG: u8 = 83;

/// The fixed device-control request code of the generic-SCSI pass-through.
pub const SG_IO: u32 = 0x2285;

/// Every transaction blocks for at most this many milliseconds.
pub const SG_TIMEOUT_MS: u32 = 3000;

/// Size of the zero-initialized sense scratch buffer handed to each call.
pub const SENSE_BUFFER_LEN: u8 = 64;

/// Direction of the data transfer of one pass-through request.
#[derive(Clone, Copy, Debug, PartialEq, Eq, Structural)]
pub enum DataTransferDirection {
    /// Data flows from the host to the device.
    ToDev,
    /// Data flows from the device to the host.
    FromDev,
}

impl DataTransferDirection {
    /// The numeric code the pass-through facility expects for this
    /// direction.
    pub open spec fn spec_code(self) -> i32 {
        match self {
            DataTransferDirection::ToDev => -2i32,
            DataTransferDirection::FromDev => -3i32,
        }
    }

    /// Converts the direction into the facility's numeric code.
    pub fn to_i32(&self) -> (r: i32)
        ensures
            r == self.spec_code(),
    {
        match self {
            DataTransferDirection::ToDev => -2,
            DataTransferDirection::FromDev => -3,
        }
    }
}

/// The pass-through request envelope, short of the three buffer addresses
/// the unverified shell fills in at call time.
///
/// Input fields are fixed by `new`; the output fields (status, residual
/// count, duration and their companions) start zeroed and are not
/// inspected by this design after the call.
#[derive(Debug)]
pub struct SgIoHdr<CMD: USB2642I2CCommand> {
    /// Interface tag; always the ASCII value `'S'`.
    pub interface_id: i32,
    /// Data transfer direction code.
    pub dxfer_direction: i32,
    /// Byte size of the embedded command block.
    pub cmd_len: u8,
    /// Capacity of the sense scratch buffer.
    pub mx_sb_len: u8,
    /// Zero: no scatter-gather list.
    pub iovec_count: u16,
    /// Byte count of the data transfer.
    pub dxfer_len: u32,
    /// The vendor command block this request carries.
    pub command: CMD,
    /// Timeout in milliseconds.
    pub timeout: u32,
    /// Request flags; always zero.
    pub flags: u32,
    /// Unused pack identifier; starts zero.
    pub pack_id: i32,
    /// SCSI status reported back; starts zero.
    pub status: u8,
    /// Shifted, masked SCSI status; starts zero.
    pub masked_status: u8,
    /// Messaging-level data; starts zero.
    pub msg_status: u8,
    /// Bytes actually written to the sense buffer; starts zero.
    pub sb_len_wr: u8,
    /// Host adapter errors; starts zero.
    pub host_status: u16,
    /// Software driver errors; starts zero.
    pub driver_status: u16,
    /// Requested length minus bytes actually transferred; starts zero.
    pub resid: i32,
    /// Time the request took, in milliseconds; starts zero.
    pub duration: u32,
    /// Auxiliary information; starts zero.
    pub info: u32,
}

impl<CMD: USB2642I2CCommand> SgIoHdr<CMD> {
    /// The structural invariant of a freshly built envelope: fixed tag,
    /// command length, sense capacity, timeout, and zeroed output fields.
    pub open spec fn wf(self) -> bool {
        &&& self.interface_id == SG_INTERFACE_ID_ORIG as i32
        &&& self.cmd_len == COMMAND_BLOCK_LEN
        &&& self.mx_sb_len == SENSE_BUFFER_LEN
        &&& self.iovec_count == 0
        &&& self.timeout == SG_TIMEOUT_MS
        &&& self.flags == 0
        &&& self.pack_id == 0
        &&& self.status == 0
        &&& self.masked_status == 0
        &&& self.msg_status == 0
        &&& self.sb_len_wr == 0
        &&& self.host_status == 0
        &&& self.driver_status == 0
        &&& self.resid == 0
        &&& self.duration == 0
        &&& self.info == 0
    }

    /// Wraps a command block into a pass-through envelope: pure structural
    /// composition, no validation and no foreign call.
    pub fn new(command: CMD, sg_dxfer: DataTransferDirection, data_len: usize) -> (r: Self)
        requires
            data_len <= u32::MAX,
        ensures
            r.wf(),
            r.dxfer_direction == sg_dxfer.spec_code(),
            r.dxfer_len == data_len,
            r.command == command,
    {
        SgIoHdr {
            interface_id: SG_INTERFACE_ID_ORIG as i32,
            dxfer_direction: sg_dxfer.to_i32(),
            cmd_len: command.command_block_len(),
            mx_sb_len: SENSE_BUFFER_LEN,
            iovec_count: 0,
            dxfer_len: data_len as u32,
            command,
            timeout: SG_TIMEOUT_MS,
            flags: 0,
            pack_id: 0,
            status: 0,
            masked_status: 0,
            msg_status: 0,
            sb_len_wr: 0,
            host_status: 0,
            driver_status: 0,
            resid: 0,
            duration: 0,
            info: 0,
        }
    }
}

/// The verified half of a write transaction: validate and encode the
/// command block, then wrap it in a to-device envelope that references the
/// caller's own payload as the transfer buffer, with transfer length equal
/// to the payload length — the command block carries only addressing
/// metadata, its data-phase length being implied by the envelope's
/// transfer length. Fails with `InvalidInput`, before any envelope exists,
/// exactly when the payload exceeds the inline limit.
pub fn prepare_write(i2c_addr: u8, data: &[u8]) -> (r: Result<
    SgIoHdr<USB2642I2CWriteCommand>,
    I2CError,
>)
    requires
        i2c_addr < 128,
    ensures
        r is Ok <==> data@.len() <= INLINE_PAYLOAD_LIMIT,
        r matches Err(e) ==> e == I2CError::InvalidInput,
        r matches Ok(h) ==> {
            &&& h.wf()
            &&& h.dxfer_direction == DataTransferDirection::ToDev.spec_code()
            &&& h.dxfer_len == data@.len()
            &&& h.command.wf()
            &&& h.command.i2c_slave_address == spec_write_address(i2c_addr)
            &&& h.command.i2c_slave_address == 2 * i2c_addr
            &&& h.command.i2c_command_phase_length == data@.len()
            &&& h.command.i2c_command_phase_payload@ == spec_padded_payload(data@)
        },
{
    let command = match USB2642I2CWriteCommand::new(i2c_addr, data) {
        Ok(c) => c,
        Err(e) => {
            return Err(e);
        },
    };
    Ok(SgIoHdr::new(command, DataTransferDirection::ToDev, data.len()))
}

/// The verified half of a write-read transaction: validate and encode the
/// command block, then wrap it in a from-device envelope whose transfer
/// length is the requested read length. Fails with `InvalidInput`, before
/// any envelope exists, exactly when the write payload or the read length
/// exceeds the inline limit.
pub fn prepare_write_read(i2c_addr: u8, data: &[u8], read_len: usize) -> (r: Result<
    SgIoHdr<USB2642I2CWriteReadCommand>,
    I2CError,
>)
    requires
        i2c_addr < 128,
    ensures
        r is Ok <==> (data@.len() <= INLINE_PAYLOAD_LIMIT && read_len <= INLINE_PAYLOAD_LIMIT),
        r matches Err(e) ==> e == I2CError::InvalidInput,
        r matches Ok(h) ==> {
            &&& h.wf()
            &&& h.dxfer_direction == DataTransferDirection::FromDev.spec_code()
            &&& h.dxfer_len == read_len
            &&& h.command.wf()
            &&& h.command.i2c_write_slave_address == spec_write_address(i2c_addr)
            &&& h.command.i2c_write_slave_address == 2 * i2c_addr
            &&& h.command.i2c_read_slave_address == 2 * i2c_addr + 1
            &&& h.command.i2c_read_data_phase_length_high == 0
            &&& h.command.i2c_read_data_phase_length_low == read_len
            &&& h.command.i2c_write_phase_length == data@.len()
            &&& h.command.i2c_write_phase_payload@ == spec_padded_payload(data@)
        },
{
    let command = match USB2642I2CWriteReadCommand::new(i2c_addr, data, read_len) {
        Ok(c) => c,
        Err(e) => {
            return Err(e);
        },
    };
    Ok(SgIoHdr::new(command, DataTransferDirection::FromDev, read_len))
}

/// The verified tail of a write-read transaction: copies the first
/// `read_len` bytes the device placed in the scratch output buffer into a
/// freshly owned result buffer.
pub fn extract_read_data(out_buffer: &[u8], read_len: usize) -> (r: Vec<u8>)
    requires
        read_len <= out_buffer@.len(),
    ensures
        r@ == out_buffer@.subrange(0, read_len as int),
{
    let mut result: Vec<u8> = Vec::new();
    let mut i: usize = 0;
    while i < read_len
        invariant
            i <= read_len,
            read_len <= out_buffer@.len(),
            result@.len() == i,
            forall|j: int| 0 <= j < i ==> result@[j] == out_buffer@[j],
        decreases read_len - i,
    {
        result.push(out_buffer[i]);
        i = i + 1;
    }
    proof {
        assert(result@ =~= out_buffer@.subrange(0, read_len as int));
    }
    result
}

} // verus!
