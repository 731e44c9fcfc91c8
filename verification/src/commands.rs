//! The vendor command blocks the USB2642 bridge understands.
//!
//! Both transaction kinds travel as a fixed 16-byte block: one byte of
//! vendor opcode, one action code selecting the variant, addressing and
//! length metadata, and up to nine bytes of inline payload, right-padded
//! with zeroes. Payloads longer than nine bytes are a construction-time
//! failure, never a transport-time one.

use vstd::prelude::*;

verus! {

/// Vendor-specific SCSI opcode carried in every command block.
pub const USB2642_SCSI_OPCODE: u8 = 0xcf;

/// Action code selecting the write-stream command variant.
pub const USB2642_I2C_WRITE_STREAM: u8 = 0x23;

/// Action code selecting the write-read-stream command variant.
pub const USB2642_I2C_WRITE_READ_STREAM: u8 = 0x22;

/// The hardware protocol carries at most this many inline payload bytes
/// per transaction, in either direction.
pub const INLINE_PAYLOAD_LIMIT: usize = 9;

/// Size in bytes of each fixed-layout command block.
pub const COMMAND_BLOCK_LEN: u8 = 16;

/// The failure taxonomy of this transport layer.
///
/// `InvalidInput` is detected before any foreign call; `OpenFailure` and
/// `TransportFailure` are raised by the unverified shell when the device
/// node cannot be opened or the pass-through request itself fails.
#[derive(Clone, Copy, Debug, PartialEq, Eq, Structural)]
pub enum I2CError {
    /// A payload or requested read length exceeds the 9-byte inline limit.
    InvalidInput,
    /// The device node could not be opened.
    OpenFailure,
    /// The blocking pass-through request failed at the OS level.
    TransportFailure,
}

/// The 8-bit write address derived from a 7-bit slave address: shifted left
/// by one, leaving the read/write direction in the low bit.
pub open spec fn spec_write_address(i2c_addr: u8) -> u8 {
    i2c_addr << 1
}

/// A payload right-padded with zero bytes to the fixed inline buffer size.
pub open spec fn spec_padded_payload(p: Seq<u8>) -> Seq<u8>
    recommends
        p.len() <= INLINE_PAYLOAD_LIMIT,
{
    p + Seq::new((INLINE_PAYLOAD_LIMIT - p.len()) as nat, |i: int| 0u8)
}

/// Copies `data` into a fresh buffer of exactly `INLINE_PAYLOAD_LIMIT`
/// bytes, right-padded with zeroes.
fn padded_payload(data: &[u8]) -> (r: Vec<u8>)
    requires
        data@.len() <= INLINE_PAYLOAD_LIMIT,
    ensures
        r@ == spec_padded_payload(data@),
        r@.len() == INLINE_PAYLOAD_LIMIT,
{
    let mut out: Vec<u8> = Vec::new();
    let mut i: usize = 0;
    while i < data.len()
        invariant
            i <= data@.len(),
            data@.len() <= INLINE_PAYLOAD_LIMIT,
            out@.len() == i,
            forall|j: int| 0 <= j < i ==> out@[j] == data@[j],
        decreases data@.len() - i,
    {
        out.push(data[i]);
        i = i + 1;
    }
    while out.len() < INLINE_PAYLOAD_LIMIT
        invariant
            data@.len() <= out@.len() <= INLINE_PAYLOAD_LIMIT,
            forall|j: int| 0 <= j < data@.len() ==> out@[j] == data@[j],
            forall|j: int| data@.len() <= j < out@.len() ==> out@[j] == 0u8,
        decreases INLINE_PAYLOAD_LIMIT - out@.len(),
    {
        out.push(0u8);
    }
    proof {
        assert(out@ =~= spec_padded_payload(data@));
    }
    out
}

/// Marker for the two vendor command block variants; both occupy the same
/// fixed number of bytes on the wire.
pub trait USB2642I2CCommand {
    /// The byte size of this command block, as reported in the envelope's
    /// command-length field.
    fn command_block_len(&self) -> (n: u8)
        ensures
            n == COMMAND_BLOCK_LEN,
    ;
}

/// The write-read command block: a write phase of up to nine inline bytes
/// followed by a read phase of up to nine bytes returned via the envelope's
/// data buffer.
#[derive(Debug)]
pub struct USB2642I2CWriteReadCommand {
    /// Always `USB2642_SCSI_OPCODE`.
    pub scsi_vendor_command: u8,
    /// Always `USB2642_I2C_WRITE_READ_STREAM`.
    pub scsi_vendor_action_write_read_i2c: u8,
    /// The slave address shifted left by one (write direction).
    pub i2c_write_slave_address: u8,
    /// The write address plus one (read direction).
    pub i2c_read_slave_address: u8,
    /// High byte of the 16-bit read length.
    pub i2c_read_data_phase_length_high: u8,
    /// Low byte of the 16-bit read length.
    pub i2c_read_data_phase_length_low: u8,
    /// Number of meaningful bytes in the inline write payload.
    pub i2c_write_phase_length: u8,
    /// The inline write payload, zero-padded to the fixed buffer size.
    pub i2c_write_phase_payload: Vec<u8>,
}

impl USB2642I2CWriteReadCommand {
    /// The structural invariant of a well-formed write-read block.
    pub open spec fn wf(self) -> bool {
        &&& self.scsi_vendor_command == USB2642_SCSI_OPCODE
        &&& self.scsi_vendor_action_write_read_i2c == USB2642_I2C_WRITE_READ_STREAM
        &&& self.i2c_write_phase_length <= INLINE_PAYLOAD_LIMIT
        &&& self.i2c_write_phase_payload@.len() == INLINE_PAYLOAD_LIMIT
    }

    /// Encodes a write-then-read transaction. Succeeds exactly when both
    /// the write payload and the requested read length fit the 9-byte
    /// inline limit; on success every field of the block is pinned down.
    pub fn new(i2c_addr: u8, write_data: &[u8], read_len: usize) -> (r: Result<
        Self,
        I2CError,
    >)
        requires
            i2c_addr < 128,
        ensures
            r is Ok <==> (write_data@.len() <= INLINE_PAYLOAD_LIMIT && read_len
                <= INLINE_PAYLOAD_LIMIT),
            r matches Err(e) ==> e == I2CError::InvalidInput,
            r matches Ok(c) ==> {
                &&& c.wf()
                &&& c.i2c_write_slave_address == spec_write_address(i2c_addr)
                &&& c.i2c_write_slave_address == 2 * i2c_addr
                &&& c.i2c_read_slave_address == 2 * i2c_addr + 1
                &&& c.i2c_read_data_phase_length_high == 0
                &&& c.i2c_read_data_phase_length_low == read_len
                &&& c.i2c_write_phase_length == write_data@.len()
                &&& c.i2c_write_phase_payload@ == spec_padded_payload(write_data@)
            },
    {
        if read_len > INLINE_PAYLOAD_LIMIT {
            return Err(I2CError::InvalidInput);
        } else if write_data.len() > INLINE_PAYLOAD_LIMIT {
            return Err(I2CError::InvalidInput);
        }
        let i2c_write_addr: u8 = i2c_addr << 1;
        proof {
            assert(i2c_addr << 1 == 2 * i2c_addr) by (bit_vector)
                requires
                    i2c_addr < 128,
            ;
            assert((read_len >> 8) & 0xff == 0 && read_len & 0xff == read_len) by (bit_vector)
                requires
                    read_len <= 9,
            ;
        }
        let i2c_read_addr: u8 = i2c_write_addr + 1;
        let payload = padded_payload(write_data);
        Ok(
            USB2642I2CWriteReadCommand {
                scsi_vendor_command: USB2642_SCSI_OPCODE,
                scsi_vendor_action_write_read_i2c: USB2642_I2C_WRITE_READ_STREAM,
                i2c_write_slave_address: i2c_write_addr,
                i2c_read_slave_address: i2c_read_addr,
                i2c_read_data_phase_length_high: ((read_len >> 8) & 0xff) as u8,
                i2c_read_data_phase_length_low: (read_len & 0xff) as u8,
                i2c_write_phase_length: write_data.len() as u8,
                i2c_write_phase_payload: payload,
            },
        )
    }
}

impl USB2642I2CWriteReadCommand {
    /// Flattens the block into its 16 wire bytes, in the exact field order
    /// the bridge's firmware expects.
    pub fn wire_bytes(&self) -> (b: Vec<u8>)
        requires
            self.wf(),
        ensures
            b@.len() == COMMAND_BLOCK_LEN,
            b@[0] == self.scsi_vendor_command,
            b@[1] == self.scsi_vendor_action_write_read_i2c,
            b@[2] == self.i2c_write_slave_address,
            b@[3] == self.i2c_read_slave_address,
            b@[4] == self.i2c_read_data_phase_length_high,
            b@[5] == self.i2c_read_data_phase_length_low,
            b@[6] == self.i2c_write_phase_length,
            b@.subrange(7, 16) == self.i2c_write_phase_payload@,
    {
        let mut b: Vec<u8> = Vec::new();
        b.push(self.scsi_vendor_command);
        b.push(self.scsi_vendor_action_write_read_i2c);
        b.push(self.i2c_write_slave_address);
        b.push(self.i2c_read_slave_address);
        b.push(self.i2c_read_data_phase_length_high);
        b.push(self.i2c_read_data_phase_length_low);
        b.push(self.i2c_write_phase_length);
        let mut i: usize = 0;
        while i < INLINE_PAYLOAD_LIMIT
            invariant
                self.i2c_write_phase_payload@.len() == INLINE_PAYLOAD_LIMIT,
                i <= INLINE_PAYLOAD_LIMIT,
                b@.len() == 7 + i,
                b@[0] == self.scsi_vendor_command,
                b@[1] == self.scsi_vendor_action_write_read_i2c,
                b@[2] == self.i2c_write_slave_address,
                b@[3] == self.i2c_read_slave_address,
                b@[4] == self.i2c_read_data_phase_length_high,
                b@[5] == self.i2c_read_data_phase_length_low,
                b@[6] == self.i2c_write_phase_length,
                forall|j: int| 0 <= j < i ==> b@[7 + j] == self.i2c_write_phase_payload@[j],
            decreases INLINE_PAYLOAD_LIMIT - i,
        {
            b.push(self.i2c_write_phase_payload[i]);
            i = i + 1;
        }
        proof {
            assert(b@.subrange(7, 16) =~= self.i2c_write_phase_payload@);
        }
        b
    }
}

impl USB2642I2CCommand for USB2642I2CWriteReadCommand {
    fn command_block_len(&self) -> (n: u8) {
        COMMAND_BLOCK_LEN
    }
}

/// The write-only command block: addressing metadata plus up to nine bytes
/// of inline payload. Its explicit data-phase length bytes stay zero; the
/// transfer length is carried by the surrounding envelope instead.
#[derive(Debug)]
pub struct USB2642I2CWriteCommand {
    /// Always `USB2642_SCSI_OPCODE`.
    pub scsi_vendor_command: u8,
    /// Always `USB2642_I2C_WRITE_STREAM`.
    pub scsi_vendor_action_write_i2c: u8,
    /// The slave address shifted left by one (write direction).
    pub i2c_slave_address: u8,
    /// Reserved; always zero.
    pub i2c_unused: u8,
    /// High byte of the data-phase length; always zero for this variant.
    pub i2c_data_phase_length_high: u8,
    /// Low byte of the data-phase length; always zero for this variant.
    pub i2c_data_phase_length_low: u8,
    /// Number of meaningful bytes in the inline payload.
    pub i2c_command_phase_length: u8,
    /// The inline payload, zero-padded to the fixed buffer size.
    pub i2c_command_phase_payload: Vec<u8>,
}

impl USB2642I2CWriteCommand {
    /// The structural invariant of a well-formed write block.
    pub open spec fn wf(self) -> bool {
        &&& self.scsi_vendor_command == USB2642_SCSI_OPCODE
        &&& self.scsi_vendor_action_write_i2c == USB2642_I2C_WRITE_STREAM
        &&& self.i2c_unused == 0
        &&& self.i2c_data_phase_length_high == 0
        &&& self.i2c_data_phase_length_low == 0
        &&& self.i2c_command_phase_length <= INLINE_PAYLOAD_LIMIT
        &&& self.i2c_command_phase_payload@.len() == INLINE_PAYLOAD_LIMIT
    }

    /// Encodes a write-only transaction. Succeeds exactly when the payload
    /// fits the 9-byte inline limit; on success every field of the block is
    /// pinned down.
    pub fn new(i2c_addr: u8, write_data: &[u8]) -> (r: Result<Self, I2CError>)
        requires
            i2c_addr < 128,
        ensures
            r is Ok <==> write_data@.len() <= INLINE_PAYLOAD_LIMIT,
            r matches Err(e) ==> e == I2CError::InvalidInput,
            r matches Ok(c) ==> {
                &&& c.wf()
                &&& c.i2c_slave_address == spec_write_address(i2c_addr)
                &&& c.i2c_slave_address == 2 * i2c_addr
                &&& c.i2c_command_phase_length == write_data@.len()
                &&& c.i2c_command_phase_payload@ == spec_padded_payload(write_data@)
            },
    {
        if write_data.len() > INLINE_PAYLOAD_LIMIT {
            return Err(I2CError::InvalidInput);
        }
        let i2c_write_addr: u8 = i2c_addr << 1;
        proof {
            assert(i2c_addr << 1 == 2 * i2c_addr) by (bit_vector)
                requires
                    i2c_addr < 128,
            ;
        }
        let payload = padded_payload(write_data);
        Ok(
            USB2642I2CWriteCommand {
                scsi_vendor_command: USB2642_SCSI_OPCODE,
                scsi_vendor_action_write_i2c: USB2642_I2C_WRITE_STREAM,
                i2c_slave_address: i2c_write_addr,
                i2c_unused: 0,
                i2c_data_phase_length_high: 0u8,
                i2c_data_phase_length_low: 0u8,
                i2c_command_phase_length: write_data.len() as u8,
                i2c_command_phase_payload: payload,
            },
        )
    }
}

impl USB2642I2CWriteCommand {
    /// Flattens the block into its 16 wire bytes, in the exact field order
    /// the bridge's firmware expects.
    pub fn wire_bytes(&self) -> (b: Vec<u8>)
        requires
            self.wf(),
        ensures
            b@.len() == COMMAND_BLOCK_LEN,
            b@[0] == self.scsi_vendor_command,
            b@[1] == self.scsi_vendor_action_write_i2c,
            b@[2] == self.i2c_slave_address,
            b@[3] == self.i2c_unused,
            b@[4] == self.i2c_data_phase_length_high,
            b@[5] == self.i2c_data_phase_length_low,
            b@[6] == self.i2c_command_phase_length,
            b@.subrange(7, 16) == self.i2c_command_phase_payload@,
    {
        let mut b: Vec<u8> = Vec::new();
        b.push(self.scsi_vendor_command);
        b.push(self.scsi_vendor_action_write_i2c);
        b.push(self.i2c_slave_address);
        b.push(self.i2c_unused);
        b.push(self.i2c_data_phase_length_high);
        b.push(self.i2c_data_phase_length_low);
        b.push(self.i2c_command_phase_length);
        let mut i: usize = 0;
        while i < INLINE_PAYLOAD_LIMIT
            invariant
                self.i2c_command_phase_payload@.len() == INLINE_PAYLOAD_LIMIT,
                i <= INLINE_PAYLOAD_LIMIT,
                b@.len() == 7 + i,
                b@[0] == self.scsi_vendor_command,
                b@[1] == self.scsi_vendor_action_write_i2c,
                b@[2] == self.i2c_slave_address,
                b@[3] == self.i2c_unused,
                b@[4] == self.i2c_data_phase_length_high,
                b@[5] == self.i2c_data_phase_length_low,
                b@[6] == self.i2c_command_phase_length,
                forall|j: int| 0 <= j < i ==> b@[7 + j] == self.i2c_command_phase_payload@[j],
            decreases INLINE_PAYLOAD_LIMIT - i,
        {
            b.push(self.i2c_command_phase_payload[i]);
            i = i + 1;
        }
        proof {
            assert(b@.subrange(7, 16) =~= self.i2c_command_phase_payload@);
        }
        b
    }
}

impl USB2642I2CCommand for USB2642I2CWriteCommand {
    fn command_block_len(&self) -> (n: u8) {
        COMMAND_BLOCK_LEN
    }
}

/// Re-deriving the intended inputs from an encoded write block recovers
/// them exactly: the slave address comes back from the address field's high
/// seven bits, and the payload from the first `i2c_command_phase_length`
/// bytes of the inline buffer.
pub proof fn lemma_write_command_round_trip(
    i2c_addr: u8,
    data: Seq<u8>,
    c: USB2642I2CWriteCommand,
)
    requires
        i2c_addr < 128,
        data.len() <= INLINE_PAYLOAD_LIMIT,
        c.i2c_slave_address == spec_write_address(i2c_addr),
        c.i2c_command_phase_length == data.len(),
        c.i2c_command_phase_payload@ == spec_padded_payload(data),
    ensures
        c.i2c_slave_address >> 1 == i2c_addr,
        c.i2c_command_phase_payload@.subrange(0, c.i2c_command_phase_length as int) == data,
{
    let wa = c.i2c_slave_address;
    assert(wa >> 1 == i2c_addr) by (bit_vector)
        requires
            wa == i2c_addr << 1 && i2c_addr < 128,
    ;
    assert(c.i2c_command_phase_payload@.subrange(0, c.i2c_command_phase_length as int) =~= data);
}

/// Re-deriving the intended inputs from an encoded write-read block
/// recovers them exactly: the slave address comes back from either address
/// field, the read length from the big-endian pair of length bytes, and
/// the write payload from the first `i2c_write_phase_length` bytes of the
/// inline buffer.
pub proof fn lemma_write_read_command_round_trip(
    i2c_addr: u8,
    data: Seq<u8>,
    read_len: usize,
    c: USB2642I2CWriteReadCommand,
)
    requires
        i2c_addr < 128,
        data.len() <= INLINE_PAYLOAD_LIMIT,
        read_len <= INLINE_PAYLOAD_LIMIT,
        c.i2c_write_slave_address == spec_write_address(i2c_addr),
        c.i2c_read_slave_address == 2 * i2c_addr + 1,
        c.i2c_read_data_phase_length_high == 0,
        c.i2c_read_data_phase_length_low == read_len,
        c.i2c_write_phase_length == data.len(),
        c.i2c_write_phase_payload@ == spec_padded_payload(data),
    ensures
        c.i2c_write_slave_address >> 1 == i2c_addr,
        c.i2c_read_slave_address >> 1 == i2c_addr,
        c.i2c_read_data_phase_length_high * 256 + c.i2c_read_data_phase_length_low == read_len,
        c.i2c_write_phase_payload@.subrange(0, c.i2c_write_phase_length as int) == data,
{
    let wa = c.i2c_write_slave_address;
    let ra = c.i2c_read_slave_address;
    assert(wa >> 1 == i2c_addr && wa == 2 * i2c_addr) by (bit_vector)
        requires
            wa == i2c_addr << 1 && i2c_addr < 128,
    ;
    assert(ra >> 1 == i2c_addr) by (bit_vector)
        requires
            ra == 2 * i2c_addr + 1 && i2c_addr < 128,
    ;
    assert(c.i2c_write_phase_payload@.subrange(0, c.i2c_write_phase_length as int) =~= data);
}

} // verus!
