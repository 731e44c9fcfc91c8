use usb2642_i2c::extract_read_data;
use usb2642_i2c::prepare_write;
use usb2642_i2c::prepare_write_read;
use usb2642_i2c::DataTransferDirection;
use usb2642_i2c::I2CError;
use usb2642_i2c::SgIoHdr;
use usb2642_i2c::USB2642I2CWriteCommand;

#[test]
fn direction_codes_match_the_facility() {
    assert_eq!(DataTransferDirection::ToDev.to_i32(), -2);
    assert_eq!(DataTransferDirection::FromDev.to_i32(), -3);
}

#[test]
fn envelope_carries_the_fixed_fields() {
    let data: Vec<u8> = vec![0x01];
    let command = USB2642I2CWriteCommand::new(0x41, &data).unwrap();
    let h = SgIoHdr::new(command, DataTransferDirection::ToDev, 5);
    assert_eq!(h.interface_id, 'S' as i32);
    assert_eq!(h.dxfer_direction, -2);
    assert_eq!(h.cmd_len, 16);
    assert_eq!(h.mx_sb_len, 64);
    assert_eq!(h.iovec_count, 0);
    assert_eq!(h.dxfer_len, 5);
    assert_eq!(h.timeout, 3000);
    assert_eq!(h.flags, 0);
    assert_eq!(h.pack_id, 0);
    assert_eq!(h.status, 0);
    assert_eq!(h.masked_status, 0);
    assert_eq!(h.msg_status, 0);
    assert_eq!(h.sb_len_wr, 0);
    assert_eq!(h.host_status, 0);
    assert_eq!(h.driver_status, 0);
    assert_eq!(h.resid, 0);
    assert_eq!(h.duration, 0);
    assert_eq!(h.info, 0);
}

// A stand-in for the foreign-call boundary: records whether it was reached
// and plays the device's role by filling the output scratch buffer.
struct FakeBridge {
    called: bool,
    reply: Vec<u8>,
}

impl FakeBridge {
    fn perform(&mut self, out_buffer: &mut [u8]) {
        self.called = true;
        for (i, b) in self.reply.iter().enumerate() {
            out_buffer[i] = *b;
        }
    }
}

#[test]
fn write_scenario_reaches_the_bridge_with_the_encoded_block() {
    let mut bridge = FakeBridge {
        called: false,
        reply: vec![],
    };
    let data: Vec<u8> = vec![0x03, 0x0F];
    let h = prepare_write(0x41, &data).unwrap();
    assert_eq!(h.dxfer_direction, -2);
    // The caller's payload is the transfer buffer of a write request.
    assert_eq!(h.dxfer_len, data.len() as u32);
    assert_eq!(h.command.i2c_slave_address, 0x82);
    assert_eq!(
        h.command.i2c_command_phase_payload,
        vec![0x03, 0x0F, 0, 0, 0, 0, 0, 0, 0]
    );
    let mut scratch = [0u8; 9];
    bridge.perform(&mut scratch);
    assert!(bridge.called);
}

#[test]
fn write_read_scenario_returns_what_the_bridge_placed() {
    let mut bridge = FakeBridge {
        called: false,
        reply: vec![0xAB],
    };
    let data: Vec<u8> = vec![0x01];
    let h = prepare_write_read(0x41, &data, 1).unwrap();
    assert_eq!(h.dxfer_direction, -3);
    assert_eq!(h.dxfer_len, 1);
    assert_eq!(h.command.i2c_read_slave_address, 0x83);
    let mut scratch = [0u8; 9];
    bridge.perform(&mut scratch);
    assert!(bridge.called);
    let result = extract_read_data(&scratch, 1);
    assert_eq!(result, vec![0xAB]);
}

#[test]
fn oversized_write_fails_before_the_bridge_is_reached() {
    let bridge = FakeBridge {
        called: false,
        reply: vec![],
    };
    let data: Vec<u8> = vec![0; 10];
    let r = prepare_write(0x41, &data);
    assert_eq!(r.unwrap_err(), I2CError::InvalidInput);
    // No envelope exists, so the boundary is never invoked.
    assert!(!bridge.called);
}

#[test]
fn oversized_write_read_fails_before_the_bridge_is_reached() {
    let bridge = FakeBridge {
        called: false,
        reply: vec![],
    };
    let data: Vec<u8> = vec![0x01];
    let r = prepare_write_read(0x41, &data, 10);
    assert_eq!(r.unwrap_err(), I2CError::InvalidInput);
    assert!(!bridge.called);
}

#[test]
fn extract_read_data_copies_exactly_the_prefix() {
    let scratch: [u8; 9] = [9, 8, 7, 6, 5, 4, 3, 2, 1];
    assert_eq!(extract_read_data(&scratch, 0), Vec::<u8>::new());
    assert_eq!(extract_read_data(&scratch, 3), vec![9, 8, 7]);
    assert_eq!(extract_read_data(&scratch, 9), vec![9, 8, 7, 6, 5, 4, 3, 2, 1]);
}
