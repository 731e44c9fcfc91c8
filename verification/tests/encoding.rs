use usb2642_i2c::I2CError;
use usb2642_i2c::USB2642I2CWriteCommand;
use usb2642_i2c::USB2642I2CWriteReadCommand;

#[test]
fn write_command_encodes_address_and_payload() {
    let data: Vec<u8> = vec![0x03, 0x0F];
    let c = USB2642I2CWriteCommand::new(0x41, &data).unwrap();
    assert_eq!(c.scsi_vendor_command, 0xCF);
    assert_eq!(c.scsi_vendor_action_write_i2c, 0x23);
    assert_eq!(c.i2c_slave_address, 0x82);
    assert_eq!(c.i2c_unused, 0);
    assert_eq!(c.i2c_data_phase_length_high, 0);
    assert_eq!(c.i2c_data_phase_length_low, 0);
    assert_eq!(c.i2c_command_phase_length, 2);
    assert_eq!(
        c.i2c_command_phase_payload,
        vec![0x03, 0x0F, 0, 0, 0, 0, 0, 0, 0]
    );
}

#[test]
fn write_command_shifts_every_address() {
    for addr in 0u8..128 {
        let data: Vec<u8> = vec![0xAA];
        let c = USB2642I2CWriteCommand::new(addr, &data).unwrap();
        assert_eq!(c.i2c_slave_address, addr << 1);
    }
}

#[test]
fn write_command_accepts_full_payload() {
    let data: Vec<u8> = vec![1, 2, 3, 4, 5, 6, 7, 8, 9];
    let c = USB2642I2CWriteCommand::new(0x12, &data).unwrap();
    assert_eq!(c.i2c_command_phase_length, 9);
    assert_eq!(c.i2c_command_phase_payload, data);
}

#[test]
fn write_command_rejects_oversized_payload() {
    let data: Vec<u8> = vec![0; 10];
    let r = USB2642I2CWriteCommand::new(0x12, &data);
    assert_eq!(r.unwrap_err(), I2CError::InvalidInput);
}

#[test]
fn write_command_accepts_empty_payload() {
    let data: Vec<u8> = vec![];
    let c = USB2642I2CWriteCommand::new(0x00, &data).unwrap();
    assert_eq!(c.i2c_slave_address, 0x00);
    assert_eq!(c.i2c_command_phase_length, 0);
    assert_eq!(c.i2c_command_phase_payload, vec![0; 9]);
}

#[test]
fn write_read_command_encodes_both_addresses_and_lengths() {
    let data: Vec<u8> = vec![0x01];
    let c = USB2642I2CWriteReadCommand::new(0x41, &data, 1).unwrap();
    assert_eq!(c.scsi_vendor_command, 0xCF);
    assert_eq!(c.scsi_vendor_action_write_read_i2c, 0x22);
    assert_eq!(c.i2c_write_slave_address, 0x82);
    assert_eq!(c.i2c_read_slave_address, 0x83);
    assert_eq!(c.i2c_read_data_phase_length_high, 0);
    assert_eq!(c.i2c_read_data_phase_length_low, 1);
    assert_eq!(c.i2c_write_phase_length, 1);
    assert_eq!(
        c.i2c_write_phase_payload,
        vec![0x01, 0, 0, 0, 0, 0, 0, 0, 0]
    );
}

#[test]
fn write_read_command_read_length_boundary() {
    let data: Vec<u8> = vec![0x01];
    let c = USB2642I2CWriteReadCommand::new(0x41, &data, 9).unwrap();
    assert_eq!(c.i2c_read_data_phase_length_high, 0);
    assert_eq!(c.i2c_read_data_phase_length_low, 9);
    let r = USB2642I2CWriteReadCommand::new(0x41, &data, 10);
    assert_eq!(r.unwrap_err(), I2CError::InvalidInput);
}

#[test]
fn write_read_command_rejects_oversized_payload() {
    let data: Vec<u8> = vec![0; 10];
    let r = USB2642I2CWriteReadCommand::new(0x41, &data, 1);
    assert_eq!(r.unwrap_err(), I2CError::InvalidInput);
}

#[test]
fn write_command_wire_bytes_follow_the_field_order() {
    let data: Vec<u8> = vec![0x03, 0x0F];
    let c = USB2642I2CWriteCommand::new(0x41, &data).unwrap();
    assert_eq!(
        c.wire_bytes(),
        vec![0xCF, 0x23, 0x82, 0, 0, 0, 2, 0x03, 0x0F, 0, 0, 0, 0, 0, 0, 0]
    );
}

#[test]
fn write_read_command_wire_bytes_follow_the_field_order() {
    let data: Vec<u8> = vec![0x01];
    let c = USB2642I2CWriteReadCommand::new(0x41, &data, 3).unwrap();
    assert_eq!(
        c.wire_bytes(),
        vec![0xCF, 0x22, 0x82, 0x83, 0, 3, 1, 0x01, 0, 0, 0, 0, 0, 0, 0, 0]
    );
}

#[test]
fn payload_boundary_nine_succeeds_ten_fails() {
    let nine: Vec<u8> = vec![7; 9];
    let ten: Vec<u8> = vec![7; 10];
    assert!(USB2642I2CWriteCommand::new(0x41, &nine).is_ok());
    assert!(USB2642I2CWriteCommand::new(0x41, &ten).is_err());
    assert!(USB2642I2CWriteReadCommand::new(0x41, &nine, 0).is_ok());
    assert!(USB2642I2CWriteReadCommand::new(0x41, &ten, 0).is_err());
}
