use brickpi3::frame::{
    read_16_request, read_16_response, read_32_request, read_32_response, read_vec_request,
    read_vec_response, send_array_request, send_read_array_request, send_read_array_response,
    write_8_request,
};
use brickpi3::{
    version_as_String, GetStringCmd, GetVoltageCmd, Ident, MotorPort, ReadU32Cmd, SPIError,
    SendArrayCmd, SendReadArrayCmd, SensorPort, WriteU8Cmd,
};

#[test]
fn send_array_frame_is_header_and_payload() {
    let data = vec![9u8, 8, 7];
    let f = send_array_request(1, SendArrayCmd::SetMotorLimits, &data).unwrap();
    assert_eq!(f, vec![1, 28, 9, 8, 7]);
    assert_eq!(f.len(), 2 + data.len());
}

#[test]
fn longest_send_array_fits() {
    let data = vec![0xAAu8; 27];
    let f = send_array_request(1, SendArrayCmd::SetMotorPower, &data).unwrap();
    assert_eq!(f.len(), 29);
    assert_eq!(&f[2..], &data[..]);
}

#[test]
fn send_array_over_capacity_is_refused() {
    let data = vec![0u8; 28];
    assert!(matches!(
        send_array_request(1, SendArrayCmd::SetMotorPower, &data),
        Err(SPIError::TooLongSPITransfer)
    ));
    assert!(matches!(
        send_read_array_request(1, SendReadArrayCmd::GetSensor1, &data),
        Err(SPIError::TooLongSPITransfer)
    ));
}

#[test]
fn read_vec_request_lengths() {
    let f = read_vec_request(1, GetStringCmd::GetName, 20).unwrap();
    assert_eq!(f.len(), 24);
    assert_eq!(f[0], 1);
    assert_eq!(f[1], 2);
    assert!(f[2..].iter().all(|b| *b == 0));
    assert!(read_vec_request(1, GetStringCmd::GetId, 25).is_ok());
    assert!(matches!(
        read_vec_request(1, GetStringCmd::GetId, 26),
        Err(SPIError::TooLongSPITransfer)
    ));
}

#[test]
fn fixed_shape_requests() {
    assert_eq!(read_32_request(1, ReadU32Cmd::GetFirmwareVersion), vec![1, 4, 0, 0, 0, 0, 0, 0]);
    assert_eq!(read_16_request(1, GetVoltageCmd::VoltBattery), vec![1, 10, 0, 0, 0, 0]);
    assert_eq!(write_8_request(1, WriteU8Cmd::SetLed, 0x42), vec![1, 6, 0x42]);
}

#[test]
fn read_32_assembles_big_endian() {
    let rx = vec![0, 0, 0, 0xA5, 0x00, 0x0F, 0xBF, 0x6D];
    assert_eq!(read_32_response(&rx).unwrap(), 1_032_045);
}

#[test]
fn read_16_assembles_big_endian() {
    let rx = vec![0, 0, 0, 0xA5, 0x1F, 0x40];
    assert_eq!(read_16_response(&rx).unwrap(), 8000);
}

#[test]
fn missing_ack_is_bad_response_for_every_checked_shape() {
    for marker in [0u8, 0x5A, 0xA4, 0xFF] {
        let rx8 = vec![0, 0, 0, marker, 1, 2, 3, 4];
        assert!(matches!(read_32_response(&rx8), Err(SPIError::BadResponse)));
        assert!(matches!(send_read_array_response(&rx8), Err(SPIError::BadResponse)));
        assert!(matches!(read_vec_response(&rx8, 4), Err(SPIError::BadResponse)));
        let rx6 = vec![0, 0, 0, marker, 1, 2];
        assert!(matches!(read_16_response(&rx6), Err(SPIError::BadResponse)));
    }
}

#[test]
fn payload_starts_after_the_marker() {
    let rx = vec![0, 0, 0, 0xA5, b'D', b'e', b'x', b'!'];
    assert_eq!(read_vec_response(&rx, 4).unwrap(), b"Dex!".to_vec());
    assert_eq!(send_read_array_response(&rx).unwrap(), b"Dex!".to_vec());
}

#[test]
fn version_renders_dotted() {
    assert_eq!(version_as_String(1_032_045), "1.32.45");
    assert_eq!(version_as_String(0), "0.0.0");
    assert_eq!(version_as_String(4_000_007), "4.0.7");
}

#[test]
fn ident_from_raw_names() {
    let id = Ident::from_parts(1_004_003, &b"Dexter Industries".to_vec(), &b"BrickPi3".to_vec());
    assert_eq!(id.manufacturer, "Dexter Industries");
    assert_eq!(id.board, "BrickPi3");
    assert_eq!(id.firmware, 1_004_003);
    let odd = Ident::from_parts(0, &vec![b'A', 0xFF], &vec![]);
    assert_eq!(odd.manufacturer, "A\u{FFFD}");
    assert_eq!(odd.board, "");
}

#[test]
fn port_masks_are_single_bits() {
    assert_eq!(SensorPort::Port1.as_bitfield(), 1);
    assert_eq!(SensorPort::Port2.as_bitfield(), 2);
    assert_eq!(SensorPort::Port3.as_bitfield(), 4);
    assert_eq!(SensorPort::Port4.as_bitfield(), 8);
    assert_eq!(MotorPort::PortA.as_bitfield(), 1);
    assert_eq!(MotorPort::PortB.as_bitfield(), 2);
    assert_eq!(MotorPort::PortC.as_bitfield(), 4);
    assert_eq!(MotorPort::PortD.as_bitfield(), 8);
}

#[test]
fn catalog_identifiers() {
    assert_eq!(GetStringCmd::GetManufacturer.id(), 1);
    assert_eq!(GetStringCmd::GetId.id(), 5);
    assert_eq!(SendReadArrayCmd::for_sensor(SensorPort::Port3).id(), 15);
    assert_eq!(SendReadArrayCmd::for_motor(MotorPort::PortD).id(), 37);
    assert_eq!(ReadU32Cmd::encoder(MotorPort::PortB).id(), 31);
    assert_eq!(SendArrayCmd::OffsetMotorEncoder.id(), 29);
}
