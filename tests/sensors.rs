use brickpi3::{
    decode_reading, remote_buttons, Board, SPIError, SensorConfigFlags, SensorData, SensorError,
    SensorPort, SensorType, BLUE_DOWN, BLUE_UP, BROADCAST, RED_DOWN, RED_UP,
};

/// A response as the board would send it: three filler bytes, the marker,
/// then `payload`.
fn answer(payload: &[u8]) -> Vec<u8> {
    let mut rx = vec![0u8, 0, 0, 0xA5];
    rx.extend_from_slice(payload);
    rx
}

fn configured(port: SensorPort, t: SensorType) -> Board {
    let mut b = Board::new();
    b.set_sensor_type(port, t, 0).unwrap();
    b
}

#[test]
fn long_range_ultrasonic_cm_reads_one_metre() {
    let b = configured(SensorPort::Port2, SensorType::Ev3UltrasonicCm);
    let tx = b.read_sensor_request(SensorPort::Port2).unwrap();
    assert_eq!(tx, vec![1, 14, 0, 0, 0, 0, 0, 0]);
    let rx = answer(&[23, 0, 0x03, 0xE8]);
    match b.read_sensor_response(SensorPort::Port2, &rx) {
        Ok(SensorData::UltrasonicDistance { micrometers }) => {
            assert_eq!(micrometers, 1_000_000);
            let meters = micrometers as f64 / 1_000_000.0;
            assert!((meters - 1.000).abs() < 1e-9);
        }
        other => panic!("unexpected {:?}", other),
    }
}

#[test]
fn inches_scale_is_kept() {
    let p = vec![24u8, 0, 0x00, 100];
    match decode_reading(SensorType::Ev3UltrasonicInches, &p) {
        Ok(SensorData::UltrasonicDistance { micrometers }) => assert_eq!(micrometers, 254_000),
        other => panic!("unexpected {:?}", other),
    }
}

#[test]
fn nxt_ultrasonic_is_centimetres() {
    let p = vec![14u8, 0, 0xFF];
    match decode_reading(SensorType::NxtUltrasonic, &p) {
        Ok(SensorData::UltrasonicDistance { micrometers }) => assert_eq!(micrometers, -10_000),
        other => panic!("unexpected {:?}", other),
    }
}

#[test]
fn generic_touch_accepts_concrete_touch_sensors() {
    for reported in [5u8, 6] {
        let p = vec![reported, 0, 1];
        assert!(matches!(
            decode_reading(SensorType::Touch, &p),
            Ok(SensorData::Touch { pressed: true })
        ));
    }
    let p = vec![4u8, 0, 0];
    assert!(matches!(
        decode_reading(SensorType::Touch, &p),
        Ok(SensorData::Touch { pressed: false })
    ));
}

#[test]
fn generic_touch_rejects_other_modes() {
    let p = vec![23u8, 0, 1];
    assert!(matches!(decode_reading(SensorType::Touch, &p), Err(SensorError::TypeMismatch)));
}

#[test]
fn concrete_touch_does_not_accept_generic() {
    let p = vec![4u8, 0, 1];
    assert!(matches!(decode_reading(SensorType::TouchEv3, &p), Err(SensorError::TypeMismatch)));
}

#[test]
fn mismatch_comes_before_status() {
    let p = vec![9u8, 3, 0, 0];
    assert!(matches!(decode_reading(SensorType::NxtLightOn, &p), Err(SensorError::TypeMismatch)));
}

#[test]
fn status_three_is_no_data() {
    let cases: Vec<(SensorType, Vec<u8>)> = vec![
        (SensorType::Touch, vec![4, 3, 1]),
        (SensorType::Ev3UltrasonicCm, vec![23, 3, 0x03, 0xE8]),
        (SensorType::Ev3GyroAbsDps, vec![17, 3, 1, 2, 3, 4]),
        (SensorType::Ev3InfraredRemote, vec![28, 3, 1, 2, 3, 4]),
    ];
    for (t, p) in cases {
        assert!(matches!(decode_reading(t, &p), Err(SensorError::NoData)));
    }
}

#[test]
fn each_status_code_has_its_fault() {
    let t = SensorType::Ev3ColorColor;
    assert!(matches!(decode_reading(t, &vec![20, 1, 0]), Err(SensorError::NotConfigured)));
    assert!(matches!(decode_reading(t, &vec![20, 2, 0]), Err(SensorError::Configuring)));
    assert!(matches!(decode_reading(t, &vec![20, 4, 0]), Err(SensorError::I2cError)));
    assert!(matches!(
        decode_reading(t, &vec![20, 9, 0]),
        Err(SensorError::UnknownStatusReported(9))
    ));
}

#[test]
fn unconfigured_port_is_refused_before_any_exchange() {
    let b = Board::new();
    assert!(matches!(b.read_sensor_request(SensorPort::Port1), Err(SensorError::NotConfigured)));
    assert_eq!(b.sensor_type(SensorPort::Port4), SensorType::NoSensor);
}

#[test]
fn undecoded_modes_are_not_implemented() {
    let mut b = Board::new();
    assert!(matches!(
        b.set_sensor_type(SensorPort::Port1, SensorType::I2c, 0),
        Err(SensorError::NotImplemented)
    ));
    assert_eq!(b.sensor_type(SensorPort::Port1), SensorType::NoSensor);
    for t in [SensorType::Ev3InfraredProximity, SensorType::Ev3InfraredSeek] {
        b.set_sensor_type(SensorPort::Port3, t, 0).unwrap();
        assert!(matches!(
            b.read_sensor_request(SensorPort::Port3),
            Err(SensorError::NotImplemented)
        ));
    }
}

#[test]
fn missing_ack_on_sensor_response_is_a_transport_fault() {
    let b = configured(SensorPort::Port1, SensorType::TouchEv3);
    let rx = vec![0, 0, 0, 0x00, 6, 0, 1];
    assert!(matches!(
        b.read_sensor_response(SensorPort::Port1, &rx),
        Err(SensorError::SPIError(SPIError::BadResponse))
    ));
}

#[test]
fn configuration_frames() {
    let mut b = Board::new();
    let f = b.set_sensor_type(SensorPort::Port3, SensorType::Ev3GyroAbs, 0xFFFF).unwrap();
    assert_eq!(f, vec![1, 12, 4, 15, 0, 0]);
    let flags = SensorConfigFlags::Pin1Pull.bits() | SensorConfigFlags::Report6Adc.bits();
    let f = b.set_sensor_type(SensorPort::Port4, SensorType::Custom, flags).unwrap();
    assert_eq!(f, vec![1, 12, 8, 3, 0x40, 0x02]);
    assert_eq!(b.sensor_type(SensorPort::Port3), SensorType::Ev3GyroAbs);
    assert_eq!(b.sensor_type(SensorPort::Port4), SensorType::Custom);
}

#[test]
fn request_lengths_follow_the_mode() {
    let cases = [
        (SensorType::Custom, 10usize),
        (SensorType::Touch, 7),
        (SensorType::NxtLightOn, 8),
        (SensorType::NxtColorFull, 12),
        (SensorType::Ev3GyroAbsDps, 10),
        (SensorType::Ev3ColorColorComponents, 14),
        (SensorType::Ev3InfraredRemote, 10),
    ];
    for (t, len) in cases {
        let b = configured(SensorPort::Port1, t);
        let tx = b.read_sensor_request(SensorPort::Port1).unwrap();
        assert_eq!(tx.len(), len);
        assert_eq!(tx[1], 13);
        assert_eq!(t.transfer_len(), len);
    }
}

#[test]
fn custom_fields() {
    let p = vec![3u8, 0, 0b10, 0xAB, 0xCD, 0xEF];
    match decode_reading(SensorType::Custom, &p) {
        Ok(SensorData::Custom { adc1, adc6, pin5, pin6 }) => {
            assert_eq!(adc1, 0xDEF);
            assert_eq!(adc6, 0xABC);
            assert!(!pin5);
            assert!(pin6);
        }
        other => panic!("unexpected {:?}", other),
    }
}

#[test]
fn full_color_packs_two_extra_bits() {
    let p = vec![12u8, 0, 0xFE, 0x10, 0x20, 0x30, 0x40, 0b11_10_01_00];
    match decode_reading(SensorType::NxtColorFull, &p) {
        Ok(SensorData::Color { color, red, green, blue, ambient }) => {
            assert_eq!(color, -2);
            assert_eq!(red, 0x40 | 3);
            assert_eq!(green, 0x80 | 2);
            assert_eq!(blue, 0xC0 | 1);
            assert_eq!(ambient, 0x100);
        }
        other => panic!("unexpected {:?}", other),
    }
}

#[test]
fn color_components_are_big_endian() {
    let p = vec![22u8, 0, 0x01, 0x02, 0x03, 0x04, 0xFF, 0xFE, 0, 0];
    match decode_reading(SensorType::Ev3ColorColorComponents, &p) {
        Ok(SensorData::Color { color, red, green, blue, ambient }) => {
            assert_eq!((color, red, green, blue, ambient), (0, 0x0102, 0x0304, -2, 0));
        }
        other => panic!("unexpected {:?}", other),
    }
}

#[test]
fn single_channel_colors() {
    let p = vec![10u8, 0, 0x01, 0x00];
    match decode_reading(SensorType::NxtColorGreen, &p) {
        Ok(SensorData::Color { color, red, green, blue, ambient }) => {
            assert_eq!((color, red, green, blue, ambient), (0, 0, 256, 0, 0));
        }
        other => panic!("unexpected {:?}", other),
    }
    let p = vec![19u8, 0, 0xF0];
    match decode_reading(SensorType::Ev3ColorAmbient, &p) {
        Ok(SensorData::Color { ambient, red, .. }) => assert_eq!((ambient, red), (-16, 0)),
        other => panic!("unexpected {:?}", other),
    }
    let p = vec![18u8, 0, 42];
    match decode_reading(SensorType::Ev3ColorReflected, &p) {
        Ok(SensorData::Color { red, ambient, .. }) => assert_eq!((red, ambient), (42, 0)),
        other => panic!("unexpected {:?}", other),
    }
}

#[test]
fn light_is_unsigned_brightness() {
    let p = vec![7u8, 0, 0xFF, 0x00];
    assert!(matches!(
        decode_reading(SensorType::NxtLightOn, &p),
        Ok(SensorData::LightReflected { brightness: 0xFF00 })
    ));
    let p = vec![8u8, 0, 0x00, 0x10];
    assert!(matches!(
        decode_reading(SensorType::NxtLightOff, &p),
        Ok(SensorData::LightAmbient { brightness: 16 })
    ));
}

#[test]
fn gyro_fields() {
    let p = vec![17u8, 0, 0xFF, 0xFF, 0x00, 0x5A];
    assert!(matches!(
        decode_reading(SensorType::Ev3GyroAbsDps, &p),
        Ok(SensorData::Gyro { abs: -1, dps: 90 })
    ));
    let p = vec![16u8, 0, 0x00, 0x07];
    assert!(matches!(
        decode_reading(SensorType::Ev3GyroDps, &p),
        Ok(SensorData::Gyro { abs: 0, dps: 7 })
    ));
}

#[test]
fn ultrasonic_listen_presence() {
    assert!(matches!(
        decode_reading(SensorType::Ev3UltrasonicListen, &vec![25, 0, 1]),
        Ok(SensorData::UltrasonicPresence { presence: true })
    ));
    assert!(matches!(
        decode_reading(SensorType::Ev3UltrasonicListen, &vec![25, 0, 0]),
        Ok(SensorData::UltrasonicPresence { presence: false })
    ));
}

#[test]
fn remote_code_table() {
    assert_eq!(remote_buttons(9).bits(), BROADCAST);
    assert_eq!(remote_buttons(5).bits(), RED_UP | BLUE_UP);
    assert!(remote_buttons(5).contains(RED_UP));
    assert!(remote_buttons(5).contains(BLUE_UP));
    assert!(!remote_buttons(5).contains(RED_DOWN));
    assert!(remote_buttons(12).is_empty());
    assert!(remote_buttons(0).is_empty());
    assert_eq!(remote_buttons(1).bits(), RED_UP);
    assert_eq!(remote_buttons(4).bits(), BLUE_DOWN);
    assert_eq!(remote_buttons(8).bits(), RED_DOWN | BLUE_DOWN);
    assert_eq!(remote_buttons(10).bits(), RED_UP | RED_DOWN);
    assert_eq!(remote_buttons(11).bits(), BLUE_UP | BLUE_DOWN);
}

#[test]
fn remote_reading_maps_each_channel() {
    let p = vec![28u8, 0, 9, 5, 12, 0];
    match decode_reading(SensorType::Ev3InfraredRemote, &p) {
        Ok(SensorData::InfraredRemote { remote }) => {
            let bits: Vec<u8> = remote.iter().map(|b| b.bits()).collect();
            assert_eq!(bits, vec![BROADCAST, RED_UP | BLUE_UP, 0, 0]);
        }
        other => panic!("unexpected {:?}", other),
    }
}
