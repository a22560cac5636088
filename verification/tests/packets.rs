use steady_rs::steady::packets::fields::{narrow_i16, read_i8, sign_extend_24};
use steady_rs::steady::packets::fluctus_packet::flight_status;
use steady_rs::{FlightStatus, FluctusPacket, FromBytes, RollingMessage, SteadyError};

fn payload(len: usize, tag: u8) -> Vec<u8> {
    let mut bytes = vec![0u8; len];
    if len > 34 {
        bytes[34] = tag;
    }
    bytes
}

#[test]
fn empty_payload_is_too_short() {
    assert_eq!(FluctusPacket::from_bytes(&[]), Err(SteadyError::PacketTooShort));
}

#[test]
fn payload_of_34_bytes_is_too_short() {
    assert_eq!(
        FluctusPacket::from_bytes(&payload(34, 0)),
        Err(SteadyError::PacketTooShort)
    );
}

#[test]
fn every_length_below_35_is_too_short() {
    for len in 0..35 {
        let mut bytes = vec![0x41u8; len];
        assert_eq!(
            FluctusPacket::from_bytes(&bytes),
            Err(SteadyError::PacketTooShort)
        );
        bytes.clear();
    }
}

#[test]
fn known_tag_needs_38_bytes() {
    for tag in [b'A', b'S', b'G'] {
        for len in 35..38 {
            assert_eq!(
                FluctusPacket::from_bytes(&payload(len, tag)),
                Err(SteadyError::PacketTooShortForVariant)
            );
        }
        assert!(FluctusPacket::from_bytes(&payload(38, tag)).is_ok());
    }
}

#[test]
fn unknown_tag_needs_35_bytes_only() {
    let packet = FluctusPacket::from_bytes(&payload(35, b'Z')).unwrap();
    assert_eq!(packet.rolling_message, RollingMessage::Unknown(b'Z', [0, 0, 0]));
    assert_eq!(packet.user_in1, None);
    assert_eq!(packet.user_in2, None);
}

#[test]
fn unknown_tag_does_not_keep_its_bytes() {
    let mut bytes = payload(38, 0x0E);
    bytes[35] = 0x53;
    bytes[36] = 0x12;
    bytes[37] = 0x34;
    let packet = FluctusPacket::from_bytes(&bytes).unwrap();
    assert_eq!(packet.rolling_message, RollingMessage::Unknown(0x0E, [0, 0, 0]));
}

#[test]
fn lower_case_tag_is_unknown() {
    let packet = FluctusPacket::from_bytes(&payload(35, b'a')).unwrap();
    assert_eq!(packet.rolling_message, RollingMessage::Unknown(b'a', [0, 0, 0]));
}

#[test]
fn user_inputs_come_with_42_bytes() {
    for len in 35..42 {
        let packet = FluctusPacket::from_bytes(&payload(len, 0)).unwrap();
        assert_eq!(packet.user_in1, None);
        assert_eq!(packet.user_in2, None);
    }
    for len in 42..48 {
        let mut bytes = payload(len, 0);
        bytes[38] = 0x34;
        bytes[39] = 0x12;
        bytes[40] = 0xFE;
        bytes[41] = 0xFF;
        let packet = FluctusPacket::from_bytes(&bytes).unwrap();
        assert_eq!(packet.user_in1, Some(0x1234));
        assert_eq!(packet.user_in2, Some(-2));
    }
}

#[test]
fn user_inputs_are_both_there_or_both_absent() {
    for len in 35..60 {
        let packet = FluctusPacket::from_bytes(&payload(len, 0)).unwrap();
        assert_eq!(packet.user_in1.is_some(), len >= 42);
        assert_eq!(packet.user_in1.is_some(), packet.user_in2.is_some());
    }
}

#[test]
fn payload_of_41_bytes_has_no_user_input() {
    let mut bytes = payload(41, b'A');
    bytes[38] = 1;
    bytes[39] = 1;
    bytes[40] = 1;
    let packet = FluctusPacket::from_bytes(&bytes).unwrap();
    assert_eq!(packet.user_in1, None);
    assert_eq!(packet.user_in2, None);
}

#[test]
fn every_field_is_read_from_its_offset() {
    let bytes: Vec<u8> = vec![
        0x34, 0x12, // uid
        0xCD, 0xAB, // firmware
        0x07, // receiver
        0x78, 0x56, 0x34, 0x12, // time of the MPU
        0x04, // status
        0xFF, 0xFF, 0xFF, // altitude
        0x00, 0x80, // vertical speed
        0xFF, 0x7F, // acceleration
        0xB4, // angle
        0x10, 0x27, // battery
        0xFF, 0xFF, // time
        0xA5, // pyro
        0x80, // log status
        0x00, 0x00, 0x00, 0x80, // latitude
        0xFF, 0xFF, 0xFF, 0x7F, // longitude
        0xFF, // gps state
        0x2A, // warning
        b'A', 0x01, 0x00, 0x80, // rolling message
        0x01, 0x00, 0x00, 0x80, // user inputs
    ];
    let packet = FluctusPacket::from_bytes(&bytes).unwrap();
    assert_eq!(
        packet,
        FluctusPacket {
            uid: 0x1234,
            fw: 0xABCD,
            rx: 7,
            time_mpu: 0x12345678,
            status: FlightStatus::Ascent,
            altitude: -1,
            speed_vert: i16::MIN,
            accel: i16::MAX,
            angle: 180,
            batt_voltage: 10000,
            time: -1,
            pyro_states: 0xA5,
            log_status: -128,
            gps_lat: i32::MIN,
            gps_lng: i32::MAX,
            gps_state: -1,
            warn_code: 42,
            rolling_message: RollingMessage::MaxAltitude(-8388607),
            user_in1: Some(1),
            user_in2: Some(i16::MIN),
        }
    );
}

#[test]
fn negative_time_of_the_mpu() {
    let mut bytes = payload(35, 0);
    bytes[5] = 0xFE;
    bytes[6] = 0xFF;
    bytes[7] = 0xFF;
    bytes[8] = 0xFF;
    assert_eq!(FluctusPacket::from_bytes(&bytes).unwrap().time_mpu, -2);
}

#[test]
fn altitude_is_sign_extended() {
    let mut bytes = payload(35, 0);
    bytes[10] = 0x00;
    bytes[11] = 0x00;
    bytes[12] = 0x80;
    assert_eq!(FluctusPacket::from_bytes(&bytes).unwrap().altitude, -8388608);
    bytes[10] = 0xFF;
    bytes[11] = 0xFF;
    bytes[12] = 0x7F;
    assert_eq!(FluctusPacket::from_bytes(&bytes).unwrap().altitude, 8388607);
    bytes[10] = 0x39;
    bytes[11] = 0x30;
    bytes[12] = 0x00;
    assert_eq!(FluctusPacket::from_bytes(&bytes).unwrap().altitude, 12345);
}

#[test]
fn max_altitude_message() {
    let mut bytes = payload(38, b'A');
    bytes[35] = 0x40;
    bytes[36] = 0xE2;
    bytes[37] = 0x01;
    assert_eq!(
        FluctusPacket::from_bytes(&bytes).unwrap().rolling_message,
        RollingMessage::MaxAltitude(123456)
    );
    bytes[35] = 0xC0;
    bytes[36] = 0x1D;
    bytes[37] = 0xFE;
    assert_eq!(
        FluctusPacket::from_bytes(&bytes).unwrap().rolling_message,
        RollingMessage::MaxAltitude(-123456)
    );
}

#[test]
fn max_speed_message_keeps_the_low_16_bits() {
    let mut bytes = payload(38, b'S');
    bytes[35] = 0x2C;
    bytes[36] = 0x01;
    bytes[37] = 0x00;
    assert_eq!(
        FluctusPacket::from_bytes(&bytes).unwrap().rolling_message,
        RollingMessage::MaxSpeedVert(300)
    );
    bytes[35] = 0xD4;
    bytes[36] = 0xFE;
    bytes[37] = 0xFF;
    assert_eq!(
        FluctusPacket::from_bytes(&bytes).unwrap().rolling_message,
        RollingMessage::MaxSpeedVert(-300)
    );
    bytes[35] = 0x00;
    bytes[36] = 0x80;
    bytes[37] = 0x00;
    assert_eq!(
        FluctusPacket::from_bytes(&bytes).unwrap().rolling_message,
        RollingMessage::MaxSpeedVert(i16::MIN)
    );
    bytes[35] = 0x01;
    bytes[36] = 0x00;
    bytes[37] = 0x80;
    assert_eq!(
        FluctusPacket::from_bytes(&bytes).unwrap().rolling_message,
        RollingMessage::MaxSpeedVert(1)
    );
}

#[test]
fn max_acceleration_message_keeps_the_low_16_bits() {
    let mut bytes = payload(38, b'G');
    bytes[35] = 0xE8;
    bytes[36] = 0x03;
    bytes[37] = 0x00;
    assert_eq!(
        FluctusPacket::from_bytes(&bytes).unwrap().rolling_message,
        RollingMessage::MaxAccelGlob(1000)
    );
    bytes[35] = 0xFF;
    bytes[36] = 0xFF;
    bytes[37] = 0xFF;
    assert_eq!(
        FluctusPacket::from_bytes(&bytes).unwrap().rolling_message,
        RollingMessage::MaxAccelGlob(-1)
    );
    bytes[35] = 0xFF;
    bytes[36] = 0xFF;
    bytes[37] = 0x00;
    assert_eq!(
        FluctusPacket::from_bytes(&bytes).unwrap().rolling_message,
        RollingMessage::MaxAccelGlob(-1)
    );
}

#[test]
fn status_codes() {
    assert_eq!(flight_status(0), FlightStatus::Idle);
    assert_eq!(flight_status(1), FlightStatus::Armed);
    assert_eq!(flight_status(2), FlightStatus::CountdownEngaged);
    assert_eq!(flight_status(3), FlightStatus::WaitingForLaunch);
    assert_eq!(flight_status(4), FlightStatus::Ascent);
    assert_eq!(flight_status(5), FlightStatus::Descent);
    assert_eq!(flight_status(6), FlightStatus::Touchdown);
    assert_eq!(flight_status(7), FlightStatus::Unknown(7));
    assert_eq!(flight_status(255), FlightStatus::Unknown(255));
}

#[test]
fn unknown_status_keeps_its_code() {
    let mut bytes = payload(35, 0);
    bytes[9] = 0x63;
    assert_eq!(
        FluctusPacket::from_bytes(&bytes).unwrap().status,
        FlightStatus::Unknown(0x63)
    );
}

#[test]
fn sign_extension_of_24_bits() {
    assert_eq!(sign_extend_24(0), 0);
    assert_eq!(sign_extend_24(1), 1);
    assert_eq!(sign_extend_24(0x7F_FFFF), 8388607);
    assert_eq!(sign_extend_24(0x80_0000), -8388608);
    assert_eq!(sign_extend_24(0x80_0001), 0x80_0001 - 0x100_0000);
    assert_eq!(sign_extend_24(0xFF_FFFF), -1);
}

#[test]
fn sign_extension_is_raw_minus_two_to_the_24() {
    let mut raw: i32 = 0;
    while raw < 0x100_0000 {
        let expected = if raw & 0x80_0000 != 0 { raw - 0x100_0000 } else { raw };
        assert_eq!(sign_extend_24(raw), expected);
        assert_eq!(sign_extend_24(raw) < 0, raw >= 0x80_0000);
        raw += 4099;
    }
}

#[test]
fn narrowing_keeps_the_low_16_bits() {
    assert_eq!(narrow_i16(0), 0);
    assert_eq!(narrow_i16(32767), 32767);
    assert_eq!(narrow_i16(32768), -32768);
    assert_eq!(narrow_i16(65535), -1);
    assert_eq!(narrow_i16(65536), 0);
    assert_eq!(narrow_i16(-1), -1);
    assert_eq!(narrow_i16(-32769), 32767);
    assert_eq!(narrow_i16(-8388608), 0);
}

#[test]
fn signed_bytes() {
    assert_eq!(read_i8(0), 0);
    assert_eq!(read_i8(127), 127);
    assert_eq!(read_i8(128), -128);
    assert_eq!(read_i8(255), -1);
}

#[test]
fn longer_payload_is_read_as_far_as_the_layout_goes() {
    let mut bytes = payload(100, b'A');
    bytes[35] = 5;
    bytes[99] = 0xFF;
    let packet = FluctusPacket::from_bytes(&bytes).unwrap();
    assert_eq!(packet.rolling_message, RollingMessage::MaxAltitude(5));
    assert_eq!(packet.user_in1, Some(0));
    assert_eq!(packet.user_in2, Some(0));
}
