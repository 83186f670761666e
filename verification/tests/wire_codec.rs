use tindeq::progressor::{
    decode_calibration_point, decode_opcode, device_id_from_text, device_id_or_default,
    to_le_bytes_without_trailing_zeros, ControlOpCode, DataPoint, DecodeError, ResponseCode,
    DATA_POINT_SIZE, MAX_PAYLOAD_SIZE,
};

const TABLE: [(u8, ControlOpCode); 10] = [
    (0x64, ControlOpCode::TareScale),
    (0x65, ControlOpCode::StartMeasurement),
    (0x66, ControlOpCode::StopMeasurement),
    (0x6B, ControlOpCode::GetAppVersion),
    (0x6E, ControlOpCode::Shutdown),
    (0x6F, ControlOpCode::SampleBattery),
    (0x70, ControlOpCode::GetProgressorId),
    (0x72, ControlOpCode::GetCalibration),
    (0x73, ControlOpCode::AddCalibrationPoint),
    (0x74, ControlOpCode::DefaultCalibration),
];

#[test]
fn every_listed_byte_decodes_to_its_command() {
    for (byte, op) in TABLE {
        assert_eq!(decode_opcode(byte), Ok(op));
        assert_eq!(op.code(), byte);
    }
}

#[test]
fn every_other_byte_is_an_unknown_opcode() {
    let mut unknown = 0;
    for byte in 0..=255u8 {
        if TABLE.iter().any(|(listed, _)| *listed == byte) {
            continue;
        }
        assert_eq!(decode_opcode(byte), Err(DecodeError::UnknownOpCode(byte)));
        unknown += 1;
    }
    assert_eq!(unknown, 246);
}

#[test]
fn unknown_opcode_is_not_taken_for_shutdown() {
    assert_eq!(decode_opcode(0x00), Err(DecodeError::UnknownOpCode(0x00)));
    assert_eq!(decode_opcode(0xFF), Err(DecodeError::UnknownOpCode(0xFF)));
    assert_eq!(decode_opcode(0x6E), Ok(ControlOpCode::Shutdown));
}

#[test]
fn calibration_weight_is_read_big_endian_from_offset_one() {
    let one = 1.0f32.to_be_bytes();
    let buffer = [0x73, one[0], one[1], one[2], one[3]];
    assert_eq!(decode_calibration_point(&buffer), Ok(1.0f32.to_bits()));
    assert_eq!(decode_calibration_point(&[0x73, 0x01, 0x02, 0x03, 0x04]), Ok(0x0102_0304));
    let weight = 12.5f32;
    let bytes = weight.to_be_bytes();
    let long = [0x73, bytes[0], bytes[1], bytes[2], bytes[3], 0xAA, 0xBB];
    let bits = decode_calibration_point(&long).unwrap();
    assert_eq!(f32::from_bits(bits), 12.5);
}

#[test]
fn calibration_payload_shorter_than_five_bytes_is_malformed() {
    assert_eq!(decode_calibration_point(&[]), Err(DecodeError::Malformed));
    assert_eq!(decode_calibration_point(&[0x73]), Err(DecodeError::Malformed));
    assert_eq!(decode_calibration_point(&[0x73, 1, 2, 3]), Err(DecodeError::Malformed));
}

#[test]
fn identifier_zero_is_exactly_one_zero_byte() {
    let bytes = to_le_bytes_without_trailing_zeros(0);
    assert_eq!(bytes.as_slice(), &[0u8]);
}

#[test]
fn identifier_bytes_are_little_endian_without_zero_at_the_top() {
    assert_eq!(to_le_bytes_without_trailing_zeros(1).as_slice(), &[1u8]);
    assert_eq!(to_le_bytes_without_trailing_zeros(255).as_slice(), &[255u8]);
    assert_eq!(to_le_bytes_without_trailing_zeros(256).as_slice(), &[0u8, 1]);
    assert_eq!(to_le_bytes_without_trailing_zeros(0x0102_0304).as_slice(), &[4u8, 3, 2, 1]);
    assert_eq!(to_le_bytes_without_trailing_zeros(0x0001_0000).as_slice(), &[0u8, 0, 1]);
    assert_eq!(
        to_le_bytes_without_trailing_zeros(u64::MAX).as_slice(),
        &[0xFFu8, 0xFF, 0xFF, 0xFF, 0xFF, 0xFF, 0xFF, 0xFF]
    );
    assert_eq!(
        to_le_bytes_without_trailing_zeros(1 << 56).as_slice(),
        &[0u8, 0, 0, 0, 0, 0, 0, 1]
    );
}

#[test]
fn identifier_bytes_read_back_as_the_identifier() {
    for id in [0u64, 1, 2639, 65_535, 65_536, 0xDEAD_BEEF, u64::MAX - 1] {
        let bytes = to_le_bytes_without_trailing_zeros(id);
        let slice = bytes.as_slice();
        assert!(!slice.is_empty());
        let mut wide = [0u8; 8];
        wide[..slice.len()].copy_from_slice(slice);
        assert_eq!(u64::from_le_bytes(wide), id);
        if id != 0 {
            assert_ne!(*slice.last().unwrap(), 0);
        }
    }
}

#[test]
fn battery_voltage_frame() {
    let frame = DataPoint::from(ResponseCode::SampleBatteryVoltage(3700));
    assert_eq!(frame.response_code(), 0x00);
    assert_eq!(frame.length(), 4);
    assert_eq!(frame.payload(), &3700u32.to_le_bytes());
    assert_eq!(frame.value(), [0x74, 0x0E, 0, 0, 0, 0, 0, 0, 0, 0, 0, 0]);
}

#[test]
fn weight_measurement_frame_round_trips() {
    let weight = 42.25f32;
    let frame = DataPoint::from(ResponseCode::WeightMeasurement(weight.to_bits(), 1_000_000));
    assert_eq!(frame.response_code(), 0x01);
    assert_eq!(frame.length(), 8);
    let payload = frame.payload();
    assert_eq!(f32::from_le_bytes([payload[0], payload[1], payload[2], payload[3]]), weight);
    assert_eq!(
        u32::from_le_bytes([payload[4], payload[5], payload[6], payload[7]]),
        1_000_000
    );
}

#[test]
fn low_power_warning_frame_has_no_payload() {
    let frame = DataPoint::from(ResponseCode::LowPowerWarning);
    assert_eq!(frame.response_code(), 0x04);
    assert_eq!(frame.length(), 0);
    assert!(frame.payload().is_empty());
    assert_eq!(frame.value(), [0u8; 12]);
}

#[test]
fn app_version_frame_carries_the_text() {
    let frame = DataPoint::from(ResponseCode::AppVersion(b"1.2.3"));
    assert_eq!(frame.response_code(), 0x00);
    assert_eq!(frame.length(), 5);
    assert_eq!(frame.payload(), b"1.2.3");
    let full = DataPoint::from(ResponseCode::AppVersion(b"123456789012"));
    assert_eq!(full.length() as usize, MAX_PAYLOAD_SIZE);
    assert_eq!(full.payload(), b"123456789012");
    let empty = DataPoint::from(ResponseCode::AppVersion(b""));
    assert_eq!(empty.length(), 0);
}

#[test]
fn progressor_id_zero_frame() {
    let frame = DataPoint::from(ResponseCode::ProgressorId(0));
    assert_eq!(frame.response_code(), 0x00);
    assert_eq!(frame.length(), 1);
    assert_eq!(frame.value()[0], 0);
}

#[test]
fn progressor_id_frame_covers_the_whole_identifier() {
    let frame = DataPoint::from(ResponseCode::ProgressorId(2639));
    assert_eq!(frame.length(), 2);
    assert_eq!(frame.payload(), &[0x4F, 0x0A]);
    let wide = DataPoint::from(ResponseCode::ProgressorId(u64::MAX));
    assert_eq!(wide.length(), 8);
    assert_eq!(wide.payload(), &[0xFFu8; 8]);
    assert_eq!(&wide.value()[8..], &[0u8; 4]);
}

#[test]
fn calibration_curve_frame_fills_the_payload_area() {
    let curve = [1u8, 2, 3, 4, 5, 6, 7, 8, 9, 10, 11, 12];
    let frame = DataPoint::from(ResponseCode::CalibrationCurve(curve));
    assert_eq!(frame.response_code(), 0x00);
    assert_eq!(frame.length(), 12);
    assert_eq!(frame.payload(), &curve);
}

#[test]
fn wire_image_is_code_length_then_payload_area() {
    let frame = DataPoint::from(ResponseCode::WeightMeasurement(1.0f32.to_bits(), 0x0102_0304));
    let wire = frame.to_bytes();
    assert_eq!(wire.len(), DATA_POINT_SIZE);
    assert_eq!(
        wire,
        [0x01, 8, 0x00, 0x00, 0x80, 0x3F, 0x04, 0x03, 0x02, 0x01, 0, 0, 0, 0]
    );
    assert_eq!(&wire[2..2 + wire[1] as usize], frame.payload());
}

#[test]
fn identifier_text_is_read_as_a_number_or_as_zero() {
    assert_eq!(device_id_from_text("2639"), 2639);
    assert_eq!(device_id_from_text("0"), 0);
    assert_eq!(device_id_from_text("18446744073709551615"), u64::MAX);
    assert_eq!(device_id_from_text("not a number"), 0);
    assert_eq!(device_id_from_text(""), 0);
    assert_eq!(device_id_from_text("18446744073709551616"), 0);
    assert_eq!(device_id_or_default(Some(7)), 7);
    assert_eq!(device_id_or_default(None), 0);
}
