use linuxblaster_control::codec::{
    decode_response, encode_global_profile_read, encode_global_profile_write, encode_output_read,
    encode_output_write, encode_read, encode_write, percent_to_bits, value_to_bytes, Response, Route,
};

#[test]
fn test_value_to_bytes() {
    assert_eq!(value_to_bytes(0), 0.0f32.to_le_bytes());
    assert_eq!(value_to_bytes(100), 1.0f32.to_le_bytes());
    assert_eq!(value_to_bytes(50), 0.5f32.to_le_bytes());
}

#[test]
fn test_payload_edge_cases() {
    for v in 0..=255u8 {
        assert_eq!(value_to_bytes(v), (v as f32 / 100.0).to_le_bytes(), "value {}", v);
        assert_eq!(percent_to_bits(v), (v as f32 / 100.0).to_bits(), "value {}", v);
    }
}

#[test]
fn test_payload_creation() {
    let feature_id = 0x07;
    let value = 0.5f32;
    let value_bytes = value.to_le_bytes();

    let data = encode_write(0x96, feature_id, value.to_bits());
    let commit = encode_read(0x96, feature_id);

    assert_eq!(data.len(), 65);
    assert_eq!(commit.len(), 65);

    assert_eq!(data[0], 0x00);
    assert_eq!(data[1], 0x5a);
    assert_eq!(data[2], 0x12);
    assert_eq!(data[3], 0x07);
    assert_eq!(data[4], 0x01);
    assert_eq!(data[5], 0x96);
    assert_eq!(data[6], feature_id);
    assert_eq!(data[7..11], value_bytes);

    assert_eq!(commit[0], 0x00);
    assert_eq!(commit[1], 0x5a);
    assert_eq!(commit[2], 0x11);
    assert_eq!(commit[3], 0x03);
    assert_eq!(commit[4], 0x01);
    assert_eq!(commit[5], 0x96);
    assert_eq!(commit[6], feature_id);
}

#[test]
fn test_create_payload_normalization() {
    let feature_id = 0x07;
    let value = 50u8;
    let payload = encode_write(0x96, feature_id, percent_to_bits(value));
    let expected_bytes = 0.5f32.to_le_bytes();
    assert_eq!(payload[7..11], expected_bytes);
}

#[test]
fn test_nightmode_loudmode_payloads() {
    let feature_id = 0x06;
    let nightmode_payload = encode_write(0x96, feature_id, percent_to_bits(200));
    assert_eq!(nightmode_payload[7..11], 2.0f32.to_le_bytes());
    let loudmode_payload = encode_write(0x96, feature_id, percent_to_bits(100));
    assert_eq!(loudmode_payload[7..11], 1.0f32.to_le_bytes());
    let disable_payload = encode_write(0x96, feature_id, percent_to_bits(0));
    assert_eq!(disable_payload[7..11], 0.0f32.to_le_bytes());
}

#[test]
fn test_set_slider_feature_id_offset() {
    let base_feature_id = 0x07;
    let slider_feature_id = base_feature_id + 1;
    let data = encode_write(0x96, slider_feature_id, percent_to_bits(75));
    let commit = encode_read(0x96, slider_feature_id);
    assert_eq!(data[6], slider_feature_id);
    assert_eq!(commit[6], slider_feature_id);
}

#[test]
fn test_eq_band_db_clamping() {
    let feature_id = 0x0b;

    let clamped_below = (-15.0f32).clamp(-12.0, 12.0);
    assert_eq!(clamped_below, -12.0);
    let payload_below = encode_write(0x96, feature_id, clamped_below.to_bits());
    assert_eq!(payload_below[7..11], (-12.0f32).to_le_bytes());

    let clamped_above = 15.0f32.clamp(-12.0, 12.0);
    assert_eq!(clamped_above, 12.0);
    let payload_above = encode_write(0x96, feature_id, clamped_above.to_bits());
    assert_eq!(payload_above[7..11], 12.0f32.to_le_bytes());

    let clamped_in_range = 5.5f32.clamp(-12.0, 12.0);
    assert_eq!(clamped_in_range, 5.5);
    let payload_in_range = encode_write(0x96, feature_id, clamped_in_range.to_bits());
    assert_eq!(payload_in_range[7..11], 5.5f32.to_le_bytes());
}

#[test]
fn write_echo_round_trip_is_bit_exact() {
    for v in [0.0f32, -0.0, 1.0, 3.0, -12.0, 0.75, f32::MAX, f32::MIN_POSITIVE, 1.0e-40] {
        let w = encode_write(0x96, 0x10, v.to_bits());
        let mut echo = vec![0x5a, 0x11, 0x08, 0x01, 0x00];
        echo.extend_from_slice(&w[5..11]);
        echo.resize(64, 0);
        match decode_response(&echo) {
            Response::FeatureValue { family, feature, bits } => {
                assert_eq!((family, feature), (0x96, 0x10));
                assert_eq!(bits, v.to_bits());
            }
            other => panic!("unexpected {:?}", other),
        }
    }
}

#[test]
fn global_profile_and_output_packets() {
    let q = encode_global_profile_read();
    assert_eq!(q[..7], [0x00, 0x5a, 0x26, 0x03, 0x08, 0xff, 0xff]);
    let w = encode_global_profile_write(0x01, true);
    assert_eq!(w[..9], [0x00, 0x5a, 0x26, 0x05, 0x07, 0x01, 0x00, 0x01, 0x00]);
    let w = encode_global_profile_write(0x02, false);
    assert_eq!(w[7], 0x00);
    assert_eq!(encode_output_read()[..5], [0x00, 0x5a, 0x2c, 0x01, 0x01]);
    assert_eq!(encode_output_write(Route::Headphones)[..6], [0x00, 0x5a, 0x2c, 0x05, 0x00, 0x04]);
    assert_eq!(encode_output_write(Route::Speakers)[5], 0x02);
    assert_eq!(encode_output_write(Route::Other(0x09))[5], 0x09);
    assert!(encode_output_write(Route::Speakers)[6..].iter().all(|&b| b == 0));
}

#[test]
fn responses_are_classified() {
    let mut ack = vec![0x5a, 0x02, 0x0a, 0x12];
    ack.resize(64, 0);
    assert_eq!(decode_response(&ack), Response::Ack);

    let mut gp = vec![0x5a, 0x26, 0x0b, 0x08, 0xff, 0xff, 0x05];
    gp.resize(64, 0);
    assert_eq!(
        decode_response(&gp),
        Response::GlobalProfileValue { master: true, secondary: false, equalizer: true }
    );

    let mut out = vec![0x5a, 0x2c, 0x05, 0x01, 0x04];
    out.resize(64, 0);
    assert_eq!(decode_response(&out), Response::OutputValue { route: Route::Headphones });
    out[4] = 0x07;
    assert_eq!(decode_response(&out), Response::OutputValue { route: Route::Other(0x07) });

    assert_eq!(decode_response(&[0x5a, 0x11]), Response::Unrecognized);
    assert_eq!(decode_response(&[0x00, 0x02, 0x00]), Response::Unrecognized);
    let mut req = vec![0x5a, 0x11, 0x03, 0x01, 0x96, 0x10];
    req.resize(64, 0);
    assert_eq!(decode_response(&req), Response::Unrecognized);
    let mut other = vec![0x5a, 0x30, 0x00];
    other.resize(64, 0);
    assert_eq!(decode_response(&other), Response::Unrecognized);
}
