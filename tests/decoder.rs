use linuxblaster_control::codec::Route;
use linuxblaster_control::decoder::{
    dac_filter_name, decode, dsp_feature_name, feature_at, feature_name, parse_data_fragment, Command,
    DataFragment, FeatureEntry,
};
use linuxblaster_control::hex::{format_hex, hb, hbs, hd, hq, hw};
use linuxblaster_control::urb::{is_protocol_packet, parse_packet_urb, CommDirection, TransferType, UrbStatus, UrbType};

#[test]
fn ping_is_decoded() {
    assert!(matches!(decode(&[0x5a, 0x06, 0x01, 0x01]), Command::Ping));
}

#[test]
fn global_profile_response_flags() {
    let mut d = vec![0x5a, 0x26, 0x0b, 0x08, 0xff, 0xff, 0x05];
    d.resize(64, 0);
    match decode(&d) {
        Command::GlobalProfileResponse { sbx_master, scout_mode, eq_enable } => {
            assert!(sbx_master);
            assert!(!scout_mode);
            assert!(eq_enable);
        }
        other => panic!("unexpected {:?}", other),
    }
    assert!(matches!(decode(&[0x5a, 0x26, 0x03, 0x08, 0xff, 0xff]), Command::GlobalProfileRequest));
    assert!(matches!(
        decode(&[0x5a, 0x26, 0x05, 0x07, 0x02, 0x00, 0x01, 0x00]),
        Command::GlobalProfileWrite { feature: 0x02, enabled: true }
    ));
    match decode(&[0x5a, 0x26, 0x05, 0x09, 0x01]) {
        Command::Unknown { cmd, raw } => {
            assert_eq!(cmd, 0x26);
            assert_eq!(raw, vec![0x09, 0x01]);
        }
        other => panic!("unexpected {:?}", other),
    }
}

fn bulk_record(id: u8, max: f32, min: f32, step: f32) -> Vec<u8> {
    let mut r = vec![0x96, id];
    r.extend_from_slice(&max.to_le_bytes());
    r.extend_from_slice(&min.to_le_bytes());
    r.extend_from_slice(&step.to_le_bytes());
    r
}

#[test]
fn bulk_range_dump_stops_at_last_complete_record() {
    // Declares five records; holds two complete ones and part of a third.
    let mut d = vec![0x5a, 0x15, 0x3c, 0x00, 0x05];
    d.extend(bulk_record(0x0b, 12.0, -12.0, 0.5));
    d.extend(bulk_record(0x0c, 6.0, -6.0, 1.0));
    d.extend_from_slice(&[0x96, 0x0d, 0x00, 0x00]);
    match decode(&d) {
        Command::BulkRangeDump { count, entries } => {
            assert_eq!(count, 5);
            assert_eq!(entries.len(), 2);
            assert_eq!(entries[0].id, 0x0b);
            assert_eq!(entries[0].max, 12.0f32.to_bits());
            assert_eq!(entries[0].min, (-12.0f32).to_bits());
            assert_eq!(entries[0].step, 0.5f32.to_bits());
            assert_eq!(entries[1].id, 0x0c);
            assert_eq!(entries[1].step, 1.0f32.to_bits());
        }
        other => panic!("unexpected {:?}", other),
    }
    assert!(matches!(decode(&[0x5a, 0x15, 0x01, 0x00]), Command::BulkRangeDumpRequest));
}

#[test]
fn bulk_range_dump_stops_at_declared_count() {
    let mut d = vec![0x5a, 0x15, 0x3c, 0x00, 0x01];
    d.extend(bulk_record(0x0b, 12.0, -12.0, 0.5));
    d.extend(bulk_record(0x0c, 6.0, -6.0, 1.0));
    match decode(&d) {
        Command::BulkRangeDump { count, entries } => {
            assert_eq!(count, 1);
            assert_eq!(entries.len(), 1);
        }
        other => panic!("unexpected {:?}", other),
    }
}

#[test]
fn status_request_and_response() {
    assert!(matches!(
        decode(&[0x5a, 0x11, 0x03, 0x01, 0x96, 0x10]),
        Command::StatusRequest { family: 0x96, feature_id: 0x10 }
    ));
    let mut d = vec![0x5a, 0x11, 0x08, 0x01, 0x00, 0x96, 0x10];
    d.extend_from_slice(&3.0f32.to_le_bytes());
    match decode(&d) {
        Command::StatusResponse { features } => {
            assert_eq!(features, vec![FeatureEntry { family: 0x96, id: 0x10, bits: 3.0f32.to_bits() }]);
        }
        other => panic!("unexpected {:?}", other),
    }
}

#[test]
fn single_write_record() {
    let mut d = vec![0x5a, 0x12, 0x07, 0x01, 0x96, 0x09];
    d.extend_from_slice(&1.0f32.to_le_bytes());
    match decode(&d) {
        Command::WriteSingleFeature { feature } => {
            assert_eq!(feature, Some(FeatureEntry { family: 0x96, id: 0x09, bits: 1.0f32.to_bits() }));
        }
        other => panic!("unexpected {:?}", other),
    }
    assert!(matches!(
        decode(&[0x5a, 0x12, 0x07, 0x01, 0x96]),
        Command::WriteSingleFeature { feature: None }
    ));
}

#[test]
fn families_by_length_and_sub_type() {
    assert!(matches!(decode(&[0x5a, 0x02, 0x0a, 0x12]), Command::DeviceAck { echoed_cmd: 0x12 }));
    assert!(matches!(decode(&[0x5a, 0x05, 0x00]), Command::DeviceIdentifyRequest));
    assert!(matches!(decode(&[0x5a, 0x05, 0x01, 0x33]), Command::DeviceIdentifyResponse { flags: 0x33 }));
    assert!(matches!(decode(&[0x5a, 0x07, 0x01, 0x02]), Command::GetFirmwareStringRequest { typ: 0x02 }));
    match decode(&[0x5a, 0x07, 0x04, b'1', b'.', b'2', b'3', 0x00, 0x00]) {
        Command::GetFirmwareStringResponse { firmware } => assert_eq!(firmware, b"1.23".to_vec()),
        other => panic!("unexpected {:?}", other),
    }
    match decode(&[0x5a, 0x10, 0x08, 0xaa, 0xbb]) {
        Command::GetSerialResponse { serial } => assert_eq!(serial, vec![0xaa, 0xbb]),
        other => panic!("unexpected {:?}", other),
    }
    assert!(matches!(decode(&[0x5a, 0x20, 0x00]), Command::GetHardwareIdRequest));
    assert!(matches!(decode(&[0x5a, 0x30, 0x00]), Command::GetDspVersionRequest));
    assert!(matches!(decode(&[0x5a, 0x2c, 0x01, 0x01]), Command::OutputSelectReadRequest));
    assert!(matches!(
        decode(&[0x5a, 0x2c, 0x05, 0x01, 0x02]),
        Command::OutputSelectReadResponse { output: Route::Speakers }
    ));
    assert!(matches!(
        decode(&[0x5a, 0x2c, 0x05, 0x00, 0x04]),
        Command::OutputSelectWrite { output: Route::Headphones }
    ));
    assert!(matches!(decode(&[0x5a, 0x39, 0x03, 0x00, 0x05, 0x01]), Command::DirectModeSet { enabled: true }));
    assert!(matches!(decode(&[0x5a, 0x39, 0x01, 0x01]), Command::DirectModeCommit));
    assert!(matches!(decode(&[0x5a, 0x39, 0x01, 0x02]), Command::DirectModeReadRequest));
    assert!(matches!(decode(&[0x5a, 0x39, 0x02, 0x05]), Command::DirectModeUnsupported { sub: 0x05 }));
    assert!(matches!(decode(&[0x5a, 0x3a, 0x02, 0x07]), Command::Capabilities { sub: 0x07 }));
    assert!(matches!(decode(&[0x5a, 0x3c, 0x02, 0x01, 0x00]), Command::GainConfigRequest));
    assert!(matches!(
        decode(&[0x5a, 0x3c, 0x04, 0x01, 0x00, 0x02, 0x00]),
        Command::GainConfigResponse { gain: 0x02 }
    ));
    assert!(matches!(decode(&[0x5a, 0x6c, 0x01, 0x01]), Command::DacFilterReadRequest));
    assert!(matches!(decode(&[0x5a, 0x6c, 0x02, 0x01, 0x03]), Command::DacFilterReadResponse { filter: 0x03 }));
    assert!(matches!(decode(&[0x5a, 0x6c, 0x01, 0x02]), Command::DacFilterEnumerateRequest));
    assert!(matches!(decode(&[0x5a, 0x6e, 0x01, 0x04]), Command::Notification { sub: 0x04 }));
    match decode(&[0x5a, 0x99, 0x01, 0x04]) {
        Command::Unknown { cmd, raw } => {
            assert_eq!(cmd, 0x99);
            assert_eq!(raw, vec![0x5a, 0x99, 0x01, 0x04]);
        }
        other => panic!("unexpected {:?}", other),
    }
    match decode(&[0x5a]) {
        Command::Unknown { raw, .. } => assert_eq!(raw, vec![0x5a]),
        other => panic!("unexpected {:?}", other),
    }
}

#[test]
fn fragments_and_names() {
    assert!(matches!(parse_data_fragment(&[0x01, 0x02, 0x03]), DataFragment::Other(_)));
    assert!(matches!(parse_data_fragment(&[0x5a, 0x06, 0x01, 0x01]), DataFragment::SbProtocol(Command::Ping)));
    assert_eq!(dsp_feature_name(0x10), "Eq1kHz");
    assert_eq!(dsp_feature_name(0x17), "SurroundDistance");
    assert_eq!(dsp_feature_name(0x15), "Unknown_0x15");
    assert_eq!(feature_name(0x96, 0x00), "SurroundToggle");
    assert_eq!(feature_name(0x10, 0xab), "id_0xab");
    assert_eq!(dac_filter_name(3), Some("NOS (Non-Oversampling)"));
    assert_eq!(dac_filter_name(9), None);
    assert_eq!(feature_at(&[0x5a, 0x96, 0x01, 0, 0, 0x80, 0x3f], 1), Some(FeatureEntry { family: 0x96, id: 0x01, bits: 1.0f32.to_bits() }));
    assert_eq!(feature_at(&[0x5a, 0x96, 0x01], 1), None);
}

#[test]
fn hex_formatting() {
    assert_eq!(hb(0x0a), "0x0a");
    assert_eq!(hb(0xff), format!("{:#04x}", 0xffu8));
    assert_eq!(hw(0x1234), "0x1234");
    assert_eq!(hd(0xdeadbeef), "0xdeadbeef");
    assert_eq!(hq(0x0123456789abcdef), format!("{:#018x}", 0x0123456789abcdefu64));
    assert_eq!(hbs(&[0x5a, 0x06, 0x01]), "0x5a, 0x06, 0x01");
    assert_eq!(hbs(&[]), "");
    assert_eq!(format_hex(&[0x00, 0xff]), "[0x00, 0xff]");
}

#[test]
fn urb_header_fields() {
    let mut data = vec![0u8; 64];
    data[0..8].copy_from_slice(&0x1122334455667788u64.to_le_bytes());
    data[8] = 0x43;
    data[9] = 0x01;
    data[10] = 0x84;
    data[11] = 0x07;
    data[12..14].copy_from_slice(&3u16.to_le_bytes());
    data[14] = 0x00;
    data[28..32].copy_from_slice(&(-32i32).to_le_bytes());
    data[40] = 0x21;
    data[41] = 0x09;
    data[42..44].copy_from_slice(&0x0200u16.to_le_bytes());
    data[44..46].copy_from_slice(&4u16.to_le_bytes());
    data[46..48].copy_from_slice(&64u16.to_le_bytes());
    data[56..60].copy_from_slice(&0x204u32.to_le_bytes());
    data.extend_from_slice(&[0x5a, 0x06, 0x01, 0x01]);
    assert!(is_protocol_packet(&data));
    let h = parse_packet_urb(&data);
    assert_eq!(h.id, 0x1122334455667788);
    assert_eq!(h.typ, UrbType::Complete);
    assert_eq!(h.transfer_type, TransferType::Interrupt);
    assert_eq!(h.endpoint.raw, 0x84);
    assert_eq!(h.endpoint.direction, CommDirection::HostIn);
    assert_eq!(h.device_address, 7);
    assert_eq!(h.bus_number, 3);
    assert_eq!(h.urb_status, UrbStatus::Failed((-32i32) as u32));
    assert_eq!(h.transfer_flags, 0x204);
    let setup = h.setup_fragment.unwrap();
    assert_eq!((setup.bm_request_type, setup.b_request), (0x21, 0x09));
    assert_eq!((setup.w_value, setup.w_index, setup.w_length), (0x0200, 4, 64));
    assert!(matches!(h.data_fragment, DataFragment::SbProtocol(Command::Ping)));
    data[14] = 0x2d;
    data[8] = 0x53;
    data[28..32].copy_from_slice(&0i32.to_le_bytes());
    let h = parse_packet_urb(&data);
    assert!(h.setup_fragment.is_none());
    assert_eq!(h.typ, UrbType::Submit);
    assert_eq!(h.urb_status, UrbStatus::Success);
    assert!(!is_protocol_packet(&data[..64]));
}
