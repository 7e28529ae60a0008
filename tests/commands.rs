use ddc::commands::{
    CapabilitiesReply, CapabilitiesRequest, GetTimingReport, GetVcpFeature, SaveCurrentSettings,
    SetVcpFeature, TableRead, TableResponse, TableWrite, TimingMessage, VcpValue,
};
use ddc::{Command, CommandResult, ErrorCode};

fn encoded<C: Command>(c: &C) -> Vec<u8> {
    let mut buf = [0xaau8; 40];
    let n = c.encode(&mut buf).unwrap();
    assert_eq!(n, c.len());
    assert!(buf[n..].iter().all(|&b| b == 0xaa));
    buf[..n].to_vec()
}

#[test]
fn get_vcp_feature_encodes_opcode_and_code() {
    assert_eq!(encoded(&GetVcpFeature::new(0x10)), vec![0x01, 0x10]);
}

#[test]
fn set_vcp_feature_encodes_big_endian_value() {
    assert_eq!(encoded(&SetVcpFeature::new(0x60, 0x0001)), vec![0x03, 0x60, 0x00, 0x01]);
    assert_eq!(encoded(&SetVcpFeature::new(0x10, 0xabcd)), vec![0x03, 0x10, 0xab, 0xcd]);
}

#[test]
fn save_current_settings_encodes_single_opcode() {
    assert_eq!(encoded(&SaveCurrentSettings), vec![0x0c]);
    assert_eq!(SaveCurrentSettings::DELAY_COMMAND_MS, 200);
    assert_eq!(SaveCurrentSettings::DELAY_RESPONSE_MS, 0);
}

#[test]
fn table_read_encodes_code_and_offset() {
    assert_eq!(encoded(&TableRead::new(0x73, 0x0102)), vec![0xe2, 0x73, 0x01, 0x02]);
}

#[test]
fn table_write_encodes_data_after_header() {
    let data = [1u8, 2, 3];
    assert_eq!(encoded(&TableWrite::new(0x73, 0x0010, &data)), vec![0xe7, 0x73, 0x00, 0x10, 1, 2, 3]);
    let full = [7u8; 32];
    let bytes = encoded(&TableWrite::new(0x73, 0, &full));
    assert_eq!(bytes.len(), TableWrite::MAX_LEN);
}

#[test]
fn table_write_refuses_more_than_one_chunk() {
    let data = [0u8; 33];
    let mut buf = [0x55u8; 40];
    assert_eq!(TableWrite::new(0x73, 0, &data).encode(&mut buf), Err(ErrorCode::InvalidLength));
    assert!(buf.iter().all(|&b| b == 0x55));
}

#[test]
fn capabilities_request_encodes_offset() {
    assert_eq!(encoded(&CapabilitiesRequest::new(0x0120)), vec![0xf3, 0x01, 0x20]);
}

#[test]
fn get_timing_report_encodes_single_opcode() {
    assert_eq!(encoded(&GetTimingReport), vec![0x07]);
}

#[test]
fn command_timings_follow_the_protocol() {
    assert_eq!(GetVcpFeature::DELAY_RESPONSE_MS, 40);
    assert_eq!(GetVcpFeature::DELAY_COMMAND_MS, 50);
    assert_eq!(SetVcpFeature::DELAY_COMMAND_MS, 50);
    assert_eq!(TableRead::DELAY_RESPONSE_MS, 40);
    assert_eq!(CapabilitiesRequest::DELAY_RESPONSE_MS, 40);
    assert_eq!(GetTimingReport::DELAY_RESPONSE_MS, 40);
    assert_eq!(SetVcpFeature::DELAY_RESPONSE_MS, 0);
}

#[test]
fn encoded_length_lies_within_declared_bounds() {
    fn check<C: Command>(c: C) {
        let n = encoded(&c).len();
        assert!(C::MIN_LEN <= n && n <= C::MAX_LEN);
    }
    check(GetVcpFeature::new(1));
    check(SetVcpFeature::new(1, 2));
    check(SaveCurrentSettings);
    check(TableRead::new(1, 2));
    check(TableWrite::new(1, 2, &[]));
    check(TableWrite::new(1, 2, &[9; 32]));
    check(CapabilitiesRequest::new(3));
    check(GetTimingReport);
}

#[test]
fn vcp_value_decodes_reply() {
    let v = VcpValue::decode(&[0x02, 0x00, 0x60, 0x00, 0x00, 0x64, 0x00, 0x32]).unwrap();
    assert_eq!(v, VcpValue { ty: 0x60, mh: 0x00, ml: 0x64, sh: 0x00, sl: 0x32 });
    assert_eq!(v.maximum(), 0x0064);
    assert_eq!(v.value(), 0x0032);
}

#[test]
fn vcp_value_reports_unsupported_feature() {
    let r = VcpValue::decode(&[0x02, 0x01, 0x60, 0x00, 0x00, 0x64, 0x00, 0x32]);
    assert_eq!(r, Err(ErrorCode::UnsupportedVcp));
}

#[test]
fn vcp_value_reports_unknown_result_code() {
    let r = VcpValue::decode(&[0x02, 0x07, 0x60, 0x00, 0x00, 0x64, 0x00, 0x32]);
    assert_eq!(r, Err(ErrorCode::InvalidVcpResult(0x07)));
}

#[test]
fn vcp_value_checks_length_before_opcode() {
    assert_eq!(VcpValue::decode(&[0x02, 0x00, 0x60]), Err(ErrorCode::InvalidLength));
    assert_eq!(VcpValue::decode(&[0x99; 9]), Err(ErrorCode::InvalidLength));
    assert_eq!(VcpValue::decode(&[0x99; 8]), Err(ErrorCode::InvalidOpcode));
}

#[test]
fn vcp_value_combines_big_endian_bytes() {
    let v = VcpValue { ty: 0, mh: 0x12, ml: 0x34, sh: 0xab, sl: 0xcd };
    assert_eq!(v.maximum(), 0x1234);
    assert_eq!(v.value(), 0xabcd);
}

#[test]
fn table_response_decodes_offset_and_bytes() {
    let r = TableResponse::decode(&[0xe4, 0x01, 0x02, 9, 8, 7]).unwrap();
    assert_eq!(r.offset, 0x0102);
    assert_eq!(r.bytes(), &[9, 8, 7]);
    let empty = TableResponse::decode(&[0xe4, 0x00, 0x05]).unwrap();
    assert!(empty.bytes().is_empty());
}

#[test]
fn table_response_bounds() {
    assert_eq!(TableResponse::decode(&[0xe4, 0x00]).err(), Some(ErrorCode::InvalidLength));
    let mut long = vec![0xe4, 0, 0];
    long.extend_from_slice(&[1u8; 33]);
    assert_eq!(TableResponse::decode(&long).err(), Some(ErrorCode::InvalidLength));
    long.pop();
    assert_eq!(TableResponse::decode(&long).unwrap().bytes().len(), 32);
    assert_eq!(TableResponse::decode(&[0xe3, 0, 0]).err(), Some(ErrorCode::InvalidOpcode));
}

#[test]
fn table_response_default_is_empty() {
    let r = TableResponse::default();
    assert_eq!(r.offset, 0);
    assert!(r.bytes().is_empty());
}

#[test]
fn capabilities_reply_decodes_offset_and_data() {
    let r = CapabilitiesReply::decode(&[0xe3, 0x00, 0x02, b'1', b' ', b'2']).unwrap();
    assert_eq!(r.offset, 2);
    assert_eq!(r.data, b"1 2".to_vec());
    assert_eq!(CapabilitiesReply::decode(&[0xe4, 0, 0]).err(), Some(ErrorCode::InvalidOpcode));
    assert_eq!(CapabilitiesReply::decode(&[0xe3]).err(), Some(ErrorCode::InvalidLength));
}

#[test]
fn timing_message_decodes_frequencies() {
    let t = TimingMessage::decode(&[0x4e, 0x80, 0x01, 0x02, 0x03, 0x04]).unwrap();
    assert_eq!(
        t,
        TimingMessage { timing_status: 0x80, horizontal_frequency: 0x0102, vertical_frequency: 0x0304 }
    );
    assert_eq!(TimingMessage::decode(&[0x4e, 0, 0, 0, 0]), Err(ErrorCode::InvalidLength));
    assert_eq!(TimingMessage::decode(&[0x4f, 0, 0, 0, 0, 0]), Err(ErrorCode::InvalidOpcode));
}

#[test]
fn unit_result_accepts_only_empty_payload() {
    assert_eq!(<() as CommandResult>::decode(&[]), Ok(()));
    assert_eq!(<() as CommandResult>::decode(&[0]), Err(ErrorCode::InvalidLength));
}

#[test]
fn decode_rejects_lengths_outside_bounds() {
    fn check<R: CommandResult + std::fmt::Debug>() {
        for n in 0..48usize {
            let data = vec![0u8; n];
            if n < R::MIN_LEN || n > R::MAX_LEN {
                assert_eq!(R::decode(&data).err(), Some(ErrorCode::InvalidLength));
            }
        }
    }
    check::<VcpValue>();
    check::<TableResponse>();
    check::<CapabilitiesReply>();
    check::<TimingMessage>();
    check::<()>();
}
