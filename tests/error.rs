use ddc::{Error, ErrorCode};

#[test]
fn error_code_descriptions() {
    assert_eq!(ErrorCode::InvalidOffset.description(), "invalid offset returned from DDC/CI");
    assert_eq!(ErrorCode::InvalidLength.description(), "invalid DDC/CI length");
    assert_eq!(ErrorCode::InvalidChecksum.description(), "DDC/CI checksum mismatch");
    assert_eq!(ErrorCode::InvalidOpcode.description(), "DDC/CI VCP opcode mismatch");
    assert_eq!(ErrorCode::InvalidData.description(), "invalid DDC/CI data");
    assert_eq!(ErrorCode::UnsupportedVcp.description(), "unsupported VCP code");
    assert_eq!(ErrorCode::InvalidVcpResult(3).description(), "unrecognized VCP result code");
}

#[test]
fn error_code_converts_to_protocol_error() {
    let e: Error<std::io::Error> = ErrorCode::InvalidChecksum.into();
    assert!(matches!(e, Error::Ddc(ErrorCode::InvalidChecksum)));
}
