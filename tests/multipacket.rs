use ddc::commands::{CapabilitiesReply, CommandResult, TableResponse};
use ddc::multipacket::{table_write_chunks, ChunkedRead};
use ddc::ErrorCode;

fn caps(offset: u16, data: &[u8]) -> CapabilitiesReply {
    CapabilitiesReply { offset, data: data.to_vec() }
}

#[test]
fn capabilities_chunks_concatenate() {
    let mut read = ChunkedRead::new();
    assert_eq!(read.capabilities_request().offset, 0);
    assert_eq!(read.accept_capabilities(&caps(0, b"(0")), Ok(false));
    assert_eq!(read.capabilities_request().offset, 2);
    assert_eq!(read.accept_capabilities(&caps(2, b"1 2")), Ok(false));
    assert_eq!(read.capabilities_request().offset, 5);
    assert_eq!(read.accept_capabilities(&caps(5, b"")), Ok(true));
    assert_eq!(read.into_bytes(), b"(01 2".to_vec());
}

#[test]
fn mismatched_offset_is_refused_before_appending() {
    let mut read = ChunkedRead::new();
    assert_eq!(read.accept_capabilities(&caps(0, b"(0")), Ok(false));
    assert_eq!(read.accept_capabilities(&caps(3, b"1 2")), Err(ErrorCode::InvalidOffset));
    assert_eq!(read.bytes(), b"(0");
    assert_eq!(read.offset(), 2);
}

#[test]
fn chunk_past_offset_range_is_refused() {
    let mut read = ChunkedRead::new();
    let big = [b'x'; 32];
    let mut offset = 0u16;
    while offset as usize + 32 <= u16::MAX as usize {
        assert_eq!(read.accept(offset, &big), Ok(false));
        offset += 32;
    }
    assert_eq!(read.accept(offset, &big), Err(ErrorCode::InvalidLength));
    assert_eq!(read.offset(), offset);
}

#[test]
fn table_chunks_concatenate() {
    let mut read = ChunkedRead::new();
    assert_eq!(read.table_request(0x73).offset, 0);
    assert_eq!(read.table_request(0x73).code, 0x73);
    let first = TableResponse::decode(&[0xe4, 0x00, 0x00, 1, 2, 3]).unwrap();
    assert_eq!(read.accept_table(&first), Ok(false));
    let bad = TableResponse::decode(&[0xe4, 0x00, 0x04, 4]).unwrap();
    assert_eq!(read.accept_table(&bad), Err(ErrorCode::InvalidOffset));
    let second = TableResponse::decode(&[0xe4, 0x00, 0x03, 4]).unwrap();
    assert_eq!(read.accept_table(&second), Ok(false));
    let end = TableResponse::decode(&[0xe4, 0x00, 0x04]).unwrap();
    assert_eq!(read.accept_table(&end), Ok(true));
    assert_eq!(read.into_bytes(), vec![1, 2, 3, 4]);
}

#[test]
fn table_write_splits_into_chunks() {
    let value: Vec<u8> = (0..70u8).collect();
    let chunks = table_write_chunks(0x73, 0x0100, &value).unwrap();
    assert_eq!(chunks.len(), 3);
    assert_eq!(chunks[0].offset, 0x0100);
    assert_eq!(chunks[0].data, &value[..32]);
    assert_eq!(chunks[1].offset, 0x0120);
    assert_eq!(chunks[1].data, &value[32..64]);
    assert_eq!(chunks[2].offset, 0x0140);
    assert_eq!(chunks[2].data, &value[64..]);
    assert!(chunks.iter().all(|c| c.code == 0x73));
}

#[test]
fn table_write_of_nothing_sends_nothing() {
    assert!(table_write_chunks(0x73, 0, &[]).unwrap().is_empty());
    let exact = [5u8; 64];
    assert_eq!(table_write_chunks(0x73, 0, &exact).unwrap().len(), 2);
}

#[test]
fn table_write_past_offset_range_is_refused() {
    let value = [0u8; 10];
    assert_eq!(table_write_chunks(0x73, 0xfff7, &value).err(), Some(ErrorCode::InvalidLength));
    assert_eq!(table_write_chunks(0x73, 0xfff6, &value).unwrap().len(), 1);
}
