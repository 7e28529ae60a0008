use ddc::edid::{EdidRead, EDID_BLOCK_LEN};

#[test]
fn reads_in_blocks_until_full() {
    let mut read = EdidRead::new(0, 256);
    assert_eq!(read.next_block(), Some((0, 0, EDID_BLOCK_LEN)));
    read.advance(0x80);
    assert_eq!(read.next_block(), Some((0x80, 0x80, 0x80)));
    read.advance(0x80);
    assert_eq!(read.len(), 256);
    assert_eq!(read.next_block(), None);
}

#[test]
fn short_buffer_asks_for_short_block() {
    let mut read = EdidRead::new(0x10, 20);
    assert_eq!(read.next_block(), Some((0x10, 0, 20)));
    read.advance(8);
    assert_eq!(read.next_block(), Some((0x18, 8, 12)));
    read.advance(100);
    assert_eq!(read.len(), 20);
    assert_eq!(read.next_block(), None);
}

#[test]
fn empty_block_ends_read() {
    let mut read = EdidRead::new(0, 128);
    read.advance(0);
    assert_eq!(read.len(), 0);
    assert_eq!(read.next_block(), None);
}

#[test]
fn end_of_offset_range_ends_read() {
    let mut read = EdidRead::new(0xf0, 256);
    assert_eq!(read.next_block(), Some((0xf0, 0, 0x80)));
    read.advance(0x10);
    assert_eq!(read.len(), 0x10);
    assert_eq!(read.next_block(), None);
}
