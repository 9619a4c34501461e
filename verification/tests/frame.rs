use xdp_hello::headers::{is_ipv4, read_ether_type, read_source_address};
use xdp_hello::{ptr_at, FrameBuffer, Truncated};

fn counting(len: usize) -> Vec<u8> {
    let mut bytes: Vec<u8> = Vec::new();
    for i in 0usize..len {
        bytes.push((i % 251) as u8);
    }
    bytes
}

#[test]
fn read_inside_the_frame_sees_its_bytes() {
    let bytes = counting(64);
    let frame = FrameBuffer::new(&bytes);
    assert_eq!(ptr_at(&frame, 0, 14), Ok(&bytes[0..14]));
    assert_eq!(ptr_at(&frame, 14, 20), Ok(&bytes[14..34]));
    assert_eq!(ptr_at(&frame, 63, 1), Ok(&bytes[63..64]));
    assert_eq!(ptr_at(&frame, 0, 64), Ok(&bytes[..]));
}

#[test]
fn read_may_end_at_the_end_but_not_behind_it() {
    let bytes = counting(34);
    let frame = FrameBuffer::new(&bytes);
    assert_eq!(ptr_at(&frame, 14, 20), Ok(&bytes[14..34]));
    assert_eq!(ptr_at(&frame, 14, 21), Err(Truncated));
    assert_eq!(ptr_at(&frame, 15, 20), Err(Truncated));
    assert_eq!(ptr_at(&frame, 34, 1), Err(Truncated));
    assert_eq!(ptr_at(&frame, 35, 0), Err(Truncated));
}

#[test]
fn empty_read_fits_wherever_the_offset_does() {
    let bytes = counting(8);
    let frame = FrameBuffer::new(&bytes);
    let nothing: &[u8] = &[];
    assert_eq!(ptr_at(&frame, 0, 0), Ok(nothing));
    assert_eq!(ptr_at(&frame, 8, 0), Ok(nothing));
    assert_eq!(ptr_at(&frame, 9, 0), Err(Truncated));
}

#[test]
fn huge_offsets_and_widths_do_not_wrap() {
    let bytes = counting(64);
    let frame = FrameBuffer::new(&bytes);
    assert_eq!(ptr_at(&frame, usize::MAX, 1), Err(Truncated));
    assert_eq!(ptr_at(&frame, usize::MAX, 2), Err(Truncated));
    assert_eq!(ptr_at(&frame, 1, usize::MAX), Err(Truncated));
    assert_eq!(ptr_at(&frame, usize::MAX, usize::MAX), Err(Truncated));
    assert_eq!(ptr_at(&frame, usize::MAX - 13, 14), Err(Truncated));
    assert_eq!(ptr_at(&frame, 0, usize::MAX), Err(Truncated));
}

#[test]
fn empty_frame_holds_nothing() {
    let bytes: Vec<u8> = Vec::new();
    let frame = FrameBuffer::new(&bytes);
    assert_eq!(frame.len(), 0);
    assert_eq!(ptr_at(&frame, 0, 1), Err(Truncated));
    assert_eq!(read_ether_type(&frame), Err(Truncated));
    assert_eq!(read_source_address(&frame), Err(Truncated));
}

#[test]
fn bounds_must_be_ordered_and_inside() {
    let bytes = counting(16);
    assert!(FrameBuffer::with_bounds(&bytes, 0, 16).is_some());
    assert!(FrameBuffer::with_bounds(&bytes, 16, 16).is_some());
    assert!(FrameBuffer::with_bounds(&bytes, 4, 4).is_some());
    assert!(FrameBuffer::with_bounds(&bytes, 5, 4).is_none());
    assert!(FrameBuffer::with_bounds(&bytes, 0, 17).is_none());
    assert!(FrameBuffer::with_bounds(&bytes, 17, 17).is_none());
    assert!(FrameBuffer::with_bounds(&bytes, usize::MAX, 0).is_none());
    assert!(FrameBuffer::with_bounds(&bytes, 0, usize::MAX).is_none());
}

#[test]
fn offsets_are_relative_to_the_start_of_the_frame() {
    let bytes = counting(100);
    let frame = FrameBuffer::with_bounds(&bytes, 10, 50).expect("bounds lie inside the buffer");
    assert_eq!(frame.len(), 40);
    assert_eq!(ptr_at(&frame, 0, 4), Ok(&bytes[10..14]));
    assert_eq!(ptr_at(&frame, 36, 4), Ok(&bytes[46..50]));
    assert_eq!(ptr_at(&frame, 37, 4), Err(Truncated));
    assert_eq!(ptr_at(&frame, 40, 0), Ok(&bytes[50..50]));
    assert_eq!(ptr_at(&frame, 41, 0), Err(Truncated));
}

#[test]
fn length_of_a_frame() {
    let bytes = counting(1500);
    assert_eq!(FrameBuffer::new(&bytes).len(), 1500);
    assert_eq!(FrameBuffer::new(&bytes[..14]).len(), 14);
}

#[test]
fn ether_type_needs_fourteen_bytes() {
    let mut bytes = counting(14);
    bytes[12] = 0x08;
    bytes[13] = 0x06;
    assert_eq!(read_ether_type(&FrameBuffer::new(&bytes)), Ok(0x0806));
    assert_eq!(read_ether_type(&FrameBuffer::new(&bytes[..13])), Err(Truncated));
}

#[test]
fn ether_type_is_big_endian() {
    let mut bytes = counting(20);
    bytes[12] = 0x86;
    bytes[13] = 0xdd;
    assert_eq!(read_ether_type(&FrameBuffer::new(&bytes)), Ok(0x86dd));
    bytes[12] = 0x00;
    bytes[13] = 0x01;
    assert_eq!(read_ether_type(&FrameBuffer::new(&bytes)), Ok(1));
    bytes[12] = 0xff;
    bytes[13] = 0xff;
    assert_eq!(read_ether_type(&FrameBuffer::new(&bytes)), Ok(0xffff));
}

#[test]
fn source_address_needs_thirty_four_bytes() {
    let mut bytes = counting(34);
    bytes[26] = 34;
    bytes[27] = 193;
    bytes[28] = 132;
    bytes[29] = 77;
    assert_eq!(read_source_address(&FrameBuffer::new(&bytes)), Ok(583_107_661));
    assert_eq!(read_source_address(&FrameBuffer::new(&bytes[..33])), Err(Truncated));
    assert_eq!(read_source_address(&FrameBuffer::new(&bytes[..30])), Err(Truncated));
}

#[test]
fn source_address_extremes() {
    let mut bytes = counting(40);
    for at in 26usize..30 {
        bytes[at] = 0xff;
    }
    assert_eq!(read_source_address(&FrameBuffer::new(&bytes)), Ok(u32::MAX));
    for at in 26usize..30 {
        bytes[at] = 0;
    }
    assert_eq!(read_source_address(&FrameBuffer::new(&bytes)), Ok(0));
    bytes[29] = 1;
    assert_eq!(read_source_address(&FrameBuffer::new(&bytes)), Ok(1));
    bytes[29] = 0;
    bytes[26] = 1;
    assert_eq!(read_source_address(&FrameBuffer::new(&bytes)), Ok(0x0100_0000));
}

#[test]
fn only_0800_is_ipv4() {
    assert!(is_ipv4(0x0800));
    assert!(!is_ipv4(0x0008));
    assert!(!is_ipv4(0x0806));
    assert!(!is_ipv4(0x86dd));
    assert!(!is_ipv4(0));
    assert!(!is_ipv4(0xffff));
}
