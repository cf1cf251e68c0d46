use ws_frame::{Bytes, Frame, Opcode, Status};

#[test]
fn it_works() {
    const BYTES: &[u8] = &[0b10100010, 0b00000011, 0b00000001, 0b00000010, 0b00000011];
    let mut f = Frame::empty();
    let used = f.decode(BYTES);

    let head = f.head.unwrap();
    assert!(head.finished);
    assert_eq!([false, true, false], head.rsv);
    assert_eq!(3, f.payload_len.unwrap());

    assert_eq!(
        Status::Complete(BYTES.len() - f.payload_len.unwrap() as usize),
        used
    );
}

#[test]
fn payload_length() {
    const BYTES: &[u8] = &[0b10100010, 0b01100100];
    let mut f = Frame::empty();
    f.decode(BYTES);

    assert_eq!(f.payload_len, Some(100));
}

#[test]
fn fin_and_rsv_bits() {
    let mut f = Frame::empty();
    f.decode(&[0b10100010]);
    let head = f.head.unwrap();
    assert!(head.finished);
    assert_eq!([false, true, false], head.rsv);
    assert_eq!(Opcode::Binary, head.op);
}

#[test]
fn rsv_bits_in_order() {
    let mut f = Frame::empty();
    f.decode(&[0b01100000, 0]);
    let head = f.head.unwrap();
    assert!(!head.finished);
    assert_eq!([true, true, false], head.rsv);
    assert_eq!(Opcode::Continue, head.op);
}

#[test]
fn small_frame_with_payload_after_header() {
    let buf = [0b10100010, 0b00000011, 1, 2, 3];
    let mut f = Frame::empty();
    let used = f.decode(&buf).unwrap();
    assert_eq!(2, used);
    let len = f.payload_len.unwrap() as usize;
    assert_eq!(&[1, 2, 3], &buf[used..used + len]);
    assert_eq!(None, f.mask);
}

#[test]
fn short_frames_for_every_opcode() {
    let table = [
        (0u8, Opcode::Continue),
        (1, Opcode::Text),
        (2, Opcode::Binary),
        (3, Opcode::Reserved),
        (4, Opcode::Reserved),
        (5, Opcode::Reserved),
        (6, Opcode::Reserved),
        (7, Opcode::Reserved),
        (8, Opcode::Close),
        (9, Opcode::Ping),
        (10, Opcode::Pong),
        (11, Opcode::Reserved),
        (12, Opcode::Reserved),
        (13, Opcode::Reserved),
        (14, Opcode::Reserved),
        (15, Opcode::Reserved),
    ];
    for (nibble, op) in table {
        for len in [0u8, 1, 64, 125] {
            let mut f = Frame::empty();
            let status = f.decode(&[0x80 | nibble, len]);
            assert_eq!(Status::Complete(2), status);
            assert_eq!(op, f.head.unwrap().op);
            assert_eq!(Some(len as u64), f.payload_len);
            assert_eq!(None, f.mask);
        }
    }
}

#[test]
fn opcode_from_byte() {
    assert_eq!(Opcode::Pong, Opcode::from(10));
    assert_eq!(Opcode::Reserved, Opcode::from(16));
    assert_eq!(Opcode::Reserved, Opcode::from(255));
}

#[test]
fn empty_buffer_is_partial() {
    let mut f = Frame::empty();
    assert_eq!(Status::Partial, f.decode(&[]));
    assert_eq!(Frame::empty(), f);
}

#[test]
fn base_length_without_payload() {
    let mut f = Frame::empty();
    assert_eq!(Status::Complete(2), f.decode(&[0b10100010, 0b01100100]));
    assert_eq!(Some(100), f.payload_len);
}

#[test]
fn extended_length_126() {
    let mut f = Frame::empty();
    assert_eq!(Status::Complete(4), f.decode(&[0x82, 126, 0x00, 126]));
    assert_eq!(Some(126), f.payload_len);
}

#[test]
fn extended_length_65535() {
    let mut f = Frame::empty();
    assert_eq!(Status::Complete(4), f.decode(&[0x82, 126, 0xFF, 0xFF, 9, 9]));
    assert_eq!(Some(65535), f.payload_len);
}

#[test]
fn extended_length_65536() {
    let mut f = Frame::empty();
    let buf = [0x82, 127, 0, 0, 0, 0, 0, 1, 0, 0];
    assert_eq!(Status::Complete(10), f.decode(&buf));
    assert_eq!(Some(65536), f.payload_len);
}

#[test]
fn extended_length_64_bit_byte_order() {
    let mut f = Frame::empty();
    let buf = [0x82, 127, 0x01, 0x02, 0x03, 0x04, 0x05, 0x06, 0x07, 0x08];
    assert_eq!(Status::Complete(10), f.decode(&buf));
    assert_eq!(Some(0x0102030405060708), f.payload_len);
}

#[test]
fn extended_length_16_bit_byte_order() {
    let mut f = Frame::empty();
    assert_eq!(Status::Complete(4), f.decode(&[0x82, 126, 0x12, 0x34]));
    assert_eq!(Some(0x1234), f.payload_len);
}

#[test]
fn extended_length_cut_short_is_partial() {
    let mut f = Frame::empty();
    assert_eq!(Status::Partial, f.decode(&[0x82, 126, 0x12]));
    assert!(f.head.is_some());
    assert_eq!(None, f.payload_len);
    let mut g = Frame::empty();
    assert_eq!(Status::Partial, g.decode(&[0x82, 127, 0, 0, 0, 0, 0, 0, 1]));
    assert_eq!(None, g.payload_len);
}

#[test]
fn masked_frame_extracts_key() {
    let mut f = Frame::empty();
    let buf = [0x81, 0x80 | 2, 0xA1, 0xB2, 0xC3, 0xD4, 0x10, 0x20];
    assert_eq!(Status::Complete(6), f.decode(&buf));
    assert_eq!(Some([0xA1, 0xB2, 0xC3, 0xD4]), f.mask);
    assert_eq!(Some(2), f.payload_len);
    assert_eq!([0x10, 0x20], buf[6..8]);
}

#[test]
fn masked_frame_with_extended_length() {
    let mut f = Frame::empty();
    let buf = [0x82, 0x80 | 126, 0x01, 0x00, 9, 8, 7, 6];
    assert_eq!(Status::Complete(8), f.decode(&buf));
    assert_eq!(Some(256), f.payload_len);
    assert_eq!(Some([9, 8, 7, 6]), f.mask);
}

#[test]
fn unmasked_frame_leaves_mask_absent() {
    let mut f = Frame::empty();
    f.decode(&[0x81, 5]);
    assert_eq!(None, f.mask);
}

#[test]
fn masked_frame_cut_short_is_partial() {
    let mut f = Frame::empty();
    assert_eq!(Status::Partial, f.decode(&[0x81, 0x85, 1, 2, 3]));
    assert_eq!(None, f.mask);
    assert_eq!(Some(5), f.payload_len);
}

#[test]
fn every_truncation_is_partial() {
    let frames: [&[u8]; 4] = [
        &[0x81, 0x05],
        &[0x82, 126, 0x01, 0x00],
        &[0x82, 0x80 | 127, 0, 0, 0, 0, 0, 1, 0, 0, 1, 2, 3, 4],
        &[0x89, 0x80, 5, 6, 7, 8],
    ];
    for buf in frames {
        let mut f = Frame::empty();
        assert_eq!(Status::Complete(buf.len()), f.decode(buf));
        for k in 0..buf.len() {
            let mut g = Frame::empty();
            assert_eq!(Status::Partial, g.decode(&buf[..k]));
        }
    }
}

#[test]
fn partial_keeps_decoded_fields() {
    let buf = [0x82, 0x80 | 126, 0x01, 0x00, 9, 8, 7, 6];
    let mut full = Frame::empty();
    full.decode(&buf);
    for k in 0..buf.len() {
        let mut f = Frame::empty();
        assert_eq!(Status::Partial, f.decode(&buf[..k]));
        if f.head.is_some() {
            assert_eq!(full.head, f.head);
        }
        if f.payload_len.is_some() {
            assert_eq!(full.payload_len, f.payload_len);
        }
        assert_eq!(None, f.mask);
    }
}

#[test]
fn partial_never_clears_earlier_fields() {
    let mut f = Frame::empty();
    f.decode(&[0x82, 0x80 | 3, 1, 2, 3, 4]);
    assert!(f.mask.is_some());
    assert_eq!(Status::Partial, f.decode(&[0x01]));
    assert_eq!(Opcode::Text, f.head.unwrap().op);
    assert!(!f.head.unwrap().finished);
    assert_eq!(Some(3), f.payload_len);
    assert_eq!(Some([1, 2, 3, 4]), f.mask);
}

#[test]
fn status_accessors() {
    assert!(Status::Complete(3).is_complete());
    assert!(!Status::Complete(3).is_partial());
    assert!(Status::Partial.is_partial());
    assert!(!Status::Partial.is_complete());
    assert_eq!(7, Status::Complete(7).unwrap());
}

#[test]
fn cursor_reads_forward() {
    let data = [1u8, 2, 3, 4, 5];
    let mut b = Bytes::new(&data);
    assert_eq!(0, b.pos());
    assert_eq!(Some(1), b.next());
    assert_eq!(Some(&[2u8, 3][..]), b.slice_to(2));
    assert_eq!(3, b.pos());
    assert_eq!(None, b.slice_to(3));
    assert_eq!(6, b.pos());
    assert_eq!(None, b.next());
    assert_eq!(6, b.pos());
}

#[test]
fn cursor_empty_slice_to_zero() {
    let data: [u8; 0] = [];
    let mut b = Bytes::new(&data);
    assert_eq!(Some(&[][..]), b.slice_to(0));
    assert_eq!(None, b.next());
    assert_eq!(0, b.pos());
}
