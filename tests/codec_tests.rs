use led_controller::codec::{decode, payload_length, read_u16_le, read_u32_le, FrameError};

fn payload(width: u16, height: u16, pixels: &[u8]) -> Vec<u8> {
    let mut p = vec![1, 7, 0x78, 0x56, 0x34, 0x12];
    p.extend_from_slice(&width.to_le_bytes());
    p.extend_from_slice(&height.to_le_bytes());
    p.extend_from_slice(pixels);
    p
}

#[test]
fn decode_exact_payload_yields_all_triples() {
    let p = payload(2, 1, &[1, 2, 3, 4, 5, 6]);
    let f = decode(&p).unwrap();
    assert_eq!(f.header.width, 2);
    assert_eq!(f.header.height, 1);
    assert_eq!(f.pixel_data, &[1, 2, 3, 4, 5, 6][..]);
}

#[test]
fn decode_keeps_reserved_header_fields() {
    let p = payload(1, 1, &[9, 9, 9]);
    let f = decode(&p).unwrap();
    assert_eq!(f.header.version, 1);
    assert_eq!(f.header.frame_type, 7);
    assert_eq!(f.header.frame_id, 0x1234_5678);
}

#[test]
fn decode_ignores_trailing_bytes() {
    let p = payload(1, 2, &[1, 2, 3, 4, 5, 6, 7, 8]);
    let f = decode(&p).unwrap();
    assert_eq!(f.pixel_data, &[1, 2, 3, 4, 5, 6][..]);
}

#[test]
fn decode_zero_sized_frame() {
    let p = payload(0, 5, &[]);
    let f = decode(&p).unwrap();
    assert_eq!(f.header.height, 5);
    assert!(f.pixel_data.is_empty());
}

#[test]
fn decode_rejects_short_payloads() {
    for len in 0..10usize {
        let p = vec![0u8; len];
        assert_eq!(decode(&p).err(), Some(FrameError::TooShort));
    }
}

#[test]
fn decode_rejects_missing_pixel_bytes() {
    let p = payload(2, 1, &[1, 2, 3, 4, 5]);
    assert_eq!(decode(&p).err(), Some(FrameError::InsufficientPixelData));
    let header_only = payload(1, 1, &[]);
    assert_eq!(decode(&header_only).err(), Some(FrameError::InsufficientPixelData));
}

#[test]
fn decode_large_dimensions_do_not_wrap() {
    // 65535 * 65535 wraps in 16 bits; the product must be computed wide.
    let p = payload(0xFFFF, 0xFFFF, &[0; 30]);
    assert_eq!(decode(&p).err(), Some(FrameError::InsufficientPixelData));
    let q = payload(256, 256, &[0; 3]);
    assert_eq!(decode(&q).err(), Some(FrameError::InsufficientPixelData));
}

#[test]
fn length_prefix_is_little_endian() {
    assert_eq!(payload_length([1, 2, 3, 4]), 0x0403_0201);
    assert_eq!(payload_length([16, 0, 0, 0]), 16);
    assert_eq!(payload_length([0xFF; 4]), u32::MAX);
}

#[test]
fn reads_little_endian_words() {
    let b = [0x34, 0x12, 0x78, 0x56, 0xAA];
    assert_eq!(read_u16_le(&b, 0), 0x1234);
    assert_eq!(read_u16_le(&b, 3), 0xAA56);
    assert_eq!(read_u32_le(&b, 0), 0x5678_1234);
}
