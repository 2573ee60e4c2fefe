use led_controller::stats::{
    frame_message, is_stats_frame, push_decimal, stats_body, stats_message, u32_le_bytes,
};

#[test]
fn stats_due_on_multiples_of_thirty() {
    for n in 0u64..200 {
        assert_eq!(is_stats_frame(n), n > 0 && n % 30 == 0, "frame {}", n);
    }
    assert!(is_stats_frame(30));
    assert!(is_stats_frame(60));
    assert!(!is_stats_frame(0));
    assert!(!is_stats_frame(31));
}

#[test]
fn decimal_digits() {
    let mut out = Vec::new();
    push_decimal(&mut out, 0);
    assert_eq!(out, b"0".to_vec());
    let mut out = b"x".to_vec();
    push_decimal(&mut out, 305);
    assert_eq!(out, b"x305".to_vec());
    let mut out = Vec::new();
    push_decimal(&mut out, u64::MAX);
    assert_eq!(out, u64::MAX.to_string().into_bytes());
}

#[test]
fn stats_body_is_compact_json() {
    let body = stats_body(60, b"29.7");
    assert_eq!(
        String::from_utf8(body).unwrap(),
        "{\"frames_processed\":60,\"fps\":29.7,\"hardware_type\":\"Rust\"}"
    );
}

#[test]
fn message_carries_length_prefix() {
    let m = frame_message(b"abc").unwrap();
    assert_eq!(m, vec![3, 0, 0, 0, b'a', b'b', b'c']);
    assert_eq!(frame_message(b"").unwrap(), vec![0, 0, 0, 0]);
    assert_eq!(u32_le_bytes(0x0102_0304), [4, 3, 2, 1]);
}

#[test]
fn stats_message_frames_the_body() {
    let m = stats_message(30, b"0.4").unwrap();
    let json = "{\"frames_processed\":30,\"fps\":0.4,\"hardware_type\":\"Rust\"}";
    assert_eq!(&m[..4], &(json.len() as u32).to_le_bytes());
    assert_eq!(&m[4..], json.as_bytes());
}
