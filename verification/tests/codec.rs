use bride::codec::{encode, try_decode, DecodeOutcome, FRAME_MAGIC};

#[test]
fn round_trip_simple() {
    let frame = encode("hello");
    match try_decode(&frame) {
        DecodeOutcome::Complete(text, consumed) => {
            assert_eq!(text, "hello");
            assert_eq!(consumed, frame.len());
        },
        _ => panic!("expected a complete frame"),
    }
}

#[test]
fn round_trip_empty() {
    let frame = encode("");
    match try_decode(&frame) {
        DecodeOutcome::Complete(text, consumed) => {
            assert_eq!(text, "");
            assert_eq!(consumed, 8);
        },
        _ => panic!("expected a complete frame"),
    }
}

#[test]
fn round_trip_unicode() {
    let frame = encode("héllo wörld ✓");
    match try_decode(&frame) {
        DecodeOutcome::Complete(text, consumed) => {
            assert_eq!(text, "héllo wörld ✓");
            assert_eq!(consumed, frame.len());
        },
        _ => panic!("expected a complete frame"),
    }
}

#[test]
fn frame_layout_is_magic_length_payload() {
    let frame = encode("ab");
    assert_eq!(&frame[0..4], &FRAME_MAGIC.to_le_bytes());
    assert_eq!(&frame[4..8], &2u32.to_le_bytes());
    assert_eq!(&frame[8..], b"ab");
}

#[test]
fn every_strict_prefix_is_incomplete() {
    let frame = encode("some payload");
    for cut in 0..frame.len() {
        match try_decode(&frame[0..cut]) {
            DecodeOutcome::Incomplete => (),
            _ => panic!("prefix of length {} must be incomplete", cut),
        }
    }
}

#[test]
fn trailing_bytes_are_not_consumed() {
    let mut bytes = encode("first");
    let frame_len = bytes.len();
    bytes.extend_from_slice(&encode("second"));
    match try_decode(&bytes) {
        DecodeOutcome::Complete(text, consumed) => {
            assert_eq!(text, "first");
            assert_eq!(consumed, frame_len);
        },
        _ => panic!("expected a complete frame"),
    }
}

#[test]
fn bad_magic_is_corrupt() {
    let mut frame = encode("hello");
    frame[0] = 0x00;
    match try_decode(&frame) {
        DecodeOutcome::Corrupt => (),
        _ => panic!("a wrong magic constant must be corrupt"),
    }
}

#[test]
fn invalid_utf8_payload_is_corrupt() {
    let mut frame: Vec<u8> = Vec::new();
    frame.extend_from_slice(&FRAME_MAGIC.to_le_bytes());
    frame.extend_from_slice(&2u32.to_le_bytes());
    frame.extend_from_slice(&[0xff, 0xfe]);
    match try_decode(&frame) {
        DecodeOutcome::Corrupt => (),
        _ => panic!("an invalid payload must be corrupt"),
    }
}
