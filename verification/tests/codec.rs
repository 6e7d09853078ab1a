use brio_smart_tech::codec::{decode, encode, DecodeError, EncodeError};

#[test]
fn encode_speed_zero_vector() {
    let frame = encode(&vec![0x01, 0x00]).unwrap();
    assert_eq!(frame, vec![0xAA, 0x02, 0x01, 0x00, 0xFD]);
}

#[test]
fn encode_empty_payload() {
    let frame = encode(&vec![]).unwrap();
    assert_eq!(frame, vec![0xAA, 0x00, 0x00]);
}

#[test]
fn encode_checksum_wraps_to_zero() {
    // length 1 plus payload 0xFF sums to 0x100, so the checksum is 0.
    let frame = encode(&vec![0xFF]).unwrap();
    assert_eq!(frame, vec![0xAA, 0x01, 0xFF, 0x00]);
}

#[test]
fn encode_rejects_oversized_payload() {
    let payload = vec![0u8; 256];
    assert_eq!(encode(&payload), Err(EncodeError::PayloadTooLarge));
}

#[test]
fn encode_accepts_largest_payload() {
    let payload = vec![7u8; 255];
    let frame = encode(&payload).unwrap();
    assert_eq!(frame.len(), 258);
    assert_eq!(frame[0], 0xAA);
    assert_eq!(frame[1], 255);
}

#[test]
fn round_trip_small_payloads() {
    let cases: Vec<Vec<u8>> = vec![
        vec![],
        vec![0x00],
        vec![0x01, 0x02],
        vec![0xFF, 0xFF, 0xFF],
        vec![0x02, 0x6F],
        vec![0x56, 0xAA, 0xF2],
    ];
    for payload in cases {
        let frame = encode(&payload).unwrap();
        assert_eq!(decode(&frame), Ok(payload));
    }
}

#[test]
fn round_trip_largest_payload() {
    let payload: Vec<u8> = (0..=254).map(|i| (i * 3 % 256) as u8).collect();
    assert_eq!(payload.len(), 255);
    let frame = encode(&payload).unwrap();
    assert_eq!(decode(&frame), Ok(payload));
}

#[test]
fn decode_rejects_empty_buffer() {
    assert_eq!(decode(&vec![]), Err(DecodeError::BadMarker));
}

#[test]
fn decode_rejects_wrong_marker() {
    assert_eq!(decode(&vec![0xAB, 0x02, 0x01, 0x00, 0xFD]), Err(DecodeError::BadMarker));
}

#[test]
fn decode_rejects_marker_alone() {
    assert_eq!(decode(&vec![0xAA]), Err(DecodeError::LengthMismatch));
}

#[test]
fn decode_rejects_short_body() {
    // declared length 2, but only one payload byte before the checksum
    assert_eq!(decode(&vec![0xAA, 0x02, 0x01, 0xFD]), Err(DecodeError::LengthMismatch));
}

#[test]
fn decode_rejects_long_body() {
    // declared length 1, but two payload bytes before the checksum
    assert_eq!(decode(&vec![0xAA, 0x01, 0x01, 0x00, 0xFD]), Err(DecodeError::LengthMismatch));
}

#[test]
fn decode_rejects_bad_checksum() {
    assert_eq!(decode(&vec![0xAA, 0x02, 0x01, 0x00, 0xFC]), Err(DecodeError::ChecksumMismatch));
}

#[test]
fn decode_accepts_good_frame() {
    assert_eq!(decode(&vec![0xAA, 0x02, 0x01, 0x00, 0xFD]), Ok(vec![0x01, 0x00]));
}
