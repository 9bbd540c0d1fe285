use rithmic_api::errors::RithmicApiError;
use rithmic_api::framing::{decode_frame, encode_frame, HEADER_LEN};

#[test]
fn frame_starts_with_big_endian_length() {
    let framed = encode_frame(&[0xAA, 0xBB, 0xCC]).unwrap();
    assert_eq!(framed, vec![0, 0, 0, 3, 0xAA, 0xBB, 0xCC]);
}

#[test]
fn empty_payload_is_a_bare_header() {
    let framed = encode_frame(&[]).unwrap();
    assert_eq!(framed, vec![0, 0, 0, 0]);
    assert_eq!(decode_frame(&framed).unwrap(), &[] as &[u8]);
}

#[test]
fn header_uses_all_four_bytes() {
    let payload = vec![7u8; 0x01_02_03];
    let framed = encode_frame(&payload).unwrap();
    assert_eq!(&framed[..HEADER_LEN], &[0x00, 0x01, 0x02, 0x03]);
    assert_eq!(framed.len(), HEADER_LEN + payload.len());
    assert_eq!(&framed[HEADER_LEN..], &payload[..]);
}

#[test]
fn header_agrees_with_u32_to_be_bytes() {
    for len in [0usize, 1, 255, 256, 257, 65_535, 65_536, 70_000] {
        let payload = vec![1u8; len];
        let framed = encode_frame(&payload).unwrap();
        assert_eq!(&framed[..4], &(len as u32).to_be_bytes());
    }
}

#[test]
fn framing_round_trip() {
    let payloads: Vec<Vec<u8>> = vec![
        vec![],
        vec![0],
        vec![0xFF; 300],
        (0..=255u8).collect(),
        vec![0x98, 0xB5, 0x4B, 0x12],
    ];
    for payload in payloads {
        let framed = encode_frame(&payload).unwrap();
        assert_eq!(decode_frame(&framed).unwrap(), &payload[..]);
    }
}

#[test]
fn decode_reads_the_announced_bytes_only() {
    let data = [0, 0, 0, 2, 10, 20, 30, 40];
    assert_eq!(decode_frame(&data).unwrap(), &[10, 20]);
}

#[test]
fn decode_combines_the_header_bytes() {
    let mut data = vec![0x00, 0x00, 0x01, 0x02];
    data.extend(vec![9u8; 0x0102]);
    assert_eq!(decode_frame(&data).unwrap().len(), 0x0102);
}

#[test]
fn short_header_is_a_framing_error() {
    for data in [&[][..], &[0][..], &[0, 0][..], &[0, 0, 0][..]] {
        assert!(matches!(decode_frame(data), Err(RithmicApiError::Io(_))));
    }
}

#[test]
fn short_payload_is_a_framing_error() {
    let data = [0, 0, 0, 5, 1, 2, 3, 4];
    assert!(matches!(decode_frame(&data), Err(RithmicApiError::Io(_))));
    let huge = [0xFF, 0xFF, 0xFF, 0xFF, 1];
    assert!(matches!(decode_frame(&huge), Err(RithmicApiError::Io(_))));
}

#[test]
fn cut_frame_is_never_taken_for_a_shorter_message() {
    let framed = encode_frame(&[1, 2, 3, 4, 5]).unwrap();
    for kept in 0..framed.len() {
        assert!(matches!(decode_frame(&framed[..kept]), Err(RithmicApiError::Io(_))));
    }
}
