use zerosum::protocol::message::{ClientMessage, ServerMessage};
use zerosum::protocol::{
    check_length, check_version, encode_frame, first_byte_error, pad_payload, unpad_payload,
    ProtoError, MAX_FRAME_SIZE, PAD_BLOCK_SIZE, PROTOCOL_VERSION,
};

#[test]
fn test_pad_unpad() {
    let data = b"hello world";
    let padded = pad_payload(data);
    assert_eq!(padded.len() % PAD_BLOCK_SIZE, 0);
    let recovered = unpad_payload(&padded).unwrap();
    assert_eq!(recovered, data);
}

#[test]
fn padding_has_length_data_and_zeros() {
    let padded = pad_payload(&[7, 8, 9]);
    assert_eq!(padded.len(), 512);
    assert_eq!(&padded[..7], &[3, 0, 0, 0, 7, 8, 9]);
    assert!(padded[7..].iter().all(|b| *b == 0));
}

#[test]
fn padding_of_nothing_is_one_block() {
    let padded = pad_payload(&[]);
    assert_eq!(padded, vec![0u8; 512]);
    assert_eq!(unpad_payload(&padded), Some(vec![]));
}

#[test]
fn padding_hides_length_within_a_block() {
    assert_eq!(pad_payload(&[1; 3]).len(), pad_payload(&[1; 500]).len());
    assert_eq!(pad_payload(&[1; 512]).len(), 1024);
}

#[test]
fn padding_is_undone_for_every_length() {
    for len in (0usize..1100).chain([2044, 2045, 2046, 2047, 2048, 70_000]) {
        let data: Vec<u8> = (0..len).map(|i| i as u8).collect();
        let padded = pad_payload(&data);
        assert_eq!(padded.len() % PAD_BLOCK_SIZE, 0);
        assert_eq!(unpad_payload(&padded), Some(data));
    }
}

#[test]
fn padding_makes_room_for_a_nearly_full_block() {
    assert_eq!(pad_payload(&[7u8; 508]).len(), 512);
    let padded = pad_payload(&[7u8; 509]);
    assert_eq!(padded.len(), 1024);
    assert_eq!(padded[..4], [253, 1, 0, 0]);
    assert_eq!(padded[4..513], [7u8; 509]);
    assert!(padded[513..].iter().all(|b| *b == 0));
}

#[test]
fn unpadding_rejects_what_is_too_short() {
    assert_eq!(unpad_payload(&[]), None);
    assert_eq!(unpad_payload(&[0, 0, 0]), None);
    assert_eq!(unpad_payload(&[1, 0, 0, 0]), None);
    assert_eq!(unpad_payload(&[0xff, 0xff, 0xff, 0xff, 1]), None);
    assert_eq!(unpad_payload(&[1, 0, 0, 0, 9, 9]), Some(vec![9]));
}

#[test]
fn frame_is_version_length_payload() {
    let frame = encode_frame(&[1, 2, 3]).unwrap();
    assert_eq!(frame, vec![PROTOCOL_VERSION, 0, 0, 0, 3, 1, 2, 3]);
    let long = encode_frame(&vec![0u8; 0x12345]).unwrap();
    assert_eq!(&long[..5], &[3, 0x00, 0x01, 0x23, 0x45]);
}

#[test]
fn frame_of_the_largest_size_is_accepted() {
    let payload = vec![0u8; MAX_FRAME_SIZE as usize];
    assert_eq!(encode_frame(&payload).unwrap().len(), payload.len() + 5);
}

#[test]
fn frame_above_the_limit_is_refused() {
    let payload = vec![0u8; MAX_FRAME_SIZE as usize + 1];
    let e = encode_frame(&payload).unwrap_err();
    assert!(matches!(e, ProtoError::FrameTooLarge { size: 1048577, max: 1048576 }));
    assert_eq!(e.message(), "Frame too large: 1048577 bytes (max 1048576)");
}

#[test]
fn header_is_read_back() {
    let payload = vec![1u8; 70000];
    let frame = encode_frame(&payload).unwrap();
    assert!(check_version(frame[0]).is_ok());
    let len = check_length([frame[1], frame[2], frame[3], frame[4]]).unwrap();
    assert_eq!(&frame[5..5 + len as usize], &payload[..]);
}

#[test]
fn header_with_another_version_is_refused() {
    let e = check_version(2).unwrap_err();
    assert!(matches!(e, ProtoError::VersionMismatch { got: 2, expected: 3 }));
    assert_eq!(e.message(), "Protocol version mismatch: got 2, expected 3");
}

#[test]
fn header_with_a_huge_length_is_refused() {
    let e = check_length([0xff, 0, 0, 0]).unwrap_err();
    assert!(matches!(e, ProtoError::FrameTooLarge { size: 0xff000000, .. }));
    assert_eq!(check_length([0, 0x10, 0, 0]).unwrap(), MAX_FRAME_SIZE);
}

#[test]
fn end_of_stream_is_the_end_of_the_connection() {
    assert_eq!(first_byte_error(true, "x".to_string()).message(), "Connection closed");
    assert_eq!(first_byte_error(false, "broken".to_string()).message(), "IO error: broken");
    assert_eq!(ProtoError::Serde("bad".to_string()).message(), "Serialization error: bad");
}

#[test]
fn messages_can_be_cloned() {
    let m: ClientMessage = ClientMessage::Hello { version: 3 };
    assert!(matches!(m.clone(), ClientMessage::Hello { version: 3 }));
    let s: ServerMessage = ServerMessage::Error { message: "no".to_string() };
    assert!(matches!(s.clone(), ServerMessage::Error { message } if message == "no"));
}
