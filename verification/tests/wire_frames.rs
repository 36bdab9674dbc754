use asr_core::build_message;
use asr_core::doubao_config_frame;
use asr_core::doubao_config_json;
use asr_core::parse_frame;
use asr_core::ASRError;
use asr_core::DoubaoSendState;

#[test]
fn test_build_audio_message_bytes() {
    let msg = build_message(0x2, 0x1, 2, &[1, 2, 3], 0x0).unwrap();
    let expected: Vec<u8> = vec![
        0x11, 0x21, 0x00, 0x00, // header: version 1, size 1 word; type 2 flags 1; raw
        0, 0, 0, 2, // sequence, big-endian
        0, 0, 0, 3, // payload length
        1, 2, 3, // payload
    ];
    assert_eq!(msg, expected);
}

#[test]
fn test_config_frame_roundtrip() {
    let json = doubao_config_json("my-app");
    assert!(json.starts_with("{\"user\":{\"uid\":\"my-app\"}"));
    let frame = doubao_config_frame(&json).unwrap();
    // full client request: type 0x1, flags 0x1, JSON serialization, gzip
    assert_eq!(frame[0], 0x11);
    assert_eq!(frame[1], 0x11);
    assert_eq!(frame[2], 0x11);
    assert_eq!(frame[3], 0x00);
    assert_eq!(&frame[4..8], &[0, 0, 0, 1]);
    // parsing the identical bytes yields the original JSON payload back,
    // through gzip decompression
    let parsed = parse_frame(&frame).unwrap();
    assert_eq!(parsed.flags, 0x1);
    assert_eq!(parsed.sequence, Some(1));
    assert!(!parsed.is_final);
    assert_eq!(parsed.payload, json.as_bytes());
    // the wire payload really was compressed: it differs from the raw JSON
    assert_ne!(&frame[12..], json.as_bytes());
}

#[test]
fn test_audio_frame_roundtrip_uncompressed() {
    let pcm: Vec<u8> = vec![9, 8, 7, 6];
    let msg = build_message(0x2, 0x3, 5, &pcm, 0x0).unwrap();
    let parsed = parse_frame(&msg).unwrap();
    assert_eq!(parsed.flags, 0x3);
    assert_eq!(parsed.sequence, Some(5));
    assert!(parsed.is_final);
    assert_eq!(parsed.payload, pcm);
}

#[test]
fn test_parse_error_frame() {
    // message type 0xf marks a server error; code follows the header
    let data: Vec<u8> = vec![0x11, 0xf0, 0x00, 0x00, 0, 0, 0, 42];
    match parse_frame(&data) {
        Err(ASRError::WebSocketError(_)) => {}
        other => panic!("expected a wire error, got {:?}", other),
    }
}

#[test]
fn test_parse_truncated_frames() {
    assert!(matches!(parse_frame(&[0x11]), Err(ASRError::InternalError(_))));
    // length field announces more payload than the frame carries
    let data: Vec<u8> = vec![0x11, 0x21, 0x00, 0x00, 0, 0, 0, 1, 0, 0, 0, 9, 1];
    assert!(matches!(parse_frame(&data), Err(ASRError::InternalError(_))));
}

#[test]
fn test_sequence_numbers_increase_and_negate() {
    let mut send = DoubaoSendState::new();
    assert_eq!(send.sequence, 1);
    let first = send.audio_frame(&[0, 0]);
    assert_eq!(&first[4..8], &2i32.to_be_bytes());
    let second = send.audio_frame(&[0, 0]);
    assert_eq!(&second[4..8], &3i32.to_be_bytes());
    let finish = send.finish_frame();
    // the end-of-stream marker carries the negated successor and no payload
    assert_eq!(&finish[4..8], &(-4i32).to_be_bytes());
    assert_eq!(&finish[8..12], &[0, 0, 0, 0]);
    assert_eq!(finish.len(), 12);
    assert_eq!(finish[1], 0x23);
}
