//! Frame codec behaviour: round trips, header layout, and tolerance of
//! malformed input.

use speaky::client::AsrClient;
use speaky::codec;

#[test]
fn audio_frame_header_layout() {
    let audio = vec![1u8, 2, 3, 4, 5];
    let frame = AsrClient::build_audio_message(&audio);
    assert_eq!(frame.len(), 8 + 5);
    // version 1, header size 1 word
    assert_eq!(frame[0], 0x11);
    // type audio-only (0x02), flags 0
    assert_eq!(frame[1], 0x20);
    // no serialization, no compression
    assert_eq!(frame[2], 0x00);
    assert_eq!(frame[3], 0x00);
    // payload length, big-endian
    assert_eq!(&frame[4..8], &[0, 0, 0, 5]);
    assert_eq!(&frame[8..], &audio[..]);
}

#[test]
fn audio_frame_payload_len_matches_input_len() {
    for n in [0usize, 1, 100, 3200] {
        let audio = vec![0xabu8; n];
        let frame = AsrClient::build_audio_message(&audio);
        let declared = u32::from_be_bytes([frame[4], frame[5], frame[6], frame[7]]);
        assert_eq!(declared as usize, n);
        assert_eq!(frame[1] >> 4, 0x02);
        assert_eq!(frame[1] & 0x0f, 0x00);
    }
}

#[test]
fn finish_frame_is_zero_payload_with_finish_flag() {
    let frame = AsrClient::build_finish_message();
    assert_eq!(frame.len(), 8);
    assert_eq!(frame[0], 0x11);
    assert_eq!(frame[1], 0x22);
    assert_eq!(&frame[4..8], &[0, 0, 0, 0]);
    let audio = AsrClient::build_audio_message(&[0u8; 16]);
    assert_ne!(frame[1], audio[1]);
}

#[test]
fn round_trip_uncompressed() {
    let payload = b"hello frame payload".to_vec();
    let frame = codec::encode_message(0x01, &payload, false).unwrap();
    let (msg_type, flags, decoded) = codec::decode_message(&frame).unwrap();
    assert_eq!(msg_type, 0x01);
    assert_eq!(flags, 0);
    assert_eq!(decoded, payload);
}

#[test]
fn round_trip_compressed() {
    let payload = b"compress me please, compress me please".to_vec();
    let frame = codec::encode_message(0x01, &payload, true).unwrap();
    // the wire payload is gzip: the frame marks compression and the
    // payload starts with the gzip magic bytes, not the raw text
    assert_eq!(frame[2] & 0x0f, 0x01);
    assert_eq!(frame[8], 0x1f);
    assert_eq!(frame[9], 0x8b);
    let declared = u32::from_be_bytes([frame[4], frame[5], frame[6], frame[7]]);
    assert_eq!(declared as usize, frame.len() - 8);
    let (msg_type, flags, decoded) = codec::decode_message(&frame).unwrap();
    assert_eq!(msg_type, 0x01);
    assert_eq!(flags, 0);
    assert_eq!(decoded, payload);
}

#[test]
fn round_trip_empty_payload_both_ways() {
    for compress in [false, true] {
        let frame = codec::encode_message(0x02, &[], compress).unwrap();
        let (msg_type, _flags, decoded) = codec::decode_message(&frame).unwrap();
        assert_eq!(msg_type, 0x02);
        assert_eq!(decoded, Vec::<u8>::new());
    }
}

#[test]
fn decode_short_buffer_is_no_result() {
    assert!(codec::decode_message(&[]).is_none());
    assert!(codec::decode_message(&[0x11]).is_none());
    assert!(codec::decode_message(&[0x11, 0x20, 0x00]).is_none());
}

#[test]
fn decode_buffer_shorter_than_declared_header_is_no_result() {
    // header size nibble claims 3 words = 12 bytes, but only 6 arrive
    let data = [0x13u8, 0x20, 0x00, 0x00, 0x00, 0x00];
    assert!(codec::decode_message(&data).is_none());
    assert!(codec::parse_frame(&data).is_none());
}

#[test]
fn decode_body_shorter_than_skip_prefix_is_no_result() {
    // well-formed 4-byte header but only 2 body bytes, skip wants 4
    let data = [0x11u8, 0x90, 0x00, 0x00, 0x00, 0x00];
    assert!(codec::decode_message(&data).is_none());
}

#[test]
fn decode_tolerates_garbage_without_panicking() {
    let garbage = vec![0xffu8; 64];
    let _ = codec::decode_message(&garbage);
    let mut rising: Vec<u8> = Vec::new();
    for i in 0..64u32 {
        rising.push((i % 256) as u8);
        let _ = codec::decode_message(&rising);
    }
}

#[test]
fn flag_bit_selects_eight_byte_skip() {
    // flags = 1: after the 4-byte header, 8 bytes are skipped
    let data = [0x11u8, 0x91, 0x00, 0x00, 1, 2, 3, 4, 5, 6, 7, 8, 0xaa, 0xbb];
    let (msg_type, flags, payload) = codec::decode_message(&data).unwrap();
    assert_eq!(msg_type, 0x09);
    assert_eq!(flags, 0x01);
    assert_eq!(payload, vec![0xaa, 0xbb]);
}

#[test]
fn second_result_type_decodes_with_four_byte_skip() {
    // message type 0x0c with flags 0: 4 bytes are skipped after the header
    let data = [0x11u8, 0xc0, 0x00, 0x00, 0, 0, 0, 2, 0x41, 0x42];
    let (msg_type, flags, payload) = codec::decode_message(&data).unwrap();
    assert_eq!(msg_type, 0x0c);
    assert_eq!(flags, 0x00);
    assert_eq!(payload, b"AB".to_vec());
}
