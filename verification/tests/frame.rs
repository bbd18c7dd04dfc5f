use rk_loader::frame::{build_frame, chunk, count_chunks, pad, seal, CHUNK_SIZE};

#[test]
fn frame_of_check_string_ends_with_29b1() {
    let frame = build_frame(b"123456789");
    assert_eq!(frame.len(), 11);
    assert_eq!(&frame[..9], b"123456789");
    assert_eq!(&frame[9..], &[0x29, 0xb1]);
}

#[test]
fn frame_of_empty_payload_is_the_initial_checksum() {
    // CRC-16/IBM-3740 starts from 0xffff and has no final xor, so nothing
    // fed through it leaves 0xffff.
    let frame = build_frame(&[]);
    assert_eq!(frame.len(), 2);
    assert_eq!(frame, vec![0xff, 0xff]);
}

#[test]
fn frame_of_ten_bytes() {
    let frame = build_frame(&[0xaa; 10]);
    let mut expected = vec![0xaa_u8; 10];
    expected.extend_from_slice(&[0x6b, 0xb6]);
    assert_eq!(frame, expected);
}

#[test]
fn checksum_is_big_endian() {
    // The checksum of 4094 bytes of 0x11 is 0x18ac: its bytes differ, so the
    // order shows.
    let frame = build_frame(&[0x11; 4094]);
    assert_eq!(frame.len(), 4096);
    assert_eq!(frame[4094], 0x18);
    assert_eq!(frame[4095], 0xac);
}

#[test]
fn payload_of_4095_bytes_is_padded() {
    let payload = vec![0x5a_u8; 4095];
    let body = pad(&payload);
    assert_eq!(body.len(), 4096);
    assert_eq!(&body[..4095], &payload[..]);
    assert_eq!(body[4095], 0x00);
}

#[test]
fn checksum_covers_the_padding() {
    // 0x5565 is the checksum of the 4095 bytes and the zero byte; the 4095
    // bytes alone give 0xc91d.
    let frame = build_frame(&[0x5a; 4095]);
    assert_eq!(frame.len(), 4098);
    assert_eq!(frame[4095], 0x00);
    assert_eq!(&frame[4096..], &[0x55, 0x65]);
}

#[test]
fn payload_of_8191_bytes_is_padded() {
    let frame = build_frame(&[0x01; 8191]);
    assert_eq!(frame.len(), 8194);
    assert_eq!(frame[8191], 0x00);
    assert_eq!(&frame[8192..], &[0xe9, 0x8e]);
}

#[test]
fn other_lengths_are_not_padded() {
    for len in [0_usize, 1, 9, 4093, 4094, 4096, 4097, 8190, 8192] {
        let payload = vec![0x33_u8; len];
        assert_eq!(pad(&payload), payload);
        assert_eq!(build_frame(&payload).len(), len + 2);
    }
}

#[test]
fn padding_is_applied_only_at_4095_modulo_4096() {
    for len in 0_usize..=8200 {
        let padded = pad(&vec![0x01_u8; len]).len();
        if len % 4096 == 4095 {
            assert_eq!(padded, len + 1);
        } else {
            assert_eq!(padded, len);
        }
        assert_ne!(padded % 4096, 4095);
    }
}

#[test]
fn payload_of_4093_bytes_gives_a_frame_of_4095() {
    let frame = build_frame(&[0x07; 4093]);
    assert_eq!(frame.len(), 4095);
    assert_eq!(&frame[4093..], &[0x18, 0x7a]);
    assert_eq!(count_chunks(&frame), 1);
    assert_eq!(chunk(&frame, 0), frame);
}

#[test]
fn seal_appends_high_byte_first() {
    assert_eq!(seal(vec![1, 2, 3], 0x29b1), vec![1, 2, 3, 0x29, 0xb1]);
    assert_eq!(seal(Vec::new(), 0x00ff), vec![0x00, 0xff]);
    assert_eq!(seal(Vec::new(), 0xff00), vec![0xff, 0x00]);
}

#[test]
fn chunk_size_is_4096() {
    assert_eq!(CHUNK_SIZE, 4096);
}

#[test]
fn frame_of_4096_bytes_has_a_terminator() {
    let frame = vec![0x5a_u8; 4096];
    assert_eq!(count_chunks(&frame), 2);
    assert_eq!(chunk(&frame, 0), vec![0x5a_u8; 4096]);
    assert_eq!(chunk(&frame, 1), vec![0x00_u8]);
}

#[test]
fn frame_of_4097_bytes_has_a_short_last_chunk() {
    let mut frame = vec![0x5a_u8; 4096];
    frame.push(0x77);
    assert_eq!(count_chunks(&frame), 2);
    assert_eq!(chunk(&frame, 0), vec![0x5a_u8; 4096]);
    assert_eq!(chunk(&frame, 1), vec![0x77_u8]);
}

#[test]
fn empty_frame_is_one_terminator() {
    assert_eq!(count_chunks(&[]), 1);
    assert_eq!(chunk(&[], 0), vec![0x00_u8]);
}

#[test]
fn chunks_keep_the_order_of_the_frame() {
    let frame: Vec<u8> = (0..10_000_u32).map(|i| (i % 251) as u8).collect();
    assert_eq!(count_chunks(&frame), 3);
    assert_eq!(chunk(&frame, 0), frame[..4096].to_vec());
    assert_eq!(chunk(&frame, 1), frame[4096..8192].to_vec());
    assert_eq!(chunk(&frame, 2), frame[8192..].to_vec());
    assert_eq!(chunk(&frame, 2).len(), 10_000 - 8192);
}

#[test]
fn chunks_joined_are_the_frame() {
    for len in [1_usize, 4095, 4097, 8191, 12_000] {
        let frame: Vec<u8> = (0..len).map(|i| (i % 253) as u8).collect();
        let mut joined = Vec::new();
        for i in 0..count_chunks(&frame) {
            joined.extend_from_slice(&chunk(&frame, i));
        }
        assert_eq!(joined, frame);
    }
    for len in [0_usize, 4096, 8192] {
        let frame: Vec<u8> = (0..len).map(|i| (i % 253) as u8).collect();
        let mut joined = Vec::new();
        for i in 0..count_chunks(&frame) {
            joined.extend_from_slice(&chunk(&frame, i));
        }
        let mut expected = frame.clone();
        expected.push(0x00);
        assert_eq!(joined, expected);
    }
}

#[test]
fn checksum_is_never_split_across_chunks() {
    for len in [4092_usize, 4093, 4094, 4095, 4096, 8189, 8190, 8191, 8192] {
        let frame = build_frame(&vec![0x42_u8; len]);
        assert_ne!(frame.len() % 4096, 1);
        let last = (frame.len() - 1) / 4096;
        let piece = chunk(&frame, last);
        assert!(piece.len() >= 2);
        assert_eq!(&piece[piece.len() - 2..], &frame[frame.len() - 2..]);
    }
}

#[test]
fn chunk_past_the_end_is_the_terminator() {
    let frame = vec![0x01_u8; 100];
    assert_eq!(chunk(&frame, 1), vec![0x00_u8]);
    assert_eq!(chunk(&frame, usize::MAX), vec![0x00_u8]);
}
