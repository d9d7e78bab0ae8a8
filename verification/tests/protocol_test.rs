use deskserver::protocol::{encode_frame, frame_header, frame_len, FrameError, MAX_FRAME_SIZE};

/// Read a stream of frames the way a reader does: header, then payload.
fn read_frames(mut stream: &[u8]) -> Result<Vec<Vec<u8>>, FrameError> {
    let mut out = Vec::new();
    while !stream.is_empty() {
        let header = [stream[0], stream[1], stream[2], stream[3]];
        let len = frame_len(header)? as usize;
        out.push(stream[4..4 + len].to_vec());
        stream = &stream[4 + len..];
    }
    Ok(out)
}

#[test]
fn reject_oversized_frame() {
    let fake_len: u32 = 2 * 1024 * 1024;
    let mut buf = Vec::new();
    buf.extend_from_slice(&fake_len.to_le_bytes());
    buf.extend_from_slice(&[0u8; 64]);

    let header = [buf[0], buf[1], buf[2], buf[3]];
    let result = frame_len(header);
    assert!(result.is_err());
    assert_eq!(result, Err(FrameError::TooLarge { len: fake_len }));
}

#[test]
fn frame_header_is_little_endian() {
    assert_eq!(frame_header(0x0102_0304), [0x04, 0x03, 0x02, 0x01]);
    assert_eq!(frame_header(0), [0, 0, 0, 0]);
    assert_eq!(frame_header(u32::MAX), [0xFF, 0xFF, 0xFF, 0xFF]);
    for len in [0u32, 1, 255, 256, 65535, 1 << 20, 0xDEAD_BEEF] {
        assert_eq!(frame_header(len), len.to_le_bytes());
    }
}

#[test]
fn encode_frame_prefixes_length() {
    let frame = encode_frame(&[7, 8, 9]);
    assert_eq!(frame, vec![3, 0, 0, 0, 7, 8, 9]);
    assert_eq!(encode_frame(&[]), vec![0, 0, 0, 0]);
}

#[test]
fn frame_len_accepts_up_to_max() {
    assert_eq!(frame_len(MAX_FRAME_SIZE.to_le_bytes()), Ok(MAX_FRAME_SIZE));
    assert_eq!(
        frame_len((MAX_FRAME_SIZE + 1).to_le_bytes()),
        Err(FrameError::TooLarge { len: MAX_FRAME_SIZE + 1 })
    );
    assert_eq!(frame_len([42, 0, 0, 0]), Ok(42));
    assert_eq!(frame_len([0, 1, 0, 0]), Ok(256));
}

#[test]
fn frames_in_sequence_read_back_in_order() {
    let payloads: Vec<Vec<u8>> = vec![vec![1], vec![], vec![2, 3, 4], vec![5; 300]];
    let mut stream = Vec::new();
    for p in &payloads {
        stream.extend_from_slice(&encode_frame(p));
    }
    assert_eq!(read_frames(&stream), Ok(payloads));
}
