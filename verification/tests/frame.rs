use vp2pn::consts::DEFAULT_MTU;
use vp2pn::frame::{encode_frame, frame_header, BytesCodec, FrameError, HEADER_LEN};

#[test]
fn encode_prefixes_big_endian_length() {
    assert_eq!(encode_frame(&[1, 2, 3]), Ok(vec![0, 0, 0, 3, 1, 2, 3]));
}

#[test]
fn encode_empty_payload_is_bare_header() {
    assert_eq!(encode_frame(&[]), Ok(vec![0, 0, 0, 0]));
}

#[test]
fn header_is_big_endian() {
    assert_eq!(frame_header(258), Ok([0, 0, 1, 2]));
    assert_eq!(frame_header(0x0102_0304), Ok([1, 2, 3, 4]));
    assert_eq!(frame_header(u32::MAX as usize), Ok([0xff, 0xff, 0xff, 0xff]));
}

#[test]
fn header_refuses_length_above_u32() {
    if let Ok(len) = usize::try_from(u64::from(u32::MAX) + 1) {
        assert_eq!(frame_header(len), Err(FrameError::TooLong));
    }
}

#[test]
fn frame_len_reads_header() {
    let codec = BytesCodec::new(usize::from(DEFAULT_MTU));
    assert_eq!(codec.frame_len([0, 0, 1, 2]), Ok(258));
    assert_eq!(codec.frame_len([0, 0, 0, 0]), Ok(0));
}

#[test]
fn frame_len_accepts_the_limit_and_refuses_above() {
    let codec = BytesCodec::new(1400);
    assert_eq!(codec.frame_len(frame_header(1400).unwrap()), Ok(1400));
    assert_eq!(
        codec.frame_len(frame_header(1401).unwrap()),
        Err(FrameError::TooLarge { len: 1401, max: 1400 })
    );
    assert_eq!(
        codec.frame_len([0xff, 0xff, 0xff, 0xff]),
        Err(FrameError::TooLarge { len: u32::MAX as usize, max: 1400 })
    );
}

#[test]
fn read_after_write_gives_payload_back() {
    let codec = BytesCodec::new(1400);
    let payload: Vec<u8> = (0..300u32).map(|i| (i % 251) as u8).collect();
    let mut bytes = encode_frame(&payload).unwrap();
    bytes.extend_from_slice(&[9, 9, 9]);
    assert_eq!(codec.decode(&bytes), Ok((HEADER_LEN + 300, payload)));
}

#[test]
fn frames_follow_each_other_on_one_stream() {
    let codec = BytesCodec::new(16);
    let mut stream = encode_frame(&[1, 2]).unwrap();
    stream.extend_from_slice(&encode_frame(&[3, 4, 5]).unwrap());
    let (n, first) = codec.decode(&stream).unwrap();
    assert_eq!((n, first), (6, vec![1, 2]));
    assert_eq!(codec.decode(&stream[n..]), Ok((7, vec![3, 4, 5])));
}

#[test]
fn oversized_frame_is_refused() {
    let codec = BytesCodec::new(4);
    let bytes = encode_frame(&[0; 5]).unwrap();
    assert_eq!(
        codec.decode(&bytes),
        Err(FrameError::TooLarge { len: 5, max: 4 })
    );
}

#[test]
fn short_header_is_truncated() {
    let codec = BytesCodec::new(1400);
    assert_eq!(codec.decode(&[0, 0, 1]), Err(FrameError::Truncated));
    assert_eq!(codec.decode(&[]), Err(FrameError::Truncated));
}

#[test]
fn short_body_is_truncated() {
    let codec = BytesCodec::new(1400);
    assert_eq!(codec.decode(&[0, 0, 0, 3, 1, 2]), Err(FrameError::Truncated));
}

#[test]
fn limit_is_checked_before_body_length() {
    let codec = BytesCodec::new(2);
    assert_eq!(
        codec.decode(&[0, 0, 0, 3, 1]),
        Err(FrameError::TooLarge { len: 3, max: 2 })
    );
}

#[test]
fn write_after_read_gives_the_same_bytes() {
    let codec = BytesCodec::new(1400);
    let input = [0u8, 0, 0, 2, 7, 8, 42, 43];
    let (n, payload) = codec.decode(&input).unwrap();
    assert_eq!(encode_frame(&payload).unwrap(), input[..n].to_vec());
}
