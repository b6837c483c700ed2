use samsunghvac::frame::{crc16, FrameError, FrameParser};

const PAYLOAD: [u8; 13] = [
    0x80, 0x10, 0x10, 0x80, 0x20, 0x10, 0xc0, 0x15, 0x07, 0x01, 0x40, 0x00, 0x01,
];

type Fed = Result<Option<Vec<u8>>, FrameError>;

fn frame_with_crc(payload: &[u8], crc: u16) -> Vec<u8> {
    let mut frame = vec![0xfd, 0xf8, 0xef, 0x7c, 0x32];
    let size = (payload.len() + 4) as u16;
    frame.extend_from_slice(&size.to_be_bytes());
    frame.extend_from_slice(payload);
    frame.extend_from_slice(&crc.to_be_bytes());
    frame.push(0x34);
    frame
}

fn frame_for(payload: &[u8]) -> Vec<u8> {
    frame_with_crc(payload, crc16(payload))
}

fn feed_all(parser: &mut FrameParser, bytes: &[u8]) -> Vec<Fed> {
    bytes
        .iter()
        .map(|byte| parser.feed(*byte).map(|done| done.map(|data| data.as_slice().to_vec())))
        .collect()
}

fn quiet_then(results: &[Fed], last: Fed) {
    let (end, before) = results.split_last().unwrap();
    assert!(before.iter().all(|r| *r == Ok(None)));
    assert_eq!(*end, last);
}

#[test]
fn crc16_of_nothing_is_zero() {
    assert_eq!(crc16(&[]), 0);
}

#[test]
fn crc16_known_values() {
    assert_eq!(crc16(b"123456789"), 0x31c3);
    assert_eq!(crc16(&[0x01]), 0x1021);
    assert_eq!(crc16(&[0x80]), 0x9188);
    assert_eq!(crc16(&PAYLOAD), 0x9acd);
}

#[test]
fn frame_round_trip() {
    let frame = frame_for(&PAYLOAD);
    assert_eq!(&frame[..7], &[0xfd, 0xf8, 0xef, 0x7c, 0x32, 0x00, 0x11]);
    assert_eq!(&frame[20..], &[0x9a, 0xcd, 0x34]);
    let mut parser = FrameParser::new();
    let results = feed_all(&mut parser, &frame);
    quiet_then(&results, Ok(Some(PAYLOAD.to_vec())));
}

#[test]
fn frame_round_trip_of_every_length_up_to_the_maximum() {
    let mut parser = FrameParser::new();
    for len in [0usize, 1, 2, 255, 256, 1023, 1024] {
        let payload: Vec<u8> = (0..len).map(|i| (i * 7 + len) as u8).collect();
        let results = feed_all(&mut parser, &frame_for(&payload));
        assert_eq!(results.len(), len + 10);
        quiet_then(&results, Ok(Some(payload)));
    }
}

#[test]
fn two_frames_back_to_back() {
    let mut bytes = frame_for(&[1, 2, 3]);
    bytes.extend_from_slice(&frame_for(&[4, 5]));
    let mut parser = FrameParser::default();
    let done: Vec<Vec<u8>> =
        feed_all(&mut parser, &bytes).into_iter().filter_map(|r| r.unwrap()).collect();
    assert_eq!(done, vec![vec![1, 2, 3], vec![4, 5]]);
}

#[test]
fn declared_size_three_is_too_short() {
    let mut parser = FrameParser::new();
    let results = feed_all(&mut parser, &[0x32, 0x00, 0x03]);
    quiet_then(&results, Err(FrameError::FrameTooShort { size: 3 }));
}

#[test]
fn declared_size_four_is_an_empty_payload() {
    let mut parser = FrameParser::new();
    let results = feed_all(&mut parser, &[0x32, 0x00, 0x04, 0x00, 0x00, 0x34]);
    quiet_then(&results, Ok(Some(vec![])));
}

#[test]
fn declared_size_1029_is_too_long() {
    let mut parser = FrameParser::new();
    let results = feed_all(&mut parser, &[0x32, 0x04, 0x05]);
    quiet_then(&results, Err(FrameError::FrameTooLong { size: 1029 }));
}

#[test]
fn declared_size_1028_is_not_too_long() {
    let mut parser = FrameParser::new();
    let results = feed_all(&mut parser, &[0x32, 0x04, 0x04]);
    quiet_then(&results, Ok(None));
}

#[test]
fn noise_before_a_frame_is_passed_over() {
    let mut bytes = vec![0x00, 0xff, 0x34, 0x31, 0x33, 0xfd];
    bytes.extend_from_slice(&frame_for(&PAYLOAD));
    let mut parser = FrameParser::new();
    let results = feed_all(&mut parser, &bytes);
    quiet_then(&results, Ok(Some(PAYLOAD.to_vec())));
}

#[test]
fn hunt_recovers_after_a_broken_frame() {
    // a frame whose end byte is wrong, then a good frame
    let mut bytes = frame_for(&[9, 9]);
    let last = bytes.len() - 1;
    bytes[last] = 0x35;
    bytes.extend_from_slice(&frame_for(&PAYLOAD));
    let mut parser = FrameParser::new();
    let results = feed_all(&mut parser, &bytes);
    assert_eq!(results[last], Err(FrameError::BadFrameEnd { received: 0x35 }));
    assert_eq!(*results.last().unwrap(), Ok(Some(PAYLOAD.to_vec())));
}

#[test]
fn a_start_byte_in_the_noise_can_swallow_the_frame() {
    // the noise declares a payload of 1020 bytes, which takes the frame for its own
    let mut bytes = vec![0x32, 0x04, 0x00];
    bytes.extend_from_slice(&frame_for(&PAYLOAD));
    let mut parser = FrameParser::new();
    let results = feed_all(&mut parser, &bytes);
    assert!(results.iter().all(|r| *r == Ok(None)));
}

#[test]
fn every_flipped_crc_bit_is_a_bad_crc() {
    let good = crc16(&PAYLOAD);
    for bit in 0..16 {
        let received = good ^ (1 << bit);
        let frame = frame_with_crc(&PAYLOAD, received);
        let mut parser = FrameParser::new();
        let results = feed_all(&mut parser, &frame);
        let at = frame.len() - 2;
        assert!(results[..at].iter().all(|r| *r == Ok(None)));
        assert_eq!(results[at], Err(FrameError::BadCrc { received, expected: good }));
        // the end byte is passed over by the hunt for the next start byte
        assert_eq!(results[at + 1], Ok(None));
    }
}

#[test]
fn a_flipped_payload_bit_is_a_bad_crc() {
    let mut frame = frame_for(&PAYLOAD);
    frame[10] ^= 0x04;
    let mut parser = FrameParser::new();
    let results = feed_all(&mut parser, &frame);
    assert!(matches!(results[frame.len() - 2], Err(FrameError::BadCrc { .. })));
}

#[test]
fn wrong_end_byte_is_a_bad_frame_end() {
    let mut frame = frame_for(&PAYLOAD);
    let last = frame.len() - 1;
    frame[last] = 0x00;
    let mut parser = FrameParser::new();
    let results = feed_all(&mut parser, &frame);
    quiet_then(&results, Err(FrameError::BadFrameEnd { received: 0x00 }));
}

#[test]
fn parser_starts_over_after_an_error() {
    let mut parser = FrameParser::new();
    let results = feed_all(&mut parser, &[0x32, 0x00, 0x00]);
    quiet_then(&results, Err(FrameError::FrameTooShort { size: 0 }));
    let results = feed_all(&mut parser, &frame_for(&[7]));
    quiet_then(&results, Ok(Some(vec![7])));
}
