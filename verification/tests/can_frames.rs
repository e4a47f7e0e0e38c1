use tock_async::can::{decode_frames, Frames, Id};

fn record(id: u32, len: u8, payload: [u8; 8]) -> Vec<u8> {
    let mut r = Vec::new();
    r.extend_from_slice(&id.to_be_bytes());
    r.push(len);
    r.push(0);
    r.extend_from_slice(&payload);
    r
}

#[test]
fn two_records_then_short_garbage_yield_two_frames() {
    let mut buffer = vec![2u8];
    buffer.extend(record(0x0A1, 3, [1, 2, 3, 0, 0, 0, 0, 0]));
    buffer.extend(record(0x4000_0000 | 0x1ABC_DEF0, 8, [9, 8, 7, 6, 5, 4, 3, 2]));
    buffer.extend_from_slice(&[0xFF, 0xEE, 0xDD, 0xCC, 0xBB]);
    let frames = decode_frames(&buffer);
    assert_eq!(frames.len(), 2);
    assert_eq!(frames[0].id, Id::Standard(0x0A1));
    assert_eq!(frames[0].len, 3);
    assert_eq!(frames[0].message, [1, 2, 3, 0, 0, 0, 0, 0]);
    assert_eq!(frames[1].id, Id::Extended(0x1ABC_DEF0));
    assert_eq!(frames[1].len, 8);
    assert_eq!(frames[1].message, [9, 8, 7, 6, 5, 4, 3, 2]);
}

#[test]
fn fixed_buffer_stops_at_declared_count() {
    let mut buffer = [0u8; 43];
    buffer[0] = 1;
    buffer[1..15].copy_from_slice(&record(0x7FF, 1, [0xAA, 0, 0, 0, 0, 0, 0, 0]));
    let mut frames = Frames::from(buffer);
    assert_eq!(frames.len(), 1);
    assert!(!frames.is_empty());
    let first = frames.next().unwrap();
    assert_eq!(first.id, Id::Standard(0x7FF));
    assert_eq!(first.message[0], 0xAA);
    assert!(frames.next().is_none());
}

#[test]
fn fixed_buffer_stops_when_no_whole_record_is_left() {
    let mut buffer = [0u8; 43];
    buffer[0] = 200;
    for i in 0..3 {
        let start = 1 + 14 * i;
        buffer[start..start + 14].copy_from_slice(&record(i as u32 + 1, i as u8, [i as u8; 8]));
    }
    let mut frames = Frames::from(buffer);
    assert_eq!(frames.len(), 200);
    for i in 0..3u8 {
        let frame = frames.next().unwrap();
        assert_eq!(frame.id, Id::Standard(i as u16 + 1));
        assert_eq!(frame.len, i);
        assert_eq!(frame.message, [i; 8]);
    }
    assert!(frames.next().is_none());
}

#[test]
fn fixed_buffer_with_count_zero_is_empty() {
    let mut buffer = [0xFFu8; 43];
    buffer[0] = 0;
    let mut frames = Frames::from(buffer);
    assert!(frames.is_empty());
    assert_eq!(frames.len(), 0);
    assert!(frames.next().is_none());
    assert_eq!(frames.buffers, [0xFFu8; 42]);
    assert_eq!(frames.record_bytes(), &[0xFFu8; 42]);
}

#[test]
fn decode_frames_edge_cases() {
    assert_eq!(decode_frames(&[]).len(), 0);
    assert_eq!(decode_frames(&[3]).len(), 0);
    assert_eq!(decode_frames(&[0; 43]).len(), 0);
    let mut short = vec![1u8];
    short.extend_from_slice(&[0; 13]);
    assert_eq!(decode_frames(&short).len(), 0);
    short.push(0);
    assert_eq!(decode_frames(&short).len(), 1);
    let mut many = vec![5u8];
    many.extend_from_slice(&[0; 14 * 4 + 3]);
    assert_eq!(decode_frames(&many).len(), 4);
}

#[test]
fn decode_frames_reads_the_reserved_byte_as_padding() {
    let mut buffer = vec![1u8];
    buffer.extend_from_slice(&[0x40, 0, 0, 1, 8, 0xEE, 1, 2, 3, 4, 5, 6, 7, 8]);
    let frames = decode_frames(&buffer);
    assert_eq!(frames.len(), 1);
    assert_eq!(frames[0].id, Id::Extended(1));
    assert_eq!(frames[0].len, 8);
    assert_eq!(frames[0].message, [1, 2, 3, 4, 5, 6, 7, 8]);
}
