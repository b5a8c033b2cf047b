use asset_overlay::buffer::{SeekFrom, VirtualBuffer};

fn sample() -> VirtualBuffer {
    VirtualBuffer::new(vec![10, 11, 12, 13, 14, 15, 16, 17])
}

#[test]
fn new_buffer_starts_at_zero() {
    let buffer = sample();
    assert_eq!(buffer.len(), 8);
    assert_eq!(buffer.position(), 0);
    assert_eq!(buffer.remaining(), 8);
    assert_eq!(buffer.bytes(), &[10, 11, 12, 13, 14, 15, 16, 17]);
}

#[test]
fn read_copies_from_the_cursor_and_advances() {
    let mut buffer = sample();
    let mut dst = [0u8; 3];
    assert_eq!(buffer.read(&mut dst), 3);
    assert_eq!(dst, [10, 11, 12]);
    assert_eq!(buffer.position(), 3);
    assert_eq!(buffer.read(&mut dst), 3);
    assert_eq!(dst, [13, 14, 15]);
    assert_eq!(buffer.position(), 6);
}

#[test]
fn short_read_leaves_the_rest_of_the_destination() {
    let mut buffer = sample();
    assert_eq!(buffer.seek(SeekFrom::Start(6)), Some(6));
    let mut dst = [1u8, 2, 3, 4, 5];
    assert_eq!(buffer.read(&mut dst), 2);
    assert_eq!(dst, [16, 17, 3, 4, 5]);
    assert_eq!(buffer.position(), 8);
    assert_eq!(buffer.remaining(), 0);
    assert_eq!(buffer.read(&mut dst), 0);
    assert_eq!(dst, [16, 17, 3, 4, 5]);
    assert_eq!(buffer.position(), 8);
}

#[test]
fn read_into_empty_destination_copies_nothing() {
    let mut buffer = sample();
    let mut dst: [u8; 0] = [];
    assert_eq!(buffer.read(&mut dst), 0);
    assert_eq!(buffer.position(), 0);
}

#[test]
fn read_of_empty_buffer_copies_nothing() {
    let mut buffer = VirtualBuffer::new(Vec::new());
    let mut dst = [9u8; 4];
    assert_eq!(buffer.read(&mut dst), 0);
    assert_eq!(dst, [9, 9, 9, 9]);
    assert_eq!(buffer.len(), 0);
    assert_eq!(buffer.remaining(), 0);
}

#[test]
fn seek_from_start_current_and_end() {
    let mut buffer = sample();
    assert_eq!(buffer.seek(SeekFrom::Start(5)), Some(5));
    assert_eq!(buffer.seek(SeekFrom::Current(-2)), Some(3));
    assert_eq!(buffer.seek(SeekFrom::Current(4)), Some(7));
    assert_eq!(buffer.seek(SeekFrom::End(-8)), Some(0));
    assert_eq!(buffer.seek(SeekFrom::End(0)), Some(8));
    assert_eq!(buffer.remaining(), 0);
}

#[test]
fn seek_past_the_end_is_allowed_and_reads_nothing() {
    let mut buffer = sample();
    assert_eq!(buffer.seek(SeekFrom::End(4)), Some(12));
    assert_eq!(buffer.position(), 12);
    assert_eq!(buffer.remaining(), 0);
    let mut dst = [7u8; 2];
    assert_eq!(buffer.read(&mut dst), 0);
    assert_eq!(dst, [7, 7]);
    assert_eq!(buffer.position(), 12);
}

#[test]
fn seek_before_the_start_is_refused() {
    let mut buffer = sample();
    assert_eq!(buffer.seek(SeekFrom::Start(2)), Some(2));
    assert_eq!(buffer.seek(SeekFrom::Current(-3)), None);
    assert_eq!(buffer.position(), 2);
    assert_eq!(buffer.seek(SeekFrom::End(-9)), None);
    assert_eq!(buffer.position(), 2);
}

#[test]
fn seek_beyond_sixty_four_bits_is_refused() {
    let mut buffer = sample();
    assert_eq!(buffer.seek(SeekFrom::Start(u64::MAX)), Some(u64::MAX));
    assert_eq!(buffer.seek(SeekFrom::Current(1)), None);
    assert_eq!(buffer.position(), u64::MAX);
    assert_eq!(buffer.seek(SeekFrom::Current(0)), Some(u64::MAX));
    assert_eq!(buffer.seek(SeekFrom::Current(i64::MIN)), Some(u64::MAX - (1u64 << 63)));
}

#[test]
fn seek_matches_std_cursor() {
    let bytes: Vec<u8> = (0u8..20).collect();
    let moves: [(u8, i64); 12] = [
        (0, 5),
        (1, 3),
        (1, -4),
        (2, -1),
        (2, 3),
        (1, -30),
        (0, 0),
        (2, -20),
        (2, -21),
        (1, i64::MAX),
        (1, i64::MAX),
        (1, 2),
    ];
    let mut ours = VirtualBuffer::new(bytes.clone());
    let mut theirs = std::io::Cursor::new(bytes);
    for (origin, offset) in moves {
        let (to, std_to) = match origin {
            0 => (SeekFrom::Start(offset as u64), std::io::SeekFrom::Start(offset as u64)),
            1 => (SeekFrom::Current(offset), std::io::SeekFrom::Current(offset)),
            _ => (SeekFrom::End(offset), std::io::SeekFrom::End(offset)),
        };
        let expected = std::io::Seek::seek(&mut theirs, std_to).ok();
        assert_eq!(ours.seek(to), expected);
        assert_eq!(ours.position(), theirs.position());
        let mut a = [0u8; 6];
        let mut b = [0u8; 6];
        let n = std::io::Read::read(&mut theirs, &mut b).unwrap();
        assert_eq!(ours.read(&mut a), n);
        assert_eq!(a, b);
        assert_eq!(ours.position(), theirs.position());
    }
}
