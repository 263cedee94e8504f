use cellardoor::stream::chunk_from_read;
use cellardoor::stream::ByteStream;
use cellardoor::stream::CHUNK_SIZE;

fn pattern(n: usize) -> Vec<u8> {
    (0..n).map(|i| (i % 251) as u8).collect()
}

#[test]
fn round_trip_over_many_sizes() {
    for n in [0usize, 1, 1023, 1024, 1025, 1_000_000] {
        let data = pattern(n);
        let mut s = ByteStream::new(data.clone());
        assert_eq!(s.read_all(), data, "size {}", n);
    }
}

#[test]
fn chunks_are_bounded_and_in_order() {
    let data = pattern(1025);
    let mut s = ByteStream::new(data.clone());
    let first = s.next_chunk().unwrap();
    assert_eq!(first.len(), CHUNK_SIZE);
    assert_eq!(&first[..], &data[..CHUNK_SIZE]);
    let second = s.next_chunk().unwrap();
    assert_eq!(&second[..], &data[CHUNK_SIZE..]);
    assert!(s.next_chunk().is_none());
    assert!(s.next_chunk().is_none());
}

#[test]
fn empty_source_ends_at_once() {
    let mut s = ByteStream::new(Vec::new());
    assert!(s.next_chunk().is_none());
}

#[test]
fn one_pass_only() {
    let mut s = ByteStream::new(pattern(10));
    assert_eq!(s.read_all().len(), 10);
    assert!(s.read_all().is_empty());
}

#[test]
fn repeated_reads_are_byte_identical() {
    let data = pattern(4096);
    let first = ByteStream::new(data.clone()).read_all();
    let second = ByteStream::new(data.clone()).read_all();
    assert_eq!(first, second);
    assert_eq!(first, data);
}

#[test]
fn read_step_zero_bytes_means_end() {
    let buf = [7u8; 16];
    assert!(chunk_from_read(&buf, 0).is_none());
}

#[test]
fn read_step_takes_prefix() {
    let buf = [1u8, 2, 3, 4];
    assert_eq!(chunk_from_read(&buf, 3).unwrap(), vec![1, 2, 3]);
}
