use dungeon::framing::{take_chunk, ChunkStep, CHUNK_SIZE};

#[test]
fn empty_read_means_closed() {
    let mut buf = vec![1u8, 2];
    assert_eq!(take_chunk(&mut buf, &[9u8; 64], 0), ChunkStep::Closed);
    assert_eq!(buf, vec![1, 2]);
}

#[test]
fn short_chunk_completes_message() {
    let mut buf = b"ab".to_vec();
    let mut chunk = vec![0u8; CHUNK_SIZE];
    chunk[..3].copy_from_slice(b"cde");
    assert_eq!(take_chunk(&mut buf, &chunk, 3), ChunkStep::Complete);
    assert_eq!(buf, b"abcde".to_vec());
}

#[test]
fn full_chunk_asks_for_more() {
    let mut buf = Vec::new();
    let chunk = vec![7u8; CHUNK_SIZE];
    assert_eq!(take_chunk(&mut buf, &chunk, CHUNK_SIZE), ChunkStep::More);
    assert_eq!(buf.len(), 64);
}
