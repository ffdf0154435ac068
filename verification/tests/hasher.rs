use rinode::hasher::{fingerprint_of, tail_offset, CHUNK_SIZE};
use xxhash_rust::xxh3::xxh3_64_with_seed;

#[test]
fn fingerprint_is_deterministic() {
    let size: u64 = 200 * 1024;
    let head = vec![0xABu8; CHUNK_SIZE];
    let tail = vec![0xABu8; CHUNK_SIZE];
    let a = fingerprint_of(size, &head, &tail);
    let b = fingerprint_of(size, &head, &tail);
    assert_eq!(a, b);
    assert_eq!(a.len(), 16);
}

#[test]
fn fingerprint_hashes_size_head_and_tail() {
    let head = b"hello".to_vec();
    let mut buf = 5u64.to_le_bytes().to_vec();
    buf.extend_from_slice(&head);
    let expected = format!("{:016x}", xxh3_64_with_seed(&buf, 0));
    assert_eq!(fingerprint_of(5, &head, &[]), expected);

    let mut buf2 = 70000u64.to_le_bytes().to_vec();
    buf2.extend_from_slice(b"ab");
    buf2.extend_from_slice(b"cd");
    assert_eq!(fingerprint_of(70000, b"ab", b"cd"), format!("{:016x}", xxh3_64_with_seed(&buf2, 0)));
}

#[test]
fn fingerprint_depends_on_the_size() {
    assert_ne!(fingerprint_of(1, b"x", &[]), fingerprint_of(2, b"x", &[]));
}

#[test]
fn tail_is_read_only_past_one_chunk() {
    assert_eq!(tail_offset(65536), None);
    assert_eq!(tail_offset(65537), Some(1));
    assert_eq!(tail_offset(204800), Some(204800 - 65536));
    assert_eq!(tail_offset(0), None);
}
