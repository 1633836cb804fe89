use caligula::hashing::{hash_chunks, HashWorker};

const ABC_SHA256: [u8; 32] = [
    0xba, 0x78, 0x16, 0xbf, 0x8f, 0x01, 0xcf, 0xea, 0x41, 0x41, 0x40, 0xde, 0x5d, 0xae, 0x22, 0x23,
    0xb0, 0x03, 0x61, 0xa3, 0x96, 0x17, 0x7a, 0x9c, 0xb4, 0x10, 0xff, 0x61, 0xf2, 0x00, 0x15, 0xad,
];

const EMPTY_SHA256: [u8; 32] = [
    0xe3, 0xb0, 0xc4, 0x42, 0x98, 0xfc, 0x1c, 0x14, 0x9a, 0xfb, 0xf4, 0xc8, 0x99, 0x6f, 0xb9, 0x24,
    0x27, 0xae, 0x41, 0xe4, 0x64, 0x9b, 0x93, 0x4c, 0xa4, 0x95, 0x99, 0x1b, 0x78, 0x52, 0xb8, 0x55,
];

#[test]
fn worker_hashes_chunks_until_empty() {
    let mut w = HashWorker::new(4096);
    assert_eq!(w.buffer_size(), 4096);
    assert!(w.on_read(b"a"));
    assert!(w.on_read(b"bc"));
    assert!(!w.on_read(b""));
    assert_eq!(w.finish(), ABC_SHA256.to_vec());
}

#[test]
fn nothing_read_hashes_empty_input() {
    assert_eq!(HashWorker::new(1).finish(), EMPTY_SHA256.to_vec());
}

#[test]
fn chunks_after_the_end_are_ignored() {
    let chunks = vec![b"ab".to_vec(), b"c".to_vec(), vec![], b"zzz".to_vec()];
    assert_eq!(hash_chunks(&chunks), ABC_SHA256.to_vec());
    assert_eq!(hash_chunks(&vec![b"abc".to_vec()]), ABC_SHA256.to_vec());
}
