use bacify::digest::{digest_of, digest_of_pieces, same_digest, ContentHasher};

const ABC: [u8; 32] = [
    186, 120, 22, 191, 143, 1, 207, 234, 65, 65, 64, 222, 93, 174, 34, 35, 176, 3, 97, 163, 150,
    23, 122, 156, 180, 16, 255, 97, 242, 0, 21, 173,
];

fn hex(digest: &[u8; 32]) -> String {
    let mut text = String::new();
    for byte in digest {
        text.push_str(&format!("{:02x}", byte));
    }
    text
}

#[test]
fn digest_of_abc() {
    assert_eq!(digest_of(b"abc"), ABC);
    assert_eq!(
        hex(&digest_of(b"abc")),
        "ba7816bf8f01cfea414140de5dae2223b00361a396177a9cb410ff61f20015ad"
    );
}

#[test]
fn digest_of_nothing() {
    assert_eq!(
        hex(&digest_of(b"")),
        "e3b0c44298fc1c149afbf4c8996fb92427ae41e4649b934ca495991b7852b855"
    );
    assert_eq!(
        hex(&ContentHasher::new().finalize()),
        "e3b0c44298fc1c149afbf4c8996fb92427ae41e4649b934ca495991b7852b855"
    );
    assert_eq!(
        hex(&digest_of_pieces(&Vec::new())),
        "e3b0c44298fc1c149afbf4c8996fb92427ae41e4649b934ca495991b7852b855"
    );
}

#[test]
fn hashing_twice_gives_the_same_digest() {
    let content = b"the quick brown fox".to_vec();
    let first = digest_of(&content);
    let second = digest_of(&content.clone());
    assert_eq!(first, second);
    assert!(same_digest(&first, &second));
}

#[test]
fn differing_content_gives_differing_digests() {
    let first = digest_of(b"hello world");
    let second = digest_of(b"hello worle");
    assert_ne!(first, second);
    assert!(!same_digest(&first, &second));
    assert_eq!(
        hex(&first),
        "b94d27b9934d3e08a52e52d7da7dabfac484efe37a5380ee9088f7ace2efcde9"
    );
}

#[test]
fn pieces_hash_like_the_whole() {
    let mut hasher = ContentHasher::new();
    hasher.update(b"hello");
    hasher.update(b"");
    hasher.update(b" ");
    hasher.update(b"world");
    let streamed = hasher.finalize();
    assert_eq!(streamed, digest_of(b"hello world"));
    let pieces = vec![b"hel".to_vec(), b"lo wor".to_vec(), Vec::new(), b"ld".to_vec()];
    assert_eq!(digest_of_pieces(&pieces), digest_of(b"hello world"));
}

#[test]
fn order_of_pieces_matters() {
    let forward = vec![b"ab".to_vec(), b"c".to_vec()];
    let backward = vec![b"c".to_vec(), b"ab".to_vec()];
    assert_eq!(digest_of_pieces(&forward), ABC);
    assert_ne!(digest_of_pieces(&backward), ABC);
}

#[test]
fn same_digest_looks_at_every_byte() {
    let mut other = ABC;
    assert!(same_digest(&ABC, &other));
    other[31] ^= 1;
    assert!(!same_digest(&ABC, &other));
    let mut other = ABC;
    other[0] ^= 0x80;
    assert!(!same_digest(&ABC, &other));
}
