use checklints::hashing::{fingerprint_bytes, hash_bytes, ContentHasher};

#[test]
fn hash_is_deterministic() {
    let a = hash_bytes(b"some bytes");
    let b = hash_bytes(b"some bytes");
    assert_eq!(a, b);
    assert_eq!(a.len(), 64);
}

#[test]
fn hash_differs_for_different_bytes() {
    assert_ne!(hash_bytes(b"hello"), hash_bytes(b"hello!"));
}

#[test]
fn hash_of_empty_input() {
    assert_eq!(
        hash_bytes(b""),
        "af1349b9f5f9a1a6a0404dea36dcc9499bcb25c9adc112b7cc9a93cae41f3262"
    );
}

#[test]
fn streaming_matches_one_shot() {
    let mut h = ContentHasher::new();
    h.update(b"hello ");
    h.update(b"");
    h.update(b"world");
    assert_eq!(h.finalize(), hash_bytes(b"hello world"));
}

#[test]
fn fingerprint_is_url_safe_base64() {
    let f = fingerprint_bytes(b"abc");
    assert_eq!(f.len(), 43);
    assert!(f.chars().all(|c| c.is_ascii_alphanumeric() || c == '-' || c == '_'));
    assert_ne!(f, fingerprint_bytes(b"abd"));
}

#[test]
fn hex_text_is_lowercase_pairs() {
    assert_eq!(checklints::hashing::hex_text(&[0x00, 0xab, 0x7f, 0xff]), "00ab7fff");
    assert_eq!(checklints::hashing::hex_text(&[]), "");
}
