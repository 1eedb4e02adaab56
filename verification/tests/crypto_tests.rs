use connected_home::crypto::{decode_b64_text, hash_password};

#[test]
fn hash_password_is_deterministic() {
    let salt = "0123456789abcdef";
    let a = hash_password("secret", salt, "pepper");
    let b = hash_password("secret", salt, "pepper");
    assert_eq!(a, b);
    assert!(!a.is_empty());
}

#[test]
fn hash_password_is_not_the_plaintext() {
    let salt = "0123456789abcdef";
    let hash = hash_password("secret", salt, "pepper");
    assert_ne!(hash, "secret");
    // a bcrypt `2y` hash, not a bare digest
    assert!(hash.starts_with("$2y$"));
}

#[test]
fn decode_b64_text_inverts_encoding() {
    let encoded = base64::encode("hello, world");
    assert_eq!(decode_b64_text(&encoded).as_deref(), Some("hello, world"));
    assert_eq!(decode_b64_text("").as_deref(), Some(""));
    assert!(decode_b64_text("!!! not base64 !!!").is_none());
    // valid base64 that is not UTF-8 is rejected, not mangled
    let non_utf8 = base64::encode([0xff, 0xfe, 0x80]);
    assert!(decode_b64_text(&non_utf8).is_none());
}
