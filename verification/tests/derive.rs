use sediment::hex::to_upper_hex;
use sediment::keyderive::derive_shard_key;
use sha1::{Digest, Sha1};
use std::collections::hash_map::DefaultHasher;
use std::hash::{Hash, Hasher};

fn sha1_hex_upper(data: &[u8]) -> String {
    let digest = Sha1::digest(data);
    let mut out = String::new();
    for b in digest.as_slice() {
        out.push_str(&format!("{:02X}", b));
    }
    out
}

#[test]
fn derivation_is_deterministic() {
    let secret = "correct horse battery staple";
    let (id_a, key_a) = derive_shard_key(String::from(secret));
    let (id_b, key_b) = derive_shard_key(String::from(secret));
    assert_eq!(id_a, id_b);
    assert_eq!(key_a, key_b);
}

#[test]
fn derivation_matches_reference_hashes() {
    let secret = "car1234";
    let (id, key) = derive_shard_key(String::from(secret));

    let hex = sha1_hex_upper(secret.as_bytes());
    assert_eq!(id, hex[..2].to_string());

    let mut hasher = DefaultHasher::new();
    hex.hash(&mut hasher);
    assert_eq!(key, hasher.finish());
}

#[test]
fn shard_id_is_two_uppercase_hex_chars() {
    let (id, _key) = derive_shard_key(String::from("RustySediments"));
    assert_eq!(id.len(), 2);
    for c in id.chars() {
        assert!(c.is_ascii_hexdigit());
        assert!(!c.is_ascii_lowercase());
    }
}

#[test]
fn hex_rendering_exact() {
    let bytes: Vec<u8> = vec![0x00, 0x1a, 0xff, 0x42];
    assert_eq!(to_upper_hex(bytes.as_slice()), "001AFF42");
    let empty: Vec<u8> = Vec::new();
    assert_eq!(to_upper_hex(empty.as_slice()), "");
}

#[test]
fn digest_rendering_matches_known_vector() {
    // SHA-1 of "abc" is the classic test vector.
    let hex = sha1_hex_upper(b"abc");
    assert_eq!(hex, "A9993E364706816ABA3E25717850C26C9CD0D89D");
    let (id, _key) = derive_shard_key(String::from("abc"));
    assert_eq!(id, "A9");
}
