//! The key deriver: turns a candidate secret into a shard identifier and a
//! 64-bit lookup key.
//!
//! The secret's SHA-1 digest is rendered as a 40-character uppercase hex
//! string; the first two characters name the shard, and the full hex string is
//! fed to a second, non-cryptographic 64-bit hash to produce the lookup key.
//! The secret and the hex string are wiped before the deriver returns.

use vstd::prelude::*;
use vstd::string::StringExecFns;
use vstd::std_specs::hash::DefaultHasherAdditionalSpecFns;
use std::collections::hash_map::DefaultHasher;
use std::hash::Hasher;
use sha1::{Digest, Sha1};
use zeroize::Zeroize;
use crate::hex::{hex_chars_of, hex_digit_str, lemma_hex_chars_ascii, to_upper_hex};

verus! {

/// The 20-byte SHA-1 digest of a secret. The digest itself is a function of
/// the input alone; it is named here rather than restated.
pub uninterp spec fn sha1_of(secret: Seq<char>) -> Seq<u8>;

/// Relies on `sha1::Sha1` (`Digest::digest`): returns the SHA-1 digest of the
/// input bytes, 20 bytes long and a function of the input alone.
#[verifier::external_body]
fn sha1_digest(secret: &str) -> (r: Vec<u8>)
    ensures
        r@ == sha1_of(secret@),
        r@.len() == 20,
{
    Sha1::digest(secret.as_bytes()).to_vec()
}

/// Relies on `zeroize::Zeroize` for `String`: overwrites the buffer in place
/// and clears the string, so secret material does not outlive the call.
#[verifier::external_body]
pub(crate) fn wipe_string(s: &mut String)
    ensures
        final(s)@.len() == 0,
{
    s.zeroize()
}

/// The 64-bit lookup key for an ASCII rendering: std's `DefaultHasher` run
/// over the string's bytes followed by the `0xff` marker that string hashing
/// appends.
pub open spec fn spec_lookup_key(hex: Seq<char>) -> u64 {
    DefaultHasher::spec_finish(seq![Seq::new(hex.len(), |i: int| hex[i] as u8), seq![0xffu8]])
}

/// Hashes an ASCII string with std's `DefaultHasher`, the way string hashing
/// feeds it: the bytes, then a `0xff` terminator.
fn lookup_key(hex: &String) -> (k: u64)
    requires
        vstd::utf8::is_ascii_chars(hex@),
    ensures
        k == spec_lookup_key(hex@),
{
    let mut hasher = DefaultHasher::new();
    let s = hex.as_str();
    let bytes = s.as_bytes();
    proof {
        vstd::string::is_ascii_spec_bytes(s);
        assert(bytes@ =~= Seq::new(hex@.len(), |i: int| hex@[i] as u8));
    }
    hasher.write(bytes);
    let mut marker: Vec<u8> = Vec::new();
    marker.push(0xff);
    hasher.write(marker.as_slice());
    proof {
        assert(marker@ =~= seq![0xffu8]);
        assert(hasher@ =~= seq![
            Seq::new(hex@.len(), |i: int| hex@[i] as u8),
            seq![0xffu8],
        ]);
    }
    hasher.finish()
}

/// The shard identifier derived from a secret: the first two characters of
/// the uppercase hex rendering of its digest.
pub open spec fn spec_shard_id(secret: Seq<char>) -> Seq<char> {
    hex_chars_of(sha1_of(secret)).take(2)
}

/// The lookup key derived from a secret: the hex rendering of its digest,
/// hashed down to 64 bits.
pub open spec fn spec_key(secret: Seq<char>) -> u64 {
    spec_lookup_key(hex_chars_of(sha1_of(secret)))
}

/// Consumes the secret and derives the shard identifier and lookup key.
/// The secret and the intermediate hex string are wiped before returning.
pub fn derive_shard_key(secret: String) -> (r: (String, u64))
    ensures
        r.0@ == spec_shard_id(secret@),
        r.1 == spec_key(secret@),
{
    let ghost secret_chars = secret@;
    let mut secret = secret;
    let digest = sha1_digest(secret.as_str());
    wipe_string(&mut secret);
    let mut hexs = to_upper_hex(digest.as_slice());
    proof {
        lemma_hex_chars_ascii(digest@);
    }
    let key = lookup_key(&hexs);
    wipe_string(&mut hexs);
    let b0 = digest[0];
    let hi = b0 >> 4;
    let lo = b0 & 0x0f;
    proof {
        assert(b0 >> 4 == b0 / 16 && b0 & 0x0f == b0 % 16 && b0 / 16 < 16 && b0 % 16 < 16)
            by (bit_vector);
    }
    let mut sid = String::new();
    sid.append(hex_digit_str(hi));
    sid.append(hex_digit_str(lo));
    proof {
        assert(sid@ =~= spec_shard_id(secret_chars));
    }
    (sid, key)
}

/// Law (determinism): key derivation depends on the secret alone — two
/// invocations on equal secrets yield the same shard identifier and key.
pub proof fn lemma_derivation_deterministic(s1: Seq<char>, s2: Seq<char>)
    requires
        s1 == s2,
    ensures
        spec_shard_id(s1) == spec_shard_id(s2),
        spec_key(s1) == spec_key(s2),
{
}

} // verus!
