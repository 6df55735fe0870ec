//! The query pipeline: screen the secret, derive the key, read the header,
//! plan the probes, evaluate the verdict.
//!
//! The pipeline is split so that the caller can keep I/O outside: screening
//! and key derivation need no shard, and the evaluator works on bytes the
//! caller read. `check_secret_against_shard` runs the whole pipeline against
//! an in-memory shard.

use vstd::prelude::*;
use vstd::slice::slice_subrange;
use vstd::string::StrSliceExecFns;
use crate::errors::FilterError;
use crate::evaluate::{evaluate_in_body, spec_allow_in_body, spec_combine};
use crate::header::{read_header, spec_parse_header, HEADER_LEN};
use crate::keyderive::{derive_shard_key, spec_key, spec_shard_id, wipe_string};
use crate::probe::{fuse_geometry, lemma_probe_offsets_bounded, plan_probes, spec_probe_query};

verus! {

/// What screening a secret decides: reject outright, or look the key up in a
/// shard.
#[derive(Debug, PartialEq, Eq)]
pub enum ScreenOutcome {
    /// The secret is too short to consult any shard: reject with zero reads.
    RejectEarly,
    /// Consult the named shard with the derived 64-bit lookup key.
    Lookup(String, u64),
}

/// Screens a secret: a secret of at most one character is rejected with no
/// shard lookup at all; otherwise the shard identifier and lookup key are
/// derived, and the secret is wiped.
pub fn screen_secret(secret: String) -> (r: ScreenOutcome)
    ensures
        secret@.len() <= 1 ==> r == ScreenOutcome::RejectEarly,
        secret@.len() > 1 ==> (r matches ScreenOutcome::Lookup(id, key) && id@ == spec_shard_id(
            secret@,
        ) && key == spec_key(secret@)),
{
    let mut secret = secret;
    if secret.as_str().unicode_len() <= 1 {
        wipe_string(&mut secret);
        return ScreenOutcome::RejectEarly;
    }
    let (id, key) = derive_shard_key(secret);
    ScreenOutcome::Lookup(id, key)
}

/// The verdict of the whole pipeline on a secret and the raw bytes of a
/// shard (header and body): short secrets, truncated shards and corrupt
/// headers reject; otherwise the probe plan is evaluated against the body.
pub open spec fn spec_verdict(secret: Seq<char>, shard: Seq<u8>) -> bool {
    if secret.len() <= 1 {
        false
    } else if shard.len() < 20 {
        false
    } else if !spec_parse_header(shard).valid() {
        false
    } else {
        spec_allow_in_body(
            shard.skip(20),
            spec_probe_query(spec_key(secret), spec_parse_header(shard)),
        )
    }
}

/// Runs one query against an in-memory shard. Returns `true` to allow the
/// secret, `false` to reject it; every failure rejects.
pub fn check_secret_against_shard(secret: String, shard: &[u8]) -> (allow: bool)
    ensures
        allow == spec_verdict(secret@, shard@),
{
    let mut secret = secret;
    if secret.as_str().unicode_len() <= 1 {
        wipe_string(&mut secret);
        return false;
    }
    let (_shard_id, key) = derive_shard_key(secret);
    match read_header(shard) {
        Err(e) => e.fail_closed_verdict(),
        Ok(h) => {
            let q = plan_probes(key, &h);
            let body = slice_subrange(shard, HEADER_LEN, shard.len());
            evaluate_in_body(body, &q)
        },
    }
}

/// A key is recorded in a shard when its three probe slots exist in the body
/// and xor, together with the fingerprint, to zero. A binary-fuse builder
/// establishes exactly this for every key it was constructed from.
pub open spec fn spec_key_recorded(key: u64, shard: Seq<u8>) -> bool {
    &&& shard.len() >= 20
    &&& {
        let q = spec_probe_query(key, spec_parse_header(shard));
        let body = shard.skip(20);
        &&& q.h0 < body.len()
        &&& q.h1 < body.len()
        &&& q.h2 < body.len()
        &&& spec_combine(
            q.fingerprint,
            body[q.h0 as int],
            body[q.h1 as int],
            body[q.h2 as int],
        ) == 0
    }
}

/// Law (no false negatives): a secret whose derived key is recorded in the
/// shard is always rejected, never allowed.
pub proof fn lemma_no_false_negatives(secret: Seq<char>, shard: Seq<u8>)
    requires
        spec_key_recorded(spec_key(secret), shard),
    ensures
        !spec_verdict(secret, shard),
{
}

/// Law (corruption sentinel): a header that breaks the segment invariant
/// forces a reject for every secret, regardless of the key.
pub proof fn lemma_corrupt_shard_rejects(secret: Seq<char>, shard: Seq<u8>)
    requires
        shard.len() >= 20,
        !spec_parse_header(shard).valid(),
    ensures
        !spec_verdict(secret, shard),
{
}

/// Law (short-circuit): the empty secret and any single-character secret are
/// rejected whatever the shard holds.
pub proof fn lemma_short_secret_rejects(secret: Seq<char>, shard: Seq<u8>)
    requires
        secret.len() <= 1,
    ensures
        !spec_verdict(secret, shard),
{
}

/// Law (reads always succeed on well-built shards): for a fuse-geometry
/// header and a body that covers the segment grid and its two overlapping
/// windows, every probe lands inside the body, so the verdict of a screened
/// secret is decided by the fingerprint combination alone and never by a
/// failed read.
pub proof fn lemma_probes_hit_body(secret: Seq<char>, shard: Seq<u8>)
    requires
        secret.len() > 1,
        shard.len() >= 20,
        fuse_geometry(spec_parse_header(shard)),
        shard.len() - 20 >= spec_parse_header(shard).segment_count_length + 2 * spec_parse_header(
            shard,
        ).segment_length,
    ensures
        spec_verdict(secret, shard) == (spec_combine(
            spec_probe_query(spec_key(secret), spec_parse_header(shard)).fingerprint,
            shard.skip(20)[spec_probe_query(spec_key(secret), spec_parse_header(shard)).h0 as int],
            shard.skip(20)[spec_probe_query(spec_key(secret), spec_parse_header(shard)).h1 as int],
            shard.skip(20)[spec_probe_query(spec_key(secret), spec_parse_header(shard)).h2 as int],
        ) != 0),
{
    lemma_probe_offsets_bounded(spec_key(secret), spec_parse_header(shard));
}

/// Law (idempotence): the verdict is a function of the secret and the shard
/// bytes alone — evaluating an unmodified shard again yields the same
/// verdict.
pub proof fn lemma_verdict_idempotent(secret: Seq<char>, first: Seq<u8>, second: Seq<u8>)
    requires
        first == second,
    ensures
        spec_verdict(secret, first) == spec_verdict(secret, second),
{
}

} // verus!
