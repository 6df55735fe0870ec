//! The membership evaluator: combines the fingerprint with the three probed
//! body bytes and renders the verdict.
//!
//! A combined value of zero means the key is judged present in the
//! compromised set, so the verdict is reject (`false`). A probe that would
//! fall outside the body is a failed read, and the query is rejected
//! fail-closed.

use vstd::prelude::*;
use crate::probe::ProbeQuery;

verus! {

/// The combined fingerprint test: the expected fingerprint xored with the
/// three probed body bytes.
pub open spec fn spec_combine(fingerprint: u8, b0: u8, b1: u8, b2: u8) -> u8 {
    fingerprint ^ b0 ^ b1 ^ b2
}

/// Combines the expected fingerprint with three probed bytes; the secret is
/// allowed exactly when the combination is non-zero (judged absent).
pub fn evaluate_probe_bytes(fingerprint: u8, b0: u8, b1: u8, b2: u8) -> (allow: bool)
    ensures
        allow == (spec_combine(fingerprint, b0, b1, b2) != 0),
{
    (fingerprint ^ b0 ^ b1 ^ b2) != 0
}

/// The verdict of a probe plan against an in-memory shard body: allow only
/// when all three probes land inside the body and their combination is
/// non-zero; any out-of-range probe is a failed read and rejects.
pub open spec fn spec_allow_in_body(body: Seq<u8>, q: ProbeQuery) -> bool {
    &&& q.h0 < body.len()
    &&& q.h1 < body.len()
    &&& q.h2 < body.len()
    &&& spec_combine(q.fingerprint, body[q.h0 as int], body[q.h1 as int], body[q.h2 as int]) != 0
}

/// Evaluates a probe plan against an in-memory shard body.
pub fn evaluate_in_body(body: &[u8], q: &ProbeQuery) -> (allow: bool)
    ensures
        allow == spec_allow_in_body(body@, *q),
{
    let n = body.len();
    if (q.h0 as usize) >= n || (q.h1 as usize) >= n || (q.h2 as usize) >= n {
        return false;
    }
    let b0 = body[q.h0 as usize];
    let b1 = body[q.h1 as usize];
    let b2 = body[q.h2 as usize];
    evaluate_probe_bytes(q.fingerprint, b0, b1, b2)
}

} // verus!
