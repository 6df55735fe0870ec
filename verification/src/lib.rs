//! A sharded probabilistic membership engine for screening candidate secrets
//! against a large precomputed set of known-compromised passwords.
//!
//! A query derives a shard identifier and a 64-bit lookup key from the secret,
//! parses the fixed binary header of the selected shard, computes three probe
//! offsets and a fingerprint byte, and combines three body bytes into an
//! allow/reject verdict. The engine never writes shard data, and every failure
//! collapses to a reject (fail-closed).

pub mod errors;
pub mod hex;
pub mod keyderive;
pub mod header;
pub mod probe;
pub mod evaluate;
pub mod engine;
pub mod init;
