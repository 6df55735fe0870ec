//! The shard header reader: parses the fixed 20-byte binary header of a shard
//! and checks the corruption sentinel.
//!
//! Layout, little-endian: seed (8 bytes), segment length (4), segment length
//! mask (4), segment count length (4). The body of `segment_count_length`
//! fingerprint bytes follows immediately after.

use vstd::prelude::*;
use vstd::bytes::{spec_u32_from_le_bytes, spec_u64_from_le_bytes, u32_from_le_bytes, u64_from_le_bytes};
use vstd::slice::slice_subrange;
use crate::errors::FilterError;

verus! {

/// Number of bytes in a shard header.
pub const HEADER_LEN: usize = 20;

/// The filter construction parameters recovered from a shard's header.
#[derive(Clone, Copy, Debug, PartialEq, Eq, Structural)]
pub struct ShardHeader {
    /// Seed mixed into the lookup key before probe derivation.
    pub seed: u64,
    /// Length of one segment of the fingerprint grid.
    pub segment_length: u32,
    /// Mask selecting an offset within one segment.
    pub segment_length_mask: u32,
    /// Combined length of all segments.
    pub segment_count_length: u32,
}

impl ShardHeader {
    /// The corruption sentinel: the segment grid must be non-degenerate, with
    /// the combined segment length an exact multiple of the segment length.
    /// A header that breaks this is treated as corrupt and fails every query.
    pub open spec fn valid(self) -> bool {
        self.segment_length > 0 && self.segment_count_length % self.segment_length == 0
    }
}

/// The header encoded in the first 20 bytes of a shard.
pub open spec fn spec_parse_header(b: Seq<u8>) -> ShardHeader
    recommends
        b.len() >= 20,
{
    ShardHeader {
        seed: spec_u64_from_le_bytes(b.subrange(0, 8)),
        segment_length: spec_u32_from_le_bytes(b.subrange(8, 12)),
        segment_length_mask: spec_u32_from_le_bytes(b.subrange(12, 16)),
        segment_count_length: spec_u32_from_le_bytes(b.subrange(16, 20)),
    }
}

/// Reads the four little-endian header fields from the start of a shard's
/// bytes. Fewer than 20 bytes is a truncated shard (`Io`); a parsed header
/// that breaks the segment invariant is a corrupt shard (`Format`).
pub fn read_header(b: &[u8]) -> (r: Result<ShardHeader, FilterError>)
    ensures
        b@.len() < 20 ==> r == Err::<ShardHeader, FilterError>(FilterError::Io),
        b@.len() >= 20 && spec_parse_header(b@).valid() ==> r == Ok::<ShardHeader, FilterError>(
            spec_parse_header(b@),
        ),
        b@.len() >= 20 && !spec_parse_header(b@).valid() ==> r == Err::<ShardHeader, FilterError>(
            FilterError::Format,
        ),
{
    if b.len() < HEADER_LEN {
        return Err(FilterError::Io);
    }
    let seed = u64_from_le_bytes(slice_subrange(b, 0, 8));
    let segment_length = u32_from_le_bytes(slice_subrange(b, 8, 12));
    let segment_length_mask = u32_from_le_bytes(slice_subrange(b, 12, 16));
    let segment_count_length = u32_from_le_bytes(slice_subrange(b, 16, 20));
    if segment_length == 0 || segment_count_length % segment_length != 0 {
        return Err(FilterError::Format);
    }
    Ok(ShardHeader { seed, segment_length, segment_length_mask, segment_count_length })
}

} // verus!
