//! The probe index mapper: derives three byte offsets and a fingerprint byte
//! from the lookup key and the header parameters.
//!
//! The lookup key is mixed with the shard's seed through a fixed avalanche
//! function. The low byte of the folded mixed value is the fingerprint. The
//! mixed value is scaled onto the segment grid to a base offset, and the two
//! further offsets land in the two following overlapping segment windows.

use vstd::prelude::*;
use vstd::arithmetic::div_mod::lemma_multiply_divide_lt;
use vstd::arithmetic::mul::{lemma_mul_strict_inequality, lemma_mul_upper_bound};
use vstd::arithmetic::power2::lemma2_to64;
use vstd::bits::lemma_u128_shr_is_div;
use vstd::wrapping::{u32_specs, u64_specs};
use crate::header::ShardHeader;

verus! {

/// One 64-bit avalanche round (a murmur-style finalizer): xor-shift and
/// wrapping multiplication steps that diffuse every input bit.
pub open spec fn spec_mix64(k: u64) -> u64 {
    let a = k ^ (k >> 33);
    let b = u64_specs::wrapping_mul(a, 0xff51_afd7_ed55_8ccdu64);
    let c = b ^ (b >> 33);
    let d = u64_specs::wrapping_mul(c, 0xc4ce_b9fe_1a85_ec53u64);
    d ^ (d >> 33)
}

/// The mixed value: the lookup key offset by the shard's seed, avalanched.
pub open spec fn spec_mixed(key: u64, seed: u64) -> u64 {
    spec_mix64(u64_specs::wrapping_add(key, seed))
}

/// The fingerprint byte: the high half of the mixed value folded into the low
/// half, truncated to 8 bits.
pub open spec fn spec_fingerprint(mixed: u64) -> u8 {
    ((mixed ^ (mixed >> 32)) & 0xff) as u8
}

/// The base probe offset: the mixed value scaled onto the segment grid via
/// the high 64 bits of the 128-bit product with the grid length.
pub open spec fn spec_h0(mixed: u64, segment_count_length: u32) -> u32 {
    (((mixed as int) * (segment_count_length as int)) / 0x1_0000_0000_0000_0000) as u32
}

/// The low 32 bits of the mixed value shifted right by `shift`.
pub open spec fn spec_low32(mixed: u64, shift: u64) -> u32 {
    (((mixed >> shift) & 0xffff_ffff) as u32)
}

/// The second probe offset: one segment past the base, perturbed within the
/// segment window by masked bits of the mixed value.
pub open spec fn spec_h1(mixed: u64, h: ShardHeader) -> u32 {
    u32_specs::wrapping_add(spec_h0(mixed, h.segment_count_length), h.segment_length) ^ (
    spec_low32(mixed, 18) & h.segment_length_mask)
}

/// The third probe offset: two segments past the base, perturbed within the
/// segment window by the low masked bits of the mixed value.
pub open spec fn spec_h2(mixed: u64, h: ShardHeader) -> u32 {
    u32_specs::wrapping_add(
        u32_specs::wrapping_add(spec_h0(mixed, h.segment_count_length), h.segment_length),
        h.segment_length,
    ) ^ (spec_low32(mixed, 0) & h.segment_length_mask)
}

/// The ephemeral, per-query probe plan: three byte offsets into the shard
/// body and the expected fingerprint byte.
#[derive(Clone, Copy, Debug, PartialEq, Eq, Structural)]
pub struct ProbeQuery {
    /// Base probe offset.
    pub h0: u32,
    /// Second probe offset.
    pub h1: u32,
    /// Third probe offset.
    pub h2: u32,
    /// Expected fingerprint byte.
    pub fingerprint: u8,
}

/// The full probe plan for a key against a header.
pub open spec fn spec_probe_query(key: u64, h: ShardHeader) -> ProbeQuery {
    let mixed = spec_mixed(key, h.seed);
    ProbeQuery {
        h0: spec_h0(mixed, h.segment_count_length),
        h1: spec_h1(mixed, h),
        h2: spec_h2(mixed, h),
        fingerprint: spec_fingerprint(mixed),
    }
}

/// The avalanche round, executable.
pub fn mix64(k: u64) -> (r: u64)
    ensures
        r == spec_mix64(k),
{
    let a = k ^ (k >> 33);
    let b = a.wrapping_mul(0xff51_afd7_ed55_8ccd);
    let c = b ^ (b >> 33);
    let d = c.wrapping_mul(0xc4ce_b9fe_1a85_ec53);
    d ^ (d >> 33)
}

/// Mixes the lookup key with the shard's seed.
pub fn mix(key: u64, seed: u64) -> (r: u64)
    ensures
        r == spec_mixed(key, seed),
{
    mix64(key.wrapping_add(seed))
}

/// The base offset scales the mixed value onto `[0, segment_count_length)`;
/// the scaled product divided by 2^64 stays under the grid length.
proof fn lemma_mulhi_lt(mixed: u64, segment_count_length: u32)
    requires
        segment_count_length >= 1,
    ensures
        0 <= (mixed as int) * (segment_count_length as int) / 0x1_0000_0000_0000_0000
            < segment_count_length,
{
    let m = mixed as int;
    let n = segment_count_length as int;
    lemma_mul_upper_bound(m, 0xffff_ffff_ffff_ffff, n, 0xffff_ffff);
    lemma_mul_strict_inequality(m, 0x1_0000_0000_0000_0000, n);
    assert(n * m == m * n) by (nonlinear_arith);
    assert(n * 0x1_0000_0000_0000_0000 == 0x1_0000_0000_0000_0000 * n) by (nonlinear_arith);
    lemma_multiply_divide_lt(m * n, 0x1_0000_0000_0000_0000, n);
    vstd::arithmetic::div_mod::lemma_div_pos_is_pos(m * n, 0x1_0000_0000_0000_0000);
    vstd::arithmetic::mul::lemma_mul_nonnegative(m, n);
}

/// Derives the probe plan for a lookup key against a shard header.
pub fn plan_probes(key: u64, h: &ShardHeader) -> (q: ProbeQuery)
    ensures
        q == spec_probe_query(key, *h),
{
    let mixed = mix(key, h.seed);
    proof {
        lemma_mul_upper_bound(
            mixed as int,
            0xffff_ffff_ffff_ffff,
            h.segment_count_length as int,
            0xffff_ffff,
        );
    }
    let product: u128 = (mixed as u128) * (h.segment_count_length as u128);
    proof {
        lemma_u128_shr_is_div(product, 64);
        lemma2_to64();
        if h.segment_count_length >= 1 {
            lemma_mulhi_lt(mixed, h.segment_count_length);
        }
    }
    let h0 = (product >> 64) as u32;
    let base1 = h0.wrapping_add(h.segment_length);
    let base2 = base1.wrapping_add(h.segment_length);
    let w18 = ((mixed >> 18) & 0xffff_ffff) as u32;
    let wlow = (mixed & 0xffff_ffff) as u32;
    proof {
        assert((mixed >> 18) & 0xffff_ffff <= 0xffff_ffff && mixed & 0xffff_ffff <= 0xffff_ffff
            && (mixed ^ (mixed >> 32)) & 0xff <= 0xff) by (bit_vector);
        assert(mixed >> 0u64 == mixed) by (bit_vector);
    }
    let h1 = base1 ^ (w18 & h.segment_length_mask);
    let h2 = base2 ^ (wlow & h.segment_length_mask);
    let fingerprint = ((mixed ^ (mixed >> 32)) & 0xff) as u8;
    ProbeQuery { h0, h1, h2, fingerprint }
}

/// Law (base offset bound): for any header with a non-empty fingerprint grid
/// and any 64-bit key, the base probe offset lands in
/// `[0, segment_count_length)`.
pub proof fn lemma_base_offset_bounded(key: u64, h: ShardHeader)
    requires
        h.segment_count_length >= 1,
    ensures
        spec_probe_query(key, h).h0 < h.segment_count_length,
{
    lemma_mulhi_lt(spec_mixed(key, h.seed), h.segment_count_length);
}

/// The geometry a binary-fuse builder gives a shard: power-of-two segments,
/// the mask selecting an offset within one segment, a segment-aligned grid,
/// and room for the two overlapping windows past the grid.
pub open spec fn fuse_geometry(h: ShardHeader) -> bool {
    &&& h.valid()
    &&& h.segment_count_length >= 1
    &&& (h.segment_length & (h.segment_length - 1) as u32) == 0
    &&& h.segment_length_mask == (h.segment_length - 1) as u32
    &&& h.segment_count_length as int + 2 * (h.segment_length as int) <= 0x1_0000_0000
}

/// Law (offset bounds): for a fuse-geometry header and any 64-bit key, the
/// base probe offset lands in `[0, segment_count_length)` and the two window
/// probes land in `[0, segment_count_length + 2 * segment_length)`, the span
/// of the fingerprint grid together with its two overlapping windows.
pub proof fn lemma_probe_offsets_bounded(key: u64, h: ShardHeader)
    requires
        fuse_geometry(h),
    ensures
        spec_probe_query(key, h).h0 < h.segment_count_length,
        spec_probe_query(key, h).h1 < h.segment_count_length + 2 * h.segment_length,
        spec_probe_query(key, h).h2 < h.segment_count_length + 2 * h.segment_length,
{
    let mixed = spec_mixed(key, h.seed);
    let scl = h.segment_count_length;
    let sl = h.segment_length;
    let mask = h.segment_length_mask;
    lemma_mulhi_lt(mixed, scl);
    let h0 = spec_h0(mixed, scl);
    let b1 = spec_low32(mixed, 18) & mask;
    let b2 = spec_low32(mixed, 0) & mask;
    assert(u32_specs::wrapping_add(h0, sl) == (h0 + sl) as u32);
    assert(u32_specs::wrapping_add((h0 + sl) as u32, sl) == (h0 + 2 * sl) as u32);
    let s1 = (h0 + sl) as u32;
    let s2 = (h0 + 2 * sl) as u32;
    assert(b1 <= mask && b2 <= mask) by (bit_vector)
        requires
            b1 == spec_low32(mixed, 18) & mask,
            b2 == spec_low32(mixed, 0) & mask,
    ;
    assert(((s1 ^ b1) as u64) < (scl as u64) + 2 * (sl as u64) && ((s2 ^ b2) as u64) < (scl as u64)
        + 2 * (sl as u64)) by (bit_vector)
        requires
            h0 < scl,
            sl >= 1,
            (sl & (sl - 1) as u32) == 0,
            scl % sl == 0,
            (scl as u64) + 2 * (sl as u64) <= 0x1_0000_0000u64,
            b1 <= (sl - 1) as u32,
            b2 <= (sl - 1) as u32,
            (s1 as u64) == (h0 as u64) + (sl as u64),
            (s2 as u64) == (h0 as u64) + 2 * (sl as u64),
    ;
}

} // verus!
