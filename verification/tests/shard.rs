use sediment::errors::FilterError;
use sediment::evaluate::evaluate_probe_bytes;
use sediment::header::{read_header, ShardHeader, HEADER_LEN};
use sediment::probe::plan_probes;
use xorf::{BinaryFuse8, Filter};

fn header_bytes(seed: u64, segment_length: u32, mask: u32, segment_count_length: u32) -> Vec<u8> {
    let mut out: Vec<u8> = Vec::new();
    out.extend_from_slice(&seed.to_le_bytes());
    out.extend_from_slice(&segment_length.to_le_bytes());
    out.extend_from_slice(&mask.to_le_bytes());
    out.extend_from_slice(&segment_count_length.to_le_bytes());
    out
}

#[test]
fn header_parses_little_endian_fields() {
    let b = header_bytes(0x0102030405060708, 8, 7, 32);
    let h = read_header(b.as_slice()).unwrap();
    assert_eq!(
        h,
        ShardHeader {
            seed: 0x0102030405060708,
            segment_length: 8,
            segment_length_mask: 7,
            segment_count_length: 32,
        }
    );
    assert_eq!(b.len(), HEADER_LEN);
}

#[test]
fn truncated_header_is_io_error() {
    let b = header_bytes(1, 8, 7, 32);
    assert_eq!(read_header(&b.as_slice()[..19]), Err(FilterError::Io));
    let empty: Vec<u8> = Vec::new();
    assert_eq!(read_header(empty.as_slice()), Err(FilterError::Io));
}

#[test]
fn unaligned_segment_grid_is_format_error() {
    // 33 is not a multiple of 8: the corruption sentinel must trip.
    let b = header_bytes(1, 8, 7, 33);
    assert_eq!(read_header(b.as_slice()), Err(FilterError::Format));
}

#[test]
fn zero_segment_length_is_format_error() {
    let b = header_bytes(1, 0, 0, 32);
    assert_eq!(read_header(b.as_slice()), Err(FilterError::Format));
}

#[test]
fn probe_derivation_matches_filter_library() {
    // Build a real filter, then re-derive membership from its serialized
    // parameters with this crate's mixing, probe and fingerprint functions.
    // Any deviation in the derivation chain would break the agreement below.
    let keys: Vec<u64> = (0..2000u64).map(|i| i.wrapping_mul(0x9e37_79b9_7f4a_7c15)).collect();
    let filter = BinaryFuse8::try_from(keys.as_slice()).expect("filter construction");
    let d = &filter.descriptor;
    let h = ShardHeader {
        seed: d.seed,
        segment_length: d.segment_length,
        segment_length_mask: d.segment_length_mask,
        segment_count_length: d.segment_count_length,
    };
    let body: &[u8] = &filter.fingerprints;
    let mut probe_contains = |key: u64| -> bool {
        let q = plan_probes(key, &h);
        let b0 = body[q.h0 as usize];
        let b1 = body[q.h1 as usize];
        let b2 = body[q.h2 as usize];
        !evaluate_probe_bytes(q.fingerprint, b0, b1, b2)
    };
    for key in keys.iter() {
        assert!(probe_contains(*key));
    }
    for i in 0..20_000u64 {
        let key = i.wrapping_mul(0xd134_2543_de82_ef95).wrapping_add(99);
        assert_eq!(probe_contains(key), filter.contains(&key));
    }
}

#[test]
fn probe_offsets_stay_in_window() {
    let h = ShardHeader { seed: 7, segment_length: 16, segment_length_mask: 15, segment_count_length: 64 };
    let window: u32 = h.segment_count_length + 2 * h.segment_length;
    for i in 0..10_000u64 {
        let key = i.wrapping_mul(0x9e37_79b9_7f4a_7c15);
        let q = plan_probes(key, &h);
        assert!(q.h0 < h.segment_count_length);
        assert!(q.h1 < window);
        assert!(q.h2 < window);
    }
}

#[test]
fn combined_fingerprint_decides_verdict() {
    // A zero combination means "present", so the secret is rejected.
    assert!(!evaluate_probe_bytes(0x5a, 0x5a, 0x00, 0x00));
    assert!(!evaluate_probe_bytes(0x5a, 0x12, 0x34, 0x7c));
    assert!(evaluate_probe_bytes(0x5a, 0x5a, 0x00, 0x01));
    assert!(evaluate_probe_bytes(0x01, 0x00, 0x00, 0x00));
}

#[test]
fn every_error_rejects() {
    for e in [FilterError::Config, FilterError::Io, FilterError::Format, FilterError::Encoding] {
        assert!(!e.fail_closed_verdict());
    }
}
