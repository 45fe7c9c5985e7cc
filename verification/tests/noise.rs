use line_racer::noise::{hash_noise_bits, uhash};

/// The remap a renderer applies to a hash word: a single-precision value
/// in the unit interval.
fn unormf(n: u32) -> f32 {
    n as f32 * (1.0 / 0xffffffffu32 as f32)
}

/// An independent transcription of the hash formula, for cross-checking
/// the library's result word by word.
fn reference_uhash(a: u32, b: u32) -> u32 {
    let mut x = (a.overflowing_mul(1597334673).0) ^ (b.overflowing_mul(3812015801).0);
    x = x ^ (x >> 16);
    x = x.overflowing_mul(0x7feb352d).0;
    x = x ^ (x >> 15);
    x = x.overflowing_mul(0x846ca68b).0;
    x = x ^ (x >> 16);
    x
}

#[test]
fn uhash_matches_reference_formula() {
    let samples: [(u32, u32); 6] = [
        (0, 0),
        (1, 0),
        (0, 1),
        (4, 2048),
        (123456789, 987654321),
        (u32::MAX, u32::MAX),
    ];
    for (a, b) in samples {
        assert_eq!(uhash(a, b), reference_uhash(a, b));
    }
}

#[test]
fn uhash_is_deterministic_across_calls() {
    for a in 0..100u32 {
        let first = uhash(a, 7);
        let second = uhash(a, 7);
        let third = uhash(a, 7);
        assert_eq!(first, second);
        assert_eq!(second, third);
    }
}

#[test]
fn hash_noise_bits_is_deterministic_across_calls() {
    for x in 0..50u32 {
        for c in 1..7u32 {
            assert_eq!(hash_noise_bits(x, c, 0), hash_noise_bits(x, c, 0));
        }
    }
}

#[test]
fn hash_noise_bits_packs_channel_id() {
    // The channel id is (y << 11) + z, hashed against x.
    assert_eq!(hash_noise_bits(9, 3, 5), uhash(9, (3u32 << 11) + 5));
    assert_eq!(hash_noise_bits(0, 0, 0), uhash(0, 0));
}

#[test]
fn hash_noise_channel_ids_alias_past_2048() {
    // (y, z) and (y + 1, z - 2048) pack to the same channel id.
    assert_eq!(hash_noise_bits(7, 1, 2048), hash_noise_bits(7, 2, 0));
}

#[test]
fn unormf_of_hash_stays_in_unit_interval() {
    for x in 0..2000u32 {
        for c in 1..7u32 {
            let v = unormf(hash_noise_bits(x, c, 0));
            assert!((0.0..=1.0).contains(&v));
        }
    }
}

#[test]
fn unormf_endpoints() {
    assert_eq!(unormf(0), 0.0);
    assert!(unormf(u32::MAX / 2) < 1.0);
    // At the very top of the range the single-precision remap rounds up
    // to exactly 1.0: the interval is closed there, not open.
    assert_eq!(unormf(u32::MAX), 1.0);
}

#[test]
fn avalanche_of_adjacent_inputs_is_near_half_the_bits() {
    // Over many adjacent pairs (a, a + 1), a well-avalanched 32-bit hash
    // flips about 16 bits on average; a degenerate hash would flip far
    // fewer.
    let mut total: u64 = 0;
    let pairs: u32 = 10_000;
    for a in 0..pairs {
        let d = uhash(a, 7) ^ uhash(a + 1, 7);
        total += d.count_ones() as u64;
    }
    let average = total as f64 / pairs as f64;
    assert!(average > 15.0, "average hamming distance {average} too low");
    assert!(average < 17.0, "average hamming distance {average} too high");
}
